use crate::error::Error;
use crate::handle::{lookup, resolve, Handle};
use crate::host::{
    call_outcome, settlement_of, Behavior, Host, HostFn, HostObject, Settlement, Slot, Token,
    TokenState,
};
use crate::value::{Signature, TypeTag, Value};
use vstd::prelude::*;

verus! {

/// One member of an aggregate batch: a handle and the argument to pass it.
#[derive(Debug, PartialEq, Eq)]
pub struct Call {
    pub handle: Handle,
    pub arg: Value,
}

/// The result a foreign call delivers to the native caller: the resolved
/// value when the host resolves with the declared return type, and otherwise
/// the error — invocation, conversion or rejection — that the call ran into.
pub open spec fn foreign_result(f: HostFn, arg: Value) -> Result<Value, Error> {
    match call_outcome(f, arg) {
        Err(e) => Err(e),
        Ok(s) => match s {
            Settlement::Resolve(v) => if v.tag_spec() == f.sig.ret {
                Ok(v)
            } else {
                Err(Error::Conversion { wanted: f.sig.ret, got: v })
            },
            Settlement::Reject(p) => Err(Error::Rejection { payload: p }),
        },
    }
}

/// Host event-loop time a single call keeps its caller suspended: none when
/// the invocation throws synchronously (no token exists), otherwise the
/// callable's settlement latency.
pub open spec fn token_latency(f: HostFn) -> int {
    if f.behavior is ThrowSync {
        0
    } else {
        f.latency as int
    }
}

/// Host time a batch takes when every member is invoked before any is
/// awaited: the tokens run concurrently, so only the largest single latency
/// is paid.
pub open spec fn eager_elapsed(calls: Seq<Call>) -> int
    decreases calls.len(),
{
    if calls.len() == 0 {
        0
    } else {
        let rest = eager_elapsed(calls.drop_last());
        let last = token_latency(calls.last().handle.target);
        if last >= rest {
            last
        } else {
            rest
        }
    }
}

/// Host time the same batch takes when each member is awaited before the next
/// is invoked: the latencies add up.
pub open spec fn serial_elapsed(calls: Seq<Call>) -> int
    decreases calls.len(),
{
    if calls.len() == 0 {
        0
    } else {
        serial_elapsed(calls.drop_last()) + token_latency(calls.last().handle.target)
    }
}

/// The error of the first member, by position, whose foreign call fails;
/// `None` when every member succeeds.
pub open spec fn first_failure(calls: Seq<Call>) -> Option<Error>
    decreases calls.len(),
{
    if calls.len() == 0 {
        None
    } else {
        match first_failure(calls.drop_last()) {
            Some(e) => Some(e),
            None => match foreign_result(calls.last().handle.target, calls.last().arg) {
                Err(e) => Some(e),
                Ok(_) => None,
            },
        }
    }
}

/// The position of the first failing member; meaningful only when some member
/// fails.
pub open spec fn first_failure_position(calls: Seq<Call>) -> int
    decreases calls.len(),
{
    if calls.len() == 0 {
        0
    } else if first_failure(calls.drop_last()) is Some {
        first_failure_position(calls.drop_last())
    } else {
        calls.len() - 1
    }
}

/// Elapsed batch times are never negative, and a batch of eagerly-issued
/// calls never takes longer than awaiting the same calls one after another:
/// the largest latency is at most the sum.
pub proof fn lemma_eager_no_slower_than_serial(calls: Seq<Call>)
    ensures
        0 <= eager_elapsed(calls),
        eager_elapsed(calls) <= serial_elapsed(calls),
    decreases calls.len(),
{
    if calls.len() > 0 {
        lemma_eager_no_slower_than_serial(calls.drop_last());
    }
}

/// When the host resolves a call with a value of the declared return type,
/// the native caller receives exactly that value, unchanged.
pub proof fn lemma_resolved_value_returned(f: HostFn, arg: Value, v: Value)
    requires
        !(f.behavior is ThrowSync),
        settlement_of(f.behavior, arg) == Settlement::Resolve(v),
        v.tag_spec() == f.sig.ret,
    ensures
        foreign_result(f, arg) == Ok::<Value, Error>(v),
{
}

/// When the host rejects a call, the native caller receives a rejection
/// error carrying the original rejection payload, unchanged.
pub proof fn lemma_rejection_payload_preserved(f: HostFn, arg: Value, p: Value)
    requires
        !(f.behavior is ThrowSync),
        settlement_of(f.behavior, arg) == Settlement::Reject(p),
    ensures
        foreign_result(f, arg) == Err::<Value, Error>(Error::Rejection { payload: p }),
{
}

/// When the host throws synchronously during the invocation itself, the
/// native caller receives an invocation error with that payload — a distinct
/// kind from an asynchronous rejection.
pub proof fn lemma_sync_throw_is_invocation_error(f: HostFn, arg: Value, p: Value)
    requires
        f.behavior == Behavior::ThrowSync(p),
    ensures
        foreign_result(f, arg) == Err::<Value, Error>(Error::Invocation { payload: p }),
{
}

/// When every member before position `k` succeeds and the member at `k`
/// fails, the batch reports exactly that member's error and position: what
/// the members after `k` settle to cannot change the report.
pub proof fn lemma_first_failure_is_positional(calls: Seq<Call>, k: int)
    requires
        0 <= k < calls.len(),
        foreign_result(calls[k].handle.target, calls[k].arg) is Err,
        forall|j: int|
            0 <= j < k ==> foreign_result((#[trigger] calls[j]).handle.target, calls[j].arg) is Ok,
    ensures
        foreign_result(calls[k].handle.target, calls[k].arg) matches Err(e) && first_failure(calls)
            == Some(e),
        first_failure_position(calls) == k,
    decreases calls.len(),
{
    if k < calls.len() - 1 {
        lemma_first_failure_is_positional(calls.drop_last(), k);
    } else {
        lemma_all_ok_no_failure(calls.drop_last());
    }
}

/// A batch whose members all succeed reports no failure.
pub proof fn lemma_all_ok_no_failure(calls: Seq<Call>)
    requires
        forall|j: int|
            0 <= j < calls.len() ==> foreign_result(
                (#[trigger] calls[j]).handle.target,
                calls[j].arg,
            ) is Ok,
    ensures
        first_failure(calls) is None,
    decreases calls.len(),
{
    if calls.len() > 0 {
        lemma_all_ok_no_failure(calls.drop_last());
    }
}

/// Invoke a foreign callable and suspend until the host settles its token:
/// the composition of `Host::invoke`, one wait on the fresh token, and the
/// conversion of the resolved value to the declared return type. The result
/// is a function of the handle and the argument alone; the host clock
/// advances by exactly the call's latency, and no other call's token is
/// touched. The call always returns: a synchronous throw surfaces as an
/// invocation error, never a hang.
pub fn await_foreign(host: &mut Host, handle: &Handle, arg: Value) -> (r: Result<Value, Error>)
    requires
        old(host).wf(),
        old(host).now + handle.target.latency <= u64::MAX,
    ensures
        final(host).wf(),
        r == foreign_result(handle.target, arg),
        final(host).now == old(host).now + token_latency(handle.target),
        final(host).tokens@.len() == old(host).tokens@.len() + (if handle.target.behavior
            is ThrowSync {
            0int
        } else {
            1int
        }),
        forall|j: int|
            0 <= j < old(host).tokens@.len() ==> final(host).tokens@[j] == old(host).tokens@[j],
{
    match host.invoke(&handle.target, arg) {
        Err(e) => Err(e),
        Ok(id) => {
            let s = host.await_token(id);
            match s {
                Settlement::Resolve(v) => {
                    if v.tag() == handle.target.sig.ret {
                        Ok(v)
                    } else {
                        Err(Error::Conversion { wanted: handle.target.sig.ret, got: v })
                    }
                },
                Settlement::Reject(p) => Err(Error::Rejection { payload: p }),
            }
        },
    }
}

/// What a batch member's token must look like right after the eager
/// invocation phase: sync throws produced no token, every other member owns a
/// fresh pending token scheduled with its own settlement.
spec fn issued(h0: Host, h: Host, c: Call, o: Option<usize>) -> bool {
    match o {
        None => c.handle.target.behavior is ThrowSync,
        Some(id) => {
            &&& h0.tokens@.len() <= id < h.tokens@.len()
            &&& !(c.handle.target.behavior is ThrowSync)
            &&& h.tokens@[id as int] == (Token {
                state: TokenState::Pending,
                ready_at: (h0.now + c.handle.target.latency) as u64,
                outcome: settlement_of(c.handle.target.behavior, c.arg),
            })
        },
    }
}

/// Issue every call of a batch eagerly — all foreign invocations start before
/// any is awaited — then await every token in position order. The aggregate
/// succeeds with all resolved values exactly when every member succeeds;
/// otherwise it fails with the first failure by position, whatever the later
/// members settle to, and the other in-flight calls still run to settlement,
/// their outcomes ignored. Because the tokens run concurrently, the host
/// clock advances by the largest single latency, not the sum.
pub fn join_all(host: &mut Host, calls: &Vec<Call>) -> (r: Result<Vec<Value>, Error>)
    requires
        old(host).wf(),
        forall|m: int|
            0 <= m < calls@.len() ==> old(host).now + (#[trigger] calls@[m]).handle.target.latency
                <= u64::MAX,
    ensures
        final(host).wf(),
        final(host).now == old(host).now + eager_elapsed(calls@),
        forall|j: int|
            0 <= j < old(host).tokens@.len() ==> final(host).tokens@[j] == old(host).tokens@[j],
        match first_failure(calls@) {
            None => {
                &&& r matches Ok(vs)
                &&& vs@.len() == calls@.len()
                &&& forall|m: int|
                    0 <= m < calls@.len() ==> foreign_result(
                        (#[trigger] calls@[m]).handle.target,
                        calls@[m].arg,
                    ) == Ok::<Value, Error>(vs@[m])
            },
            Some(e) => {
                &&& r matches Err(err)
                &&& err matches Error::Aggregate { position, cause }
                &&& position == first_failure_position(calls@)
                &&& *cause == e
            },
        },
{
    let ghost h0: Host = *host;
    let n = calls.len();

    // Phase one: start every foreign call before any is awaited.
    let mut ids: Vec<Option<usize>> = Vec::new();
    let mut i: usize = 0;
    while i < n
        invariant
            host.wf(),
            host.now == h0.now,
            n == calls@.len(),
            i <= n,
            ids@.len() == i,
            forall|m: int|
                0 <= m < calls@.len() ==> h0.now + (#[trigger] calls@[m]).handle.target.latency
                    <= u64::MAX,
            h0.tokens@.len() <= host.tokens@.len(),
            forall|j: int| 0 <= j < h0.tokens@.len() ==> host.tokens@[j] == h0.tokens@[j],
            forall|j: int| 0 <= j < i ==> issued(h0, *host, calls@[j], #[trigger] ids@[j]),
            forall|j1: int, j2: int|
                0 <= j1 < j2 < i && ids@[j1] is Some && ids@[j2] is Some ==> ids@[j1]->Some_0
                    < ids@[j2]->Some_0,
        decreases n - i,
    {
        let c = &calls[i];
        match host.invoke(&c.handle.target, c.arg.clone()) {
            Ok(id) => ids.push(Some(id)),
            Err(_) => ids.push(None),
        }
        i = i + 1;
    }

    // Phase two: await the tokens in position order, remembering the first
    // failure; later settlements are observed but cannot displace it.
    let ghost l1: Host = *host;
    let mut values: Vec<Value> = Vec::new();
    let mut first_err: Option<(usize, Error)> = None;
    let mut k: usize = 0;
    while k < n
        invariant
            host.wf(),
            n == calls@.len(),
            ids@.len() == n,
            k <= n,
            host.tokens@.len() == l1.tokens@.len(),
            l1.now == h0.now,
            forall|m: int|
                0 <= m < calls@.len() ==> h0.now + (#[trigger] calls@[m]).handle.target.latency
                    <= u64::MAX,
            forall|j: int| 0 <= j < h0.tokens@.len() ==> host.tokens@[j] == h0.tokens@[j],
            host.now == h0.now + eager_elapsed(calls@.take(k as int)),
            forall|j: int| k <= j < n ==> issued(h0, *host, calls@[j], #[trigger] ids@[j]),
            forall|j1: int, j2: int|
                0 <= j1 < j2 < n && ids@[j1] is Some && ids@[j2] is Some ==> ids@[j1]->Some_0
                    < ids@[j2]->Some_0,
            match first_err {
                None => {
                    &&& first_failure(calls@.take(k as int)) is None
                    &&& values@.len() == k
                    &&& forall|m: int|
                        0 <= m < k ==> foreign_result(
                            (#[trigger] calls@[m]).handle.target,
                            calls@[m].arg,
                        ) == Ok::<Value, Error>(values@[m])
                },
                Some((pos, e)) => {
                    &&& first_failure(calls@.take(k as int)) == Some(e)
                    &&& pos == first_failure_position(calls@.take(k as int))
                },
            },
        decreases n - k,
    {
        proof {
            assert(calls@.take(k as int + 1).drop_last() =~= calls@.take(k as int));
            assert(calls@.take(k as int + 1).last() == calls@[k as int]);
            lemma_eager_no_slower_than_serial(calls@.take(k as int));
        }
        let c = &calls[k];
        match ids[k] {
            None => {
                if first_err.is_none() {
                    match &c.handle.target.behavior {
                        Behavior::ThrowSync(p) => {
                            first_err = Some((k, Error::Invocation { payload: p.clone() }));
                        },
                        _ => {
                            proof {
                                assert(false);
                            }
                        },
                    }
                }
            },
            Some(id) => {
                let s = host.await_token(id);
                match s {
                    Settlement::Resolve(v) => {
                        if v.tag() == c.handle.target.sig.ret {
                            values.push(v);
                        } else {
                            if first_err.is_none() {
                                first_err = Some(
                                    (
                                        k,
                                        Error::Conversion {
                                            wanted: c.handle.target.sig.ret,
                                            got: v,
                                        },
                                    ),
                                );
                            }
                        }
                    },
                    Settlement::Reject(p) => {
                        if first_err.is_none() {
                            first_err = Some((k, Error::Rejection { payload: p }));
                        }
                    },
                }
            },
        }
        k = k + 1;
    }
    proof {
        assert(calls@.take(n as int) =~= calls@);
    }
    match first_err {
        None => Ok(values),
        Some((pos, e)) => Err(Error::Aggregate { position: pos, cause: Box::new(e) }),
    }
}

/// Synchronously call a host callable that takes no argument, discarding its
/// result: the call fails exactly when the host raises during the call
/// itself.
pub fn call0(callback: &HostFn) -> (r: Result<(), Error>)
    ensures
        match callback.behavior {
            Behavior::ThrowSync(p) => r == Err::<(), Error>(Error::Invocation { payload: p }),
            _ => r is Ok,
        },
{
    match &callback.behavior {
        Behavior::ThrowSync(p) => Err(Error::Invocation { payload: p.clone() }),
        _ => Ok(()),
    }
}

/// The integer a foreign call's result unmarshals to: the resolved integer,
/// or a conversion error when the call resolved with anything else.
pub open spec fn int_result(r: Result<Value, Error>) -> Result<i64, Error> {
    match r {
        Ok(Value::Int(n)) => Ok(n),
        Ok(v) => Err(Error::Conversion { wanted: TypeTag::Int, got: v }),
        Err(e) => Err(e),
    }
}

/// Invoke an asynchronous host callback with an integer argument and await
/// its integer result.
pub fn call_async(host: &mut Host, cb: &Handle, value: i64) -> (r: Result<i64, Error>)
    requires
        old(host).wf(),
        old(host).now + cb.target.latency <= u64::MAX,
    ensures
        final(host).wf(),
        r == int_result(foreign_result(cb.target, Value::Int(value))),
        final(host).now == old(host).now + token_latency(cb.target),
        forall|j: int|
            0 <= j < old(host).tokens@.len() ==> final(host).tokens@[j] == old(host).tokens@[j],
{
    match await_foreign(host, cb, Value::Int(value)) {
        Ok(v) => match v {
            Value::Int(n) => Ok(n),
            other => Err(Error::Conversion { wanted: TypeTag::Int, got: other }),
        },
        Err(e) => Err(e),
    }
}

/// The signature an integer-to-integer asynchronous callback declares.
pub open spec fn int_sig() -> Signature {
    Signature { arg: TypeTag::Int, ret: TypeTag::Int }
}

/// Look up an asynchronous integer callback by name on a container object and
/// await its integer result, as `call_async` does for a handle in hand. The
/// name must be bound to a callable declaring integer argument and return
/// types; otherwise the lookup's error is returned and the host is untouched.
pub fn call_async_on_object(
    host: &mut Host,
    caller: &HostObject,
    fn_name: &String,
    value: i64,
) -> (r: Result<i64, Error>)
    requires
        old(host).wf(),
        (match lookup(caller.entries@, fn_name@) {
            Some(Slot::Callable(f)) => old(host).now + f.latency <= u64::MAX,
            _ => true,
        }),
    ensures
        final(host).wf(),
        match lookup(caller.entries@, fn_name@) {
            Some(Slot::Callable(f)) => if f.sig == int_sig() {
                &&& r == int_result(foreign_result(f, Value::Int(value)))
                &&& final(host).now == old(host).now + token_latency(f)
            } else {
                &&& r == Err::<i64, Error>(
                    Error::TypeMismatch { expected: int_sig(), declared: f.sig },
                )
                &&& *final(host) == *old(host)
            },
            Some(Slot::Data(_)) => {
                &&& r matches Err(e)
                &&& e matches Error::NotFound { name: n }
                &&& n@ == fn_name@
                &&& *final(host) == *old(host)
            },
            None => {
                &&& r matches Err(e)
                &&& e matches Error::NotFound { name: n }
                &&& n@ == fn_name@
                &&& *final(host) == *old(host)
            },
        },
{
    match resolve(caller, fn_name, Signature { arg: TypeTag::Int, ret: TypeTag::Int }) {
        Ok(h) => call_async(host, &h, value),
        Err(e) => Err(e),
    }
}

} // verus!
