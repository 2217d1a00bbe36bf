use crate::bridge::{
    eager_elapsed, first_failure, first_failure_position, foreign_result, join_all, token_latency,
    Call,
};
use crate::error::Error;
use crate::handle::{lookup, resolve};
use crate::host::{Host, HostObject, Slot};
use crate::value::{Signature, TypeTag, Value};
use vstd::prelude::*;

verus! {

/// The signature the two cluster-data callables declare: no meaningful
/// argument, a text document back.
pub open spec fn info_sig() -> Signature {
    Signature { arg: TypeTag::Null, ret: TypeTag::Text }
}

/// Fetch a cluster's identity and its licence through a receiver object owned
/// by the host runtime: look up `fetchClusterInfo` and `fetchLicenseInfo`,
/// start both foreign calls before awaiting either, and pair their resolved
/// documents. A lookup failure is returned at once with the host untouched;
/// a failure of either call is reported as the aggregate's first failure by
/// position. Both calls run concurrently, so the host clock advances by the
/// larger of the two latencies only.
pub fn fetch_cluster_data(host: &mut Host, receiver: &HostObject) -> (r: Result<
    (Value, Value),
    Error,
>)
    requires
        old(host).wf(),
        (match lookup(receiver.entries@, "fetchClusterInfo"@) {
            Some(Slot::Callable(f)) => old(host).now + f.latency <= u64::MAX,
            _ => true,
        }),
        (match lookup(receiver.entries@, "fetchLicenseInfo"@) {
            Some(Slot::Callable(f)) => old(host).now + f.latency <= u64::MAX,
            _ => true,
        }),
    ensures
        final(host).wf(),
        match lookup(receiver.entries@, "fetchClusterInfo"@) {
            Some(Slot::Callable(f1)) => if f1.sig == info_sig() {
                match lookup(receiver.entries@, "fetchLicenseInfo"@) {
                    Some(Slot::Callable(f2)) => if f2.sig == info_sig() {
                        &&& final(host).now == old(host).now + (if token_latency(f1)
                            >= token_latency(f2) {
                            token_latency(f1)
                        } else {
                            token_latency(f2)
                        })
                        &&& (match (
                            foreign_result(f1, Value::Null),
                            foreign_result(f2, Value::Null),
                        ) {
                            (Ok(a), Ok(b)) => r == Ok::<(Value, Value), Error>((a, b)),
                            (Err(e1), _) => {
                                &&& r matches Err(err)
                                &&& err matches Error::Aggregate { position, cause }
                                &&& position == 0
                                &&& *cause == e1
                            },
                            (Ok(_), Err(e2)) => {
                                &&& r matches Err(err)
                                &&& err matches Error::Aggregate { position, cause }
                                &&& position == 1
                                &&& *cause == e2
                            },
                        })
                    } else {
                        r == Err::<(Value, Value), Error>(
                            Error::TypeMismatch { expected: info_sig(), declared: f2.sig },
                        ) && *final(host) == *old(host)
                    },
                    Some(Slot::Data(_)) => {
                        &&& r matches Err(e)
                        &&& e matches Error::NotFound { name: n }
                        &&& n@ == "fetchLicenseInfo"@
                        &&& *final(host) == *old(host)
                    },
                    None => {
                        &&& r matches Err(e)
                        &&& e matches Error::NotFound { name: n }
                        &&& n@ == "fetchLicenseInfo"@
                        &&& *final(host) == *old(host)
                    },
                }
            } else {
                r == Err::<(Value, Value), Error>(
                    Error::TypeMismatch { expected: info_sig(), declared: f1.sig },
                ) && *final(host) == *old(host)
            },
            Some(Slot::Data(_)) => {
                &&& r matches Err(e)
                &&& e matches Error::NotFound { name: n }
                &&& n@ == "fetchClusterInfo"@
                &&& *final(host) == *old(host)
            },
            None => {
                &&& r matches Err(e)
                &&& e matches Error::NotFound { name: n }
                &&& n@ == "fetchClusterInfo"@
                &&& *final(host) == *old(host)
            },
        },
{
    let cluster_name = String::from_str("fetchClusterInfo");
    let license_name = String::from_str("fetchLicenseInfo");
    let sig = Signature { arg: TypeTag::Null, ret: TypeTag::Text };
    let h1 = match resolve(receiver, &cluster_name, sig) {
        Ok(h) => h,
        Err(e) => {
            return Err(e);
        },
    };
    let h2 = match resolve(receiver, &license_name, sig) {
        Ok(h) => h,
        Err(e) => {
            return Err(e);
        },
    };
    let ghost f1 = h1.target;
    let ghost f2 = h2.target;
    let mut calls: Vec<Call> = Vec::new();
    calls.push(Call { handle: h1, arg: Value::Null });
    calls.push(Call { handle: h2, arg: Value::Null });
    proof {
        let cs = calls@;
        assert(cs.len() == 2);
        assert(cs.last() == cs[1]);
        assert(cs.drop_last().len() == 1);
        assert(cs.drop_last()[0] == cs[0]);
        assert(cs.drop_last().last() == cs[0]);
        assert(cs.drop_last().drop_last().len() == 0);
    }
    let res = join_all(host, &calls);
    proof {
        reveal_with_fuel(first_failure, 4);
        reveal_with_fuel(first_failure_position, 4);
        reveal_with_fuel(eager_elapsed, 4);
        let cs = calls@;
        assert(cs[0].handle.target == f1 && cs[0].arg == Value::Null);
        assert(cs[1].handle.target == f2 && cs[1].arg == Value::Null);
        assert(first_failure(cs.drop_last().drop_last()) is None);
        assert(eager_elapsed(cs.drop_last().drop_last()) == 0);
        assert(first_failure_position(cs) == (if first_failure(cs.drop_last()) is Some {
            0int
        } else {
            1int
        }));
    }
    match res {
        Ok(mut vs) => {
            let b = vs.pop().unwrap();
            let a = vs.pop().unwrap();
            Ok((a, b))
        },
        Err(e) => Err(e),
    }
}

} // verus!
