use telemetry::bridge::{await_foreign, call0, call_async, call_async_on_object, join_all, Call};
use telemetry::error::Error;
use telemetry::handle::{resolve, Binding, Handle};
use telemetry::host::{Behavior, Host, HostEntry, HostFn, HostObject, Slot};
use telemetry::value::{Signature, TypeTag, Value};

fn int_sig() -> Signature {
    Signature { arg: TypeTag::Int, ret: TypeTag::Int }
}

fn callable(behavior: Behavior, latency: u64, sig: Signature) -> HostFn {
    HostFn { behavior, latency, sig }
}

fn object(entries: Vec<(&str, Slot)>) -> HostObject {
    HostObject {
        entries: entries
            .into_iter()
            .map(|(name, slot)| HostEntry { name: name.to_string(), slot })
            .collect(),
    }
}

#[test]
fn resolved_value_comes_back_unchanged() {
    let mut host = Host::new();
    let echo = Handle::direct(callable(
        Behavior::EchoArg,
        7,
        Signature { arg: TypeTag::Text, ret: TypeTag::Text },
    ));
    let r = await_foreign(&mut host, &echo, Value::Text("payload".to_string()));
    assert_eq!(r, Ok(Value::Text("payload".to_string())));
    assert_eq!(host.now, 7);
}

#[test]
fn rejection_carries_original_payload() {
    let mut host = Host::new();
    let reject = Handle::direct(callable(
        Behavior::RejectWith(Value::Text("boom".to_string())),
        3,
        int_sig(),
    ));
    let r = await_foreign(&mut host, &reject, Value::Int(1));
    assert_eq!(r, Err(Error::Rejection { payload: Value::Text("boom".to_string()) }));
}

#[test]
fn synchronous_throw_creates_no_token() {
    let mut host = Host::new();
    let thrower = Handle::direct(callable(
        Behavior::ThrowSync(Value::Text("bad call".to_string())),
        50,
        int_sig(),
    ));
    let r = await_foreign(&mut host, &thrower, Value::Int(1));
    assert_eq!(r, Err(Error::Invocation { payload: Value::Text("bad call".to_string()) }));
    assert_eq!(host.tokens.len(), 0);
    assert_eq!(host.now, 0);
}

#[test]
fn conversion_failure_is_not_a_rejection() {
    let mut host = Host::new();
    let wrong = Handle::direct(callable(Behavior::ConstResolve(Value::Bool(true)), 1, int_sig()));
    let r = await_foreign(&mut host, &wrong, Value::Int(1));
    assert_eq!(r, Err(Error::Conversion { wanted: TypeTag::Int, got: Value::Bool(true) }));
}

#[test]
fn join_all_pays_the_largest_latency_once() {
    let mut host = Host::new();
    let calls = vec![
        Call {
            handle: Handle::direct(callable(Behavior::AddInt(1), 100, int_sig())),
            arg: Value::Int(1),
        },
        Call {
            handle: Handle::direct(callable(Behavior::AddInt(2), 100, int_sig())),
            arg: Value::Int(10),
        },
    ];
    let r = join_all(&mut host, &calls);
    assert_eq!(r, Ok(vec![Value::Int(2), Value::Int(12)]));
    // both calls started before either was awaited: 100 ticks in all, not 200
    assert_eq!(host.now, 100);
}

#[test]
fn join_all_reports_first_failure_by_position() {
    let mut host = Host::new();
    // the first member rejects, though it settles long after the second
    let calls = vec![
        Call {
            handle: Handle::direct(callable(
                Behavior::RejectWith(Value::Text("first".to_string())),
                200,
                int_sig(),
            )),
            arg: Value::Int(1),
        },
        Call {
            handle: Handle::direct(callable(Behavior::AddInt(1), 10, int_sig())),
            arg: Value::Int(1),
        },
    ];
    let r = join_all(&mut host, &calls);
    assert_eq!(
        r,
        Err(Error::Aggregate {
            position: 0,
            cause: Box::new(Error::Rejection { payload: Value::Text("first".to_string()) }),
        })
    );
}

#[test]
fn join_all_of_nothing_succeeds_at_once() {
    let mut host = Host::new();
    let r = join_all(&mut host, &Vec::new());
    assert_eq!(r, Ok(Vec::new()));
    assert_eq!(host.now, 0);
}

#[test]
fn repeated_invocations_use_independent_tokens() {
    let mut host = Host::new();
    let f = callable(Behavior::AddInt(1), 5, int_sig());
    let first = host.invoke(&f, Value::Int(99));
    let second = host.invoke(&f, Value::Int(42));
    assert_eq!(first, Ok(0));
    assert_eq!(second, Ok(1));
    assert_eq!(host.tokens.len(), 2);

    let handle = Handle::direct(f);
    let mut other = Host::new();
    assert_eq!(call_async(&mut other, &handle, 99), Ok(100));
    assert_eq!(call_async(&mut other, &handle, 42), Ok(43));
}

#[test]
fn increment_by_name_returns_one_hundred() {
    let mut host = Host::new();
    let receiver = object(vec![(
        "increment",
        Slot::Callable(callable(Behavior::AddInt(1), 25, int_sig())),
    )]);
    let r = call_async_on_object(&mut host, &receiver, &"increment".to_string(), 99);
    assert_eq!(r, Ok(100));
}

#[test]
fn missing_name_is_not_found() {
    let receiver = object(vec![(
        "increment",
        Slot::Callable(callable(Behavior::AddInt(1), 25, int_sig())),
    )]);
    let r = resolve(&receiver, &"missing".to_string(), int_sig());
    assert_eq!(r, Err(Error::NotFound { name: "missing".to_string() }));
}

#[test]
fn data_property_is_not_callable() {
    let receiver = object(vec![("answer", Slot::Data(Value::Int(42)))]);
    let r = resolve(&receiver, &"answer".to_string(), int_sig());
    assert_eq!(r, Err(Error::NotFound { name: "answer".to_string() }));
}

#[test]
fn signature_mismatch_is_reported() {
    let declared = Signature { arg: TypeTag::Text, ret: TypeTag::Text };
    let receiver = object(vec![(
        "increment",
        Slot::Callable(callable(Behavior::EchoArg, 1, declared)),
    )]);
    let r = resolve(&receiver, &"increment".to_string(), int_sig());
    assert_eq!(r, Err(Error::TypeMismatch { expected: int_sig(), declared }));
}

#[test]
fn resolve_finds_first_entry_and_keeps_binding() {
    let f = callable(Behavior::AddInt(1), 1, int_sig());
    let receiver = object(vec![
        ("increment", Slot::Callable(f.clone())),
        ("increment", Slot::Data(Value::Null)),
    ]);
    let r = resolve(&receiver, &"increment".to_string(), int_sig());
    assert_eq!(
        r,
        Ok(Handle { target: f, binding: Binding::Named("increment".to_string()) })
    );
}

#[test]
fn integer_overflow_rejects_with_the_argument() {
    let mut host = Host::new();
    let inc = Handle::direct(callable(Behavior::AddInt(1), 1, int_sig()));
    let r = call_async(&mut host, &inc, i64::MAX);
    assert_eq!(r, Err(Error::Rejection { payload: Value::Int(i64::MAX) }));
}

#[test]
fn throwing_member_fails_the_batch_without_a_token() {
    let mut host = Host::new();
    let calls = vec![
        Call {
            handle: Handle::direct(callable(
                Behavior::ThrowSync(Value::Text("no call".to_string())),
                40,
                int_sig(),
            )),
            arg: Value::Int(1),
        },
        Call {
            handle: Handle::direct(callable(Behavior::AddInt(1), 10, int_sig())),
            arg: Value::Int(5),
        },
    ];
    let r = join_all(&mut host, &calls);
    assert_eq!(
        r,
        Err(Error::Aggregate {
            position: 0,
            cause: Box::new(Error::Invocation { payload: Value::Text("no call".to_string()) }),
        })
    );
    // only the second member ever produced a token, and its latency was paid
    assert_eq!(host.tokens.len(), 1);
    assert_eq!(host.now, 10);
}

#[test]
fn settlement_never_rewinds_the_event_loop() {
    let mut host = Host::new();
    let slow = Handle::direct(callable(Behavior::AddInt(1), 100, int_sig()));
    let fast = Handle::direct(callable(Behavior::AddInt(1), 10, int_sig()));
    assert_eq!(call_async(&mut host, &slow, 1), Ok(2));
    assert_eq!(host.now, 100);
    // the fast call starts at 100 and settles at 110; time only moves forward
    assert_eq!(call_async(&mut host, &fast, 1), Ok(2));
    assert_eq!(host.now, 110);
}

#[test]
fn call0_succeeds_unless_the_host_throws() {
    let quiet = callable(Behavior::ConstResolve(Value::Null), 0, int_sig());
    assert_eq!(call0(&quiet), Ok(()));
    let loud = callable(Behavior::ThrowSync(Value::Text("oops".to_string())), 0, int_sig());
    assert_eq!(call0(&loud), Err(Error::Invocation { payload: Value::Text("oops".to_string()) }));
}
