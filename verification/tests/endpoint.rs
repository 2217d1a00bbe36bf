use telemetry::endpoint::fetch_cluster_data;
use telemetry::error::Error;
use telemetry::host::{Behavior, Host, HostEntry, HostFn, HostObject, Slot};
use telemetry::value::{Signature, TypeTag, Value};

fn info_fn(text: &str, latency: u64) -> HostFn {
    HostFn {
        behavior: Behavior::ConstResolve(Value::Text(text.to_string())),
        latency,
        sig: Signature { arg: TypeTag::Null, ret: TypeTag::Text },
    }
}

fn receiver_with(cluster: HostFn, license: HostFn) -> HostObject {
    HostObject {
        entries: vec![
            HostEntry { name: "fetchClusterInfo".to_string(), slot: Slot::Callable(cluster) },
            HostEntry { name: "fetchLicenseInfo".to_string(), slot: Slot::Callable(license) },
        ],
    }
}

#[test]
fn both_documents_come_back_paired() {
    let mut host = Host::new();
    let receiver = receiver_with(info_fn("cluster doc", 100), info_fn("license doc", 100));
    let r = fetch_cluster_data(&mut host, &receiver);
    assert_eq!(
        r,
        Ok((Value::Text("cluster doc".to_string()), Value::Text("license doc".to_string())))
    );
    // the two fetches ran concurrently
    assert_eq!(host.now, 100);
}

#[test]
fn missing_license_callable_is_not_found() {
    let mut host = Host::new();
    let receiver = HostObject {
        entries: vec![HostEntry {
            name: "fetchClusterInfo".to_string(),
            slot: Slot::Callable(info_fn("cluster doc", 1)),
        }],
    };
    let r = fetch_cluster_data(&mut host, &receiver);
    assert_eq!(r, Err(Error::NotFound { name: "fetchLicenseInfo".to_string() }));
    assert_eq!(host.now, 0);
}

#[test]
fn wrongly_typed_cluster_callable_is_a_mismatch() {
    let mut host = Host::new();
    let declared = Signature { arg: TypeTag::Int, ret: TypeTag::Int };
    let receiver = receiver_with(
        HostFn { behavior: Behavior::EchoArg, latency: 1, sig: declared },
        info_fn("license doc", 1),
    );
    let r = fetch_cluster_data(&mut host, &receiver);
    assert_eq!(
        r,
        Err(Error::TypeMismatch {
            expected: Signature { arg: TypeTag::Null, ret: TypeTag::Text },
            declared,
        })
    );
}

#[test]
fn license_rejection_is_the_second_failure() {
    let mut host = Host::new();
    let license = HostFn {
        behavior: Behavior::RejectWith(Value::Text("expired".to_string())),
        latency: 5,
        sig: Signature { arg: TypeTag::Null, ret: TypeTag::Text },
    };
    let receiver = receiver_with(info_fn("cluster doc", 50), license);
    let r = fetch_cluster_data(&mut host, &receiver);
    assert_eq!(
        r,
        Err(Error::Aggregate {
            position: 1,
            cause: Box::new(Error::Rejection { payload: Value::Text("expired".to_string()) }),
        })
    );
}
