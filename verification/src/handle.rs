use crate::error::Error;
use crate::host::{HostEntry, HostFn, HostObject, Slot};
use crate::value::Signature;
use vstd::prelude::*;

verus! {

/// How a Foreign Call Handle was bound to its callable: handed over directly,
/// or looked up by name on a container object.
#[derive(Debug, PartialEq, Eq)]
pub enum Binding {
    Direct,
    Named(String),
}

/// A native-side reference to a callable owned by the host runtime, together
/// with the argument and return types the caller expects (recorded in
/// `target.sig`, checked when the handle is resolved by name).
#[derive(Debug, PartialEq, Eq)]
pub struct Handle {
    pub target: HostFn,
    pub binding: Binding,
}

/// The property a name is bound to on a container object: the first entry
/// with that name wins.
pub open spec fn lookup(entries: Seq<HostEntry>, name: Seq<char>) -> Option<Slot>
    decreases entries.len(),
{
    if entries.len() == 0 {
        None
    } else if entries[0].name@ == name {
        Some(entries[0].slot)
    } else {
        lookup(entries.skip(1), name)
    }
}

/// When no entry among the first `i` bears the name, the lookup is decided by
/// the remaining entries.
proof fn lemma_lookup_skip(entries: Seq<HostEntry>, name: Seq<char>, i: int)
    requires
        0 <= i <= entries.len(),
        forall|j: int| 0 <= j < i ==> (#[trigger] entries[j]).name@ != name,
    ensures
        lookup(entries, name) == lookup(entries.skip(i), name),
    decreases i,
{
    if i > 0 {
        assert(entries[0].name@ != name);
        assert(forall|j: int|
            0 <= j < i - 1 ==> (#[trigger] entries.skip(1)[j]).name@ != name) by {
            assert(forall|j: int| 0 <= j < i - 1 ==> entries.skip(1)[j] == entries[j + 1]);
        }
        lemma_lookup_skip(entries.skip(1), name, i - 1);
        assert(entries.skip(1).skip(i - 1) =~= entries.skip(i));
    } else {
        assert(entries.skip(0) =~= entries);
    }
}

impl Handle {
    /// A handle to a callable handed over directly: no lookup, no signature
    /// check beyond what the callable itself declares.
    pub fn direct(target: HostFn) -> (h: Handle)
        ensures
            h == (Handle { target, binding: Binding::Direct }),
    {
        Handle { target, binding: Binding::Direct }
    }
}

/// Look up a named callable on a container object. Fails with `NotFound` when
/// the name is absent or the bound value is not callable, and with
/// `TypeMismatch` when the callable's declared signature is not the expected
/// one; otherwise the handle references exactly the callable found.
pub fn resolve(container: &HostObject, name: &String, expected: Signature) -> (r: Result<
    Handle,
    Error,
>)
    ensures
        match lookup(container.entries@, name@) {
            Some(Slot::Callable(f)) => if f.sig == expected {
                &&& r matches Ok(h)
                &&& h.target == f
                &&& h.binding matches Binding::Named(n)
                &&& n@ == name@
            } else {
                r == Err::<Handle, Error>(Error::TypeMismatch { expected, declared: f.sig })
            },
            Some(Slot::Data(_)) => {
                &&& r matches Err(e)
                &&& e matches Error::NotFound { name: n }
                &&& n@ == name@
            },
            None => {
                &&& r matches Err(e)
                &&& e matches Error::NotFound { name: n }
                &&& n@ == name@
            },
        },
{
    let n = container.entries.len();
    let mut i: usize = 0;
    while i < n
        invariant
            i <= n,
            n == container.entries@.len(),
            forall|j: int| 0 <= j < i ==> (#[trigger] container.entries@[j]).name@ != name@,
        decreases n - i,
    {
        let entry = &container.entries[i];
        if entry.name == *name {
            proof {
                lemma_lookup_skip(container.entries@, name@, i as int);
                assert(container.entries@.skip(i as int)[0] == container.entries@[i as int]);
            }
            match &entry.slot {
                Slot::Callable(f) => {
                    if f.sig == expected {
                        return Ok(Handle { target: f.clone(), binding: Binding::Named(name.clone()) });
                    } else {
                        return Err(Error::TypeMismatch { expected, declared: f.sig });
                    }
                },
                Slot::Data(_) => {
                    return Err(Error::NotFound { name: name.clone() });
                },
            }
        }
        i = i + 1;
    }
    proof {
        lemma_lookup_skip(container.entries@, name@, n as int);
        assert(container.entries@.skip(n as int) =~= Seq::<HostEntry>::empty());
    }
    Err(Error::NotFound { name: name.clone() })
}

} // verus!
