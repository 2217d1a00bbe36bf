use crate::value::{Signature, TypeTag, Value};
use vstd::prelude::*;

verus! {

/// Every way a foreign call can fail. Each kind is returned to the immediate
/// native caller as a typed value: none is swallowed, none is retried by the
/// bridge itself.
#[derive(Debug, PartialEq, Eq)]
pub enum Error {
    /// The named callable is absent from its container, or the bound value is
    /// not callable.
    NotFound { name: String },
    /// The callable's declared signature is incompatible with the expected
    /// argument and return types.
    TypeMismatch { expected: Signature, declared: Signature },
    /// The host runtime raised synchronously during the call itself, before
    /// any token was produced.
    Invocation { payload: Value },
    /// The settled value could not be converted to the expected native type.
    /// Distinct from a rejection originating in host code.
    Conversion { wanted: TypeTag, got: Value },
    /// The host runtime asynchronously rejected the pending token; carries the
    /// original rejection payload unchanged.
    Rejection { payload: Value },
    /// A member of an aggregate batch failed: reports the first failure by
    /// position, whatever the later members settled to.
    Aggregate { position: usize, cause: Box<Error> },
}

} // verus!
