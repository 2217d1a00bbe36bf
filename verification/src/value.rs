use vstd::prelude::*;

verus! {

/// A value that crosses the boundary between the native side and the host
/// runtime: the shapes that argument marshalling and return-value
/// unmarshalling support.
#[derive(Debug, PartialEq, Eq)]
pub enum Value {
    /// The absent value.
    Null,
    Bool(bool),
    Int(i64),
    Text(String),
}

/// The type a callable declares for an argument or a result.
#[derive(Clone, Copy, Debug, PartialEq, Eq, Structural)]
pub enum TypeTag {
    Null,
    Bool,
    Int,
    Text,
}

/// The argument and return types that a Foreign Call Handle records.
#[derive(Clone, Copy, Debug, PartialEq, Eq, Structural)]
pub struct Signature {
    pub arg: TypeTag,
    pub ret: TypeTag,
}

impl Value {
    /// The type of this value.
    pub open spec fn tag_spec(self) -> TypeTag {
        match self {
            Value::Null => TypeTag::Null,
            Value::Bool(_) => TypeTag::Bool,
            Value::Int(_) => TypeTag::Int,
            Value::Text(_) => TypeTag::Text,
        }
    }

    pub fn tag(&self) -> (t: TypeTag)
        ensures
            t == self.tag_spec(),
    {
        match self {
            Value::Null => TypeTag::Null,
            Value::Bool(_) => TypeTag::Bool,
            Value::Int(_) => TypeTag::Int,
            Value::Text(_) => TypeTag::Text,
        }
    }
}

impl Clone for Value {
    fn clone(&self) -> (res: Self)
        ensures
            res == *self,
    {
        match self {
            Value::Null => Value::Null,
            Value::Bool(b) => Value::Bool(*b),
            Value::Int(n) => Value::Int(*n),
            Value::Text(s) => Value::Text(s.clone()),
        }
    }
}

} // verus!
