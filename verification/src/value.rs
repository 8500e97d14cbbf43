//! The type-erased value presented at an injection point, and the runtime
//! type tag that guards against type confusion between a registration site
//! and an invocation site.

use vstd::prelude::*;

verus! {

/// A runtime-comparable identifier for the concrete type carried by a
/// [`Value`]. The tag recorded when a callback is registered must equal the
/// tag of every value later presented under the same name.
#[derive(Clone, Copy, Debug, PartialEq, Eq, Structural)]
pub enum TypeTag {
    Int32,
    Int64,
    Boolean,
    Text,
}

/// A tagged union standing for the caller's value at an injection point.
///
/// The registry is a single untyped map keyed only by name, while call sites
/// are concretely typed, so values cross the registry type-erased: each
/// variant carries one supported concrete type, and [`Value::tag`] recovers
/// the runtime identifier that the registry checks before any callback runs.
#[derive(Debug)]
pub enum Value {
    Int32(i32),
    Int64(i64),
    Boolean(bool),
    Text(String),
}

impl Value {
    /// The type tag of the carried value.
    pub open spec fn tag_spec(&self) -> TypeTag {
        match self {
            Value::Int32(_) => TypeTag::Int32,
            Value::Int64(_) => TypeTag::Int64,
            Value::Boolean(_) => TypeTag::Boolean,
            Value::Text(_) => TypeTag::Text,
        }
    }

    /// Returns the runtime type identifier of the carried value.
    #[verifier::when_used_as_spec(tag_spec)]
    pub fn tag(&self) -> (t: TypeTag)
        ensures
            t == self.tag_spec(),
    {
        match self {
            Value::Int32(_) => TypeTag::Int32,
            Value::Int64(_) => TypeTag::Int64,
            Value::Boolean(_) => TypeTag::Boolean,
            Value::Text(_) => TypeTag::Text,
        }
    }
}

impl PartialEq for Value {
    fn eq(&self, other: &Value) -> (r: bool) {
        match (self, other) {
            (Value::Int32(a), Value::Int32(b)) => *a == *b,
            (Value::Int64(a), Value::Int64(b)) => *a == *b,
            (Value::Boolean(a), Value::Boolean(b)) => *a == *b,
            (Value::Text(a), Value::Text(b)) => *a == *b,
            _ => false,
        }
    }
}

impl vstd::std_specs::cmp::PartialEqSpecImpl for Value {
    open spec fn obeys_eq_spec() -> bool {
        true
    }

    open spec fn eq_spec(&self, other: &Value) -> bool {
        match (self, other) {
            (Value::Int32(a), Value::Int32(b)) => a == b,
            (Value::Int64(a), Value::Int64(b)) => a == b,
            (Value::Boolean(a), Value::Boolean(b)) => a == b,
            (Value::Text(a), Value::Text(b)) => a@ == b@,
            _ => false,
        }
    }
}

} // verus!
