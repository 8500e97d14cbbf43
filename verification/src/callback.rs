//! The typed callback: the invocable unit of work that a test registers under
//! a name, together with the concrete type it expects.
//!
//! The registry stores callbacks type-erased, so a callback is a tagged
//! description of the mutation to perform rather than an opaque closure: each
//! variant names the concrete type it applies to and carries the data the
//! mutation needs. [`Callback::expected_tag`] recovers the type the callback
//! was built for, and the registry checks it against the tag of every value
//! presented under the callback's name before [`Callback::apply`] runs.

use crate::value::{TypeTag, Value};
use vstd::prelude::*;

verus! {

/// One registered unit of work: a value-transforming function on the single
/// concrete type it was built for.
///
/// A callback may be invoked any number of times; applying it mutates the
/// caller's value in place. The additive variants wrap around on overflow.
#[derive(Debug)]
pub enum Callback {
    /// Replace the current `i32` with the carried one.
    SetInt32(i32),
    /// Add the carried amount to the current `i32`, wrapping on overflow.
    AddInt32(i32),
    /// Replace the current `i64` with the carried one.
    SetInt64(i64),
    /// Add the carried amount to the current `i64`, wrapping on overflow.
    AddInt64(i64),
    /// Replace the current `bool` with the carried one.
    SetBoolean(bool),
    /// Replace the current string with the carried one.
    SetText(String),
}

impl Callback {
    /// The type tag of the one concrete type this callback applies to.
    pub open spec fn expected_tag_spec(&self) -> TypeTag {
        match self {
            Callback::SetInt32(_) => TypeTag::Int32,
            Callback::AddInt32(_) => TypeTag::Int32,
            Callback::SetInt64(_) => TypeTag::Int64,
            Callback::AddInt64(_) => TypeTag::Int64,
            Callback::SetBoolean(_) => TypeTag::Boolean,
            Callback::SetText(_) => TypeTag::Text,
        }
    }

    /// Returns the type tag of the one concrete type this callback applies to.
    #[verifier::when_used_as_spec(expected_tag_spec)]
    pub fn expected_tag(&self) -> (t: TypeTag)
        ensures
            t == self.expected_tag_spec(),
    {
        match self {
            Callback::SetInt32(_) => TypeTag::Int32,
            Callback::AddInt32(_) => TypeTag::Int32,
            Callback::SetInt64(_) => TypeTag::Int64,
            Callback::AddInt64(_) => TypeTag::Int64,
            Callback::SetBoolean(_) => TypeTag::Boolean,
            Callback::SetText(_) => TypeTag::Text,
        }
    }

    /// The value that applying this callback to `v` produces. On a value of
    /// the wrong type the callback is vacuous; [`Callback::apply`] rules that
    /// case out up front.
    pub open spec fn apply_to(self, v: Value) -> Value {
        match self {
            Callback::SetInt32(x) => Value::Int32(x),
            Callback::AddInt32(d) => match v {
                Value::Int32(n) => Value::Int32(n.wrapping_add(d)),
                _ => v,
            },
            Callback::SetInt64(x) => Value::Int64(x),
            Callback::AddInt64(d) => match v {
                Value::Int64(n) => Value::Int64(n.wrapping_add(d)),
                _ => v,
            },
            Callback::SetBoolean(b) => Value::Boolean(b),
            Callback::SetText(s) => Value::Text(s),
        }
    }

    /// Whether this callback overwrites the value outright, ignoring what was
    /// there before.
    pub open spec fn is_setter(self) -> bool {
        match self {
            Callback::SetInt32(_) => true,
            Callback::SetInt64(_) => true,
            Callback::SetBoolean(_) => true,
            Callback::SetText(_) => true,
            Callback::AddInt32(_) => false,
            Callback::AddInt64(_) => false,
        }
    }

    /// For a setter, the value it installs.
    pub open spec fn set_value(self) -> Value
        recommends
            self.is_setter(),
    {
        match self {
            Callback::SetInt32(x) => Value::Int32(x),
            Callback::SetInt64(x) => Value::Int64(x),
            Callback::SetBoolean(b) => Value::Boolean(b),
            Callback::SetText(s) => Value::Text(s),
            Callback::AddInt32(d) => Value::Int32(d),
            Callback::AddInt64(d) => Value::Int64(d),
        }
    }

    /// Applies this callback to `v` in place.
    ///
    /// The caller must have checked that `v` carries the type this callback
    /// expects: invoking a callback on a value of another type is the type
    /// confusion the registry exists to rule out, never a best-effort cast.
    pub fn apply(&self, v: &mut Value)
        requires
            old(v).tag() == self.expected_tag(),
        ensures
            *final(v) == self.apply_to(*old(v)),
    {
        match self {
            Callback::SetInt32(x) => {
                *v = Value::Int32(*x);
            },
            Callback::AddInt32(d) => {
                if let Value::Int32(n) = v {
                    *n = n.wrapping_add(*d);
                }
            },
            Callback::SetInt64(x) => {
                *v = Value::Int64(*x);
            },
            Callback::AddInt64(d) => {
                if let Value::Int64(n) = v {
                    *n = n.wrapping_add(*d);
                }
            },
            Callback::SetBoolean(b) => {
                *v = Value::Boolean(*b);
            },
            Callback::SetText(s) => {
                *v = Value::Text(s.clone());
            },
        }
    }
}

} // verus!
