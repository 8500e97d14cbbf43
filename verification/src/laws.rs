//! Laws relating the registry's operations: what a registration guarantees to
//! later lookups, what closing a scoped registration restores, and how
//! registrations under different names stay independent of one another.
//!
//! Each law is stated over the registry's view — the map from a name's
//! characters to its entry — in exactly the shape the operations' contracts
//! produce: `set_callback` and `ScopedCallback::new` yield
//! `m.insert(name, entry_for(f))`, and `ScopedCallback::close` and
//! `Registry::unregister` yield `m.remove(name)`.

use crate::callback::Callback;
use crate::registry::{entry_for, MapEntry};
use crate::value::Value;
use vstd::prelude::*;

verus! {

/// Registering a callback that overwrites the value outright makes every
/// later adjustment under that name yield the callback's value, whatever the
/// value's prior contents.
pub proof fn lemma_basic_override(
    m: Map<Seq<char>, MapEntry>,
    name: Seq<char>,
    f: Callback,
    v: Value,
)
    requires
        f.is_setter(),
    ensures
        m.insert(name, entry_for(f)).contains_key(name),
        m.insert(name, entry_for(f))[name].cb.apply_to(v) == f.set_value(),
{
}

/// After a scoped registration under a name is closed, the name is absent
/// again, so adjustments under it revert to the no-op.
pub proof fn lemma_scoped_removal(m: Map<Seq<char>, MapEntry>, name: Seq<char>, f: Callback)
    ensures
        !m.insert(name, entry_for(f)).remove(name).contains_key(name),
{
}

/// Registering one name never affects what an adjustment under a different
/// name observes: the other name's presence and entry are exactly what they
/// were before.
pub proof fn lemma_isolation(
    m: Map<Seq<char>, MapEntry>,
    registered: Seq<char>,
    other: Seq<char>,
    f: Callback,
)
    requires
        registered != other,
    ensures
        m.insert(registered, entry_for(f)).contains_key(other) == m.contains_key(other),
        m.contains_key(other) ==> m.insert(registered, entry_for(f))[other] == m[other],
{
}

/// Registering the same name twice leaves exactly the state the second
/// registration alone would have left: later adjustments under the name use
/// only the second callback.
pub proof fn lemma_overwrite(
    m: Map<Seq<char>, MapEntry>,
    name: Seq<char>,
    first: Callback,
    second: Callback,
)
    ensures
        m.insert(name, entry_for(first)).insert(name, entry_for(second)) =~= m.insert(
            name,
            entry_for(second),
        ),
        m.insert(name, entry_for(first)).insert(name, entry_for(second))[name] == entry_for(
            second,
        ),
{
}

} // verus!
