//! The registry: a mapping from injection-point name to one registered entry,
//! together with the operations production and test code use against it — the
//! registration calls, the scoped registration handle, and the lookup-and-apply
//! call embedded at each injection point.

use crate::callback::Callback;
use crate::value::{TypeTag, Value};
use vstd::hash_map::StringHashMap;
use vstd::prelude::*;

verus! {

/// The registry's record of a single named registration: the type tag fixed
/// at registration time, and the callback to apply.
///
/// A well-formed entry records exactly the tag of the type its callback was
/// built for; every entry the registry holds is well-formed.
pub struct MapEntry {
    /// The type tag every value presented under this entry's name must carry.
    pub type_id: TypeTag,
    /// The registered unit of work.
    pub cb: Callback,
}

impl MapEntry {
    /// The recorded tag agrees with the callback's expected type.
    pub open spec fn wf(&self) -> bool {
        self.type_id == self.cb.expected_tag_spec()
    }

    /// Builds the entry for a registration of `f` under tag `type_id`.
    pub fn new(type_id: TypeTag, f: Callback) -> (e: MapEntry)
        requires
            type_id == f.expected_tag(),
        ensures
            e == (MapEntry { type_id, cb: f }),
            e.wf(),
    {
        MapEntry { type_id, cb: f }
    }
}

/// The entry that registering the callback `f` installs: the callback under
/// its own expected type tag.
pub open spec fn entry_for(f: Callback) -> MapEntry {
    MapEntry { type_id: f.expected_tag_spec(), cb: f }
}

/// The error a lookup reports when the type recorded at registration differs
/// from the type presented at invocation for the same name. This is a
/// programming error — a name collision between unrelated call sites — not a
/// recoverable runtime condition, and it is never silently swallowed: the
/// value is left untouched and the mismatch is raised to the caller.
#[derive(Clone, Copy, Debug, PartialEq, Eq, Structural)]
pub struct TypeMismatch;

/// The mapping from injection-point name to its one registered entry.
///
/// Each name holds exactly zero or one entry; registering under a held name
/// silently replaces the previous entry, and unregistering an absent name is
/// a no-op. Viewed as a map from the name's characters to its [`MapEntry`].
pub struct Registry {
    map: StringHashMap<MapEntry>,
}

impl View for Registry {
    type V = Map<Seq<char>, MapEntry>;

    closed spec fn view(&self) -> Map<Seq<char>, MapEntry> {
        self.map@
    }
}

impl Registry {
    /// Every entry the registry holds is well-formed: its recorded tag is the
    /// tag of the type its callback expects.
    pub open spec fn wf(&self) -> bool {
        forall|n: Seq<char>| self@.contains_key(n) ==> (#[trigger] self@[n]).wf()
    }

    /// Creates an empty registry: no name is registered.
    pub fn new() -> (r: Registry)
        ensures
            r@ == Map::<Seq<char>, MapEntry>::empty(),
            r.wf(),
    {
        Registry { map: StringHashMap::new() }
    }

    /// Removes the entry at `name` if present; a no-op if absent.
    pub fn unregister(&mut self, name: &str)
        requires
            old(self).wf(),
        ensures
            final(self)@ == old(self)@.remove(name@),
            final(self).wf(),
    {
        self.map.remove(name);
        proof {
            assert forall|n: Seq<char>| self@.contains_key(n) implies (#[trigger] self@[n]).wf() by {
                assert(old(self)@.contains_key(n));
                assert(self@[n] == old(self)@[n]);
            }
        }
    }

    /// Looks `name` up and, if an entry is registered, applies its callback.
    ///
    /// If no entry exists, returns `Ok(false)` and leaves `value` untouched.
    /// If an entry exists and its recorded tag equals the tag of `value`,
    /// applies the entry's callback to `value` in place and returns
    /// `Ok(true)`. If the tags differ, returns `Err(TypeMismatch)` and leaves
    /// `value` untouched — the mismatch is never bypassed or degraded to a
    /// best-effort cast.
    pub fn invoke(&self, name: &str, value: &mut Value) -> (r: Result<bool, TypeMismatch>)
        requires
            self.wf(),
        ensures
            !self@.contains_key(name@) ==> r == Ok::<bool, TypeMismatch>(false) && *final(value)
                == *old(value),
            self@.contains_key(name@) && self@[name@].type_id == old(value).tag() ==> r
                == Ok::<bool, TypeMismatch>(true) && *final(value) == self@[name@].cb.apply_to(
                *old(value),
            ),
            self@.contains_key(name@) && self@[name@].type_id != old(value).tag() ==> r
                == Err::<bool, TypeMismatch>(TypeMismatch) && *final(value) == *old(value),
    {
        match self.map.get(name) {
            None => Ok(false),
            Some(entry) => {
                if entry.type_id == value.tag() {
                    entry.cb.apply(value);
                    Ok(true)
                } else {
                    Err(TypeMismatch)
                }
            },
        }
    }
}

/// Inserts or replaces the entry at `name`: from then on, values presented
/// under `name` are adjusted by `f`, whatever was registered before. No error
/// is raised on overwrite — the previous entry is silently replaced.
pub fn set_callback(registry: &mut Registry, name: String, f: Callback)
    requires
        old(registry).wf(),
    ensures
        final(registry)@ == old(registry)@.insert(name@, entry_for(f)),
        final(registry).wf(),
{
    let ghost key = name@;
    let ghost installed = f;
    let tag = f.expected_tag();
    let entry = MapEntry::new(tag, f);
    registry.map.insert(name, entry);
    proof {
        assert forall|n: Seq<char>|
            registry@.contains_key(n) implies (#[trigger] registry@[n]).wf() by {
            if n == key {
                assert(registry@[n] == entry_for(installed));
            } else {
                assert(old(registry)@.contains_key(n));
                assert(registry@[n] == old(registry)@[n]);
            }
        }
    }
}

/// The call embedded in production code at a named adjustment point.
///
/// If nothing is registered under `name`, `var` is left completely unchanged —
/// a true no-op beyond the lookup miss. If a callback is registered, it is
/// applied to `var` in place. Either way the call never alters control flow;
/// only the value's contents may change.
///
/// Presenting a value whose type differs from the one recorded at
/// registration is a programming error — a name collision between unrelated
/// call sites — and is ruled out up front; [`Registry::invoke`] is the total
/// variant that reports that case to an unverified caller instead.
pub fn internal_adjust(registry: &Registry, name: &str, var: &mut Value)
    requires
        registry.wf(),
        registry@.contains_key(name@) ==> registry@[name@].type_id == old(var).tag(),
    ensures
        registry@.contains_key(name@) ==> *final(var) == registry@[name@].cb.apply_to(*old(var)),
        !registry@.contains_key(name@) ==> *final(var) == *old(var),
{
    let _hit = registry.invoke(name, var);
}

/// A scoped registration: creating it installs a callback under a name, and
/// closing it removes whatever entry then stands at that name.
///
/// Within its lifetime, any adjustment under the same name observes the
/// installed callback, absent a later overwrite by another registration under
/// that name. Closing the handle removes the current entry unconditionally —
/// even one that a later registration put there — after which adjustments
/// under the name revert to the no-op unless something re-registers it.
#[derive(Debug)]
pub struct ScopedCallback {
    name: String,
}

impl View for ScopedCallback {
    type V = Seq<char>;

    closed spec fn view(&self) -> Seq<char> {
        self.name@
    }
}

impl ScopedCallback {
    /// Registers `f` under `name` and returns the handle that owns the
    /// registration's presence in the registry.
    pub fn new(registry: &mut Registry, name: String, f: Callback) -> (s: ScopedCallback)
        requires
            old(registry).wf(),
        ensures
            final(registry)@ == old(registry)@.insert(name@, entry_for(f)),
            final(registry).wf(),
            s@ == name@,
    {
        let key = name.clone();
        set_callback(registry, key, f);
        ScopedCallback { name }
    }

    /// Ends the registration: removes the entry now standing at this handle's
    /// name, if any. Adjustments under the name then revert to the no-op.
    pub fn close(self, registry: &mut Registry)
        requires
            old(registry).wf(),
        ensures
            final(registry)@ == old(registry)@.remove(self@),
            final(registry).wf(),
    {
        registry.unregister(self.name.as_str());
    }
}

} // verus!
