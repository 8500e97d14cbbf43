//! A test-value injection seam: a named-callback registry that lets production
//! code expose adjustment points where a value can be mutated in place by
//! test-registered callbacks.
//!
//! In normal operation every adjustment point is a no-op: looking up a name
//! that nobody registered leaves the caller's value untouched. During testing,
//! code installs a callback under a name, and a later lookup under the same
//! name applies that callback to the caller's value.
//!
//! Values travel through the registry type-erased, as the tagged union
//! [`Value`]; the [`TypeTag`] recorded at registration is checked against the
//! tag of every value presented at invocation, so a name collision between
//! unrelated call sites of different types is caught instead of silently
//! corrupting a value.

mod callback;
mod laws;
mod registry;
mod value;

pub use callback::Callback;
pub use laws::{lemma_basic_override, lemma_isolation, lemma_overwrite, lemma_scoped_removal};
pub use registry::{
    entry_for, internal_adjust, set_callback, MapEntry, Registry, ScopedCallback, TypeMismatch,
};
pub use value::{TypeTag, Value};
