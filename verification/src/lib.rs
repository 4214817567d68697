//! An interactive terminal tool's core for browsing and editing a
//! cluster-connection configuration document: the typed document model, the
//! insert-or-replace merge engine, the overlay-style persistence codec that
//! preserves unmodeled top-level fields, and the navigation state machine.
use vstd::prelude::*;

pub mod search;
pub mod types;
pub mod merge;
pub mod nav;
pub mod codec;
pub mod yaml;

verus! {

} // verus!
