//! Garbage-collected object handles.
//!
//! A [`GC`] handle is a copyable, hashable, non-owning reference to a heap
//! object: a slot index paired with the generation the slot carried when the
//! handle was made, so a handle to a freed (and possibly recycled) slot can
//! always be told apart from a live one.  Handle identity (`ptr_eq`) is the
//! always-available fallback for equality of non-primitive values, distinct
//! from value equality.

use vstd::prelude::*;
use crate::variant::Variant;

verus! {

/// Non-owning handle to a heap slot, copyable and hashable.  A handle is
/// valid while the slot it names is live under the same generation; freeing
/// a slot advances its generation and so invalidates every outstanding
/// handle to it.
#[derive(Debug, Clone, Copy, PartialEq, Eq, Structural, Hash)]
pub struct GC {
    pub index: u32,
    pub generation: u32,
}

impl GC {
    /// Slot index this handle names.
    pub fn index(&self) -> (r: u32)
        ensures
            r == self.index,
    {
        self.index
    }

    /// Identity comparison: two handles are the same object exactly when
    /// they name the same slot under the same generation.  This is distinct
    /// from value equality and is the always-available fallback for
    /// equality of non-primitive objects.
    pub fn ptr_eq(self_gc: &GC, other_gc: &GC) -> (r: bool)
        ensures
            r == (self_gc.index == other_gc.index
                && self_gc.generation == other_gc.generation),
    {
        self_gc.index == other_gc.index && self_gc.generation == other_gc.generation
    }
}

} // verus!
