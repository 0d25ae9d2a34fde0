//! Process results.

use vstd::prelude::*;

verus! {

/// The global process result type: one variant for each process result type of
/// a session context.
pub trait Global {
}

/// A constraint on process result types: they have a default, from which a
/// process starts, and can be cloned.
pub trait Presult: Clone + Default {
}

} // verus!
