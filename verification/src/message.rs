//! Messages: the global message type of a session context, which has a variant
//! for each local message type, and the local message types.

use vstd::prelude::*;

verus! {

/// The global message type.
pub trait Global: Sized {
    /// The identifier of the local message type of this message.
    fn id(&self) -> usize;
}

/// A local message type, with a partial mapping from the global message type
/// `GMSG` and a total mapping into it.
pub trait Message<GMSG>: Sized + Send + core::fmt::Debug + core::convert::TryFrom<GMSG> + Into<GMSG> {

}

} // verus!
