//! Reactive, session-oriented process-calculus framework: the definitions of
//! channels, processes and sessions and their validation, the life cycle of
//! processes and sessions, the decisions of the process run loops, and the
//! data-flow diagram of a session.
//!
//! Channel, process and message identifiers are the indices of the variants of
//! the identifier enums that a session context declares.

pub mod channel;
pub mod escape;
pub mod ids;
pub mod lifecycle;
pub mod message;
pub mod process;
pub mod session;
pub mod vec_maps;
