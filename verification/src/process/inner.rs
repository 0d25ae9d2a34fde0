//! The life cycle of one process, with its definition.

use vstd::prelude::*;
use crate::lifecycle::{StateId, EventId, HandleEventException, next_state, handle_event};
use crate::process::{ControlFlow, Def, DefView};

verus! {

/// The event that a run loop raises on a control-flow result: `End` on
/// `Break`, none on `Continue`.
pub open spec fn control_flow_event(cf: ControlFlow) -> Option<EventId> {
    match cf {
        ControlFlow::Continue => None,
        ControlFlow::Break => Some(EventId::End),
    }
}

/// A process state machine: its definition, and its state in the life cycle
/// `Ready`, `Running`, `Ended`.
#[derive(Debug)]
pub struct Inner {
    def: Def,
    state: StateId,
}

impl Inner {
    /// The definition of the process.
    pub closed spec fn spec_def(&self) -> DefView {
        self.def@
    }

    /// The state of the process.
    pub closed spec fn spec_state(&self) -> StateId {
        self.state
    }

    /// A process in state `Ready`.
    pub fn new(def: Def) -> (r: Self)
        ensures
            r.spec_def() == def@,
            r.spec_state() == StateId::Ready,
    {
        Inner { def, state: StateId::Ready }
    }

    /// The definition of the process.
    pub fn def(&self) -> (r: &Def)
        ensures
            r@ == self.spec_def(),
    {
        &self.def
    }

    /// The state of the process.
    pub fn state_id(&self) -> (r: StateId)
        ensures
            r == self.spec_state(),
    {
        self.state
    }

    /// Handles an event of the life cycle; a refused event leaves the process
    /// unchanged.
    pub fn handle_event(&mut self, event: EventId) -> (r: Result<(), HandleEventException>)
        ensures
            final(self).spec_def() == old(self).spec_def(),
            r is Ok <==> next_state(old(self).spec_state(), event) is Some,
            r is Ok ==> final(self).spec_state() == next_state(old(self).spec_state(), event)->0,
            r is Err ==> final(self).spec_state() == old(self).spec_state()
                && r == Err::<(), _>(HandleEventException::WrongState),
    {
        handle_event(&mut self.state, event)
    }

    /// Applies the result of a message handler or an update: `Break` ends the
    /// process, which is refused unless it is running; `Continue` changes
    /// nothing.
    pub fn apply_control_flow(&mut self, cf: ControlFlow) -> (r: Result<(), HandleEventException>)
        ensures
            final(self).spec_def() == old(self).spec_def(),
            control_flow_event(cf) is None ==> r is Ok && final(self).spec_state() == old(self).spec_state(),
            control_flow_event(cf) matches Some(event) ==> {
                &&& r is Ok <==> next_state(old(self).spec_state(), event) is Some
                &&& r is Ok ==> final(self).spec_state() == next_state(old(self).spec_state(), event)->0
                &&& r is Err ==> final(self).spec_state() == old(self).spec_state()
            },
    {
        match cf {
            ControlFlow::Continue => Ok(()),
            ControlFlow::Break => self.handle_event(EventId::End),
        }
    }
}

/// A running process that is told to `Break` has ended; `Continue` keeps it
/// running.
pub proof fn lemma_break_ends_running(cf: ControlFlow)
    ensures
        control_flow_event(cf) matches Some(event) ==> next_state(StateId::Running, event) == Some(StateId::Ended),
        control_flow_event(cf) is None <==> cf == ControlFlow::Continue,
{
}

} // verus!
