//! The life cycle that processes and sessions share: `Ready`, then `Running`
//! on `Run`, then `Ended` on `End`.

use vstd::prelude::*;

verus! {

/// The states of the life cycle.
#[derive(Clone, Copy, Debug, PartialEq, Eq, Structural)]
pub enum StateId {
    Ready,
    Running,
    Ended,
}

/// The events of the life cycle.
#[derive(Clone, Copy, Debug, PartialEq, Eq, Structural)]
pub enum EventId {
    /// `Ready` to `Running`.
    Run,
    /// `Running` to `Ended`.
    End,
}

/// Exceptional result of handling an event: the machine was not in the
/// source state of the event.
#[derive(Clone, Copy, Debug, PartialEq, Eq, Structural)]
pub enum HandleEventException {
    WrongState,
}

/// The source state of an event.
pub open spec fn source(event: EventId) -> StateId {
    match event {
        EventId::Run => StateId::Ready,
        EventId::End => StateId::Running,
    }
}

/// The target state of an event.
pub open spec fn target(event: EventId) -> StateId {
    match event {
        EventId::Run => StateId::Running,
        EventId::End => StateId::Ended,
    }
}

/// The state after handling `event` in `state`, or `None` where the event is
/// refused.
pub open spec fn next_state(state: StateId, event: EventId) -> Option<StateId> {
    if state == source(event) {
        Some(target(event))
    } else {
        None
    }
}

/// Handles `event` in `*state`: moves to the event's target state where the
/// machine is in its source state, and otherwise refuses the event with
/// `WrongState` and leaves the state unchanged.
pub fn handle_event(state: &mut StateId, event: EventId) -> (r: Result<(), HandleEventException>)
    ensures
        r is Ok <==> next_state(*old(state), event) is Some,
        r is Ok ==> *final(state) == next_state(*old(state), event)->0,
        r is Err ==> *final(state) == *old(state) && r == Err::<(), _>(HandleEventException::WrongState),
{
    let (from, to) = match event {
        EventId::Run => (StateId::Ready, StateId::Running),
        EventId::End => (StateId::Running, StateId::Ended),
    };
    if *state == from {
        *state = to;
        Ok(())
    } else {
        Err(HandleEventException::WrongState)
    }
}

/// `Ended` is terminal: no event leaves it.
pub proof fn lemma_ended_is_terminal(event: EventId)
    ensures
        next_state(StateId::Ended, event) is None,
{
}

/// Each state is reached by one event sequence from `Ready`: `Run` leads to
/// `Running`, and `Run` then `End` to `Ended`; a state never returns to an
/// earlier one.
pub proof fn lemma_run_then_end()
    ensures
        next_state(StateId::Ready, EventId::Run) == Some(StateId::Running),
        next_state(StateId::Running, EventId::End) == Some(StateId::Ended),
        next_state(StateId::Ready, EventId::End) is None,
        next_state(StateId::Running, EventId::Run) is None,
{
}

} // verus!
