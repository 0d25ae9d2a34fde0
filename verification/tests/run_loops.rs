use apis::lifecycle::{EventId, HandleEventException, StateId};
use apis::process::inner::Inner;
use apis::process::run::{AsynchronousLoop, SynchronousLoop};
use apis::process::{ControlFlow, Def, Kind};

const MS: u64 = 1_000_000;

#[test]
fn synchronous_loop_updates_every_few_ticks() {
    // ticks every 20 ms, updates every third tick
    let t0: u64 = 1_000 * MS;
    let mut l = SynchronousLoop::new(20, 3, t0);
    assert_eq!(l.t_next(), t0 as u128);
    // the first tick is due as soon as time has passed the start
    assert!(!l.begin_tick(t0));
    assert!(l.begin_tick(t0 + 1));
    assert_eq!(l.t_next(), (t0 + 20 * MS) as u128);
    let mut updates = vec![];
    for tick in 0..9u64 {
        if tick > 0 {
            assert!(l.begin_tick(t0 + tick * 20 * MS + 1));
        }
        l.message_handled();
        updates.push(l.end_tick());
    }
    assert_eq!(updates, vec![false, false, true, false, false, true, false, false, true]);
    assert_eq!(l.tick_count(), 9);
    assert_eq!(l.update_count(), 3);
    assert_eq!(l.message_count(), 9);
    assert_eq!(l.t_next(), (t0 + 9 * 20 * MS) as u128);
}

#[test]
fn synchronous_loop_sleeps_until_next_tick() {
    let t0: u64 = 5_000 * MS;
    let mut l = SynchronousLoop::new(20, 1, t0);
    assert!(l.begin_tick(t0 + 3 * MS));
    // next tick at t0 + 20 ms; 12.5 ms left: sleep 12 + 1 ms
    assert_eq!(l.sleep_ms(t0 + 7 * MS + MS / 2), Some(13));
    // a late tick: no sleep
    assert_eq!(l.sleep_ms(t0 + 20 * MS), None);
    assert_eq!(l.sleep_ms(t0 + 25 * MS), None);
    // too early: not due
    assert!(!l.begin_tick(t0 + 20 * MS));
    assert!(l.end_tick());
}

#[test]
fn asynchronous_loop_updates_every_few_messages() {
    let mut l = AsynchronousLoop::new(2);
    let updates: Vec<bool> = (0..5).map(|_| l.message_handled()).collect();
    assert_eq!(updates, vec![false, true, false, true, false]);
    assert_eq!(l.message_count(), 5);
    assert_eq!(l.update_count(), 2);
    let mut every = AsynchronousLoop::new(1);
    assert!(every.message_handled());
    assert!(every.message_handled());
    assert_eq!(every.update_count(), 2);
}

#[test]
fn process_life_cycle() {
    let def = Def::define(0, Kind::default_asynchronous(), vec![], vec![1]).unwrap();
    let mut inner = Inner::new(def.clone());
    assert_eq!(*inner.def(), def);
    assert_eq!(inner.state_id(), StateId::Ready);
    // a break before the process runs is refused
    assert_eq!(inner.apply_control_flow(ControlFlow::Break), Err(HandleEventException::WrongState));
    assert_eq!(inner.state_id(), StateId::Ready);
    assert_eq!(inner.handle_event(EventId::Run), Ok(()));
    assert_eq!(inner.apply_control_flow(ControlFlow::Continue), Ok(()));
    assert_eq!(inner.state_id(), StateId::Running);
    assert_eq!(inner.apply_control_flow(ControlFlow::Break), Ok(()));
    assert_eq!(inner.state_id(), StateId::Ended);
    // a second break is refused: the process has ended
    assert_eq!(inner.apply_control_flow(ControlFlow::Break), Err(HandleEventException::WrongState));
    assert_eq!(inner.apply_control_flow(ControlFlow::Continue), Ok(()));
    assert_eq!(inner.state_id(), StateId::Ended);
}
