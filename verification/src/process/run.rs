//! The decisions of the process run loops, apart from the waiting, the
//! receiving and the handling that the loops do.
//!
//! Times are nanoseconds since a fixed origin.

use vstd::prelude::*;

verus! {

/// Nanoseconds in a millisecond.
pub const NANOS_PER_MILLI: u64 = 1_000_000;

/// The state of the fixed-timestep loop of a synchronous process.
pub struct SynchronousLoopView {
    pub tick_ns: nat,
    pub ticks_per_update: nat,
    pub t_next: int,
    pub ticks_since_update: nat,
    pub tick_count: nat,
    pub update_count: nat,
    pub message_count: nat,
}

/// The fixed-timestep loop of a synchronous process: the time of the next
/// tick, and how many ticks, messages and updates there have been.
///
/// A tick is due once the time of the next tick has passed; the loop then
/// polls its endpoints, and every `ticks_per_update`-th tick is followed by an
/// update. When the next tick is not yet due the loop sleeps until it is, plus
/// one millisecond since the thread usually wakes up slightly early.
#[derive(Debug)]
pub struct SynchronousLoop {
    tick_ns: u128,
    ticks_per_update: u32,
    t_next: u128,
    ticks_since_update: u32,
    tick_count: u64,
    update_count: u64,
    message_count: u64,
}

impl View for SynchronousLoop {
    type V = SynchronousLoopView;

    closed spec fn view(&self) -> SynchronousLoopView {
        SynchronousLoopView {
            tick_ns: self.tick_ns as nat,
            ticks_per_update: self.ticks_per_update as nat,
            t_next: self.t_next as int,
            ticks_since_update: self.ticks_since_update as nat,
            tick_count: self.tick_count as nat,
            update_count: self.update_count as nat,
            message_count: self.message_count as nat,
        }
    }
}

/// Every `ticks_per_update` ticks there is one update: the ticks so far are
/// the updates times `ticks_per_update`, plus the ticks since the last update,
/// which are fewer than `ticks_per_update`.
pub open spec fn ticks_counted(v: SynchronousLoopView) -> bool {
    &&& v.ticks_per_update >= 1
    &&& v.ticks_since_update < v.ticks_per_update
    &&& v.tick_count == v.update_count * v.ticks_per_update + v.ticks_since_update
}

impl SynchronousLoop {
    #[verifier::type_invariant]
    spec fn inv(self) -> bool {
        &&& 1 <= self.ticks_per_update
        &&& self.ticks_since_update < self.ticks_per_update
        &&& self.tick_count as int == self.update_count as int * self.ticks_per_update as int
            + self.ticks_since_update as int
        &&& 1 <= self.tick_ns <= u32::MAX as u128 * NANOS_PER_MILLI as u128
        &&& self.t_next <= u64::MAX as u128 + self.tick_ns
    }

    /// The loop of a process of kind `Synchronous { tick_ms, ticks_per_update }`
    /// started at `t_start`: the first tick is due at once.
    pub fn new(tick_ms: u32, ticks_per_update: u32, t_start: u64) -> (r: Self)
        requires
            1 <= tick_ms,
            1 <= ticks_per_update,
        ensures
            r@ == (SynchronousLoopView {
                tick_ns: tick_ms as nat * NANOS_PER_MILLI as nat,
                ticks_per_update: ticks_per_update as nat,
                t_next: t_start as int,
                ticks_since_update: 0,
                tick_count: 0,
                update_count: 0,
                message_count: 0,
            }),
            ticks_counted(r@),
    {
        let tick_ns: u128 = tick_ms as u128 * NANOS_PER_MILLI as u128;
        SynchronousLoop {
            tick_ns,
            ticks_per_update,
            t_next: t_start as u128,
            ticks_since_update: 0,
            tick_count: 0,
            update_count: 0,
            message_count: 0,
        }
    }

    /// The time at which the next tick is due.
    pub fn t_next(&self) -> (r: u128)
        ensures
            r == self@.t_next,
    {
        self.t_next
    }

    /// The number of ticks so far.
    pub fn tick_count(&self) -> (r: u64)
        ensures
            r == self@.tick_count,
    {
        self.tick_count
    }

    /// The number of updates so far.
    pub fn update_count(&self) -> (r: u64)
        ensures
            r == self@.update_count,
    {
        self.update_count
    }

    /// The number of messages handled so far.
    pub fn message_count(&self) -> (r: u64)
        ensures
            r == self@.message_count,
    {
        self.message_count
    }

    /// At time `t_now`: whether a tick is due, that is whether the time of the
    /// next tick has passed; if so, the next tick is one tick later.
    pub fn begin_tick(&mut self, t_now: u64) -> (due: bool)
        ensures
            due == (old(self)@.t_next < t_now),
            due ==> final(self)@ == (SynchronousLoopView {
                t_next: old(self)@.t_next + old(self)@.tick_ns,
                ..old(self)@
            }),
            !due ==> final(self)@ == old(self)@,
            ticks_counted(final(self)@),
    {
        proof {
            use_type_invariant(&*self);
        }
        if self.t_next < t_now as u128 {
            *self = SynchronousLoop { t_next: self.t_next + self.tick_ns, ..*self };
            true
        } else {
            false
        }
    }

    /// Counts a message handled during a tick.
    pub fn message_handled(&mut self)
        requires
            old(self)@.message_count < u64::MAX,
        ensures
            final(self)@ == (SynchronousLoopView {
                message_count: old(self)@.message_count + 1,
                ..old(self)@
            }),
            ticks_counted(final(self)@),
    {
        proof {
            use_type_invariant(&*self);
        }
        *self = SynchronousLoop { message_count: self.message_count + 1, ..*self };
    }

    /// Ends a tick after its messages are polled: whether an update is due,
    /// which it is on every `ticks_per_update`-th tick. A due update is
    /// counted, and the count of ticks since the last update starts again.
    pub fn end_tick(&mut self) -> (update: bool)
        requires
            old(self)@.tick_count < u64::MAX,
        ensures
            update == (old(self)@.ticks_since_update + 1 == old(self)@.ticks_per_update),
            final(self)@.tick_count == old(self)@.tick_count + 1,
            update ==> final(self)@.update_count == old(self)@.update_count + 1
                && final(self)@.ticks_since_update == 0,
            !update ==> final(self)@.update_count == old(self)@.update_count
                && final(self)@.ticks_since_update == old(self)@.ticks_since_update + 1,
            final(self)@.tick_ns == old(self)@.tick_ns,
            final(self)@.ticks_per_update == old(self)@.ticks_per_update,
            final(self)@.t_next == old(self)@.t_next,
            final(self)@.message_count == old(self)@.message_count,
            ticks_counted(final(self)@),
    {
        proof {
            use_type_invariant(&*self);
        }
        let ghost u = self.update_count as int;
        let ghost p = self.ticks_per_update as int;
        let tick_count = self.tick_count + 1;
        let since = self.ticks_since_update + 1;
        if since == self.ticks_per_update {
            proof {
                assert((u + 1) * p == u * p + p) by (nonlinear_arith);
                assert(u * p >= u) by (nonlinear_arith)
                    requires
                        u >= 0,
                        p >= 1,
                ;
            }
            *self = SynchronousLoop {
                tick_count,
                ticks_since_update: 0,
                update_count: self.update_count + 1,
                ..*self
            };
            true
        } else {
            *self = SynchronousLoop { tick_count, ticks_since_update: since, ..*self };
            false
        }
    }

    /// At time `t_after`, after a tick or a too-early wake-up: the milliseconds
    /// to sleep until the next tick is due, plus one; `None` where it is
    /// already due (a late tick, no sleep).
    pub fn sleep_ms(&self, t_after: u64) -> (r: Option<u64>)
        ensures
            (t_after as int) < self@.t_next <==> r is Some,
            r matches Some(ms) ==> ms == 1 + (self@.t_next - t_after) / NANOS_PER_MILLI as int,
    {
        proof {
            use_type_invariant(self);
        }
        if (t_after as u128) < self.t_next {
            let until: u128 = self.t_next - t_after as u128;
            let ms: u128 = until / NANOS_PER_MILLI as u128;
            proof {
                assert(until < 0x4_0000_0000_0000_0000u128);
                assert(ms * 1_000_000 <= until) by (nonlinear_arith)
                    requires
                        ms == until / 1_000_000,
                ;
            }
            Some(1 + ms as u64)
        } else {
            None
        }
    }
}

/// The state of the loop of an asynchronous process.
pub struct AsynchronousLoopView {
    pub messages_per_update: nat,
    pub messages_since_update: nat,
    pub message_count: nat,
    pub update_count: nat,
}

/// The loop of an asynchronous process, which waits on its one endpoint and
/// updates after every `messages_per_update` messages.
#[derive(Debug)]
pub struct AsynchronousLoop {
    messages_per_update: u32,
    messages_since_update: u32,
    message_count: u64,
    update_count: u64,
}

impl View for AsynchronousLoop {
    type V = AsynchronousLoopView;

    closed spec fn view(&self) -> AsynchronousLoopView {
        AsynchronousLoopView {
            messages_per_update: self.messages_per_update as nat,
            messages_since_update: self.messages_since_update as nat,
            message_count: self.message_count as nat,
            update_count: self.update_count as nat,
        }
    }
}

/// Every `messages_per_update` messages there is one update: the messages so
/// far are the updates times `messages_per_update`, plus the messages since the
/// last update, which are fewer than `messages_per_update`.
pub open spec fn messages_counted(v: AsynchronousLoopView) -> bool {
    &&& v.messages_per_update >= 1
    &&& v.messages_since_update < v.messages_per_update
    &&& v.message_count == v.update_count * v.messages_per_update + v.messages_since_update
}

impl AsynchronousLoop {
    #[verifier::type_invariant]
    spec fn inv(self) -> bool {
        &&& 1 <= self.messages_per_update
        &&& self.messages_since_update < self.messages_per_update
        &&& self.message_count as int == self.update_count as int * self.messages_per_update as int
            + self.messages_since_update as int
    }

    /// The loop of a process of kind `Asynchronous { messages_per_update }`.
    pub fn new(messages_per_update: u32) -> (r: Self)
        requires
            1 <= messages_per_update,
        ensures
            r@ == (AsynchronousLoopView {
                messages_per_update: messages_per_update as nat,
                messages_since_update: 0,
                message_count: 0,
                update_count: 0,
            }),
            messages_counted(r@),
    {
        AsynchronousLoop { messages_per_update, messages_since_update: 0, message_count: 0, update_count: 0 }
    }

    /// The number of messages handled so far.
    pub fn message_count(&self) -> (r: u64)
        ensures
            r == self@.message_count,
    {
        self.message_count
    }

    /// The number of updates so far.
    pub fn update_count(&self) -> (r: u64)
        ensures
            r == self@.update_count,
    {
        self.update_count
    }

    /// Counts a handled message: whether an update is due, which it is once
    /// `messages_per_update` messages have been handled since the last one. A
    /// due update is counted, and the count of messages since the last update
    /// starts again.
    pub fn message_handled(&mut self) -> (update: bool)
        requires
            old(self)@.message_count < u64::MAX,
        ensures
            update == (old(self)@.messages_per_update <= old(self)@.messages_since_update + 1),
            final(self)@.message_count == old(self)@.message_count + 1,
            final(self)@.messages_per_update == old(self)@.messages_per_update,
            update ==> final(self)@.update_count == old(self)@.update_count + 1
                && final(self)@.messages_since_update == 0,
            !update ==> final(self)@.update_count == old(self)@.update_count
                && final(self)@.messages_since_update == old(self)@.messages_since_update + 1,
            messages_counted(final(self)@),
    {
        proof {
            use_type_invariant(&*self);
        }
        let ghost u = self.update_count as int;
        let ghost p = self.messages_per_update as int;
        let message_count = self.message_count + 1;
        let since = self.messages_since_update + 1;
        if self.messages_per_update <= since {
            proof {
                assert((u + 1) * p == u * p + p) by (nonlinear_arith);
                assert(u * p >= u) by (nonlinear_arith)
                    requires
                        u >= 0,
                        p >= 1,
                ;
            }
            *self = AsynchronousLoop {
                message_count,
                messages_since_update: 0,
                update_count: self.update_count + 1,
                ..*self
            };
            true
        } else {
            *self = AsynchronousLoop { message_count, messages_since_update: since, ..*self };
            false
        }
    }
}

} // verus!
