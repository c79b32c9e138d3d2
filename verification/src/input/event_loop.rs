//! The events that reach the session, and the timing of the ticks among them.

use vstd::prelude::*;

verus! {

/// What the input source sends: a key that was pressed, or a tick of its
/// timer. A tick carries nothing; it only lets the session redraw.
pub enum Event<T> {
    Input(T),
    Tick,
}

/// The timer of the input source. The source waits for a key no longer than
/// until the next tick is due, and sends a tick once the tick rate has passed
/// since the last one. Times are nanoseconds on a clock that never runs
/// backwards.
pub struct TickTimer {
    tick_rate: u64,
    last_tick: u64,
}

/// A [`TickTimer`] as natural numbers.
pub struct TickTimerView {
    pub tick_rate: nat,
    pub last_tick: nat,
}

impl TickTimerView {
    /// Time passed at `now` since the last tick.
    pub open spec fn elapsed(self, now: nat) -> nat {
        if now >= self.last_tick {
            (now - self.last_tick) as nat
        } else {
            0
        }
    }

    /// Whether a tick is to be sent at `now`.
    pub open spec fn tick_due(self, now: nat) -> bool {
        self.elapsed(now) >= self.tick_rate
    }

    /// How long the source may wait for a key at `now`: the time left until
    /// the next tick is due.
    pub open spec fn timeout(self, now: nat) -> nat {
        if self.tick_due(now) {
            0
        } else {
            (self.tick_rate - self.elapsed(now)) as nat
        }
    }
}

impl View for TickTimer {
    type V = TickTimerView;

    closed spec fn view(&self) -> TickTimerView {
        TickTimerView { tick_rate: self.tick_rate as nat, last_tick: self.last_tick as nat }
    }
}

impl TickTimer {
    /// A timer that ticks every `tick_rate`, counting from `now`.
    pub fn start(tick_rate: u64, now: u64) -> (timer: TickTimer)
        ensures
            timer@ == (TickTimerView { tick_rate: tick_rate as nat, last_tick: now as nat }),
    {
        TickTimer { tick_rate, last_tick: now }
    }

    /// The longest that a wait for a key may take at `now`.
    pub fn timeout(&self, now: u64) -> (wait: u64)
        ensures
            wait == self@.timeout(now as nat),
    {
        let elapsed: u64 = if now >= self.last_tick {
            now - self.last_tick
        } else {
            0
        };
        if elapsed >= self.tick_rate {
            0
        } else {
            self.tick_rate - elapsed
        }
    }

    /// Tells whether a tick is to be sent at `now`.
    pub fn tick_due(&self, now: u64) -> (due: bool)
        ensures
            due == self@.tick_due(now as nat),
    {
        let elapsed: u64 = if now >= self.last_tick {
            now - self.last_tick
        } else {
            0
        };
        elapsed >= self.tick_rate
    }

    /// Records that a tick was sent at `now`: the next one is due a full tick
    /// rate later.
    pub fn tick_sent(&mut self, now: u64)
        ensures
            final(self)@ == (TickTimerView { last_tick: now as nat, ..old(self)@ }),
    {
        self.last_tick = now;
    }
}

/// A wait never outlasts the tick rate, ends no later than the next tick is
/// due, and is zero exactly when a tick is due.
pub proof fn law_timeout_meets_deadline(timer: TickTimerView, now: nat)
    ensures
        timer.timeout(now) <= timer.tick_rate,
        timer.elapsed(now) + timer.timeout(now) >= timer.tick_rate,
        timer.timeout(now) == 0 <==> timer.tick_due(now),
        !timer.tick_due(now) ==> timer.elapsed(now) + timer.timeout(now) == timer.tick_rate,
{
}

} // verus!
