//! The countdown state machine: status, remaining time and the instant of the
//! last start or tick. Time is counted in nanoseconds; the clock is any
//! monotonic source of nanosecond readings chosen by the caller.

use vstd::prelude::*;

verus! {

/// Nanoseconds in one second.
pub const NANOS_PER_SEC: u128 = 1_000_000_000;

/// Whether the countdown is running. Idle and paused are both `Stopped`.
#[derive(Clone, Copy, Debug, PartialEq, Eq, Structural)]
pub enum Status {
    Running,
    Stopped,
}

/// The abstract state of a countdown.
pub ghost struct CountdownModel {
    pub status: Status,
    /// Remaining time in nanoseconds.
    pub remaining: nat,
    /// Clock reading of the last start or tick, in nanoseconds.
    pub reference: nat,
}

/// Time elapsed from `reference` to `now`; a clock reading earlier than the
/// reference counts as no time at all.
pub open spec fn elapsed_between(reference: nat, now: nat) -> nat {
    if now >= reference {
        (now - reference) as nat
    } else {
        0
    }
}

impl CountdownModel {
    /// Whole seconds left; the fraction of a second is dropped.
    pub open spec fn remaining_secs(self) -> nat {
        self.remaining / (NANOS_PER_SEC as nat)
    }

    /// Running, anchored at `now`.
    pub open spec fn started(self, now: nat) -> CountdownModel {
        CountdownModel { status: Status::Running, remaining: self.remaining, reference: now }
    }

    /// Stopped, with the remaining time kept.
    pub open spec fn paused(self) -> CountdownModel {
        CountdownModel { status: Status::Stopped, remaining: self.remaining, reference: self.reference }
    }

    /// Stopped, with `secs` seconds left.
    pub open spec fn set_to(self, secs: nat) -> CountdownModel {
        CountdownModel {
            status: Status::Stopped,
            remaining: secs * (NANOS_PER_SEC as nat),
            reference: self.reference,
        }
    }

    /// One update at clock reading `now`: a running countdown loses the time
    /// elapsed since the reference, and stops at zero; the reference moves to
    /// `now` whatever the status.
    pub open spec fn ticked(self, now: nat) -> CountdownModel {
        let elapsed = elapsed_between(self.reference, now);
        if self.status == Status::Running {
            if self.remaining > elapsed {
                CountdownModel {
                    status: Status::Running,
                    remaining: (self.remaining - elapsed) as nat,
                    reference: now,
                }
            } else {
                CountdownModel { status: Status::Stopped, remaining: 0, reference: now }
            }
        } else {
            CountdownModel { status: self.status, remaining: self.remaining, reference: now }
        }
    }

    /// The state after one tick at each clock reading of `nows`, in order.
    pub open spec fn ticked_all(self, nows: Seq<nat>) -> CountdownModel
        decreases nows.len(),
    {
        if nows.len() == 0 {
            self
        } else {
            self.ticked(nows[0]).ticked_all(nows.drop_first())
        }
    }
}

/// A countdown timer.
pub struct Countdown {
    status: Status,
    remaining: u128,
    reference: u128,
}

impl View for Countdown {
    type V = CountdownModel;

    closed spec fn view(&self) -> CountdownModel {
        CountdownModel {
            status: self.status,
            remaining: self.remaining as nat,
            reference: self.reference as nat,
        }
    }
}

/// The most nanoseconds a countdown can hold: whole seconds fit in a `u64`.
pub open spec fn remaining_bound() -> nat {
    (u64::MAX as nat + 1) * (NANOS_PER_SEC as nat)
}

impl Countdown {
    /// The remaining time always fits the bound.
    pub open spec fn wf(&self) -> bool {
        self@.remaining < remaining_bound()
    }

    /// A stopped countdown with `secs` seconds left, anchored at `now`.
    pub fn new(secs: u64, now: u128) -> (r: Countdown)
        ensures
            r.wf(),
            r@ == (CountdownModel {
                status: Status::Stopped,
                remaining: secs as nat * (NANOS_PER_SEC as nat),
                reference: now as nat,
            }),
    {
        Countdown { status: Status::Stopped, remaining: secs as u128 * NANOS_PER_SEC, reference: now }
    }

    /// Status of the countdown.
    pub fn status(&self) -> (r: Status)
        ensures
            r == self@.status,
    {
        self.status
    }

    /// Whether the countdown is running.
    pub fn is_running(&self) -> (r: bool)
        ensures
            r == (self@.status == Status::Running),
    {
        self.status == Status::Running
    }

    /// Remaining time in nanoseconds.
    pub fn remaining_nanos(&self) -> (r: u128)
        ensures
            r == self@.remaining,
    {
        self.remaining
    }

    /// Whole seconds left.
    pub fn remaining_secs(&self) -> (r: u64)
        requires
            self.wf(),
        ensures
            r == self@.remaining_secs(),
    {
        (self.remaining / NANOS_PER_SEC) as u64
    }

    /// Starts (or restarts) the countdown at clock reading `now`, whatever
    /// the remaining time, zero included.
    pub fn start(&mut self, now: u128)
        requires
            old(self).wf(),
        ensures
            final(self).wf(),
            final(self)@ == old(self)@.started(now as nat),
    {
        self.status = Status::Running;
        self.reference = now;
    }

    /// Stops the countdown and keeps the remaining time.
    pub fn pause(&mut self)
        requires
            old(self).wf(),
        ensures
            final(self).wf(),
            final(self)@ == old(self)@.paused(),
    {
        self.status = Status::Stopped;
    }

    /// Stops the countdown with `secs` seconds left.
    pub fn reset(&mut self, secs: u64)
        requires
            old(self).wf(),
        ensures
            final(self).wf(),
            final(self)@ == old(self)@.set_to(secs as nat),
    {
        self.status = Status::Stopped;
        self.remaining = secs as u128 * NANOS_PER_SEC;
    }

    /// Stops the countdown with a chosen duration of `secs` seconds.
    pub fn select_preset(&mut self, secs: u64)
        requires
            old(self).wf(),
        ensures
            final(self).wf(),
            final(self)@ == old(self)@.set_to(secs as nat),
    {
        self.status = Status::Stopped;
        self.remaining = secs as u128 * NANOS_PER_SEC;
    }

    /// Advances the countdown to clock reading `now`.
    pub fn tick(&mut self, now: u128)
        requires
            old(self).wf(),
        ensures
            final(self).wf(),
            final(self)@ == old(self)@.ticked(now as nat),
    {
        let elapsed: u128 = if now >= self.reference {
            now - self.reference
        } else {
            0
        };
        if self.status == Status::Running {
            if self.remaining > elapsed {
                self.remaining = self.remaining - elapsed;
            } else {
                self.remaining = 0;
                self.status = Status::Stopped;
            }
        }
        self.reference = now;
    }
}

/// Ticking never adds time; once stopped, a countdown stays stopped with the
/// same remaining time; and a countdown that was running with time left is
/// stopped after the ticks exactly when no time is left.
pub proof fn lemma_ticks_clamp_and_stop(m: CountdownModel, nows: Seq<nat>)
    ensures
        m.ticked_all(nows).remaining <= m.remaining,
        m.status == Status::Stopped ==> m.ticked_all(nows).status == Status::Stopped
            && m.ticked_all(nows).remaining == m.remaining,
        m.status == Status::Running && m.remaining > 0 ==> (m.ticked_all(nows).status
            == Status::Stopped <==> m.ticked_all(nows).remaining == 0),
    decreases nows.len(),
{
    if nows.len() > 0 {
        lemma_ticks_clamp_and_stop(m.ticked(nows[0]), nows.drop_first());
    }
}

/// After at least one tick, a running countdown has time left.
pub proof fn lemma_running_after_tick_has_time(m: CountdownModel, nows: Seq<nat>)
    requires
        nows.len() > 0,
    ensures
        m.ticked_all(nows).status == Status::Running ==> m.ticked_all(nows).remaining > 0,
    decreases nows.len(),
{
    let next = m.ticked(nows[0]);
    lemma_ticks_clamp_and_stop(next, nows.drop_first());
    if nows.len() > 1 {
        lemma_running_after_tick_has_time(next, nows.drop_first());
    }
}

/// A tick at the very instant of the start leaves the remaining time as it was.
pub proof fn lemma_start_then_tick_same_instant(m: CountdownModel, now: nat)
    ensures
        m.started(now).ticked(now).remaining == m.remaining,
{
}

} // verus!
