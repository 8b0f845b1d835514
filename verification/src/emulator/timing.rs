//! The dual-clock timing model: a 500 Hz instruction clock and a 60 Hz
//! timer clock. The scheduler decides, from the current time, which clock
//! is due to be serviced next; the host loop performs the tick it names
//! and sleeps when neither is due. On simultaneous firing the timer clock
//! is serviced first: it is lower frequency and time-sensitive for audio.

use vstd::prelude::*;

verus! {

/// Microseconds between instruction ticks (500 Hz).
pub const INSTRUCTION_PERIOD_MICROS: u64 = 2000;

/// Microseconds between timer ticks (60 Hz).
pub const TIMER_PERIOD_MICROS: u64 = 16666;

/// What the host loop should do next.
#[derive(Clone, Copy, Debug, PartialEq, Eq, Structural)]
pub enum ClockAction {
    /// Service the 60 Hz clock: decay the timers and drive the buzzer.
    RunTimerTick,
    /// Service the 500 Hz clock: fetch, decode and execute one word.
    RunInstructionTick,
    /// Neither clock is due; sleep until the named instant (microseconds).
    WaitUntil(u64),
}

/// `a + b`, stopping at the top of the 64-bit range.
pub open spec fn saturating_add_u64(a: u64, b: u64) -> u64 {
    if a + b <= u64::MAX {
        (a + b) as u64
    } else {
        u64::MAX
    }
}

/// The two clocks' next deadlines, in microseconds of some fixed epoch.
pub struct Scheduler {
    pub next_instruction_due: u64,
    pub next_timer_due: u64,
}

/// `a + b` in 64 bits, stopping at the top of the range.
fn saturating_add(a: u64, b: u64) -> (r: u64)
    ensures
        r == saturating_add_u64(a, b),
{
    if a <= u64::MAX - b {
        a + b
    } else {
        u64::MAX
    }
}

impl Scheduler {
    /// Both clocks armed one period after `now`.
    pub fn new(now: u64) -> (r: Self)
        ensures
            r.next_instruction_due == saturating_add_u64(now, INSTRUCTION_PERIOD_MICROS),
            r.next_timer_due == saturating_add_u64(now, TIMER_PERIOD_MICROS),
    {
        Scheduler {
            next_instruction_due: saturating_add(now, INSTRUCTION_PERIOD_MICROS),
            next_timer_due: saturating_add(now, TIMER_PERIOD_MICROS),
        }
    }

    /// Decide the next scheduling turn at time `now`: service the timer
    /// clock if due (first on a tie), else the instruction clock if due,
    /// else wait for the earlier deadline. Servicing a clock re-arms it
    /// one period later.
    pub fn next_action(&mut self, now: u64) -> (a: ClockAction)
        ensures
            now >= old(self).next_timer_due ==> a == ClockAction::RunTimerTick
                && final(self).next_timer_due == saturating_add_u64(
                old(self).next_timer_due,
                TIMER_PERIOD_MICROS,
            ) && final(self).next_instruction_due == old(self).next_instruction_due,
            now < old(self).next_timer_due && now >= old(self).next_instruction_due ==> a
                == ClockAction::RunInstructionTick && final(self).next_instruction_due
                == saturating_add_u64(old(self).next_instruction_due, INSTRUCTION_PERIOD_MICROS)
                && final(self).next_timer_due == old(self).next_timer_due,
            now < old(self).next_timer_due && now < old(self).next_instruction_due ==> a
                == ClockAction::WaitUntil(
                if old(self).next_timer_due < old(self).next_instruction_due {
                    old(self).next_timer_due
                } else {
                    old(self).next_instruction_due
                },
            ) && *final(self) == *old(self),
    {
        if now >= self.next_timer_due {
            self.next_timer_due = saturating_add(self.next_timer_due, TIMER_PERIOD_MICROS);
            ClockAction::RunTimerTick
        } else if now >= self.next_instruction_due {
            self.next_instruction_due = saturating_add(
                self.next_instruction_due,
                INSTRUCTION_PERIOD_MICROS,
            );
            ClockAction::RunInstructionTick
        } else {
            let earlier: u64 = if self.next_timer_due < self.next_instruction_due {
                self.next_timer_due
            } else {
                self.next_instruction_due
            };
            ClockAction::WaitUntil(earlier)
        }
    }
}

} // verus!
