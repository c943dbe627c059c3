//! The clock source: classifies each poll as a Rise, Fall or Unchanged
//! edge and advances the step counter on every Rise. Two interchangeable
//! variants share one polling interface: an external edge detector fed by a
//! digital input level, and a free-running internal generator driven by the
//! millisecond counter.

use vstd::prelude::*;
use crate::sequence::Sequence;
use crate::trigger_state::TriggerState;
use crate::{DELAY_TIME, USE_INTERNAL_CLOCK};

verus! {

/// The step counter is an index into the active sequence.
pub type StepCounterType = usize;

/// The clock's single output per poll: the edge classification and the
/// step counter after any advancement.
pub struct ClockResult {
    pub trigger_state: TriggerState,
    pub step_counter: StepCounterType,
}

/// The step counter after one Rise: one step forward, wrapping to 0 when
/// the end of the sequence is reached (or overshot after a preset change).
pub open spec fn next_step(step: StepCounterType, len: usize) -> StepCounterType {
    if step < len - 1 {
        (step + 1) as usize
    } else {
        0
    }
}

/// Advancing the step counter always lands inside the sequence, and a Rise
/// on the last step wraps around to step 0.
pub proof fn lemma_next_step_in_range(step: StepCounterType, len: usize)
    requires
        len >= 1,
    ensures
        0 <= next_step(step, len) < len,
        step == len - 1 ==> next_step(step, len) == 0,
{
}

/// The step counter stays inside the sequence after any number of Rise
/// edges: starting in range, every further Rise keeps it in range.
pub proof fn lemma_step_counter_in_range_after_rises(step: StepCounterType, len: usize, n: nat)
    requires
        len >= 1,
        0 <= step < len,
    ensures
        0 <= step_after_rises(step, len, n) < len,
    decreases n,
{
    if n > 0 {
        lemma_step_counter_in_range_after_rises(step, len, (n - 1) as nat);
    }
}

/// The step counter after `n` consecutive Rise edges.
pub open spec fn step_after_rises(step: StepCounterType, len: usize, n: nat) -> StepCounterType
    decreases n,
{
    if n == 0 {
        step
    } else {
        next_step(step_after_rises(step, len, (n - 1) as nat), len)
    }
}

/// Level-latched edge detection: a high level is a Rise unless the last
/// recognized edge was already a Rise, a low level is a Fall unless the
/// last recognized edge was already a Fall; anything else is Unchanged.
pub open spec fn external_edge(last_recognized: TriggerState, pin_high: bool) -> TriggerState {
    if pin_high && last_recognized != TriggerState::Rise {
        TriggerState::Rise
    } else if !pin_high && last_recognized != TriggerState::Fall {
        TriggerState::Fall
    } else {
        TriggerState::Unchanged
    }
}

/// Edge detector over an externally supplied clock level, latching the
/// last recognized edge so that a held level produces each edge only once.
/// The physical input pin is sampled by the caller and enters `check` as a
/// plain level.
pub struct ExternalClock {
    pub step_counter: StepCounterType,
    pub last_important_trigger_state: TriggerState,
}

impl ExternalClock {
    /// A fresh detector: step 0, no edge recognized yet.
    pub fn new() -> (result: Self)
        ensures
            result.step_counter == 0,
            result.last_important_trigger_state == TriggerState::Unchanged,
    {
        Self { step_counter: 0, last_important_trigger_state: TriggerState::Unchanged }
    }

    /// The detector state after one poll at the given level.
    pub open spec fn spec_check(self, sequence: Sequence, pin_high: bool) -> (Self, ClockResult) {
        let edge = external_edge(self.last_important_trigger_state, pin_high);
        let post = match edge {
            TriggerState::Rise => (Self {
                step_counter: next_step(self.step_counter, sequence.len()),
                last_important_trigger_state: TriggerState::Rise,
            }),
            TriggerState::Fall => (Self {
                step_counter: self.step_counter,
                last_important_trigger_state: TriggerState::Fall,
            }),
            TriggerState::Unchanged => self,
        };
        (post, (ClockResult { trigger_state: edge, step_counter: post.step_counter }))
    }

    fn get_new_trigger_state(&self, pin_high: bool) -> (result: TriggerState)
        ensures
            result == external_edge(self.last_important_trigger_state, pin_high),
    {
        match pin_high {
            true if self.last_important_trigger_state != TriggerState::Rise => TriggerState::Rise,
            false if self.last_important_trigger_state != TriggerState::Fall => TriggerState::Fall,
            _ => TriggerState::Unchanged,
        }
    }

    fn advance_step_counter(&mut self, sequence: Sequence)
        requires
            sequence.wf(),
        ensures
            final(self).step_counter == next_step(old(self).step_counter, sequence.len()),
            final(self).last_important_trigger_state == old(self).last_important_trigger_state,
    {
        if self.step_counter < sequence.len() - 1 {
            self.step_counter += 1
        } else {
            self.step_counter = 0
        }
    }

    /// One poll: classify the edge from the sampled level, advance the step
    /// counter on a Rise, and latch the recognized edge.
    pub fn check(&mut self, sequence: Sequence, pin_high: bool) -> (result: ClockResult)
        requires
            sequence.wf(),
        ensures
            (*final(self), result) == old(self).spec_check(sequence, pin_high),
            result.trigger_state == TriggerState::Rise ==> result.step_counter < sequence.len(),
    {
        let trigger_state = self.get_new_trigger_state(pin_high);
        match trigger_state {
            TriggerState::Rise => {
                self.advance_step_counter(sequence);
                self.last_important_trigger_state = trigger_state;
            },
            TriggerState::Fall => {
                self.last_important_trigger_state = trigger_state;
            },
            TriggerState::Unchanged => {},
        }
        ClockResult { trigger_state, step_counter: self.step_counter }
    }

    /// Returns the step counter to step 0, as the sequence controller does
    /// on every preset change.
    pub fn reset(&mut self)
        ensures
            final(self).step_counter == 0,
            final(self).last_important_trigger_state == old(self).last_important_trigger_state,
    {
        self.step_counter = 0
    }
}

/// Two consecutive polls at the same physical level never both report a
/// Rise, nor both a Fall: the latch absorbs the repeated level.
pub proof fn lemma_no_double_edge(pre: ExternalClock, sequence: Sequence, pin_high: bool)
    ensures
        ({
            let (mid, first) = pre.spec_check(sequence, pin_high);
            let second = mid.spec_check(sequence, pin_high).1;
            &&& !(first.trigger_state == TriggerState::Rise && second.trigger_state
                == TriggerState::Rise)
            &&& !(first.trigger_state == TriggerState::Fall && second.trigger_state
                == TriggerState::Fall)
        }),
{
}

/// The edge an internal clock reports at `now`: a Rise once a full
/// interval has elapsed since the last tick, otherwise a Fall once the
/// hold time has elapsed, otherwise Unchanged.
pub open spec fn internal_edge(
    last_tick_timestamp: u32,
    interval: u32,
    hold_time: u32,
    now: u32,
) -> TriggerState {
    if last_tick_timestamp + interval <= now {
        TriggerState::Rise
    } else if last_tick_timestamp + hold_time <= now {
        TriggerState::Fall
    } else {
        TriggerState::Unchanged
    }
}

/// Free-running clock generator: reports a Rise every `interval`
/// milliseconds, holds the active state for `hold_time` milliseconds, and
/// reports a Fall for the rest of each period. The millisecond counter is
/// read by the caller and enters `check` as a plain value.
pub struct InternalClock {
    /// Interval between clock-triggers in milliseconds.
    pub interval: u32,
    /// Timestamp in milliseconds of the last clock-trigger.
    pub last_tick_timestamp: u32,
    /// How long the trigger is held high, in milliseconds.
    pub hold_time: u32,
    pub step_counter: StepCounterType,
}

impl InternalClock {
    /// A generator that triggers every `interval` milliseconds and holds
    /// each trigger high for `hold_time` milliseconds.
    pub fn new(interval: u32, hold_time: u32) -> (result: Self)
        ensures
            result.interval == interval,
            result.hold_time == hold_time,
            result.last_tick_timestamp == 0,
            result.step_counter == 0,
    {
        Self { step_counter: 0, last_tick_timestamp: 0, interval, hold_time }
    }

    /// The generator state after one poll at millisecond `now`.
    pub open spec fn spec_check(self, sequence: Sequence, now: u32) -> (Self, ClockResult) {
        let edge = internal_edge(self.last_tick_timestamp, self.interval, self.hold_time, now);
        let post = if edge == TriggerState::Rise {
            Self {
                step_counter: next_step(self.step_counter, sequence.len()),
                last_tick_timestamp: now,
                ..self
            }
        } else {
            self
        };
        (post, (ClockResult { trigger_state: edge, step_counter: post.step_counter }))
    }

    fn get_new_trigger_state(&mut self, now: u32) -> (result: TriggerState)
        ensures
            result == internal_edge(
                old(self).last_tick_timestamp,
                old(self).interval,
                old(self).hold_time,
                now,
            ),
            result == TriggerState::Rise ==> *final(self) == (InternalClock {
                last_tick_timestamp: now,
                ..*old(self)
            }),
            result != TriggerState::Rise ==> *final(self) == *old(self),
    {
        if self.last_tick_timestamp as u64 + self.interval as u64 <= now as u64 {
            self.last_tick_timestamp = now;
            TriggerState::Rise
        } else if self.last_tick_timestamp as u64 + self.hold_time as u64 <= now as u64 {
            TriggerState::Fall
        } else {
            TriggerState::Unchanged
        }
    }

    fn advance_step_counter(&mut self, sequence: Sequence)
        requires
            sequence.wf(),
        ensures
            *final(self) == (InternalClock {
                step_counter: next_step(old(self).step_counter, sequence.len()),
                ..*old(self)
            }),
    {
        if self.step_counter < sequence.len() - 1 {
            self.step_counter += 1
        } else {
            self.step_counter = 0
        }
    }

    /// One poll at millisecond `now`: report the due edge, and on a Rise
    /// advance the step counter and restart the interval at `now`.
    pub fn check(&mut self, sequence: Sequence, now: u32) -> (result: ClockResult)
        requires
            sequence.wf(),
        ensures
            (*final(self), result) == old(self).spec_check(sequence, now),
            result.trigger_state == TriggerState::Rise ==> result.step_counter < sequence.len(),
    {
        let trigger_state = self.get_new_trigger_state(now);
        if let TriggerState::Rise = trigger_state {
            self.advance_step_counter(sequence);
        }
        ClockResult { trigger_state, step_counter: self.step_counter }
    }

    /// Returns the step counter to step 0, as the sequence controller does
    /// on every preset change.
    pub fn reset(&mut self)
        ensures
            *final(self) == (InternalClock { step_counter: 0, ..*old(self) }),
    {
        self.step_counter = 0
    }
}

/// A clock with its step counter returned to 0 and all timing state kept.
pub open spec fn spec_clock_reset(clock: Clock) -> Clock {
    match clock {
        Clock::External(c) => Clock::External(
            ExternalClock { step_counter: 0, last_important_trigger_state: c.last_important_trigger_state },
        ),
        Clock::Internal(c) => Clock::Internal(InternalClock { step_counter: 0, ..c }),
    }
}

/// The closed set of clock source variants behind one polling interface.
pub enum Clock {
    External(ExternalClock),
    Internal(InternalClock),
}

impl Clock {
    /// The step counter of whichever variant is active.
    pub open spec fn spec_step_counter(self) -> StepCounterType {
        match self {
            Clock::External(c) => c.step_counter,
            Clock::Internal(c) => c.step_counter,
        }
    }

    /// The clock state after one poll with the given millisecond counter
    /// and sampled input level; each variant consumes only the input it is
    /// driven by.
    pub open spec fn spec_check(self, sequence: Sequence, now: u32, pin_high: bool) -> (
        Self,
        ClockResult,
    ) {
        match self {
            Clock::External(c) => {
                let (post, result) = c.spec_check(sequence, pin_high);
                (Clock::External(post), result)
            },
            Clock::Internal(c) => {
                let (post, result) = c.spec_check(sequence, now);
                (Clock::Internal(post), result)
            },
        }
    }

    /// One poll, dispatched to the active variant. `now` is the current
    /// millisecond counter; `pin_high` the sampled external clock level.
    pub fn check(&mut self, sequence: Sequence, now: u32, pin_high: bool) -> (result: ClockResult)
        requires
            sequence.wf(),
        ensures
            (*final(self), result) == old(self).spec_check(sequence, now, pin_high),
            result.trigger_state == TriggerState::Rise ==> result.step_counter < sequence.len(),
            result.step_counter == final(self).spec_step_counter(),
    {
        match self {
            Clock::External(c) => c.check(sequence, pin_high),
            Clock::Internal(c) => c.check(sequence, now),
        }
    }

    /// Returns the step counter of the active variant to step 0.
    pub fn reset(&mut self)
        ensures
            *final(self) == spec_clock_reset(*old(self)),
            final(self).spec_step_counter() == 0,
    {
        match self {
            Clock::External(c) => c.reset(),
            Clock::Internal(c) => c.reset(),
        }
    }
}

/// Builds the configured clock source variant.
pub struct ClockFactory {}

impl ClockFactory {
    pub fn new() -> Self {
        Self {}
    }

    /// The clock the firmware runs on: the internal generator at a 250 ms
    /// interval when `USE_INTERNAL_CLOCK` is set, else the external edge
    /// detector. Either way the step counter starts at 0.
    pub fn build(&self) -> (result: Clock)
        ensures
            result.spec_step_counter() == 0,
            USE_INTERNAL_CLOCK ==> result == Clock::Internal(
                InternalClock {
                    interval: 250,
                    hold_time: DELAY_TIME,
                    last_tick_timestamp: 0,
                    step_counter: 0,
                },
            ),
            !USE_INTERNAL_CLOCK ==> result == Clock::External(
                ExternalClock { step_counter: 0, last_important_trigger_state: TriggerState::Unchanged },
            ),
    {
        if USE_INTERNAL_CLOCK {
            Clock::Internal(InternalClock::new(250, DELAY_TIME))
        } else {
            Clock::External(ExternalClock::new())
        }
    }
}

} // verus!
