//! The trigger output state machine: converts an edge classification and a
//! step match into the trigger pin level, under one of three timing
//! policies. The Pulse policy never blocks: it parks a single deferred
//! "set low" task in the one-slot scheduler, polled once per loop
//! iteration.

use vstd::prelude::*;
use crate::scheduler::{Task, TaskId};
use crate::sequence::{step_mask, Sequence};
use crate::trigger_state::TriggerState;
use crate::DELAY_TIME;

verus! {

/// How the trigger output falls after a Rise drove it high.
#[derive(Copy, Clone, Debug, PartialEq, Eq, Structural)]
pub enum TriggerMode {
    /// Set the trigger output low as soon as the clock falls.
    Follow,
    /// Hold the trigger output state until the next Rise.
    Hold,
    /// Drop the trigger output `DELAY_TIME` milliseconds after the Rise,
    /// via the deferred-task scheduler.
    Pulse,
}

/// The one deferrable trigger action.
#[derive(Copy, Clone, Debug, PartialEq, Eq, Structural)]
pub enum TriggerTask {
    SetOff,
}

impl TaskId for TriggerTask {
}

/// Trigger output controller. The physical pin level is modelled by the
/// `output` field; the caller mirrors it to the pin after each call.
pub struct Trigger {
    pub output: bool,
    pub trigger_mode: TriggerMode,
    pub last_trigger_state: TriggerState,
    pub scheduled_task: Option<Task<TriggerTask>>,
}

impl Trigger {
    /// A controller with the given policy, output low, nothing scheduled.
    pub fn new(trigger_mode: TriggerMode) -> (result: Self)
        ensures
            result.output == false,
            result.trigger_mode == trigger_mode,
            result.last_trigger_state == TriggerState::Unchanged,
            result.scheduled_task is None,
    {
        Self {
            output: false,
            trigger_mode,
            last_trigger_state: TriggerState::Unchanged,
            scheduled_task: None,
        }
    }

    /// The controller state after reacting to one edge at millisecond
    /// `now`, where `active` says whether the current step is matched.
    /// On a Rise the output follows the step match, and the Pulse policy
    /// schedules the set-low task `DELAY_TIME` milliseconds ahead,
    /// overwriting any pending task. On a Fall only the Follow policy
    /// drops the output. The observed edge is recorded either way.
    pub open spec fn spec_check(self, state: TriggerState, active: bool, now: u32) -> Self {
        match state {
            TriggerState::Rise => Trigger {
                output: active,
                scheduled_task: if self.trigger_mode == TriggerMode::Pulse {
                    Some(Task { id: TriggerTask::SetOff, timestamp: (now + DELAY_TIME) as u32 })
                } else {
                    self.scheduled_task
                },
                last_trigger_state: state,
                ..self
            },
            TriggerState::Fall => Trigger {
                output: if self.trigger_mode == TriggerMode::Follow {
                    false
                } else {
                    self.output
                },
                last_trigger_state: state,
                ..self
            },
            TriggerState::Unchanged => Trigger { last_trigger_state: state, ..self },
        }
    }

    /// Reacts to one classified edge for the step the clock reported.
    pub fn check(
        &mut self,
        state: TriggerState,
        step_counter: usize,
        sequence: Sequence,
        now: u32,
    )
        requires
            sequence.wf(),
            state == TriggerState::Rise ==> step_counter < sequence.spec_len(),
            now + DELAY_TIME <= u32::MAX,
        ensures
            *final(self) == old(self).spec_check(
                state,
                sequence.step_active(step_counter as int),
                now,
            ),
    {
        match state {
            TriggerState::Rise => {
                let step_pointer: u8 = step_mask(step_counter);
                self.set_output(sequence.matches(step_pointer));

                if self.trigger_mode == TriggerMode::Pulse {
                    self.scheduled_task = Some(Task::new(TriggerTask::SetOff, now + DELAY_TIME));
                }
            },
            TriggerState::Fall => {
                match self.trigger_mode {
                    TriggerMode::Follow => self.set_output(false),
                    TriggerMode::Hold => {
                        // Do nothing; the output persists until the next Rise.
                    },
                    TriggerMode::Pulse => {
                        // Do nothing; the scheduled task governs the fall.
                    },
                }
            },
            TriggerState::Unchanged => {},
        }
        self.last_trigger_state = state;
    }

    /// The controller state after one scheduler poll at millisecond
    /// `millis`: a pending task whose fire time has been reached drops the
    /// output and clears the slot, exactly once; otherwise nothing
    /// happens.
    pub open spec fn spec_check_scheduled(self, millis: u32) -> Self {
        match self.scheduled_task {
            Some(task) => if task.id == TriggerTask::SetOff && millis >= task.timestamp {
                Trigger { output: false, scheduled_task: None, ..self }
            } else {
                self
            },
            None => self,
        }
    }

    /// Polls the deferred-task slot; called every loop iteration,
    /// regardless of the edge classification, so a Pulse reset fires even
    /// while the clock reports Unchanged.
    pub fn check_scheduled(
        &mut self,
        millis: u32,
        _state: TriggerState,
        _step_counter: usize,
        _sequence: Sequence,
    )
        ensures
            *final(self) == old(self).spec_check_scheduled(millis),
    {
        if let Some(task) = &self.scheduled_task {
            if task.id == TriggerTask::SetOff && millis >= task.timestamp {
                self.set_output(false);
                self.scheduled_task = None;
            }
        }
    }

    fn set_output(&mut self, value: bool)
        ensures
            *final(self) == (Trigger { output: value, ..*old(self) }),
    {
        self.output = value;
    }
}

/// The one-slot scheduler fires exactly once: a poll before the fire
/// time leaves everything untouched, the first poll at or after it drops
/// the output and clears the slot, and every later poll is a no-op.
pub proof fn lemma_scheduled_task_fires_exactly_once(
    pre: Trigger,
    t0: u32,
    t_before: u32,
    t_after: u32,
)
    requires
        pre.scheduled_task == Some(Task { id: TriggerTask::SetOff, timestamp: t0 }),
        t_before < t0,
        t_after >= t0,
    ensures
        pre.spec_check_scheduled(t_before) == pre,
        pre.spec_check_scheduled(t0).output == false,
        pre.spec_check_scheduled(t0).scheduled_task is None,
        pre.spec_check_scheduled(t0).spec_check_scheduled(t_after) == pre.spec_check_scheduled(t0),
{
}

/// Scheduling is last-write-wins: a Rise under the Pulse policy parks
/// the set-low task at exactly `now + DELAY_TIME`, discarding whatever
/// task was pending; only the new task remains to fire.
pub proof fn lemma_reschedule_overwrites(pre: Trigger, active: bool, now: u32)
    requires
        pre.trigger_mode == TriggerMode::Pulse,
        now + DELAY_TIME <= u32::MAX,
    ensures
        pre.spec_check(TriggerState::Rise, active, now).scheduled_task == Some(
            Task { id: TriggerTask::SetOff, timestamp: (now + DELAY_TIME) as u32 },
        ),
{
}

/// Under the Pulse policy, a Rise on a matching step drives the output
/// high and schedules the set-low exactly `DELAY_TIME` milliseconds
/// later; a Fall arriving before that deadline changes neither the
/// output nor the pending task.
pub proof fn lemma_pulse_fall_does_not_cut_short(pre: Trigger, now: u32, later: u32)
    requires
        pre.trigger_mode == TriggerMode::Pulse,
        now + DELAY_TIME <= u32::MAX,
    ensures
        ({
            let after_rise = pre.spec_check(TriggerState::Rise, true, now);
            let after_fall = after_rise.spec_check(TriggerState::Fall, true, later);
            &&& after_rise.output == true
            &&& after_rise.scheduled_task == Some(
                Task { id: TriggerTask::SetOff, timestamp: (now + DELAY_TIME) as u32 },
            )
            &&& after_fall.output == true
            &&& after_fall.scheduled_task == after_rise.scheduled_task
        }),
{
}

/// Builds the trigger controller the firmware runs with.
pub struct TriggerFactory {}

impl TriggerFactory {
    pub fn new() -> Self {
        Self {}
    }

    /// The configured trigger controller: Pulse policy, output low.
    pub fn build(&self) -> (result: Trigger)
        ensures
            result == (Trigger {
                output: false,
                trigger_mode: TriggerMode::Pulse,
                last_trigger_state: TriggerState::Unchanged,
                scheduled_task: None,
            }),
    {
        let trigger_mode: TriggerMode = TriggerMode::Pulse;
        Trigger::new(trigger_mode)
    }
}

} // verus!
