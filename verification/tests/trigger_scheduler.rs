use step_sequencer::{
    DacByte, Sequence, Trigger, TriggerFactory, TriggerMode, TriggerState, TriggerTask,
    DELAY_TIME,
};

fn active_sequence() -> Sequence {
    // All four steps matched.
    Sequence::new(
        4,
        Some(DacByte::new(1)),
        Some(DacByte::new(2)),
        Some(DacByte::new(3)),
        Some(DacByte::new(4)),
        None,
        None,
        None,
        None,
    )
}

fn silent_sequence() -> Sequence {
    // One step, intensity 0: never matched.
    Sequence::new(
        1,
        Some(DacByte::new(0)),
        None,
        None,
        None,
        None,
        None,
        None,
        None,
    )
}

#[test]
fn factory_builds_pulse_trigger_with_output_low() {
    let trigger = TriggerFactory::new().build();
    assert_eq!(trigger.trigger_mode, TriggerMode::Pulse);
    assert!(!trigger.output);
    assert!(trigger.scheduled_task.is_none());
}

#[test]
fn rise_on_matching_step_raises_output() {
    let mut trigger = Trigger::new(TriggerMode::Follow);
    trigger.check(TriggerState::Rise, 0, active_sequence(), 0);
    assert!(trigger.output);
}

#[test]
fn rise_on_silent_step_keeps_output_low() {
    let mut trigger = Trigger::new(TriggerMode::Follow);
    trigger.check(TriggerState::Rise, 0, silent_sequence(), 0);
    assert!(!trigger.output);
}

#[test]
fn follow_mode_drops_output_on_fall() {
    let mut trigger = Trigger::new(TriggerMode::Follow);
    trigger.check(TriggerState::Rise, 0, active_sequence(), 0);
    assert!(trigger.output);
    trigger.check(TriggerState::Fall, 0, active_sequence(), 1);
    assert!(!trigger.output);
}

#[test]
fn hold_mode_keeps_output_through_fall() {
    let mut trigger = Trigger::new(TriggerMode::Hold);
    trigger.check(TriggerState::Rise, 0, active_sequence(), 0);
    trigger.check(TriggerState::Fall, 0, active_sequence(), 1);
    assert!(trigger.output);
}

#[test]
fn unchanged_edge_is_a_no_op() {
    let mut trigger = Trigger::new(TriggerMode::Follow);
    trigger.check(TriggerState::Rise, 0, active_sequence(), 0);
    trigger.check(TriggerState::Unchanged, 0, active_sequence(), 1);
    assert!(trigger.output);
}

#[test]
fn pulse_rise_schedules_set_low_after_delay_time() {
    let mut trigger = Trigger::new(TriggerMode::Pulse);
    trigger.check(TriggerState::Rise, 0, active_sequence(), 100);
    assert!(trigger.output);
    let task = trigger.scheduled_task.expect("a set-low task must be pending");
    assert_eq!(task.id, TriggerTask::SetOff);
    assert_eq!(task.timestamp, 100 + DELAY_TIME);
}

#[test]
fn pulse_fall_does_not_drop_output_early() {
    let mut trigger = Trigger::new(TriggerMode::Pulse);
    trigger.check(TriggerState::Rise, 0, active_sequence(), 100);
    trigger.check(TriggerState::Fall, 0, active_sequence(), 102);
    assert!(trigger.output);
    assert!(trigger.scheduled_task.is_some());
}

#[test]
fn scheduler_fires_exactly_once_at_its_deadline() {
    let mut trigger = Trigger::new(TriggerMode::Pulse);
    trigger.check(TriggerState::Rise, 0, active_sequence(), 100);
    let t0 = 100 + DELAY_TIME;

    // A poll just before the deadline is a no-op.
    trigger.check_scheduled(t0 - 1, TriggerState::Unchanged, 0, active_sequence());
    assert!(trigger.output);
    assert!(trigger.scheduled_task.is_some());

    // The poll at the deadline fires: output low, slot cleared.
    trigger.check_scheduled(t0, TriggerState::Unchanged, 0, active_sequence());
    assert!(!trigger.output);
    assert!(trigger.scheduled_task.is_none());

    // Any later poll is a no-op even after the output rose again.
    trigger.check(TriggerState::Rise, 1, active_sequence(), t0 + 1);
    let pending = trigger.scheduled_task;
    trigger.check_scheduled(t0 + 2, TriggerState::Unchanged, 1, active_sequence());
    assert!(trigger.output);
    assert_eq!(trigger.scheduled_task, pending);
}

#[test]
fn rescheduling_replaces_the_pending_task() {
    let mut trigger = Trigger::new(TriggerMode::Pulse);
    trigger.check(TriggerState::Rise, 0, active_sequence(), 100);
    // A second Rise before the first deadline replaces the pending task.
    trigger.check(TriggerState::Rise, 1, active_sequence(), 103);
    let task = trigger.scheduled_task.expect("the replacement must be pending");
    assert_eq!(task.timestamp, 103 + DELAY_TIME);

    // The first deadline passes without firing.
    trigger.check_scheduled(100 + DELAY_TIME, TriggerState::Unchanged, 1, active_sequence());
    assert!(trigger.output);
    assert!(trigger.scheduled_task.is_some());

    // Only the second fires.
    trigger.check_scheduled(103 + DELAY_TIME, TriggerState::Unchanged, 1, active_sequence());
    assert!(!trigger.output);
    assert!(trigger.scheduled_task.is_none());
}
