use step_sequencer::{
    default_sequences, App, Clock, Dac, DacByte, ExternalClock, InternalClock, Sequence,
    SequenceController, Trigger, TriggerFactory, TriggerMode,
};

fn dac_value(d: Dac) -> u8 {
    (if d.a0 { 1 } else { 0 })
        + (if d.a1 { 2 } else { 0 })
        + (if d.a2 { 4 } else { 0 })
        + (if d.a3 { 8 } else { 0 })
}

fn ramp_sequence() -> Sequence {
    Sequence::new(
        8,
        Some(DacByte::new(1)),
        Some(DacByte::new(3)),
        Some(DacByte::new(5)),
        Some(DacByte::new(8)),
        Some(DacByte::new(9)),
        Some(DacByte::new(10)),
        Some(DacByte::new(12)),
        Some(DacByte::new(15)),
    )
}

fn external_app(sequences: Vec<Sequence>) -> App {
    App::new(
        Clock::External(ExternalClock::new()),
        TriggerFactory::new().build(),
        SequenceController::new(sequences),
    )
}

#[test]
fn nine_rises_walk_the_ramp_and_wrap() {
    // Sequence 1,3,5,8,9,10,12,15 of length 8, driven by 9 simulated Rise
    // edges from step 0: the steps visited wrap back to the start, and the
    // DAC carries each visited step's intensity.
    let mut app = external_app(vec![ramp_sequence()]);
    let intensities = [1u8, 3, 5, 8, 9, 10, 12, 15];

    let mut visited_dac = Vec::new();
    let mut now = 0u32;
    for _ in 0..9 {
        app.run_loop(now, true, false); // Rise
        visited_dac.push(dac_value(app.dac_levels()));
        now += 10;
        app.run_loop(now, false, false); // Fall
        now += 10;
    }

    // The first Rise advances off step 0, so the nine edges visit steps
    // 1..=7, wrap to 0, and land on 1 again.
    let expected: Vec<u8> = vec![
        intensities[1],
        intensities[2],
        intensities[3],
        intensities[4],
        intensities[5],
        intensities[6],
        intensities[7],
        intensities[0],
        intensities[1],
    ];
    assert_eq!(visited_dac, expected);
}

#[test]
fn rise_raises_only_the_current_gate_pin() {
    let mut app = external_app(vec![ramp_sequence()]);
    app.run_loop(0, true, false); // Rise onto step 1 (intensity 3, matched)
    let pins = app.step_pin_levels();
    assert_eq!(pins, [false, true, false, false, false]);
}

#[test]
fn rise_on_a_silent_step_leaves_all_gates_low() {
    let silent = Sequence::new(
        2,
        Some(DacByte::new(4)),
        Some(DacByte::new(0)),
        None,
        None,
        None,
        None,
        None,
        None,
    );
    let mut app = external_app(vec![silent]);
    app.run_loop(0, true, false); // Rise onto step 1, intensity 0
    assert_eq!(app.step_pin_levels(), [false; 5]);
    assert_eq!(dac_value(app.dac_levels()), 0);
    assert!(!app.trigger_output());
}

#[test]
fn pulse_trigger_fires_and_clears_through_the_loop() {
    let mut app = external_app(vec![ramp_sequence()]);
    app.run_loop(100, true, false); // Rise onto a matched step
    assert!(app.trigger_output());
    // Before the deadline the output holds, even while the edge is Fall
    // or Unchanged.
    app.run_loop(102, false, false);
    assert!(app.trigger_output());
    // Once DELAY_TIME has elapsed, the scheduled set-low fires.
    app.run_loop(106, false, false);
    assert!(!app.trigger_output());
}

#[test]
fn preset_change_resets_the_clock_and_flags_the_outputs() {
    let first = ramp_sequence();
    let second = Sequence::new(
        3,
        Some(DacByte::new(15)),
        Some(DacByte::new(0)),
        Some(DacByte::new(7)),
        None,
        None,
        None,
        None,
        None,
    );
    let mut app = external_app(vec![first, second]);

    // Walk a few steps into the first preset.
    app.run_loop(0, true, false);
    app.run_loop(10, false, false);
    app.run_loop(20, true, false);
    assert!(!app.sequence_change_level());

    // Press the advance input: the pointer moves, the indicator pin goes
    // high, and the step outputs preview the new preset's matches.
    let result = app.run_loop(30, false, true);
    assert!(app.sequence_change_level());
    assert!(result.change_transmission.is_some());
    assert_eq!(app.step_pin_levels(), [true, false, true, false, false]);

    // The clock was reset before the change's first Rise, so the first
    // Rise of the new preset advances from step 0 to step 1 (intensity 0).
    app.run_loop(40, true, true);
    assert_eq!(dac_value(app.dac_levels()), 0);

    // Holding the input low recognizes no further change.
    let held = app.run_loop(50, false, true);
    assert!(!held.change_transmission.is_some());
}

#[test]
fn internal_clock_app_steps_on_its_own_interval() {
    let mut app = App::new(
        Clock::Internal(InternalClock::new(250, 5)),
        Trigger::new(TriggerMode::Follow),
        SequenceController::new(default_sequences()),
    );
    // Nothing is due yet.
    app.run_loop(0, false, false);
    assert_eq!(dac_value(app.dac_levels()), 0);
    // The first interval elapses: step 1 of the default ramp, intensity 3.
    app.run_loop(250, false, false);
    assert_eq!(dac_value(app.dac_levels()), 3);
    // The next interval is measured from the restart.
    app.run_loop(499, false, false);
    assert_eq!(dac_value(app.dac_levels()), 3);
    app.run_loop(500, false, false);
    assert_eq!(dac_value(app.dac_levels()), 5);
}

#[test]
fn run_loop_reports_step_frames_only_when_they_change() {
    let mut app = external_app(vec![ramp_sequence()]);
    let first = app.run_loop(0, true, false);
    assert!(first.step_transmission.is_some());
    // A Fall re-renders nothing.
    let second = app.run_loop(10, false, false);
    assert!(second.step_transmission.is_none());
    assert!(second.change_transmission.is_none());
}

#[test]
fn initialize_leds_flickers_the_demonstration_frame() {
    let mut app = external_app(vec![ramp_sequence()]);
    let transmissions = app.initialize_leds();
    // From the all-off power-on state the first blank write is absorbed.
    assert_eq!(transmissions.len(), 3);
    for bytes in &transmissions {
        assert_eq!(bytes.len(), 136);
    }
}
