//! The control loop's decision core: one `run_loop` call is one loop
//! iteration. The caller samples the input pins and the millisecond
//! counter, hands them in as plain values, then mirrors the computed
//! output levels to the pins and shifts any returned LED waveform out on
//! the bus.
//!
//! Within one iteration the sequence controller is checked before the
//! clock source, so a preset change and a clock edge in the same
//! iteration always apply the new preset's length before the edge
//! advances the step counter; the deferred-task slot is polled every
//! iteration, regardless of the edge classification.

use vstd::prelude::*;
use crate::clock::{spec_clock_reset, Clock, ClockResult, StepCounterType};
use crate::dac::Dac;
use crate::dac_byte::DacByte;
use crate::led_controller::{
    spec_data_for_sequence, spec_serialize, spec_step_frame, LedController,
};
use crate::sequence::{slot_value, step_mask, Sequence};
use crate::sequence_controller::{
    change_recognized, next_pointer_of, SequenceController, SequenceState,
};
use crate::trigger::Trigger;
use crate::trigger_state::TriggerState;
use crate::color::{get_initial_colors, spec_initial_colors, Color};
use crate::{DELAY_TIME, RGB_LED_COUNT, STEP_LED_COUNT};

verus! {

/// What one loop iteration asks the caller to transmit on the LED bus:
/// the waveform for a changed preset's frame, and the waveform for the
/// current step's frame, either of which may be absent.
pub struct LoopResult {
    pub change_transmission: Option<Vec<u8>>,
    pub step_transmission: Option<Vec<u8>>,
}

/// The step output levels showing a whole sequence: pin `i` is high
/// exactly when step `i` is matched.
pub open spec fn spec_gate_levels(sequence: Sequence) -> Seq<bool> {
    Seq::new(STEP_LED_COUNT as nat, |i: int| sequence.step_active(i))
}

/// The step output levels while a step plays: all pins low except the
/// current step's pin, which is high exactly when that step is matched.
pub open spec fn spec_rise_gate_levels(step_counter: int, active: bool) -> Seq<bool> {
    Seq::new(STEP_LED_COUNT as nat, |i: int| i == step_counter && active)
}

/// The state of every output the firmware drives, plus the components
/// that decide them.
pub struct App {
    clock: Clock,
    trigger: Trigger,
    sequence_controller: SequenceController,
    led_controller: LedController,
    dac: Dac,
    step_output_pins: [bool; STEP_LED_COUNT],
    sequence_change_output: bool,
}

impl App {
    /// The clock source.
    pub closed spec fn spec_clock(&self) -> Clock {
        self.clock
    }

    /// The trigger output controller.
    pub closed spec fn spec_trigger(&self) -> Trigger {
        self.trigger
    }

    /// The preset selector.
    pub closed spec fn spec_sequence_controller(&self) -> SequenceController {
        self.sequence_controller
    }

    /// The LED renderer.
    pub closed spec fn spec_led_controller(&self) -> LedController {
        self.led_controller
    }

    /// The DAC bit-line levels.
    pub closed spec fn spec_dac(&self) -> Dac {
        self.dac
    }

    /// The per-step output pin levels.
    pub closed spec fn spec_step_pins(&self) -> Seq<bool> {
        self.step_output_pins@
    }

    /// The "sequence changed" indicator pin level.
    pub closed spec fn spec_sequence_change_output(&self) -> bool {
        self.sequence_change_output
    }

    /// Assembles the firmware state from its components, with every
    /// output level low and the LED diffing state matching an all-off
    /// strip.
    pub fn new(clock: Clock, trigger: Trigger, sequence_controller: SequenceController) -> (result:
        App)
        ensures
            result.spec_clock() == clock,
            result.spec_trigger() == trigger,
            result.spec_sequence_controller() == sequence_controller,
            result.spec_led_controller().last_frame() == Seq::new(
                RGB_LED_COUNT as nat,
                |i: int| crate::color::spec_color_unmapped(),
            ),
            result.spec_dac() == (Dac { a0: false, a1: false, a2: false, a3: false }),
            result.spec_step_pins() == Seq::new(STEP_LED_COUNT as nat, |i: int| false),
            result.spec_sequence_change_output() == false,
    {
        let result = App {
            clock,
            trigger,
            sequence_controller,
            led_controller: LedController::new(),
            dac: Dac::new(),
            step_output_pins: [false; STEP_LED_COUNT],
            sequence_change_output: false,
        };
        proof {
            assert(result.step_output_pins@ =~= Seq::new(STEP_LED_COUNT as nat, |i: int| false));
        }
        result
    }

    /// One loop iteration. `now` is the millisecond counter, `clock_pin_high`
    /// the sampled external clock input level, `sequence_change_low` whether
    /// the preset-advance input reads low. The returned waveforms, if any,
    /// are transmitted by the caller in order: preset change first, step
    /// highlight second. A step counter inside the active sequence stays
    /// inside it, whatever the iteration brings: a preset change resets it
    /// before the new length applies.
    pub fn run_loop(
        &mut self,
        now: u32,
        clock_pin_high: bool,
        sequence_change_low: bool,
    ) -> (result: LoopResult)
        requires
            now + DELAY_TIME <= u32::MAX,
        ensures
            ({
                let pre = *old(self);
                let did_change = change_recognized(
                    pre.spec_sequence_controller().last_change_state(),
                    sequence_change_low,
                );
                let pointer = if did_change {
                    next_pointer_of(
                        pre.spec_sequence_controller().pointer(),
                        pre.spec_sequence_controller().table().len() as usize,
                    )
                } else {
                    pre.spec_sequence_controller().pointer()
                };
                let sequence = pre.spec_sequence_controller().table()[pointer as int];
                let clock1 = if did_change {
                    spec_clock_reset(pre.spec_clock())
                } else {
                    pre.spec_clock()
                };
                let poll = clock1.spec_check(sequence, now, clock_pin_high).1;
                let edge = poll.trigger_state;
                let rise = edge == TriggerState::Rise;
                let active = sequence.step_active(poll.step_counter as int);
                let change_frame = spec_data_for_sequence(sequence);
                let led1 = if did_change {
                    change_frame
                } else {
                    pre.spec_led_controller().last_frame()
                };
                let step_frame = spec_step_frame(sequence, poll.step_counter as int, active);
                &&& final(self).spec_sequence_controller().table() == pre.spec_sequence_controller()
                    .table()
                &&& final(self).spec_sequence_controller().pointer() == pointer
                &&& final(self).spec_sequence_controller().last_change_state()
                    == sequence_change_low
                &&& final(self).spec_clock() == clock1.spec_check(sequence, now, clock_pin_high).0
                &&& final(self).spec_trigger() == pre.spec_trigger().spec_check_scheduled(
                    now,
                ).spec_check(edge, active, now)
                &&& final(self).spec_sequence_change_output() == (pre.spec_sequence_change_output()
                    || did_change)
                &&& final(self).spec_dac() == if rise {
                    Dac::spec_set_value(slot_value(sequence.slot(poll.step_counter as int)))
                } else {
                    pre.spec_dac()
                }
                &&& final(self).spec_step_pins() == if rise {
                    spec_rise_gate_levels(poll.step_counter as int, active)
                } else if did_change {
                    spec_gate_levels(sequence)
                } else {
                    pre.spec_step_pins()
                }
                &&& final(self).spec_led_controller().last_frame() == if rise {
                    step_frame
                } else {
                    led1
                }
                &&& if did_change && change_frame != pre.spec_led_controller().last_frame() {
                    result.change_transmission matches Some(bytes) && bytes@ == spec_serialize(
                        change_frame,
                    )
                } else {
                    result.change_transmission is None
                }
                &&& if rise && step_frame != led1 {
                    result.step_transmission matches Some(bytes) && bytes@ == spec_serialize(
                        step_frame,
                    )
                } else {
                    result.step_transmission is None
                }
                &&& pre.spec_clock().spec_step_counter() < pre.spec_sequence_controller()
                    .active_sequence().spec_len() ==> final(self).spec_clock().spec_step_counter()
                    < final(self).spec_sequence_controller().active_sequence().spec_len()
            }),
    {
        let (sequence_state, change_transmission) = self.check_sequence_change(
            sequence_change_low,
        );

        let sequence = sequence_state.sequence;
        let ClockResult { trigger_state, step_counter } = self.clock.check(
            sequence,
            now,
            clock_pin_high,
        );

        self.trigger.check_scheduled(now, trigger_state, step_counter, sequence);
        self.trigger.check(trigger_state, step_counter, sequence, now);

        let step_transmission: Option<Vec<u8>> = if trigger_state == TriggerState::Rise {
            self.trigger_step(step_counter, sequence)
        } else {
            None
        };

        LoopResult { change_transmission, step_transmission }
    }

    /// Applies one Rise: drives the DAC from the current step, raises the
    /// current step's output pin alone, and re-renders the strip with the
    /// step highlighted. Returns the waveform to transmit, if the frame
    /// changed.
    fn trigger_step(&mut self, step_counter: StepCounterType, sequence: Sequence) -> (result:
        Option<Vec<u8>>)
        requires
            sequence.wf(),
            step_counter < sequence.spec_len(),
        ensures
            ({
                let active = sequence.step_active(step_counter as int);
                let step_frame = spec_step_frame(sequence, step_counter as int, active);
                &&& *final(self) == (App {
                    dac: Dac::spec_set_value(slot_value(sequence.slot(step_counter as int))),
                    step_output_pins: final(self).step_output_pins,
                    led_controller: final(self).led_controller,
                    ..*old(self)
                })
                &&& final(self).spec_step_pins() == spec_rise_gate_levels(
                    step_counter as int,
                    active,
                )
                &&& final(self).spec_led_controller().last_frame() == step_frame
                &&& if step_frame != old(self).spec_led_controller().last_frame() {
                    result matches Some(bytes) && bytes@ == spec_serialize(step_frame)
                } else {
                    result is None
                }
            }),
    {
        let step_pointer: u8 = step_mask(step_counter);
        self.set_dac(sequence, step_counter);

        self.set_all_step_pins_low();

        let sequence_matches = sequence.matches(step_pointer);

        if step_counter < STEP_LED_COUNT {
            if sequence_matches {
                self.step_output_pins[step_counter] = true;
            } else {
                self.step_output_pins[step_counter] = false;
            }
        }
        proof {
            assert(self.step_output_pins@ =~= spec_rise_gate_levels(
                step_counter as int,
                sequence.step_active(step_counter as int),
            ));
        }
        self.led_controller.show_step(sequence, step_counter, sequence_matches)
    }

    /// Drives the DAC from the step's intensity; an unpopulated slot
    /// drives zero.
    fn set_dac(&mut self, sequence: Sequence, step_counter: StepCounterType)
        requires
            sequence.wf(),
            step_counter < 8,
        ensures
            *final(self) == (App {
                dac: Dac::spec_set_value(slot_value(sequence.slot(step_counter as int))),
                ..*old(self)
            }),
    {
        let step_pointer: u8 = step_mask(step_counter);

        match sequence.get_step(step_pointer) {
            None => self.dac.set(DacByte::new(0)),
            Some(step) => self.dac.set(step),
        }
    }

    /// Drops every step output pin.
    fn set_all_step_pins_low(&mut self)
        ensures
            *final(self) == (App { step_output_pins: final(self).step_output_pins, ..*old(self) }),
            final(self).step_output_pins@ == Seq::new(STEP_LED_COUNT as nat, |i: int| false),
    {
        let mut i: usize = 0;
        while i < STEP_LED_COUNT
            invariant
                i <= STEP_LED_COUNT,
                *self == (App { step_output_pins: self.step_output_pins, ..*old(self) }),
                self.step_output_pins@.len() == STEP_LED_COUNT,
                forall|j: int| 0 <= j < i ==> self.step_output_pins@[j] == false,
            decreases STEP_LED_COUNT - i,
        {
            self.step_output_pins[i] = false;
            i += 1;
        }
        proof {
            assert(self.step_output_pins@ =~= Seq::new(STEP_LED_COUNT as nat, |i: int| false));
        }
    }

    /// One selector poll, with everything a recognized change entails:
    /// the clock's step counter is reset before anything else so the LED
    /// frame never shows a step index from the previous preset, the
    /// indicator pin goes high, the step output pins show the new preset, and
    /// the strip is re-rendered. Returns the selector state and the
    /// waveform to transmit, if any.
    fn check_sequence_change(&mut self, input_low: bool) -> (result: (
        SequenceState,
        Option<Vec<u8>>,
    ))
        ensures
            ({
                let pre = *old(self);
                let did_change = change_recognized(
                    pre.sequence_controller.last_change_state(),
                    input_low,
                );
                let pointer = if did_change {
                    next_pointer_of(
                        pre.sequence_controller.pointer(),
                        pre.sequence_controller.table().len() as usize,
                    )
                } else {
                    pre.sequence_controller.pointer()
                };
                let sequence = pre.sequence_controller.table()[pointer as int];
                let change_frame = spec_data_for_sequence(sequence);
                &&& result.0.did_change == did_change
                &&& result.0.sequence == sequence
                &&& result.0.sequence_pointer == pointer
                &&& result.0.sequence.wf()
                &&& final(self).sequence_controller.table() == pre.sequence_controller.table()
                &&& final(self).sequence_controller.pointer() == pointer
                &&& final(self).sequence_controller.last_change_state() == input_low
                &&& final(self).trigger == pre.trigger
                &&& final(self).dac == pre.dac
                &&& final(self).clock == if did_change {
                    spec_clock_reset(pre.clock)
                } else {
                    pre.clock
                }
                &&& final(self).sequence_change_output == (pre.sequence_change_output
                    || did_change)
                &&& final(self).step_output_pins@ == if did_change {
                    spec_gate_levels(sequence)
                } else {
                    pre.step_output_pins@
                }
                &&& final(self).led_controller.last_frame() == if did_change {
                    change_frame
                } else {
                    pre.led_controller.last_frame()
                }
                &&& if did_change && change_frame != pre.led_controller.last_frame() {
                    result.1 matches Some(bytes) && bytes@ == spec_serialize(change_frame)
                } else {
                    result.1 is None
                }
            }),
    {
        let sequence_state = self.sequence_controller.check_sequence_change(input_low);
        let transmission: Option<Vec<u8>> = if sequence_state.did_change {
            self.clock.reset();

            self.sequence_change_output = true;
            self.set_step_output_pins_for_sequence(sequence_state.sequence);

            self.led_controller.show_sequence(sequence_state.sequence)
        } else {
            None
        };

        (sequence_state, transmission)
    }

    /// Shows a whole preset on the step output pins: each pin high exactly when
    /// its step is matched.
    fn set_step_output_pins_for_sequence(&mut self, sequence: Sequence)
        requires
            sequence.wf(),
        ensures
            *final(self) == (App { step_output_pins: final(self).step_output_pins, ..*old(self) }),
            final(self).step_output_pins@ == spec_gate_levels(sequence),
    {
        let mut i: usize = 0;
        while i < STEP_LED_COUNT
            invariant
                i <= STEP_LED_COUNT,
                sequence.wf(),
                *self == (App { step_output_pins: self.step_output_pins, ..*old(self) }),
                self.step_output_pins@.len() == STEP_LED_COUNT,
                forall|j: int| 0 <= j < i ==> self.step_output_pins@[j] == sequence.step_active(j),
            decreases STEP_LED_COUNT - i,
        {
            let current_bit: u8 = step_mask(i);
            if sequence.matches(current_bit) {
                self.step_output_pins[i] = true;
            } else {
                self.step_output_pins[i] = false;
            }
            i += 1;
        }
        proof {
            assert(self.step_output_pins@ =~= spec_gate_levels(sequence));
        }
    }

    /// The power-on LED dance: writes a blank frame and the demonstration
    /// frame twice over, working around the strip's bright power-on
    /// state. Returns the waveforms to transmit, in order.
    pub fn initialize_leds(&mut self) -> (transmissions: Vec<Vec<u8>>)
        ensures
            final(self).spec_led_controller().last_frame() == spec_initial_colors(),
            final(self).spec_clock() == old(self).spec_clock(),
            final(self).spec_trigger() == old(self).spec_trigger(),
            final(self).spec_sequence_controller() == old(self).spec_sequence_controller(),
            final(self).spec_dac() == old(self).spec_dac(),
            final(self).spec_step_pins() == old(self).spec_step_pins(),
            final(self).spec_sequence_change_output() == old(self).spec_sequence_change_output(),
            ({
                let blank = Seq::new(RGB_LED_COUNT as nat, |i: int| crate::color::spec_color_unmapped());
                if old(self).spec_led_controller().last_frame() == blank {
                    transmissions@.len() == 3 && transmissions@[0]@ == spec_serialize(
                        spec_initial_colors(),
                    ) && transmissions@[1]@ == spec_serialize(blank) && transmissions@[2]@
                        == spec_serialize(spec_initial_colors())
                } else {
                    transmissions@.len() == 4 && transmissions@[0]@ == spec_serialize(blank)
                        && transmissions@[1]@ == spec_serialize(spec_initial_colors())
                        && transmissions@[2]@ == spec_serialize(blank) && transmissions@[3]@
                        == spec_serialize(spec_initial_colors())
                }
            }),
    {
        let blank: [Color; RGB_LED_COUNT] = [crate::color::color_unmapped(); RGB_LED_COUNT];
        proof {
            assert(blank@ =~= Seq::new(RGB_LED_COUNT as nat, |i: int| crate::color::spec_color_unmapped()));
        }
        let initial_colors = get_initial_colors();
        assert(initial_colors@ != blank@);
        let mut transmissions: Vec<Vec<u8>> = Vec::new();
        if let Some(bytes) = self.led_controller.write(blank) {
            transmissions.push(bytes);
        }
        if let Some(bytes) = self.led_controller.write(initial_colors) {
            transmissions.push(bytes);
        }
        if let Some(bytes) = self.led_controller.write(blank) {
            transmissions.push(bytes);
        }
        if let Some(bytes) = self.led_controller.write(initial_colors) {
            transmissions.push(bytes);
        }
        transmissions
    }

    /// The trigger output pin level.
    pub fn trigger_output(&self) -> (result: bool)
        ensures
            result == self.spec_trigger().output,
    {
        self.trigger.output
    }

    /// The DAC bit-line levels.
    pub fn dac_levels(&self) -> (result: Dac)
        ensures
            result == self.spec_dac(),
    {
        self.dac
    }

    /// The step output pin levels.
    pub fn step_pin_levels(&self) -> (result: [bool; STEP_LED_COUNT])
        ensures
            result@ == self.spec_step_pins(),
    {
        self.step_output_pins
    }

    /// The "sequence changed" indicator pin level.
    pub fn sequence_change_level(&self) -> (result: bool)
        ensures
            result == self.spec_sequence_change_output(),
    {
        self.sequence_change_output
    }
}

} // verus!
