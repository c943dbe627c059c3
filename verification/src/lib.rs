//! Core logic of a step-sequencer module: clock edge detection (internal
//! pulse generator or external trigger input), step advancement through a
//! preset pattern table, trigger-output timing policies backed by a one-slot
//! deferred-task scheduler, per-step DAC and output levels, and an LED feedback
//! renderer that diffs frames and serializes them to the WS2812 one-wire
//! protocol carried over an SPI bus.
//!
//! Everything here is pure state-machine logic: pin levels and the
//! millisecond counter enter as plain values, and the computed output levels
//! and serialized LED waveform bytes leave as plain values. The hardware
//! glue that samples real pins and shifts the waveform out lives outside
//! this crate.

use vstd::prelude::*;

mod dac_byte;
mod sequence;
mod trigger_state;
mod scheduler;
mod clock;
mod trigger;
mod sequence_controller;
mod color;
mod led_controller;
mod dac;
mod app;

pub use dac_byte::DacByte;
pub use sequence::{bit_index, slot_value, slot_wf, step_mask, Sequence};
pub use trigger_state::TriggerState;
pub use scheduler::{Task, TaskId};
pub use clock::{
    external_edge, internal_edge, lemma_next_step_in_range, lemma_no_double_edge,
    lemma_step_counter_in_range_after_rises, next_step, spec_clock_reset, step_after_rises, Clock,
    ClockFactory, ClockResult, ExternalClock, InternalClock, StepCounterType,
};
pub use trigger::{
    lemma_pulse_fall_does_not_cut_short, lemma_reschedule_overwrites,
    lemma_scheduled_task_fires_exactly_once, Trigger, TriggerFactory, TriggerMode, TriggerTask,
};
pub use sequence_controller::{
    change_recognized, default_sequences, lemma_change_recognized_once, lemma_pointer_cycles,
    next_pointer_of, pointer_after_changes, slot_is, SequenceController, SequenceState,
};
pub use color::{
    color_current_match, color_current_no_match, color_for_dac_byte, color_from_buffers,
    color_match, color_no_match, color_unmapped, filter_color_char, get_initial_colors,
    hsv_to_color, lemma_hue_255_folds_to_first_sector, lemma_hue_zero_is_pure_red, rel_interval,
    scaled_hue, spec_color_current_match, spec_color_current_no_match, spec_color_for_dac_byte,
    spec_color_match, spec_color_no_match, spec_color_unmapped, spec_hex_digit,
    spec_hsv_to_color, spec_initial_colors, spec_p, spec_q, spec_t, spec_u8_from_color_buffer,
    u8_from_color_buffer, Color, Hsv, BRIGHTNESS_CURRENT_NO_TRIGGER, BRIGHTNESS_CURRENT_TRIGGER,
    BRIGHTNESS_DEFAULT,
};
pub use led_controller::{
    byte_expansion, color_expansion, default_step_color, frame_expansion, led_reset_bytes,
    lemma_different_frames_both_transmit, lemma_write_idempotent, serialize_frame,
    spec_data_for_sequence, spec_serialize, spec_step_frame, spi_pattern, spi_pattern_byte,
    write_post_last, write_transmits, LedController, LedFrame,
};
pub use dac::{lemma_dac_encodes_value, Dac};
pub use app::{spec_gate_levels, spec_rise_gate_levels, App, LoopResult};

verus! {

/// How long, in milliseconds, the trigger output is held high under the
/// Pulse policy before the scheduled set-low task fires.
pub const DELAY_TIME: u32 = 5;

/// Number of per-step gate output pins on the board.
pub const STEP_LED_COUNT: usize = 5;

/// Number of addressable LEDs on the feedback strip, one per sequence slot.
pub const RGB_LED_COUNT: usize = 8;

/// Selects the internally generated clock over the external trigger input
/// when the clock factory builds the clock source.
pub const USE_INTERNAL_CLOCK: bool = true;

} // verus!
