//! The LED feedback renderer: builds a full-strip frame from the active
//! sequence, diffs it against the last transmitted frame, and serializes
//! changed frames to the WS2812 one-wire waveform as carried over an SPI
//! bus.
//!
//! Each data bit becomes a fixed run of four bus-clock bits (a `1000`
//! pulse for a zero bit, `1110` for a one bit, packed two data bits per
//! bus byte), so one LED's 24 bits of green, red, blue occupy 12 bus
//! bytes, framed by 20 idle bytes on each side that hold the line low for
//! the strip's reset latch. The buffer is therefore always
//! `40 + 12 * RGB_LED_COUNT` bytes; changing that sizing or the expansion
//! ratio would put the physical waveform out of spec for the LEDs.

use vstd::prelude::*;
use crate::color::{
    color_for_dac_byte, color_unmapped, spec_color_for_dac_byte, Color, BRIGHTNESS_CURRENT_NO_TRIGGER,
    BRIGHTNESS_CURRENT_TRIGGER, BRIGHTNESS_DEFAULT,
};
use crate::sequence::{step_mask, Sequence};
use crate::RGB_LED_COUNT;

verus! {

/// One complete set of colors for the strip, one per physical LED.
pub type LedFrame = [Color; RGB_LED_COUNT];

/// The bus byte encoding two consecutive data bits: each data bit becomes
/// four bus bits, `1110` for a one and `1000` for a zero.
pub open spec fn spi_pattern(bits: u8) -> u8 {
    if bits == 0 {
        0x88
    } else if bits == 1 {
        0x8E
    } else if bits == 2 {
        0xE8
    } else {
        0xEE
    }
}

/// The bus byte encoding two consecutive data bits.
#[verifier::when_used_as_spec(spi_pattern)]
pub fn spi_pattern_byte(bits: u8) -> (result: u8)
    ensures
        result == spi_pattern(bits),
{
    if bits == 0 {
        0x88
    } else if bits == 1 {
        0x8E
    } else if bits == 2 {
        0xE8
    } else {
        0xEE
    }
}

/// One data byte expanded to four bus bytes, most significant bits first.
pub open spec fn byte_expansion(b: u8) -> Seq<u8> {
    seq![
        spi_pattern(b / 64),
        spi_pattern(b / 16 % 4),
        spi_pattern(b / 4 % 4),
        spi_pattern(b % 4),
    ]
}

/// One LED's color expanded to twelve bus bytes: the strip takes green,
/// then red, then blue.
pub open spec fn color_expansion(c: Color) -> Seq<u8> {
    byte_expansion(c.g) + byte_expansion(c.r) + byte_expansion(c.b)
}

/// A whole frame expanded LED by LED.
pub open spec fn frame_expansion(frame: Seq<Color>) -> Seq<u8>
    decreases frame.len(),
{
    if frame.len() == 0 {
        Seq::empty()
    } else {
        frame_expansion(frame.drop_last()) + color_expansion(frame.last())
    }
}

/// The 20 idle bytes holding the line low around the data, for the
/// strip's reset latch.
pub open spec fn led_reset_bytes() -> Seq<u8> {
    Seq::new(20, |i: int| 0u8)
}

/// The full serialized waveform for one frame: reset, data, reset.
pub open spec fn spec_serialize(frame: Seq<Color>) -> Seq<u8> {
    led_reset_bytes() + frame_expansion(frame) + led_reset_bytes()
}

/// A frame's data expansion is twelve bytes per LED.
pub proof fn lemma_frame_expansion_len(frame: Seq<Color>)
    ensures
        frame_expansion(frame).len() == 12 * frame.len(),
    decreases frame.len(),
{
    if frame.len() > 0 {
        lemma_frame_expansion_len(frame.drop_last());
    }
}

/// Appends the 20 reset bytes.
fn push_reset(out: &mut Vec<u8>)
    ensures
        final(out)@ == old(out)@ + led_reset_bytes(),
{
    let mut i: usize = 0;
    while i < 20
        invariant
            i <= 20,
            out@ == old(out)@ + led_reset_bytes().take(i as int),
        decreases 20 - i,
    {
        out.push(0);
        i += 1;
        proof {
            assert(out@ =~= old(out)@ + led_reset_bytes().take(i as int));
        }
    }
    proof {
        assert(led_reset_bytes().take(20) =~= led_reset_bytes());
    }
}

/// Appends the four bus bytes of one data byte.
fn push_byte_expansion(out: &mut Vec<u8>, b: u8)
    ensures
        final(out)@ == old(out)@ + byte_expansion(b),
{
    out.push(spi_pattern_byte(b / 64));
    out.push(spi_pattern_byte(b / 16 % 4));
    out.push(spi_pattern_byte(b / 4 % 4));
    out.push(spi_pattern_byte(b % 4));
    proof {
        assert(out@ =~= old(out)@ + byte_expansion(b));
    }
}

/// Serializes one frame to the bus waveform: 20 reset bytes, 12 data
/// bytes per LED (green, red, blue), 20 reset bytes.
pub fn serialize_frame(data: &LedFrame) -> (out: Vec<u8>)
    ensures
        out@ == spec_serialize(data@),
        out@.len() == 40 + 12 * RGB_LED_COUNT,
{
    let mut out: Vec<u8> = Vec::new();
    push_reset(&mut out);
    let mut i: usize = 0;
    while i < RGB_LED_COUNT
        invariant
            i <= RGB_LED_COUNT,
            data@.len() == RGB_LED_COUNT,
            out@ == led_reset_bytes() + frame_expansion(data@.take(i as int)),
        decreases RGB_LED_COUNT - i,
    {
        let c = data[i];
        push_byte_expansion(&mut out, c.g);
        push_byte_expansion(&mut out, c.r);
        push_byte_expansion(&mut out, c.b);
        proof {
            assert(data@.take(i + 1).drop_last() =~= data@.take(i as int));
            assert(data@.take(i + 1).last() == data@[i as int]);
            assert(out@ =~= led_reset_bytes() + frame_expansion(data@.take(i + 1)));
        }
        i += 1;
    }
    push_reset(&mut out);
    proof {
        assert(data@.take(RGB_LED_COUNT as int) =~= data@);
        lemma_frame_expansion_len(data@);
        assert(out@ =~= spec_serialize(data@));
    }
    out
}

/// Element-wise frame comparison.
fn frames_equal(a: &LedFrame, b: &LedFrame) -> (result: bool)
    ensures
        result == (a@ == b@),
{
    let mut i: usize = 0;
    while i < RGB_LED_COUNT
        invariant
            i <= RGB_LED_COUNT,
            forall|j: int| 0 <= j < i ==> a@[j] == b@[j],
        decreases RGB_LED_COUNT - i,
    {
        if a[i] != b[i] {
            assert(a@[i as int] != b@[i as int]);
            return false;
        }
        i += 1;
    }
    proof {
        assert(a@ =~= b@);
    }
    true
}

/// The default feedback color of one slot: its intensity's color at the
/// default brightness, or off for an unpopulated slot.
pub open spec fn default_step_color(sequence: Sequence, i: int) -> Color {
    match sequence.slot(i) {
        Some(d) => spec_color_for_dac_byte(d, 255, BRIGHTNESS_DEFAULT),
        None => crate::color::spec_color_unmapped(),
    }
}

/// The whole-strip frame showing a sequence with no step highlighted.
pub open spec fn spec_data_for_sequence(sequence: Sequence) -> Seq<Color> {
    Seq::new(RGB_LED_COUNT as nat, |i: int| default_step_color(sequence, i))
}

/// The whole-strip frame showing a sequence with the current step
/// highlighted: the current slot, if populated, is brightened according
/// to whether its gate fires.
pub open spec fn spec_step_frame(sequence: Sequence, step_counter: int, sequence_matches: bool) -> Seq<
    Color,
> {
    let base = spec_data_for_sequence(sequence);
    match sequence.slot(step_counter) {
        Some(d) => base.update(
            step_counter,
            spec_color_for_dac_byte(
                d,
                255,
                if sequence_matches {
                    BRIGHTNESS_CURRENT_TRIGGER
                } else {
                    BRIGHTNESS_CURRENT_NO_TRIGGER
                },
            ),
        ),
        None => base,
    }
}

/// Whether a `write` of `data` transmits, given the last transmitted
/// frame: only a frame that differs in at least one LED goes out.
pub open spec fn write_transmits(pre_last: Seq<Color>, data: Seq<Color>) -> bool {
    data != pre_last
}

/// The renderer's recorded frame after a `write` of `data`: `data`
/// itself, whether or not anything was transmitted.
pub open spec fn write_post_last(pre_last: Seq<Color>, data: Seq<Color>) -> Seq<Color> {
    data
}

/// Writing the same frame twice transmits only once: after any write of
/// a frame, writing that frame again transmits nothing.
pub proof fn lemma_write_idempotent(pre_last: Seq<Color>, data: Seq<Color>)
    ensures
        !write_transmits(write_post_last(pre_last, data), data),
{
}

/// Two structurally different frames both transmit: a frame that differs
/// from the strip goes out, and a second frame differing from the first
/// goes out after it.
pub proof fn lemma_different_frames_both_transmit(
    pre_last: Seq<Color>,
    first: Seq<Color>,
    second: Seq<Color>,
)
    requires
        first != pre_last,
        second != first,
    ensures
        write_transmits(pre_last, first),
        write_transmits(write_post_last(pre_last, first), second),
{
}

/// Renderer owning the last transmitted frame for diffing. A `write`
/// returns the serialized waveform to shift out, or nothing when the
/// frame is already on the strip.
pub struct LedController {
    last_data: LedFrame,
}

impl LedController {
    /// The frame most recently handed out for transmission.
    pub closed spec fn last_frame(&self) -> Seq<Color> {
        self.last_data@
    }

    /// A renderer whose diffing state matches a strip that shows all-off.
    pub fn new() -> (result: Self)
        ensures
            result.last_frame() == Seq::new(
                RGB_LED_COUNT as nat,
                |i: int| crate::color::spec_color_unmapped(),
            ),
    {
        let data: LedFrame = [color_unmapped(); RGB_LED_COUNT];
        proof {
            assert(data@ =~= Seq::new(RGB_LED_COUNT as nat, |i: int| crate::color::spec_color_unmapped()));
        }
        Self { last_data: data }
    }

    /// Diffs `data` against the last transmitted frame: an identical
    /// frame transmits nothing, a changed frame is serialized in full and
    /// recorded as the new last transmitted frame. A transmit failure on
    /// the bus is fatal to the caller by design, so the record is updated
    /// as soon as the waveform is handed out.
    pub fn write(&mut self, data: LedFrame) -> (result: Option<Vec<u8>>)
        ensures
            final(self).last_frame() == write_post_last(old(self).last_frame(), data@),
            (result is Some) == write_transmits(old(self).last_frame(), data@),
            data@ == old(self).last_frame() ==> result is None && final(self).last_frame() == old(
                self,
            ).last_frame(),
            data@ != old(self).last_frame() ==> (result matches Some(bytes) && bytes@
                == spec_serialize(data@)) && final(self).last_frame() == data@,
    {
        if !frames_equal(&data, &self.last_data) {
            let bytes = serialize_frame(&data);
            self.last_data = data;
            Some(bytes)
        } else {
            None
        }
    }

    /// The whole-strip frame for a sequence with no step highlighted.
    pub fn data_for_sequence(&self, sequence: Sequence) -> (data: LedFrame)
        requires
            sequence.wf(),
        ensures
            data@ == spec_data_for_sequence(sequence),
    {
        let mut data: LedFrame = [color_unmapped(); RGB_LED_COUNT];
        let mut step_counter: usize = 0;
        while step_counter < RGB_LED_COUNT
            invariant
                step_counter <= RGB_LED_COUNT,
                sequence.wf(),
                data@.len() == RGB_LED_COUNT,
                forall|j: int| 0 <= j < step_counter ==> data@[j] == default_step_color(sequence, j),
                forall|j: int|
                    step_counter <= j < RGB_LED_COUNT ==> data@[j]
                        == crate::color::spec_color_unmapped(),
            decreases RGB_LED_COUNT - step_counter,
        {
            let step_pointer: u8 = step_mask(step_counter);
            if let Some(dac_byte) = sequence.get_step(step_pointer) {
                data[step_counter] = color_for_dac_byte(dac_byte, 255, BRIGHTNESS_DEFAULT);
            }
            step_counter += 1;
        }
        proof {
            assert(data@ =~= spec_data_for_sequence(sequence));
        }
        data
    }

    /// Renders and writes the frame for a sequence with no highlight.
    pub fn show_sequence(&mut self, sequence: Sequence) -> (result: Option<Vec<u8>>)
        requires
            sequence.wf(),
        ensures
            ({
                let frame = spec_data_for_sequence(sequence);
                &&& frame == old(self).last_frame() ==> result is None && final(self).last_frame()
                    == old(self).last_frame()
                &&& frame != old(self).last_frame() ==> (result matches Some(bytes) && bytes@
                    == spec_serialize(frame)) && final(self).last_frame() == frame
            }),
    {
        let data = self.data_for_sequence(sequence);
        self.write(data)
    }

    /// Renders and writes the frame for a sequence with the current step
    /// highlighted.
    pub fn show_step(
        &mut self,
        sequence: Sequence,
        step_counter: usize,
        sequence_matches: bool,
    ) -> (result: Option<Vec<u8>>)
        requires
            sequence.wf(),
            step_counter < RGB_LED_COUNT,
        ensures
            ({
                let frame = spec_step_frame(sequence, step_counter as int, sequence_matches);
                &&& frame == old(self).last_frame() ==> result is None && final(self).last_frame()
                    == old(self).last_frame()
                &&& frame != old(self).last_frame() ==> (result matches Some(bytes) && bytes@
                    == spec_serialize(frame)) && final(self).last_frame() == frame
            }),
    {
        let mut data = self.data_for_sequence(sequence);

        let step_pointer: u8 = step_mask(step_counter);
        match sequence.get_step(step_pointer) {
            None => {},
            Some(dac_byte) => {
                if sequence_matches {
                    data[step_counter] = color_for_dac_byte(dac_byte, 255, BRIGHTNESS_CURRENT_TRIGGER);
                } else {
                    data[step_counter] = color_for_dac_byte(
                        dac_byte,
                        255,
                        BRIGHTNESS_CURRENT_NO_TRIGGER,
                    );
                }
            },
        }
        proof {
            assert(data@ =~= spec_step_frame(sequence, step_counter as int, sequence_matches));
        }
        self.write(data)
    }
}

} // verus!
