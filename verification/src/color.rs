//! Color computation for the LED feedback strip: HSV-to-RGB conversion
//! over six 60-degree sectors, the intensity-to-hue rescale, the fixed
//! role colors, and the hex parsing used by the serial color test path.

use vstd::prelude::*;
use crate::dac_byte::DacByte;
use crate::RGB_LED_COUNT;

verus! {

/// An RGB triple, 0-255 per channel: one LED's color.
#[derive(Copy, Clone, Debug, PartialEq, Eq, Structural)]
pub struct Color {
    pub r: u8,
    pub g: u8,
    pub b: u8,
}

/// A hue/saturation/value triple, each channel 0-255. Hue runs through
/// six sectors of about 42.5 points each and folds back to the first
/// sector at 255.
#[derive(Copy, Clone, Debug, PartialEq, Eq, Structural)]
pub struct Hsv {
    pub hue: u8,
    pub sat: u8,
    pub val: u8,
}

/// LED color for a slot past the active pattern: off.
pub open spec fn spec_color_unmapped() -> Color {
    Color { r: 0, g: 0, b: 0 }
}

/// LED color for a slot past the active pattern: off.
#[verifier::when_used_as_spec(spec_color_unmapped)]
pub fn color_unmapped() -> (c: Color)
    ensures
        c == spec_color_unmapped(),
{
    Color { r: 0, g: 0, b: 0 }
}

/// Power-on demonstration color for an unmatched step.
pub open spec fn spec_color_no_match() -> Color {
    Color { r: 2, g: 0, b: 0 }
}

/// Power-on demonstration color for an unmatched step.
#[verifier::when_used_as_spec(spec_color_no_match)]
pub fn color_no_match() -> (c: Color)
    ensures
        c == spec_color_no_match(),
{
    Color { r: 2, g: 0, b: 0 }
}

/// Power-on demonstration color for a matched step.
pub open spec fn spec_color_match() -> Color {
    Color { r: 10, g: 0, b: 2 }
}

/// Power-on demonstration color for a matched step.
#[verifier::when_used_as_spec(spec_color_match)]
pub fn color_match() -> (c: Color)
    ensures
        c == spec_color_match(),
{
    Color { r: 10, g: 0, b: 2 }
}

/// Power-on demonstration color for the current step when unmatched.
pub open spec fn spec_color_current_no_match() -> Color {
    Color { r: 2, g: 0, b: 10 }
}

/// Power-on demonstration color for the current step when unmatched.
#[verifier::when_used_as_spec(spec_color_current_no_match)]
pub fn color_current_no_match() -> (c: Color)
    ensures
        c == spec_color_current_no_match(),
{
    Color { r: 2, g: 0, b: 10 }
}

/// Power-on demonstration color for the current step when matched.
pub open spec fn spec_color_current_match() -> Color {
    Color { r: 4, g: 0, b: 40 }
}

/// Power-on demonstration color for the current step when matched.
#[verifier::when_used_as_spec(spec_color_current_match)]
pub fn color_current_match() -> (c: Color)
    ensures
        c == spec_color_current_match(),
{
    Color { r: 4, g: 0, b: 40 }
}

/// Brightness of a step that is not the current one.
pub const BRIGHTNESS_DEFAULT: u8 = 10;

/// Brightness of the current step when its gate fires.
pub const BRIGHTNESS_CURRENT_TRIGGER: u8 = 40;

/// Brightness of the current step when its gate stays silent.
pub const BRIGHTNESS_CURRENT_NO_TRIGGER: u8 = 20;

/// Position of `hue` within its 60-degree sector, rescaled to `[0, 252]`.
pub open spec fn rel_interval(hue: u8) -> int {
    (hue * 2 % 85) * 3
}

/// The "p" HSV component: value dimmed by full saturation.
pub open spec fn spec_p(v: int, s: int) -> int {
    v * (255 - s) / 255
}

/// The "q" HSV component: value dimmed towards the sector's falling edge.
pub open spec fn spec_q(v: int, s: int, f: int) -> int {
    v * (255 - (s * f) / 255) / 255
}

/// The "t" HSV component: value dimmed towards the sector's rising edge.
pub open spec fn spec_t(v: int, s: int, f: int) -> int {
    v * (255 - (s * (255 - f)) / 255) / 255
}

/// HSV to RGB over six sectors with boundaries at hue 42, 84, 127, 169,
/// 212 and 254; hue 255 folds back to the first sector's formula.
pub open spec fn spec_hsv_to_color(hsv: Hsv) -> Color {
    let v = hsv.val as int;
    let s = hsv.sat as int;
    let f = rel_interval(hsv.hue);
    let p = spec_p(v, s);
    let q = spec_q(v, s, f);
    let t = spec_t(v, s, f);
    if hsv.hue <= 42 {
        Color { r: hsv.val, g: t as u8, b: p as u8 }
    } else if hsv.hue <= 84 {
        Color { r: q as u8, g: hsv.val, b: p as u8 }
    } else if hsv.hue <= 127 {
        Color { r: p as u8, g: hsv.val, b: t as u8 }
    } else if hsv.hue <= 169 {
        Color { r: p as u8, g: q as u8, b: hsv.val }
    } else if hsv.hue <= 212 {
        Color { r: t as u8, g: p as u8, b: hsv.val }
    } else if hsv.hue <= 254 {
        Color { r: hsv.val, g: p as u8, b: q as u8 }
    } else {
        Color { r: hsv.val, g: t as u8, b: p as u8 }
    }
}

/// At full saturation the first sector boundary is pure red: hue 0 keeps
/// only the red channel, at the requested brightness.
pub proof fn lemma_hue_zero_is_pure_red(val: u8)
    ensures
        spec_hsv_to_color(Hsv { hue: 0, sat: 255, val }) == (Color { r: val, g: 0, b: 0 }),
{
    let v = val as int;
    assert(v * (255 - 255) / 255 == 0) by (nonlinear_arith);
    assert(v * (255 - (255 * (255 - 0)) / 255) / 255 == 0) by (nonlinear_arith);
}

/// Hue 255 folds back onto the first sector: it colors exactly like hue 0
/// at the same saturation and value.
pub proof fn lemma_hue_255_folds_to_first_sector(sat: u8, val: u8)
    ensures
        spec_hsv_to_color(Hsv { hue: 255, sat, val }) == spec_hsv_to_color(
            Hsv { hue: 0, sat, val },
        ),
{
    assert(rel_interval(255) == 0);
    assert(rel_interval(0) == 0);
}

/// Converts one HSV triple to RGB, sector by sector.
pub fn hsv_to_color(hsv: Hsv) -> (result: Color)
    ensures
        result == spec_hsv_to_color(hsv),
{
    let v: u16 = hsv.val as u16;
    let s: u16 = hsv.sat as u16;
    let f: u16 = (hsv.hue as u16 * 2 % 85) * 3;  // relative interval

    assert(v * (255 - s) <= 65025) by (nonlinear_arith)
        requires
            v <= 255,
            s <= 255,
    ;
    assert(s * f <= 64260) by (nonlinear_arith)
        requires
            s <= 255,
            f <= 252,
    ;
    assert(v * (255 - s * f / 255) <= 65025) by (nonlinear_arith)
        requires
            v <= 255,
            0 <= s * f / 255 <= 255,
    ;
    assert(s * (255 - f) <= 65025) by (nonlinear_arith)
        requires
            s <= 255,
            f <= 252,
    ;
    assert(v * (255 - s * (255 - f) / 255) <= 65025) by (nonlinear_arith)
        requires
            v <= 255,
            0 <= s * (255 - f) / 255 <= 255,
    ;

    let p: u16 = v * (255 - s) / 255;
    let q: u16 = v * (255 - (s * f) / 255) / 255;
    let t: u16 = v * (255 - (s * (255 - f)) / 255) / 255;

    if hsv.hue <= 42 {
        Color { r: v as u8, g: t as u8, b: p as u8 }
    } else if hsv.hue <= 84 {
        Color { r: q as u8, g: v as u8, b: p as u8 }
    } else if hsv.hue <= 127 {
        Color { r: p as u8, g: v as u8, b: t as u8 }
    } else if hsv.hue <= 169 {
        Color { r: p as u8, g: q as u8, b: v as u8 }
    } else if hsv.hue <= 212 {
        Color { r: t as u8, g: p as u8, b: v as u8 }
    } else if hsv.hue <= 254 {
        Color { r: v as u8, g: p as u8, b: q as u8 }
    } else {
        Color { r: v as u8, g: t as u8, b: p as u8 }
    }
}

/// The hue a step intensity maps to: a linear rescale of `[0, 15]` onto
/// `[0, 255]`.
pub open spec fn scaled_hue(value: u8) -> u8 {
    (value * 255 / 15) as u8
}

/// The feedback color for one step intensity: hue from the intensity,
/// saturation and brightness as requested by the step's role.
pub open spec fn spec_color_for_dac_byte(dac_byte: DacByte, saturation: u8, brightness: u8) -> Color {
    spec_hsv_to_color(Hsv { hue: scaled_hue(dac_byte.value()), sat: saturation, val: brightness })
}

/// Maps a step intensity to its feedback color.
pub fn color_for_dac_byte(dac_byte: DacByte, saturation: u8, brightness: u8) -> (result: Color)
    requires
        dac_byte.wf(),
    ensures
        result == spec_color_for_dac_byte(dac_byte, saturation, brightness),
{
    let dac_value: u16 = dac_byte.value() as u16;
    let max_hue: u16 = 255;
    let max_dac: u16 = DacByte::max().value() as u16;
    let scaled: u8 = (dac_value * max_hue / max_dac) as u8;

    hsv_to_color(Hsv { hue: scaled, sat: saturation, val: brightness })
}

/// The power-on frame as a sequence of colors: pairs of matched,
/// unmatched, current-matched and current-unmatched demonstration colors.
pub open spec fn spec_initial_colors() -> Seq<Color> {
    seq![
        spec_color_match(),
        spec_color_match(),
        spec_color_no_match(),
        spec_color_no_match(),
        spec_color_current_match(),
        spec_color_current_match(),
        spec_color_current_no_match(),
        spec_color_current_no_match(),
    ]
}

/// The power-on frame: a fixed demonstration of the role colors.
pub fn get_initial_colors() -> (data: [Color; RGB_LED_COUNT])
    ensures
        data@ == spec_initial_colors(),
        data@.len() == RGB_LED_COUNT,
        data@[0] == color_match(),
        data@[1] == color_match(),
        data@[2] == color_no_match(),
        data@[3] == color_no_match(),
        data@[4] == color_current_match(),
        data@[5] == color_current_match(),
        data@[6] == color_current_no_match(),
        data@[7] == color_current_no_match(),
{
    let mut data: [Color; RGB_LED_COUNT] = [color_unmapped(); RGB_LED_COUNT];
    data[0] = color_match();
    data[1] = color_match();
    data[2] = color_no_match();
    data[3] = color_no_match();
    data[4] = color_current_match();
    data[5] = color_current_match();
    data[6] = color_current_no_match();
    data[7] = color_current_no_match();

    proof {
        assert(data@ =~= spec_initial_colors());
    }
    data
}

/// The value of one ASCII hex digit, upper or lower case.
pub open spec fn spec_hex_digit(c: u8) -> Option<u8> {
    if 48 <= c <= 57 {
        Some((c - 48) as u8)
    } else if 97 <= c <= 102 {
        Some((c - 87) as u8)
    } else if 65 <= c <= 70 {
        Some((c - 55) as u8)
    } else {
        None
    }
}

/// The channel value read from a two-character hex buffer: two digits are
/// a base-16 number, an integer-parser-style leading `+` keeps the single
/// digit after it, and anything unparsable reads as 0.
pub open spec fn spec_u8_from_color_buffer(c0: u8, c1: u8) -> u8 {
    match (spec_hex_digit(c0), spec_hex_digit(c1)) {
        (Some(high), Some(low)) => (high * 16 + low) as u8,
        (None, Some(low)) => if c0 == 43 {
            low
        } else {
            0
        },
        _ => 0,
    }
}

/// The value of one ASCII hex digit, upper or lower case.
fn hex_digit(c: u8) -> (result: Option<u8>)
    ensures
        result == spec_hex_digit(c),
{
    if 48 <= c && c <= 57 {
        Some(c - 48)
    } else if 97 <= c && c <= 102 {
        Some(c - 87)
    } else if 65 <= c && c <= 70 {
        Some(c - 55)
    } else {
        None
    }
}

/// Parses a two-character hex buffer into one channel value; unparsable
/// buffers read as 0.
pub fn u8_from_color_buffer(buffer: &[u8; 2]) -> (result: u8)
    ensures
        result == spec_u8_from_color_buffer(buffer[0], buffer[1]),
{
    let high = hex_digit(buffer[0]);
    let low = hex_digit(buffer[1]);
    match (high, low) {
        (Some(h), Some(l)) => h * 16 + l,
        (None, Some(l)) => if buffer[0] == 43 {
            l
        } else {
            0
        },
        _ => 0,
    }
}

/// One character of a serial color triple: a newline reads as 0, anything
/// past ASCII `f` is out of bounds for a hex digit and rejected, the rest
/// passes through for the hex parser to judge.
pub fn filter_color_char(c: u8) -> (result: Result<u8, ()>)
    ensures
        c > 102 ==> result == Result::<u8, ()>::Err(()),
        c == 10 ==> result == Result::<u8, ()>::Ok(0u8),
        c <= 102 && c != 10 ==> result == Result::<u8, ()>::Ok(c),
{
    let mut character = c;
    if character == 10 {
        character = 0;
    }
    if character > 102 {
        return Err(());
    }
    Ok(character)
}

/// Assembles a color from the three parsed channel buffers read over the
/// serial test channel.
pub fn color_from_buffers(red: &[u8; 2], green: &[u8; 2], blue: &[u8; 2]) -> (result: Color)
    ensures
        result.r == spec_u8_from_color_buffer(red[0], red[1]),
        result.g == spec_u8_from_color_buffer(green[0], green[1]),
        result.b == spec_u8_from_color_buffer(blue[0], blue[1]),
{
    Color {
        r: u8_from_color_buffer(red),
        g: u8_from_color_buffer(green),
        b: u8_from_color_buffer(blue),
    }
}

} // verus!
