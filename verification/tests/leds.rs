use step_sequencer::{
    color_current_match, color_current_no_match, color_for_dac_byte, color_from_buffers,
    color_match, color_no_match, color_unmapped, filter_color_char, get_initial_colors,
    hsv_to_color, serialize_frame, u8_from_color_buffer, Color, DacByte, Hsv, LedController,
    LedFrame, Sequence, BRIGHTNESS_CURRENT_NO_TRIGGER, BRIGHTNESS_CURRENT_TRIGGER,
    BRIGHTNESS_DEFAULT, RGB_LED_COUNT,
};

#[test]
fn hue_zero_at_full_saturation_is_pure_red() {
    let c = hsv_to_color(Hsv { hue: 0, sat: 255, val: 200 });
    assert_eq!(c, Color { r: 200, g: 0, b: 0 });
}

#[test]
fn hue_255_folds_to_the_first_sector() {
    for &val in &[0u8, 17, 128, 255] {
        let folded = hsv_to_color(Hsv { hue: 255, sat: 255, val });
        let first = hsv_to_color(Hsv { hue: 0, sat: 255, val });
        assert_eq!(folded, first);
    }
    let folded = hsv_to_color(Hsv { hue: 255, sat: 99, val: 170 });
    let first = hsv_to_color(Hsv { hue: 0, sat: 99, val: 170 });
    assert_eq!(folded, first);
}

#[test]
fn hsv_conversion_exact_mid_sector_value() {
    // hue 100 lies in the third sector; f = (200 % 85) * 3 = 90,
    // p = 150*55/255 = 32, t = 150*(255 - 200*165/255)/255 = 74.
    let c = hsv_to_color(Hsv { hue: 100, sat: 200, val: 150 });
    assert_eq!(c, Color { r: 32, g: 150, b: 74 });
}

#[test]
fn zero_value_is_black_in_every_sector() {
    for &hue in &[0u8, 43, 85, 128, 170, 213, 255] {
        let c = hsv_to_color(Hsv { hue, sat: 255, val: 0 });
        assert_eq!(c, Color { r: 0, g: 0, b: 0 });
    }
}

#[test]
fn dac_byte_color_scales_intensity_onto_the_hue_circle() {
    // Intensity 15 scales to hue 255, which folds to the pure red of hue 0.
    let c = color_for_dac_byte(DacByte::new(15), 255, 40);
    assert_eq!(c, Color { r: 40, g: 0, b: 0 });
    let c0 = color_for_dac_byte(DacByte::new(0), 255, 40);
    assert_eq!(c0, Color { r: 40, g: 0, b: 0 });
    // Intensity 8 scales to hue 136: fourth sector, blue dominates.
    let c8 = color_for_dac_byte(DacByte::new(8), 255, 40);
    assert_eq!(c8.b, 40);
}

#[test]
fn initial_colors_pair_the_role_colors() {
    let data = get_initial_colors();
    assert_eq!(data[0], color_match());
    assert_eq!(data[1], color_match());
    assert_eq!(data[2], color_no_match());
    assert_eq!(data[3], color_no_match());
    assert_eq!(data[4], color_current_match());
    assert_eq!(data[5], color_current_match());
    assert_eq!(data[6], color_current_no_match());
    assert_eq!(data[7], color_current_no_match());
}

#[test]
fn serialized_blank_frame_is_all_zero_bit_patterns() {
    let frame: LedFrame = [color_unmapped(); RGB_LED_COUNT];
    let bytes = serialize_frame(&frame);
    assert_eq!(bytes.len(), 40 + 12 * RGB_LED_COUNT);
    for b in &bytes[..20] {
        assert_eq!(*b, 0);
    }
    for b in &bytes[20..116] {
        assert_eq!(*b, 0x88);
    }
    for b in &bytes[116..] {
        assert_eq!(*b, 0);
    }
}

#[test]
fn serialization_expands_green_red_blue_two_bits_per_byte() {
    let mut frame: LedFrame = [color_unmapped(); RGB_LED_COUNT];
    frame[0] = Color { r: 0xFF, g: 0x00, b: 0xA5 };
    let bytes = serialize_frame(&frame);
    // Green 0x00: four bytes of the 00-pair pattern.
    assert_eq!(&bytes[20..24], &[0x88, 0x88, 0x88, 0x88]);
    // Red 0xFF: four bytes of the 11-pair pattern.
    assert_eq!(&bytes[24..28], &[0xEE, 0xEE, 0xEE, 0xEE]);
    // Blue 0xA5 = 0b10100101: pairs 10, 10, 01, 01.
    assert_eq!(&bytes[28..32], &[0xE8, 0xE8, 0x8E, 0x8E]);
}

#[test]
fn write_is_idempotent_per_frame() {
    let mut controller = LedController::new();
    let mut frame: LedFrame = [color_unmapped(); RGB_LED_COUNT];
    frame[3] = Color { r: 1, g: 2, b: 3 };
    let first = controller.write(frame);
    let second = controller.write(frame);
    assert!(first.is_some());
    assert!(second.is_none());
}

#[test]
fn structurally_different_frames_both_transmit() {
    let mut controller = LedController::new();
    let mut frame1: LedFrame = [color_unmapped(); RGB_LED_COUNT];
    frame1[0] = Color { r: 9, g: 0, b: 0 };
    let mut frame2 = frame1;
    frame2[7] = Color { r: 0, g: 9, b: 0 };
    let first = controller.write(frame1);
    let second = controller.write(frame2);
    assert!(first.is_some());
    assert!(second.is_some());
}

#[test]
fn fresh_controller_skips_the_blank_frame() {
    let mut controller = LedController::new();
    let blank: LedFrame = [color_unmapped(); RGB_LED_COUNT];
    assert!(controller.write(blank).is_none());
}

#[test]
fn show_step_highlights_the_current_slot() {
    let sequence = Sequence::new(
        2,
        Some(DacByte::new(5)),
        Some(DacByte::new(0)),
        None,
        None,
        None,
        None,
        None,
        None,
    );
    let mut controller = LedController::new();
    let bytes = controller
        .show_step(sequence, 0, true)
        .expect("first frame must transmit");
    // The highlighted slot carries the brighter color's expansion.
    let highlighted = color_for_dac_byte(DacByte::new(5), 255, BRIGHTNESS_CURRENT_TRIGGER);
    let plain = color_for_dac_byte(DacByte::new(5), 255, BRIGHTNESS_DEFAULT);
    assert_ne!(highlighted, plain);
    let mut expected_frame = controller_frame(sequence);
    expected_frame[0] = highlighted;
    let expected = serialize_frame(&expected_frame);
    assert_eq!(bytes, expected);

    // An unmatched current step takes the dimmer highlight.
    let bytes = controller
        .show_step(sequence, 1, false)
        .expect("changed frame must transmit");
    let mut expected_frame = controller_frame(sequence);
    expected_frame[1] = color_for_dac_byte(DacByte::new(0), 255, BRIGHTNESS_CURRENT_NO_TRIGGER);
    assert_eq!(bytes, serialize_frame(&expected_frame));
}

fn controller_frame(sequence: Sequence) -> LedFrame {
    LedController::new().data_for_sequence(sequence)
}

#[test]
fn show_sequence_colors_populated_slots_only() {
    let sequence = Sequence::new(
        3,
        Some(DacByte::new(7)),
        None,
        Some(DacByte::new(1)),
        None,
        None,
        None,
        None,
        None,
    );
    let frame = LedController::new().data_for_sequence(sequence);
    assert_eq!(frame[0], color_for_dac_byte(DacByte::new(7), 255, BRIGHTNESS_DEFAULT));
    assert_eq!(frame[1], color_unmapped());
    assert_eq!(frame[2], color_for_dac_byte(DacByte::new(1), 255, BRIGHTNESS_DEFAULT));
    for i in 3..RGB_LED_COUNT {
        assert_eq!(frame[i], color_unmapped());
    }
}

#[test]
fn hex_buffers_parse_like_an_integer_parser() {
    assert_eq!(u8_from_color_buffer(b"ff"), 255);
    assert_eq!(u8_from_color_buffer(b"0a"), 10);
    assert_eq!(u8_from_color_buffer(b"A5"), 165);
    assert_eq!(u8_from_color_buffer(b"00"), 0);
    assert_eq!(u8_from_color_buffer(b"+f"), 15);
    assert_eq!(u8_from_color_buffer(b"zz"), 0);
    assert_eq!(u8_from_color_buffer(b"5z"), 0);
}

#[test]
fn color_char_filter_substitutes_newlines_and_rejects_out_of_range() {
    assert_eq!(filter_color_char(10), Ok(0));
    assert_eq!(filter_color_char(103), Err(()));
    assert_eq!(filter_color_char(255), Err(()));
    assert_eq!(filter_color_char(b'a'), Ok(b'a'));
    assert_eq!(filter_color_char(b'0'), Ok(b'0'));
}

#[test]
fn color_from_buffers_assembles_three_channels() {
    let c = color_from_buffers(b"12", b"a0", b"ff");
    assert_eq!(c, Color { r: 0x12, g: 0xa0, b: 0xff });
}
