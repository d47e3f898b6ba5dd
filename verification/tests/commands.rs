use f16_hid::Bitmap;
use f16_hid::Command;
use f16_hid::EncodeError;
use f16_hid::Patterns;
use f16_hid::DISPLAY_HEIGHT;
use f16_hid::DISPLAY_WIDTH;
use f16_hid::DRAW_COMMAND_LENGTH;
use f16_hid::MAX_COMMAND_LENGTH;

#[test]
fn every_command_frame_has_fixed_layout() {
    let bitmap = Bitmap::new();
    let column = vec![0u8; DISPLAY_HEIGHT];
    let cases: Vec<(Command, u8)> = vec![
        (Command::Brightness(0x40), 0x00),
        (Command::Pattern(Patterns::Gradient), 0x01),
        (Command::Bootloader, 0x02),
        (Command::Sleep(true), 0x03),
        (Command::Animate, 0x04),
        (Command::Panic, 0x05),
        (Command::Draw(Box::new(bitmap)), 0x06),
        (Command::StageColumnBuffer(0, &column), 0x07),
        (Command::DrawBuffer, 0x08),
        (Command::Version, 0x20),
    ];
    for (command, opcode) in cases {
        let frame = command.frame().expect("command failed to encode");
        assert_eq!(frame.len(), MAX_COMMAND_LENGTH);
        assert_eq!(frame[0], 0x32);
        assert_eq!(frame[1], 0xac);
        assert_eq!(frame[2], opcode);
    }
}

#[test]
fn brightness_frame_carries_level() {
    let frame = Command::Brightness(0x40).frame().unwrap();
    assert_eq!(frame[0..4], [0x32, 0xac, 0x00, 0x40]);
    assert!(frame[4..].iter().all(|&b| b == 0));
}

#[test]
fn sleep_frame_carries_flag() {
    assert_eq!(Command::Sleep(true).frame().unwrap()[3], 0x01);
    assert_eq!(Command::Sleep(false).frame().unwrap()[3], 0x00);
}

#[test]
fn pattern_percentage_payload() {
    assert_eq!(Patterns::Percentage(57).pack(), (0x00, 57));
    let frame = Command::Pattern(Patterns::Percentage(57)).frame().unwrap();
    assert_eq!(frame[2..5], [0x01, 0x00, 57]);
}

#[test]
fn pattern_lotus_payload() {
    assert_eq!(Patterns::DisplayLotus2.pack(), (0x07, 0));
    let frame = Command::Pattern(Patterns::DisplayLotus2).frame().unwrap();
    assert_eq!(frame[2..5], [0x01, 0x07, 0x00]);
}

#[test]
fn pattern_opcodes_are_distinct_and_fixed() {
    let patterns = [
        Patterns::Percentage(0),
        Patterns::Gradient,
        Patterns::DoubleGradient,
        Patterns::DisplayLotus,
        Patterns::ZigZag,
        Patterns::FullBrightness,
        Patterns::DisplayPanic,
        Patterns::DisplayLotus2,
    ];
    for (i, pattern) in patterns.into_iter().enumerate() {
        assert_eq!(pattern.pack().0, i as u8);
    }
}

#[test]
fn stage_column_frame_layout() {
    let column: Vec<u8> = (0..DISPLAY_HEIGHT as u8).collect();
    let frame = Command::StageColumnBuffer(3, &column).frame().unwrap();
    assert_eq!(frame[2], 0x07);
    assert_eq!(frame[3], 3);
    assert_eq!(&frame[4..4 + DISPLAY_HEIGHT], &column[..]);
    assert!(frame[4 + DISPLAY_HEIGHT..].iter().all(|&b| b == 0));
}

#[test]
fn draw_frame_carries_bitmap() {
    let mut bitmap = Bitmap::new();
    bitmap.draw_point(0, 0, true).unwrap();
    bitmap.draw_point(4, 0, true).unwrap();
    bitmap.draw_point(4, 4, true).unwrap();
    bitmap.draw_point(0, 4, true).unwrap();
    let frame = Command::Draw(Box::new(bitmap.clone())).frame().unwrap();
    assert_eq!(frame[2], 0x06);
    assert_eq!(&frame[3..3 + DRAW_COMMAND_LENGTH], bitmap.data());
}

#[test]
fn stage_column_index_too_large_is_error() {
    let column = vec![0u8; DISPLAY_HEIGHT];
    let result = Command::StageColumnBuffer((DISPLAY_WIDTH + 1) as u8, &column).frame();
    assert_eq!(result.unwrap_err(), EncodeError::ColumnIndexTooLarge);
    // an index equal to the width is still accepted
    assert!(Command::StageColumnBuffer(DISPLAY_WIDTH as u8, &column).frame().is_ok());
}

#[test]
fn stage_column_wrong_length_is_error() {
    let short = vec![0u8; DISPLAY_HEIGHT - 1];
    let result = Command::StageColumnBuffer(0, &short).frame();
    assert_eq!(result.unwrap_err(), EncodeError::ColumnLengthMismatch);
    let long = vec![0u8; DISPLAY_HEIGHT + 1];
    let result = Command::StageColumnBuffer(0, &long).frame();
    assert_eq!(result.unwrap_err(), EncodeError::ColumnLengthMismatch);
}

#[test]
fn pack_preserves_header_and_trailing_bytes() {
    let mut frame = [0xee_u8; MAX_COMMAND_LENGTH];
    Command::Brightness(1).pack(&mut frame).unwrap();
    assert_eq!(frame[0], 0xee);
    assert_eq!(frame[1], 0xee);
    assert_eq!(frame[2], 0x00);
    assert_eq!(frame[3], 1);
    assert!(frame[4..].iter().all(|&b| b == 0xee));
}

#[test]
fn pack_failure_leaves_buffer_untouched() {
    let mut frame = [0xee_u8; MAX_COMMAND_LENGTH];
    let column = vec![0u8; DISPLAY_HEIGHT];
    let result = Command::StageColumnBuffer(200, &column).pack(&mut frame);
    assert_eq!(result.unwrap_err(), EncodeError::ColumnIndexTooLarge);
    assert!(frame.iter().all(|&b| b == 0xee));
}
