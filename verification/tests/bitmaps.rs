use f16_hid::Bitmap;
use f16_hid::Bitmap8;
use f16_hid::DISPLAY_HEIGHT;
use f16_hid::DISPLAY_WIDTH;
use f16_hid::DRAW_COMMAND_LENGTH;
use f16_hid::GREYSCALE_BUFFER_LENGTH;

#[test]
fn greyscale_new_is_all_dark() {
    let image = Bitmap8::new();
    assert_eq!(image.data().len(), GREYSCALE_BUFFER_LENGTH);
    assert!(image.data().iter().all(|&b| b == 0));
}

#[test]
fn greyscale_fill_overwrites_every_pixel() {
    let mut image = Bitmap8::new();
    image.draw_point(2, 2, 9).unwrap();
    image.fill(42);
    assert!(image.data().iter().all(|&b| b == 42));
}

#[test]
fn greyscale_draw_point_reads_back() {
    let mut image = Bitmap8::new();
    image.fill(7);
    image.draw_point(4, 20, 99).unwrap();
    assert_eq!(image.data()[4 * DISPLAY_HEIGHT + 20], 99);
    for x in 0..DISPLAY_WIDTH {
        for y in 0..DISPLAY_HEIGHT {
            if (x, y) != (4, 20) {
                assert_eq!(image.data()[x * DISPLAY_HEIGHT + y], 7);
            }
        }
    }
}

#[test]
fn greyscale_draw_point_out_of_bounds_is_error() {
    let mut image = Bitmap8::new();
    image.fill(3);
    let before = image.data().to_vec();
    assert!(image.draw_point(DISPLAY_WIDTH, 0, 50).is_err());
    assert!(image.draw_point(0, DISPLAY_HEIGHT, 50).is_err());
    assert!(image.draw_point(DISPLAY_WIDTH, DISPLAY_HEIGHT, 50).is_err());
    assert_eq!(image.data(), &before[..]);
}

#[test]
fn draw_box_corner_order_is_immaterial() {
    let (x1, y1, x2, y2) = (2usize, 5usize, 7usize, 30usize);
    let mut expected = Bitmap8::new();
    expected.fill(1);
    expected.draw_box(x1, y1, x2, y2, 200);
    for &(a, b, c, d) in &[(x2, y1, x1, y2), (x1, y2, x2, y1), (x2, y2, x1, y1)] {
        let mut image = Bitmap8::new();
        image.fill(1);
        image.draw_box(a, b, c, d, 200);
        assert_eq!(image.data(), expected.data());
    }
}

#[test]
fn draw_box_fills_exactly_the_rectangle() {
    let mut image = Bitmap8::new();
    image.draw_box(3, 10, 5, 12, 9);
    for x in 0..DISPLAY_WIDTH {
        for y in 0..DISPLAY_HEIGHT {
            let expected = if (3..=5).contains(&x) && (10..=12).contains(&y) { 9 } else { 0 };
            assert_eq!(image.data()[x * DISPLAY_HEIGHT + y], expected);
        }
    }
}

#[test]
fn draw_box_single_cell() {
    let mut image = Bitmap8::new();
    image.draw_box(8, 33, 8, 33, 5);
    assert_eq!(image.data()[8 * DISPLAY_HEIGHT + 33], 5);
    assert_eq!(image.data().iter().filter(|&&b| b != 0).count(), 1);
}

#[test]
fn monochrome_new_is_all_clear() {
    let image = Bitmap::new();
    assert_eq!(image.data().len(), DRAW_COMMAND_LENGTH);
    assert!(image.data().iter().all(|&b| b == 0));
}

#[test]
fn monochrome_draw_point_touches_one_bit() {
    let mut image = Bitmap::new();
    image.draw_point(4, 4, true).unwrap();
    // bit position 4 + 4 * 34 = 140: byte 17, mask 1 << 4
    let mut expected = vec![0u8; DRAW_COMMAND_LENGTH];
    expected[17] = 1 << 4;
    assert_eq!(image.data(), &expected[..]);
}

#[test]
fn monochrome_draw_point_round_trip() {
    let mut image = Bitmap::new();
    image.fill(0b0101_0101);
    let before = image.data().to_vec();
    // the bit for (0, 1) starts out clear in this pattern
    image.draw_point(0, 1, true).unwrap();
    assert_ne!(image.data(), &before[..]);
    image.draw_point(0, 1, false).unwrap();
    assert_eq!(image.data(), &before[..]);
}

#[test]
fn monochrome_draw_point_out_of_bounds_is_error() {
    let mut image = Bitmap::new();
    assert!(image.draw_point(DISPLAY_WIDTH, 0, true).is_err());
    assert!(image.draw_point(0, DISPLAY_HEIGHT, true).is_err());
    assert!(image.data().iter().all(|&b| b == 0));
}
