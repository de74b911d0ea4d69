use usb_screen::config::{SCREEN_HEIGHT, SCREEN_WIDTH};
use usb_screen::encoder::{be_bytes, encode, pack_rgb565};
use usb_screen::frame::{pixel_area, RgbaFrame};

fn solid(width: u32, height: u32, pixel: [u8; 4]) -> RgbaFrame {
    let count = (width as usize) * (height as usize);
    let mut data = Vec::with_capacity(count * 4);
    for _ in 0..count {
        data.extend_from_slice(&pixel);
    }
    RgbaFrame::from_raw(width, height, data).unwrap()
}

#[test]
fn packs_kept_bits_all_set_to_all_ones() {
    assert_eq!(pack_rgb565(0xF8, 0xFC, 0xF8), 0xFFFF);
}

#[test]
fn packs_black_to_zero() {
    assert_eq!(pack_rgb565(0, 0, 0), 0x0000);
}

#[test]
fn packs_white_to_all_ones() {
    assert_eq!(pack_rgb565(255, 255, 255), 0xFFFF);
}

#[test]
fn packs_mixed_pixel_by_truncation() {
    // 00010 001101 01010
    assert_eq!(pack_rgb565(0x12, 0x34, 0x56), 0b0001000110101010);
    assert_eq!(pack_rgb565(0x12, 0x34, 0x56), 0x11AA);
}

#[test]
fn packs_each_channel_into_its_own_field() {
    assert_eq!(pack_rgb565(0xFF, 0, 0), 0xF800);
    assert_eq!(pack_rgb565(0, 0xFF, 0), 0x07E0);
    assert_eq!(pack_rgb565(0, 0, 0xFF), 0x001F);
}

#[test]
fn packing_drops_the_low_bits_without_rounding() {
    assert_eq!(pack_rgb565(0x07, 0x03, 0x07), 0x0000);
    assert_eq!(pack_rgb565(0x0F, 0x07, 0x0F), pack_rgb565(0x08, 0x04, 0x08));
    assert_eq!(pack_rgb565(0x08, 0x04, 0x08), 0x0821);
}

#[test]
fn packed_fields_are_the_channels_top_bits() {
    for value in 0..=255u8 {
        let other = value.wrapping_mul(37).wrapping_add(11);
        let packed = pack_rgb565(value, other, value ^ 0x5A);
        assert_eq!(packed >> 11, (value >> 3) as u16);
        assert_eq!((packed >> 5) & 0x3F, (other >> 2) as u16);
        assert_eq!(packed & 0x1F, ((value ^ 0x5A) >> 3) as u16);
    }
}

#[test]
fn packing_agrees_with_shift_and_mask() {
    for r in (0..=255u16).step_by(5) {
        for g in (0..=255u16).step_by(3) {
            for b in (0..=255u16).step_by(7) {
                let expected = ((r & 0b11111000) << 8) | ((g & 0b11111100) << 3) | (b >> 3);
                assert_eq!(pack_rgb565(r as u8, g as u8, b as u8), expected);
            }
        }
    }
}

#[test]
fn splits_big_endian() {
    assert_eq!(be_bytes(0x1234), (0x12, 0x34));
    assert_eq!(be_bytes(0x00FF), (0x00, 0xFF));
    assert_eq!(be_bytes(0xFF00), (0xFF, 0x00));
    for value in [0u16, 1, 255, 256, 0x11AA, 0xFFFF] {
        let (high, low) = be_bytes(value);
        assert_eq!([high, low], value.to_be_bytes());
    }
}

#[test]
fn encodes_one_pixel_big_endian() {
    let frame = RgbaFrame::from_raw(1, 1, vec![0x12, 0x34, 0x56, 0xFF]).unwrap();
    assert_eq!(encode(&frame), vec![0x11, 0xAA]);
}

#[test]
fn encodes_pixels_in_row_major_order() {
    let data = vec![
        0xFF, 0x00, 0x00, 0xFF, // red
        0x00, 0xFF, 0x00, 0xFF, // green
        0x00, 0x00, 0xFF, 0xFF, // blue
        0x12, 0x34, 0x56, 0x00, // mixed
    ];
    let frame = RgbaFrame::from_raw(2, 2, data).unwrap();
    assert_eq!(encode(&frame), vec![0xF8, 0x00, 0x07, 0xE0, 0x00, 0x1F, 0x11, 0xAA]);
}

#[test]
fn encoding_is_deterministic() {
    let mut data = Vec::new();
    for i in 0..(SCREEN_WIDTH * SCREEN_HEIGHT * 4) {
        data.push((i.wrapping_mul(2_654_435_761) >> 13) as u8);
    }
    let frame = RgbaFrame::from_raw(SCREEN_WIDTH, SCREEN_HEIGHT, data.clone()).unwrap();
    let first = encode(&frame);
    let second = encode(&frame);
    assert_eq!(first, second);
    let again = RgbaFrame::from_raw(SCREEN_WIDTH, SCREEN_HEIGHT, data).unwrap();
    assert_eq!(encode(&again), first);
}

#[test]
fn encoded_length_is_two_bytes_per_pixel_of_the_display() {
    let frame = solid(SCREEN_WIDTH, SCREEN_HEIGHT, [1, 2, 3, 4]);
    let wire = encode(&frame);
    assert_eq!(wire.len(), 320 * 240 * 2);
    assert_eq!(wire.len(), 153_600);
}

#[test]
fn encoded_length_follows_any_geometry() {
    assert_eq!(encode(&solid(1, 1, [0; 4])).len(), 2);
    assert_eq!(encode(&solid(7, 3, [9; 4])).len(), 42);
    assert_eq!(encode(&solid(0, 5, [9; 4])).len(), 0);
    assert_eq!(encode(&solid(5, 0, [9; 4])).len(), 0);
}

#[test]
fn encoding_ignores_alpha() {
    let opaque = solid(4, 4, [0x80, 0x40, 0x20, 0xFF]);
    let clear = solid(4, 4, [0x80, 0x40, 0x20, 0x00]);
    assert_eq!(encode(&opaque), encode(&clear));
}

#[test]
fn encodes_a_solid_frame_as_one_repeated_pair() {
    let wire = encode(&solid(SCREEN_WIDTH, SCREEN_HEIGHT, [0x12, 0x34, 0x56, 0xFF]));
    assert!(wire.chunks(2).all(|pair| pair == [0x11, 0xAA]));
}

#[test]
fn frame_accepts_exactly_four_bytes_per_pixel() {
    assert!(RgbaFrame::from_raw(2, 3, vec![0; 24]).is_some());
    assert!(RgbaFrame::from_raw(2, 3, vec![0; 23]).is_none());
    assert!(RgbaFrame::from_raw(2, 3, vec![0; 25]).is_none());
    assert!(RgbaFrame::from_raw(0, 0, Vec::new()).is_some());
    assert!(RgbaFrame::from_raw(0, 0, vec![0; 4]).is_none());
    assert!(RgbaFrame::from_raw(u32::MAX, u32::MAX, vec![0; 4]).is_none());
}

#[test]
fn frame_reports_its_geometry_and_bytes() {
    let data: Vec<u8> = (0..24).collect();
    let frame = RgbaFrame::from_raw(3, 2, data.clone()).unwrap();
    assert_eq!(frame.width(), 3);
    assert_eq!(frame.height(), 2);
    assert_eq!(frame.pixel_count(), 6);
    assert_eq!(frame.as_bytes(), &data);
}

#[test]
fn pixel_area_is_the_product() {
    assert_eq!(pixel_area(320, 240), 76_800);
    assert_eq!(pixel_area(0, 240), 0);
    assert_eq!(pixel_area(u32::MAX, u32::MAX), 0xFFFF_FFFE_0000_0001);
}
