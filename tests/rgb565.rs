use usb_screen::rgb565::{rgb565_to_rgb, rgb_to_rgb565, rgb888_to_rgb565_be};

#[test]
fn rgb565_packs_white_and_black() {
    assert_eq!(rgb_to_rgb565(255, 255, 255), 0xFFFF);
    assert_eq!(rgb_to_rgb565(0, 0, 0), 0);
    assert_eq!(rgb_to_rgb565(255, 0, 0), 0xF800);
    assert_eq!(rgb_to_rgb565(0, 255, 0), 0x07E0);
    assert_eq!(rgb_to_rgb565(0, 0, 255), 0x001F);
}

#[test]
fn rgb565_round_trip_within_one_step() {
    for r in (0u16..256).step_by(7) {
        for g in (0u16..256).step_by(5) {
            for b in (0u16..256).step_by(3) {
                let (r2, g2, b2) = rgb565_to_rgb(rgb_to_rgb565(r as u8, g as u8, b as u8));
                assert!(r as u8 - r2 < 8 && r2 <= r as u8);
                assert!(g as u8 - g2 < 4 && g2 <= g as u8);
                assert!(b as u8 - b2 < 8 && b2 <= b as u8);
            }
        }
    }
}

#[test]
fn rgb888_buffer_to_big_endian_565() {
    let out = rgb888_to_rgb565_be(&[255, 0, 0, 0, 0, 255], 2, 1);
    assert_eq!(out, vec![0xF8, 0x00, 0x00, 0x1F]);
}
