use usb_screen::rect::Rect;
use usb_screen::text::{decimal_string, hundredths_string, parse_u16, short_tenths_string, tenths_string};
use usb_screen::yuv422::{buf_yuyv422_to_rgb, clamp_255, yuyv422_to_rgb, yuyv444_to_rgb, YuvError};

#[test]
fn rect_geometry() {
    let mut r = Rect::from(1, 2, 3, 4);
    assert_eq!(r, Rect::new(1, 2, 4, 6));
    assert_eq!((r.width(), r.height()), (3, 4));
    assert_eq!(r.center(), (2, 4));
    assert!(r.contain(4, 6) && !r.contain(5, 6));
    r.inflate(1, 1);
    assert_eq!(r, Rect::new(0, 1, 5, 7));
    r.deflate(1, 1);
    r.offset(10, 10);
    assert_eq!(r, Rect::new(11, 12, 14, 16));
    r.set_position(0, 0);
    assert_eq!(r, Rect::new(0, 0, 3, 4));
    r.set_center(10, 10);
    assert_eq!(r, Rect::new(9, 8, 11, 12));
    r.set_size(6, 2);
    assert_eq!(r, Rect::new(7, 9, 13, 11));
    r.set_width_and_height(1, 1);
    assert_eq!(r, Rect::new(7, 9, 8, 10));
}

#[test]
fn number_formatting() {
    assert_eq!(decimal_string(0), "0");
    assert_eq!(decimal_string(1234567), "1234567");
    assert_eq!(tenths_string(123), "12.3");
    assert_eq!(tenths_string(5), "0.5");
    assert_eq!(short_tenths_string(120), "12");
    assert_eq!(short_tenths_string(125), "12.5");
    assert_eq!(hundredths_string(205), "2.05");
}

#[test]
fn u16_parsing() {
    assert_eq!(parse_u16("160"), Some(160));
    assert_eq!(parse_u16("+7"), Some(7));
    assert_eq!(parse_u16("65535"), Some(65535));
    assert_eq!(parse_u16("65536"), None);
    assert_eq!(parse_u16(""), None);
    assert_eq!(parse_u16("12a"), None);
    assert_eq!(parse_u16("-1"), None);
}

#[test]
fn yuv_conversion() {
    assert_eq!(yuyv444_to_rgb(16, 128, 128), [0, 0, 0]);
    assert_eq!(yuyv444_to_rgb(235, 128, 128), [255, 255, 255]);
    assert_eq!(clamp_255(300), 255);
    assert_eq!(clamp_255(-3), 0);
    assert_eq!(clamp_255(77), 77);
    assert_eq!(yuyv422_to_rgb(&[235, 128, 16, 128]).unwrap(), vec![255, 255, 255, 0, 0, 0]);
    assert!(matches!(yuyv422_to_rgb(&[1, 2, 3]), Err(YuvError::NotYuv422)));
    let mut dest = [0u8; 5];
    assert!(matches!(buf_yuyv422_to_rgb(&[1, 2, 3, 4], &mut dest), Err(YuvError::WrongDestinationSize)));
}
