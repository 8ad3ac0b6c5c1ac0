use usb_screen::devices::{find_all_device, SerialPortDescriptor, UsbDeviceDescriptor, UsbScreenInfo};
use usb_screen::frame_loop::prepare_usb_frame;
use usb_screen::screen::decompress_screen_file;
use usb_screen::wifi::encode_wifi_image;
use usb_screen::protocol::{
    encode_frame, frame_header, frame_packets, get_screen_size_from_serial_number, u64_to_be_bytes, TransportError, IMAGE_AA, IMAGE_BB, MAX_PAYLOAD,
};

#[test]
fn header_layout_is_magic_then_big_endian_fields() {
    let h = frame_header(160, 128, 1, 2);
    assert_eq!(h.len(), 16);
    assert_eq!(&h[0..8], &IMAGE_AA.to_be_bytes());
    assert_eq!(&h[8..16], &[0, 160, 0, 128, 0, 1, 0, 2]);
    assert_eq!(u64_to_be_bytes(IMAGE_BB), IMAGE_BB.to_be_bytes().to_vec());
}

#[test]
fn oversized_payload_is_refused_too_large() {
    let payload = vec![7u8; 30 * 1024];
    let r = frame_packets(payload, 0, 0, 160, 128);
    assert!(matches!(r, Err(TransportError::TooLarge)));
}

#[test]
fn payload_at_limit_is_framed() {
    let payload = vec![7u8; MAX_PAYLOAD];
    let p = frame_packets(payload.clone(), 3, 4, 10, 20).unwrap();
    assert_eq!(p.payload, payload);
    assert_eq!(p.footer, IMAGE_BB.to_be_bytes().to_vec());
    assert_eq!(p.header, frame_header(10, 20, 3, 4));
}

fn noise(n: usize) -> Vec<u8> {
    let mut x: u32 = 0x1234_5678;
    let mut v = Vec::with_capacity(n);
    for _ in 0..n {
        x ^= x << 13;
        x ^= x >> 17;
        x ^= x << 5;
        v.push((x & 0xFF) as u8);
    }
    v
}

#[test]
fn incompressible_frame_is_refused_before_sending() {
    let pixels = noise(40 * 1024);
    assert!(encode_frame(&pixels, 0, 0, 160, 128).is_err());
    assert!(matches!(encode_frame(&pixels, 0, 0, 160, 128), Err(TransportError::TooLarge)));
}

#[test]
fn uniform_frame_is_compressed_and_framed() {
    let pixels = vec![0u8; 160 * 128 * 2];
    let p = encode_frame(&pixels, 0, 0, 160, 128).unwrap();
    assert!(p.payload.len() < pixels.len());
    assert_eq!(decompress_screen_file(&p.payload).unwrap(), pixels);
}

#[test]
fn wifi_image_is_packed_565_in_one_block() {
    let rgb = vec![255u8, 0, 0, 0, 0, 255];
    let msg = encode_wifi_image(&rgb, 2, 1);
    assert_eq!(&msg[0..4], &[4, 0, 0, 0]);
    assert_eq!(decompress_screen_file(&msg).unwrap(), vec![0xF8, 0x00, 0x00, 0x1F]);
}

#[test]
fn frame_larger_than_display_is_dropped() {
    let info = UsbScreenInfo { label: "USB Screen(3)".to_string(), address: "3".to_string(), width: 160, height: 128 };
    let r = prepare_usb_frame(&info, 0, 0, 320, 240, &[0u8; 8]);
    assert!(matches!(r, Ok(None)));
    let r = prepare_usb_frame(&info, 0, 0, 2, 2, &[0u8; 8]);
    assert!(matches!(r, Ok(Some(_))));
}

#[test]
fn screen_size_is_decoded_from_identity() {
    assert_eq!(get_screen_size_from_serial_number("USBSCR160X128;abc"), (160, 128));
    assert_eq!(get_screen_size_from_serial_number("USBSCR320x240;abc"), (320, 240));
    assert_eq!(get_screen_size_from_serial_number("USBSCRabcXdef;"), (160, 128));
    assert_eq!(get_screen_size_from_serial_number("USBSCR240X240"), (240, 240));
}

#[test]
fn registry_reports_declared_resolutions() {
    let raw = vec![
        UsbDeviceDescriptor { product: "USB Screen".to_string(), serial_number: "USBSCR160X128;0001".to_string(), device_address: 5 },
        UsbDeviceDescriptor { product: "Keyboard".to_string(), serial_number: "USBSCR160X128;0002".to_string(), device_address: 6 },
    ];
    let ports = vec![
        SerialPortDescriptor { port_name: "/dev/ttyACM0".to_string(), serial_number: Some("USBSCR320X240;0003".to_string()) },
        SerialPortDescriptor { port_name: "/dev/ttyS0".to_string(), serial_number: None },
    ];
    let found = find_all_device(&raw, &ports);
    assert_eq!(found.len(), 2);
    assert_eq!((found[0].width, found[0].height), (160, 128));
    assert_eq!(found[0].label, "USB Screen(5)");
    assert_eq!(found[0].address, "5");
    assert_eq!((found[1].width, found[1].height), (320, 240));
    assert_eq!(found[1].label, "USB /dev/ttyACM0");
    assert_eq!(found[1].address, "/dev/ttyACM0");
}
