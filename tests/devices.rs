use usb_screen::devices::{identify_request, serial_screen_info, should_probe, with_identity, SerialPortDescriptor, auto_bind_action, choose_device, select_device_action, transport_kind, BindAction, BoundScreen, TransportKind, UsbScreenInfo};

fn info(label: &str) -> UsbScreenInfo {
    UsbScreenInfo { label: label.to_string(), address: "1".to_string(), width: 160, height: 128 }
}

#[test]
fn choose_device_prefers_current_label() {
    let devs = vec![info("USB Screen(1)"), info("USB /dev/ttyACM0")];
    assert_eq!(choose_device(&devs, "USB /dev/ttyACM0"), Some(1));
    assert_eq!(choose_device(&devs, "gone"), Some(0));
    assert_eq!(choose_device(&vec![], "gone"), None);
}

#[test]
fn transport_kind_follows_label() {
    assert_eq!(transport_kind(&info("USB Screen(4)")), TransportKind::UsbRaw);
    assert_eq!(transport_kind(&info("USB COM3")), TransportKind::UsbSerial);
}

#[test]
fn binding_policy() {
    let dev = info("USB Screen(1)");
    assert_eq!(auto_bind_action(&BoundScreen::Nothing, &dev), BindAction::Open);
    assert_eq!(auto_bind_action(&BoundScreen::WiFi("10.0.0.2".to_string()), &dev), BindAction::Keep);
    assert_eq!(auto_bind_action(&BoundScreen::Usb(info("USB Screen(1)")), &dev), BindAction::Keep);
    assert_eq!(auto_bind_action(&BoundScreen::Usb(info("USB COM3")), &dev), BindAction::Open);
    assert_eq!(select_device_action(&BoundScreen::WiFi("10.0.0.2".to_string()), &dev), BindAction::CloseWifiThenOpen);
    assert_eq!(select_device_action(&BoundScreen::Usb(info("USB Screen(1)")), &dev), BindAction::Keep);
}

#[test]
fn probing_policy() {
    let bare = SerialPortDescriptor { port_name: "/dev/ttyACM1".to_string(), serial_number: None };
    assert!(should_probe(&bare, None));
    assert!(should_probe(&bare, Some("/dev/ttyACM0")));
    assert!(!should_probe(&bare, Some("/dev/ttyACM1")));
    let known = SerialPortDescriptor { port_name: "/dev/ttyACM2".to_string(), serial_number: Some("x".to_string()) };
    assert!(!should_probe(&known, None));
    assert_eq!(identify_request(), 7093010483740242786u64.to_be_bytes().to_vec());
    let named = with_identity(&bare, "USBSCR240X240;9".to_string());
    let found = serial_screen_info(&named).unwrap();
    assert_eq!((found.width, found.height), (240, 240));
}
