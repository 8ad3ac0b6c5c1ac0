use usb_screen::wifi::{get_status, set_delay_ms, set_status, ImagePlan, Status, StatusInfo, WifiWorker};

#[test]
fn status_names() {
    assert_eq!(Status::NotConnected.name(), "未连接");
    assert_eq!(Status::Connected.name(), "连接成功");
    assert_eq!(Status::ConnectFail.name(), "连接失败");
    assert_eq!(Status::Disconnected.name(), "连接断开");
    assert_eq!(Status::Connecting.name(), "正在连接");
}

#[test]
fn status_setters() {
    let mut s = StatusInfo::new();
    assert_eq!(s.delay_ms, 150);
    set_delay_ms(&mut s, 40);
    set_status(&mut s, Some("1.2.3.4".to_string()), Status::Connecting);
    let c = get_status(&s);
    assert_eq!(c.delay_ms, 40);
    assert_eq!(c.status, Status::Connecting);
    assert_eq!(c.ip, Some("1.2.3.4".to_string()));
}

#[test]
fn connect_to_unreachable_host_fails_and_allows_next_connect() {
    let mut w = WifiWorker::new();
    let mut s = StatusInfo::new();
    let close = w.connect_requested(&mut s, "10.255.255.1".to_string());
    assert!(!close);
    assert_eq!(s.status, Status::Connecting);
    w.connect_finished(&mut s, None, false);
    assert_eq!(s.status, Status::ConnectFail);
    assert!(!w.connected);
    let close = w.connect_requested(&mut s, "192.168.1.9".to_string());
    assert!(!close);
    assert_eq!(s.status, Status::Connecting);
    assert_eq!(s.ip, Some("192.168.1.9".to_string()));
    w.connect_finished(&mut s, Some((240, 240)), true);
    assert_eq!(s.status, Status::Connected);
}

#[test]
fn image_plans() {
    let mut w = WifiWorker::new();
    let mut s = StatusInfo::new();
    assert_eq!(w.plan_image(&mut s, None), ImagePlan::Skip);
    w.connect_requested(&mut s, "10.0.0.7".to_string());
    w.connect_finished(&mut s, Some((320, 240)), true);
    assert_eq!(w.plan_image(&mut s, None), ImagePlan::Send { width: 320, height: 240, delay_ms: 150 });
    w.image_sent(&mut s, false);
    assert_eq!(s.status, Status::Disconnected);
    assert_eq!(w.plan_image(&mut s, None), ImagePlan::Reconnect("10.0.0.7".to_string()));
    assert!(w.disconnect(&mut s) == false);
    assert!(w.needs_display_size());
    assert_eq!(s.status, Status::Disconnected);
}
