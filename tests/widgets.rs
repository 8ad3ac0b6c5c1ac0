use usb_screen::rect::Rect;
use usb_screen::telemetry::{publish_cpu, publish_memory, SystemInfo, SystemUptime};
use usb_screen::widgets::{percent_value, progress_fill, ClockTexts, DrawOp, ImageData, ImageWidget, TextWidget};

fn clock() -> ClockTexts {
    ClockTexts {
        date: "2024/01/02".to_string(),
        time: "12:34:56".to_string(),
        weekday: "星期二".to_string(),
        lunar_year: "农历甲辰年".to_string(),
        lunar_date: "冬月廿一".to_string(),
        uptime: SystemUptime { days: 3, hours: 4, minutes: 5, seconds: 6 },
    }
}

fn text_widget(kind: &str) -> TextWidget {
    TextWidget::new_with_text(10, 10, kind, "", "old", "id-1".to_string())
}

#[test]
fn percent_parsing() {
    assert_eq!(percent_value("42%"), 42_000_000);
    assert_eq!(percent_value("55.5°C"), 55_500_000);
    assert_eq!(percent_value("abc"), 0);
    assert_eq!(percent_value("150%"), 150_000_000);
    assert_eq!(percent_value("+7.25"), 7_250_000);
    assert_eq!(percent_value("33.3333339"), 33_333_333);
    assert_eq!(percent_value(""), 0);
    assert_eq!(percent_value(".5"), 500_000);
    assert_eq!(percent_value("1.2.3"), 0);
    assert_eq!(percent_value("0%"), 0);
    assert_eq!(percent_value("100%"), 100_000_000);
}

#[test]
fn progress_fill_ends() {
    assert_eq!(progress_fill(100, 0), 1);
    assert_eq!(progress_fill(100, 100_000_000), 100);
    assert_eq!(progress_fill(100, 42_500_000), 42);
    assert_eq!(progress_fill(100, 150_000_000), 150);
    assert_eq!(progress_fill(0, 50_000_000), 1);
    assert_eq!(progress_fill(-5, 50_000_000), 1);
    assert_eq!(progress_fill(i32::MAX, u64::MAX), 1_000_000_000);
}

#[test]
fn horizontal_and_vertical_bars() {
    let mut w = text_widget("cpu_usage");
    w.position = Rect::new(0, 0, 1, 1);
    w.tag1 = "1".to_string();
    w.width = Some(100);
    w.height = Some(10);
    w.text = "50%".to_string();
    match w.plan_draw((0, 0)) {
        DrawOp::FillRect { rect, .. } => assert_eq!(rect, Rect::new(0, 0, 50, 10)),
        other => panic!("unexpected {:?}", other),
    }
    w.tag1 = "2".to_string();
    match w.plan_draw((0, 0)) {
        DrawOp::FillRect { rect, .. } => assert_eq!(rect, Rect::new(0, 5, 100, 10)),
        other => panic!("unexpected {:?}", other),
    }
    w.text = "0%".to_string();
    match w.plan_draw((0, 0)) {
        DrawOp::FillRect { rect, .. } => assert_eq!(rect, Rect::new(0, 9, 100, 10)),
        other => panic!("unexpected {:?}", other),
    }
    w.text = "100%".to_string();
    match w.plan_draw((0, 0)) {
        DrawOp::FillRect { rect, .. } => assert_eq!(rect, Rect::new(0, 0, 100, 10)),
        other => panic!("unexpected {:?}", other),
    }
    w.tag1 = "1".to_string();
    match w.plan_draw((0, 0)) {
        DrawOp::FillRect { rect, .. } => assert_eq!(rect, Rect::new(0, 0, 100, 10)),
        other => panic!("unexpected {:?}", other),
    }
    w.text = "0%".to_string();
    match w.plan_draw((0, 0)) {
        DrawOp::FillRect { rect, .. } => assert_eq!(rect, Rect::new(0, 0, 1, 10)),
        other => panic!("unexpected {:?}", other),
    }
}

#[test]
fn weather_icon() {
    let mut w = text_widget("weather");
    w.tag1 = "6".to_string();
    w.text = "7".to_string();
    w.font_size = 20;
    w.position = Rect::new(10, 10, 30, 30);
    match w.plan_draw((0, 0)) {
        DrawOp::Icon { index, x, y, size } => assert_eq!((index, x, y, size), (7, 10, 10, 20)),
        other => panic!("unexpected {:?}", other),
    }
}

#[test]
fn text_box_auto_sizes_and_aligns() {
    let mut w = text_widget("text");
    w.prefix = "CPU:".to_string();
    w.text = "42%".to_string();
    match w.plan_draw((24, 12)) {
        DrawOp::Text { text, x, y, size, .. } => {
            assert_eq!(text, "CPU:42%");
            assert_eq!((x, y, size), (-2, 4, 14));
        },
        other => panic!("unexpected {:?}", other),
    }
    assert_eq!(w.position, Rect::new(-2, 4, 22, 16));
    let mut w = text_widget("text");
    w.width = Some(100);
    w.alignment = Some("居右".to_string());
    match w.plan_draw((30, 12)) {
        DrawOp::Text { x, y, .. } => assert_eq!((x, y), (80, 10)),
        other => panic!("unexpected {:?}", other),
    }
}

#[test]
fn text_resolution_keeps_previous_on_unavailable() {
    let mut info = SystemInfo::new("k".to_string(), "o".to_string(), "h".to_string());
    let mut w = text_widget("memory_percent");
    w.update_text(&info, &clock(), None);
    assert_eq!(w.text, "old");
    publish_memory(&mut info, 1, 4, 0, 0);
    w.update_text(&info, &clock(), None);
    assert_eq!(w.text, "25%");
    let mut t = text_widget("uptime");
    t.tag1 = "2".to_string();
    t.update_text(&info, &clock(), None);
    assert_eq!(t.text, "4");
    let mut d = text_widget("date");
    d.update_text(&info, &clock(), None);
    assert_eq!(d.text, "2024/01/02");
    let mut p = text_widget("text");
    p.update_text(&info, &clock(), None);
    assert_eq!(p.text, "old");
}

#[test]
fn custom_script_result_wins() {
    let mut info = SystemInfo::new("k".to_string(), "o".to_string(), "h".to_string());
    publish_cpu(&mut info, "x".to_string(), vec![1], 500);
    let mut w = text_widget("cpu_usage");
    w.custom_script = Some("echo hi".to_string());
    assert!(w.has_custom_script());
    w.update_text(&info, &clock(), Some("hi".to_string()));
    assert_eq!(w.text, "hi");
    w.update_text(&info, &clock(), None);
    assert_eq!(w.text, "hi");
    w.custom_script = Some("  ".to_string());
    assert!(!w.has_custom_script());
    w.update_text(&info, &clock(), None);
    assert_eq!(w.text, "50.0%");
}

fn image(frames: usize) -> ImageData {
    ImageData { width: 2, height: 2, frames: vec![vec![0u8; 16]; frames] }
}

#[test]
fn image_animation_and_colour() {
    let mut w = ImageWidget::new(10, 10, "images", "img".to_string(), image(3));
    assert_eq!(w.position, Rect::new(9, 9, 11, 11));
    for expected in [0usize, 1, 2, 0] {
        match w.plan_draw(None) {
            DrawOp::Image { frame, .. } => assert_eq!(frame, expected),
            other => panic!("unexpected {:?}", other),
        }
    }
    w.color = Some([1, 2, 3, 4]);
    match w.plan_draw(None) {
        DrawOp::FillRect { rect, color } => assert_eq!((rect, color), (Rect::new(9, 9, 11, 11), [1, 2, 3, 4])),
        other => panic!("unexpected {:?}", other),
    }
}

#[test]
fn webcam_scaled_to_width() {
    let mut w = ImageWidget::new(50, 50, "webcam", "cam".to_string(), image(1));
    w.position = Rect::new(0, 0, 160, 200);
    match w.plan_draw(Some((320, 240))) {
        DrawOp::Webcam { dst } => assert_eq!(dst, Rect::new(0, 0, 160, 120)),
        other => panic!("unexpected {:?}", other),
    }
    match w.plan_draw(None) {
        DrawOp::FillRect { color, .. } => assert_eq!(color, [255, 255, 255, 255]),
        other => panic!("unexpected {:?}", other),
    }
}

#[test]
fn script_output_is_one_line() {
    assert_eq!(usb_screen::widgets::script_output_text(Some("a\r\nb\nc\r".to_string())), "abc");
    assert_eq!(usb_screen::widgets::script_output_text(None), "脚本运行失败");
}
