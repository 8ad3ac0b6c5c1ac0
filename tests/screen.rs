use usb_screen::frame_loop::{clamp_fps, frame_interval_ms, should_dispatch};
use usb_screen::rect::Rect;
use usb_screen::screen::{
    assign_ranks, compress_document, decompress_screen_file, highlight_rect, load_document, ImageWidgetV10,
    ProtocolError, SaveableScreenV10, SaveableWidgetV10, ScreenRender,
};
use usb_screen::telemetry::{publish_cpu, City, SystemInfo, SystemUptime};
use usb_screen::widgets::{ClockTexts, DrawOp, ImageData, TextWidget, Widget};

fn clock() -> ClockTexts {
    ClockTexts {
        date: String::new(),
        time: String::new(),
        weekday: String::new(),
        lunar_year: String::new(),
        lunar_date: String::new(),
        uptime: SystemUptime::default(),
    }
}

fn text(kind: &str, id: &str) -> Widget {
    Widget::Text(TextWidget::new_with_text(10, 10, kind, "", "t", id.to_string()))
}

fn ids(s: &ScreenRender) -> Vec<String> {
    s.widgets.iter().map(|w| match w { Widget::Text(t) => t.id.clone(), Widget::Image(i) => i.id.clone() }).collect()
}

fn placeholder() -> ImageData {
    ImageData { width: 50, height: 50, frames: vec![vec![0u8; 50 * 50 * 4]] }
}

#[test]
fn ranks_and_sibling_counts() {
    let mut ws = vec![text("cpu_usage", "a"), text("memory", "b"), text("cpu_usage", "c")];
    assign_ranks(&mut ws);
    let got: Vec<(usize, usize)> = ws.iter().map(|w| match w { Widget::Text(t) => (t.num_widget_index, t.num_widget), Widget::Image(i) => (i.num_widget_index, i.num_widget) }).collect();
    assert_eq!(got, vec![(0, 2), (0, 1), (1, 2)]);
}

#[test]
fn cpu_usage_scenario_renders_and_paces() {
    let mut screen = ScreenRender::new("160x128".to_string(), 160, 128, None, "凤凰点阵".to_string());
    assert_eq!(screen.fps, 10);
    screen.widgets.push(text("cpu_usage", "w"));
    let mut info = SystemInfo::new("k".to_string(), "o".to_string(), "h".to_string());
    publish_cpu(&mut info, "cpu".to_string(), vec![420, 420], 420);
    screen.render(&info, &clock(), &vec![None]);
    let ops = screen.plan_frame(&vec![(24, 12)], None);
    assert_eq!(ops.len(), 1);
    match &ops[0] {
        DrawOp::Text { text, x, y, .. } => {
            assert_eq!(text, "42.0%");
            match &screen.widgets[0] {
                Widget::Text(t) => assert_eq!((*x, *y), (t.position.left, t.position.top)),
                _ => panic!("not text"),
            }
        },
        other => panic!("unexpected {:?}", other),
    }
    assert_eq!(frame_interval_ms(screen.fps), 100);
    assert!(should_dispatch(None, 0, 10));
    assert!(!should_dispatch(Some(0), 99, 10));
    assert!(should_dispatch(Some(0), 100, 10));
    assert!(should_dispatch(Some(100), 205, 10));
    assert_eq!(clamp_fps(320, 240, 20), 12);
    assert_eq!(clamp_fps(160, 128, 20), 20);
}

#[test]
fn document_round_trip() {
    let mut screen = ScreenRender::new("m".to_string(), 320, 240, Some(vec![1, 2, 3]), "my font".to_string());
    screen.fps = 7;
    screen.rotate_degree = 90;
    screen.device_ip = Some("10.0.0.3".to_string());
    screen.widgets.push(text("memory", "a"));
    screen.widgets.push(text("cpu", "b"));
    let doc = screen.to_savable();
    assert_eq!(doc.rotate_degree, Some(90));
    assert_eq!(doc.font, Some(vec![1, 2, 3]));
    let back = ScreenRender::from_savable(doc);
    assert_eq!((back.width, back.height, back.fps, back.rotate_degree), (320, 240, 7, 90));
    assert_eq!(back.device_ip, Some("10.0.0.3".to_string()));
    assert_eq!(ids(&back), vec!["a".to_string(), "b".to_string()]);
    assert!(back.is_vertical() && !back.is_horizontal());
}

#[test]
fn default_font_is_not_embedded() {
    let screen = ScreenRender::new("m".to_string(), 160, 128, Some(vec![9]), "凤凰点阵".to_string());
    assert_eq!(screen.to_savable().font, None);
}

#[test]
fn legacy_document_gets_defaults() {
    let legacy = SaveableScreenV10 {
        width: 160,
        height: 128,
        model: "old".to_string(),
        widgets: vec![
            SaveableWidgetV10::TextWidget(TextWidget::new_with_text(1, 1, "cpu", "", "t", "x".to_string())),
            SaveableWidgetV10::ImageWidget(ImageWidgetV10 {
                id: "y".to_string(),
                image_data: placeholder(),
                rotation: 0,
                position: Rect::new(0, 0, 50, 50),
                widget_type: "images".to_string(),
                frame_index: 0,
                color: None,
                num_widget_index: 0,
                num_widget: 1,
            }),
        ],
        font: None,
        font_name: String::new(),
    };
    let s = load_document(None, Some(legacy)).unwrap();
    assert_eq!((s.fps, s.rotate_degree), (10, 0));
    assert_eq!(s.device_ip, None);
    assert_eq!(s.device_address, None);
    assert_eq!(ids(&s), vec!["x".to_string(), "y".to_string()]);
    match &s.widgets[1] {
        Widget::Image(i) => assert!(i.tag1.is_none() && i.tag2.is_none()),
        _ => panic!("not an image"),
    }
    assert!(matches!(load_document(None, None), Err(ProtocolError::UnrecognizedSchema)));
}

#[test]
fn document_compression() {
    let json = b"{\"width\":160}".to_vec();
    let packed = compress_document(&json);
    assert_eq!(decompress_screen_file(&packed).unwrap(), json);
    assert!(matches!(decompress_screen_file(&[1, 2]), Err(ProtocolError::Decompress)));
}

#[test]
fn widget_crud() {
    let mut s = ScreenRender::new("m".to_string(), 160, 128, None, String::new());
    assert_eq!(s.add_widget("", "", 0, 0, placeholder()), None);
    let a = s.add_widget("cpu", "CPU", 10, 10, placeholder()).unwrap();
    let b = s.add_widget("images", "", 40, 40, placeholder()).unwrap();
    let c = s.add_widget("memory", "", 20, 20, placeholder()).unwrap();
    assert_eq!(a.len(), 36);
    assert_ne!(a, b);
    match &s.widgets[0] {
        Widget::Text(t) => assert_eq!((t.text.as_str(), t.prefix.as_str()), ("文本1", "CPU:")),
        _ => panic!(),
    }
    match &s.widgets[2] {
        Widget::Text(t) => assert_eq!(t.text, "文本2"),
        _ => panic!(),
    }
    assert_eq!(s.find_widget(&b), Some(1));
    s.move_back_widget(&a);
    assert_eq!(ids(&s), vec![b.clone(), a.clone(), c.clone()]);
    s.move_up_widget(&c);
    assert_eq!(ids(&s), vec![b.clone(), c.clone(), a.clone()]);
    assert!(s.delete_widget(&b));
    assert!(!s.delete_widget(&b));
    assert_eq!(ids(&s), vec![c, a]);
    assert_eq!(s.find_widget_by_index(1), Some(1));
    assert_eq!(s.find_widget_by_index(2), None);
}

#[test]
fn watched_metrics_follow_widgets() {
    let mut s = ScreenRender::new("m".to_string(), 160, 128, None, String::new());
    s.widgets.push(text("cpu_usage", "a"));
    s.widgets.push(text("memory", "b"));
    let mut w = TextWidget::new_with_text(1, 1, "weather", "", "t", "c".to_string());
    w.tag2 = "松江".to_string();
    s.widgets.push(Widget::Text(w));
    let mut info = SystemInfo::new("k".to_string(), "o".to_string(), "h".to_string());
    let cities = vec![City { code: "58361".to_string(), province: "上海".to_string(), city: "松江".to_string(), url: String::new() }];
    s.setup_monitor(&mut info, &cities);
    assert!(info.watch_cpu && info.watch_memory && !info.watch_gpu_load && !info.watch_disk);
    assert_eq!(info.watch_weather.map(|c| c.code), Some("58361".to_string()));
}

#[test]
fn highlight_is_at_least_two_pixels() {
    let mut t = TextWidget::new_with_text(5, 5, "text", "", "t", "a".to_string());
    t.position = Rect::new(5, 5, 5, 5);
    let r = highlight_rect(&Widget::Text(t.clone()));
    assert!(r.right - r.left >= 2 && r.bottom - r.top >= 2);
    t.position = Rect::new(5, 5, 2, 1);
    let r = highlight_rect(&Widget::Text(t.clone()));
    assert!(r.right - r.left >= 2 && r.bottom - r.top >= 2);
    t.position = Rect::new(0, 0, 10, 8);
    assert_eq!(highlight_rect(&Widget::Text(t.clone())), Rect::new(0, 0, 10, 8));
    t.tag1 = "1".to_string();
    t.width = Some(30);
    t.height = Some(6);
    assert_eq!(highlight_rect(&Widget::Text(t)), Rect::new(0, 0, 30, 6));
}

#[test]
fn clone_labels_and_fonts() {
    let mut s = ScreenRender::new("m".to_string(), 160, 128, None, String::new());
    let a = s.add_widget("cpu", "CPU", 10, 10, placeholder()).unwrap();
    let b = s.add_widget("images", "", 40, 40, placeholder()).unwrap();
    let c = s.clone_widget(&a).unwrap();
    assert_ne!(c, a);
    match (&s.widgets[0], &s.widgets[2]) {
        (Widget::Text(x), Widget::Text(y)) => {
            assert_eq!(y.id, c);
            assert_eq!((y.position.left - x.position.left, y.position.top - x.position.top), (5, 5));
            assert_eq!(y.text, x.text);
        },
        _ => panic!(),
    }
    let d = s.clone_widget(&b).unwrap();
    match (&s.widgets[1], &s.widgets[3]) {
        (Widget::Image(x), Widget::Image(y)) => {
            assert_eq!(y.id, d);
            assert_eq!(y.image_data.frames, x.image_data.frames);
        },
        _ => panic!(),
    }
    assert_eq!(s.clone_widget("missing"), None);
    assert_eq!(s.widgets[0].get_label(), "文本");
    assert_eq!(s.widgets[1].get_label(), "图像");
    assert!(s.widgets[0].is_text() && s.widgets[1].is_image() && !s.widgets[1].is_webcam());
    s.set_font(Some(vec![1]), "f".to_string());
    assert_eq!((s.font.clone(), s.font_name.clone()), (Some(vec![1]), "f".to_string()));
    let ops = s.highlight_ops(&a);
    assert_eq!(ops.len(), 2);
    assert_eq!(s.highlight_ops("missing").len(), 0);
}

#[test]
fn clear_screen_frame_is_uniform() {
    let f = usb_screen::frame_loop::clear_screen([1, 2, 3], 4, 2);
    assert_eq!(f.len(), 24);
    assert!(f.chunks(3).all(|p| p == [1, 2, 3]));
}

#[test]
fn uptime_fields_are_in_range() {
    let u = usb_screen::telemetry::system_uptime();
    assert!(u.hours < 24 && u.minutes < 60 && u.seconds < 60);
}

#[test]
fn load_into_existing_canvas() {
    let mut s = ScreenRender::new("kept".to_string(), 160, 128, Some(vec![5]), "old font".to_string());
    let doc = ScreenRender::new("other".to_string(), 320, 240, None, "ignored".to_string()).to_savable();
    s.load_from_file(doc);
    assert_eq!((s.width, s.height, s.model.as_str()), (320, 240, "kept"));
    assert_eq!((s.font.clone(), s.font_name.as_str()), (Some(vec![5]), "old font"));
    assert_eq!(s.rotate_degree, 0);
}

#[test]
fn webcam_frame_is_published() {
    let mut info = SystemInfo::new("k".to_string(), "o".to_string(), "h".to_string());
    usb_screen::telemetry::publish_webcam_frame(&mut info, usb_screen::telemetry::WebcamFrame { width: 1, height: 1, data: vec![1, 2, 3] });
    assert_eq!(info.webcam_frame.map(|f| f.data), Some(vec![1, 2, 3]));
}

#[test]
fn webcam_watch_uses_tag_and_canvas() {
    let mut s = ScreenRender::new("m".to_string(), 320, 240, None, String::new());
    let id = s.add_widget("webcam", "", 50, 50, placeholder()).unwrap();
    if let Some(Widget::Image(i)) = s.widgets.last_mut() {
        i.tag1 = Some("2".to_string());
    }
    let mut info = SystemInfo::new("k".to_string(), "o".to_string(), "h".to_string());
    s.setup_monitor(&mut info, &vec![]);
    let cam = info.webcam_info.unwrap();
    assert_eq!((cam.index, cam.width, cam.height, cam.fps), (2, 320, 240, 10));
    assert_eq!(id.len(), 36);
}
