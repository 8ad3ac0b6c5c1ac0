//! The canvas: an ordered list of widgets (later ones drawn on top), its
//! size, frame rate, rotation and device binding, and the persisted documents.
use vstd::prelude::*;
use crate::protocol::{lz4_block, lz4_compress, lz4_decompress, lz4_unblock};
use crate::rect::Rect;
use crate::telemetry::{City, SystemInfo, WebcamInfo};
use crate::text::str_eq;
use crate::widgets::{ClockTexts, DrawOp, ImageData, ImageWidget, TextWidget, Widget, image_ok, resolved_text_spec, same_but_text, text_geometry_ok};

verus! {

/// The widget type of a widget.
pub open spec fn wtype(w: Widget) -> Seq<char> {
    match w {
        Widget::Text(t) => t.widget_type@,
        Widget::Image(i) => i.widget_type@,
    }
}

pub open spec fn wid(w: Widget) -> Seq<char> {
    match w {
        Widget::Text(t) => t.id@,
        Widget::Image(i) => i.id@,
    }
}

/// How many of the first `upto` widgets have type `t`.
pub open spec fn count_type(ws: Seq<Widget>, t: Seq<char>, upto: int) -> nat
    decreases upto,
{
    if upto <= 0 || ws.len() == 0 {
        0
    } else {
        let k = if upto > ws.len() { ws.len() as int } else { upto };
        count_type(ws, t, k - 1) + if wtype(ws[k - 1]) == t { 1nat } else { 0nat }
    }
}

/// `w` with its rank and sibling count replaced.
pub open spec fn with_rank(w: Widget, rank: usize, count: usize) -> Widget {
    match w {
        Widget::Text(t) => Widget::Text(TextWidget { num_widget_index: rank, num_widget: count, ..t }),
        Widget::Image(i) => Widget::Image(ImageWidget { num_widget_index: rank, num_widget: count, ..i }),
    }
}

/// The widget list after ranking: each widget's rank among the widgets of its
/// type before it, and the number of widgets of its type.
pub open spec fn ranked(ws: Seq<Widget>) -> Seq<Widget> {
    Seq::new(ws.len(), |i: int| with_rank(ws[i], count_type(ws, wtype(ws[i]), i) as usize, count_type(ws, wtype(ws[i]), ws.len() as int) as usize))
}

pub fn widget_type_of(w: &Widget) -> (r: &String)
    ensures
        r@ == wtype(*w),
{
    match w {
        Widget::Text(t) => &t.widget_type,
        Widget::Image(i) => &i.widget_type,
    }
}

pub fn widget_id(w: &Widget) -> (r: &String)
    ensures
        r@ == wid(*w),
{
    match w {
        Widget::Text(t) => &t.id,
        Widget::Image(i) => &i.id,
    }
}

proof fn lemma_count_type_step(ws: Seq<Widget>, t: Seq<char>, j: int)
    requires
        0 <= j < ws.len(),
    ensures
        count_type(ws, t, j + 1) == count_type(ws, t, j) + if wtype(ws[j]) == t { 1nat } else { 0nat },
{
}

proof fn lemma_count_type_bound(ws: Seq<Widget>, t: Seq<char>, j: int)
    requires
        0 <= j <= ws.len(),
    ensures
        count_type(ws, t, j) <= j,
    decreases j,
{
    if j > 0 {
        lemma_count_type_bound(ws, t, j - 1);
    }
}

/// Counts the widgets of type `t` among the first `upto`.
fn count_of_type(ws: &Vec<Widget>, t: &str, upto: usize) -> (r: usize)
    requires
        upto <= ws@.len(),
    ensures
        r == count_type(ws@, t@, upto as int),
{
    let mut c: usize = 0;
    let mut j: usize = 0;
    while j < upto
        invariant
            upto <= ws@.len(),
            j <= upto,
            c == count_type(ws@, t@, j as int),
        decreases upto - j,
    {
        proof {
            lemma_count_type_step(ws@, t@, j as int);
            lemma_count_type_bound(ws@, t@, j as int);
        }
        if str_eq(widget_type_of(&ws[j]).as_str(), t) {
            c = c + 1;
        }
        j = j + 1;
    }
    c
}

fn set_rank(w: &mut Widget, rank: usize, count: usize)
    ensures
        *final(w) == with_rank(*old(w), rank, count),
{
    match w {
        Widget::Text(t) => {
            t.num_widget_index = rank;
            t.num_widget = count;
        },
        Widget::Image(i) => {
            i.num_widget_index = rank;
            i.num_widget = count;
        },
    }
}

/// Gives every widget its rank among same-type widgets and the number of them.
#[verifier::rlimit(60)]
pub fn assign_ranks(widgets: &mut Vec<Widget>)
    ensures
        final(widgets)@ == ranked(old(widgets)@),
{
    let ghost orig = widgets@;
    let n = widgets.len();
    let mut ranks: Vec<(usize, usize)> = Vec::new();
    let mut i: usize = 0;
    while i < n
        invariant
            n == widgets@.len(),
            widgets@ == orig,
            i <= n,
            ranks@.len() == i,
            forall|k: int| 0 <= k < i ==> ranks@[k] == (count_type(orig, wtype(orig[k]), k) as usize, count_type(orig, wtype(orig[k]), n as int) as usize),
        decreases n - i,
    {
        let t = widget_type_of(&widgets[i]).clone();
        let r = count_of_type(widgets, t.as_str(), i);
        let c = count_of_type(widgets, t.as_str(), n);
        ranks.push((r, c));
        i = i + 1;
    }
    let mut j: usize = 0;
    while j < n
        invariant
            n == widgets@.len(),
            n == orig.len(),
            j <= n,
            ranks@.len() == n,
            forall|k: int| 0 <= k < n ==> ranks@[k] == (count_type(orig, wtype(orig[k]), k) as usize, count_type(orig, wtype(orig[k]), n as int) as usize),
            forall|k: int| 0 <= k < j ==> widgets@[k] == ranked(orig)[k],
            forall|k: int| j <= k < n ==> widgets@[k] == orig[k],
        decreases n - j,
    {
        let (r, c) = ranks[j];
        set_rank(&mut widgets[j], r, c);
        j = j + 1;
    }
    assert(widgets@ =~= ranked(orig));
}

/// A family of telemetry that a collector gathers while watched.
#[derive(Debug, Clone, Copy, PartialEq, Eq, Structural)]
pub enum Metric {
    Memory,
    Webcam,
    Cpu,
    CpuClock,
    CpuTemperature,
    CpuPower,
    CpuFan,
    GpuFan,
    GpuClock,
    GpuLoad,
    GpuTemperature,
    Process,
    Disk,
    NetIp,
    DiskSpeed,
    NetworkSpeed,
    Weather,
}

/// The metric family a widget type needs.
pub open spec fn metric_of_type(t: Seq<char>) -> Option<Metric> {
    if t == "memory"@ || t == "memory_total"@ || t == "memory_percent"@ || t == "swap"@ || t == "swap_percent"@ {
        Some(Metric::Memory)
    } else if t == "webcam"@ { Some(Metric::Webcam) }
    else if t == "cpu"@ || t == "cpu_usage"@ { Some(Metric::Cpu) }
    else if t == "cpu_freq"@ { Some(Metric::CpuClock) }
    else if t == "cpu_temp."@ { Some(Metric::CpuTemperature) }
    else if t == "cpu_cores_power"@ || t == "gpu_cores_power"@ || t == "cpu_package_power"@ || t == "gpu_package_power"@ {
        Some(Metric::CpuPower)
    }
    else if t == "cpu_fan"@ { Some(Metric::CpuFan) }
    else if t == "gpu_fan"@ { Some(Metric::GpuFan) }
    else if t == "gpu_clock"@ { Some(Metric::GpuClock) }
    else if t == "gpu_load"@ || t == "gpu_memory_load"@ || t == "gpu_memory_total_mb"@ || t == "gpu_memory_total_gb"@ {
        Some(Metric::GpuLoad)
    }
    else if t == "gpu_temp."@ { Some(Metric::GpuTemperature) }
    else if t == "num_process"@ { Some(Metric::Process) }
    else if t == "disk_usage"@ { Some(Metric::Disk) }
    else if t == "net_ip"@ || t == "net_ip_info"@ { Some(Metric::NetIp) }
    else if t == "disk_read_speed"@ || t == "disk_write_speed"@ { Some(Metric::DiskSpeed) }
    else if t == "received_speed"@ || t == "transmitted_speed"@ { Some(Metric::NetworkSpeed) }
    else if t == "weather"@ { Some(Metric::Weather) }
    else { None }
}

/// The metric families the widgets of a canvas need.
pub open spec fn watched_metrics(ws: Seq<Widget>) -> Set<Metric> {
    Set::new(|m: Metric| exists|i: int| 0 <= i < ws.len() && metric_of_type(wtype(ws[i])) == Some(m))
}

/// The metric family a widget type needs.
pub fn metric_of(t: &str) -> (r: Option<Metric>)
    ensures
        r == metric_of_type(t@),
{
    if str_eq(t, "memory") || str_eq(t, "memory_total") || str_eq(t, "memory_percent") || str_eq(t, "swap") || str_eq(t, "swap_percent") {
        Some(Metric::Memory)
    } else if str_eq(t, "webcam") { Some(Metric::Webcam) }
    else if str_eq(t, "cpu") || str_eq(t, "cpu_usage") { Some(Metric::Cpu) }
    else if str_eq(t, "cpu_freq") { Some(Metric::CpuClock) }
    else if str_eq(t, "cpu_temp.") { Some(Metric::CpuTemperature) }
    else if str_eq(t, "cpu_cores_power") || str_eq(t, "gpu_cores_power") || str_eq(t, "cpu_package_power") || str_eq(t, "gpu_package_power") {
        Some(Metric::CpuPower)
    }
    else if str_eq(t, "cpu_fan") { Some(Metric::CpuFan) }
    else if str_eq(t, "gpu_fan") { Some(Metric::GpuFan) }
    else if str_eq(t, "gpu_clock") { Some(Metric::GpuClock) }
    else if str_eq(t, "gpu_load") || str_eq(t, "gpu_memory_load") || str_eq(t, "gpu_memory_total_mb") || str_eq(t, "gpu_memory_total_gb") {
        Some(Metric::GpuLoad)
    }
    else if str_eq(t, "gpu_temp.") { Some(Metric::GpuTemperature) }
    else if str_eq(t, "num_process") { Some(Metric::Process) }
    else if str_eq(t, "disk_usage") { Some(Metric::Disk) }
    else if str_eq(t, "net_ip") || str_eq(t, "net_ip_info") { Some(Metric::NetIp) }
    else if str_eq(t, "disk_read_speed") || str_eq(t, "disk_write_speed") { Some(Metric::DiskSpeed) }
    else if str_eq(t, "received_speed") || str_eq(t, "transmitted_speed") { Some(Metric::NetworkSpeed) }
    else if str_eq(t, "weather") { Some(Metric::Weather) }
    else { None }
}

/// The cache with the flag of family `m` on (the camera and the weather
/// station are set by their own requests).
pub open spec fn with_flag(info: SystemInfo, m: Metric) -> SystemInfo {
    match m {
        Metric::Memory => SystemInfo { watch_memory: true, ..info },
        Metric::Cpu => SystemInfo { watch_cpu: true, ..info },
        Metric::CpuClock => SystemInfo { watch_cpu_clock_speed: true, ..info },
        Metric::CpuTemperature => SystemInfo { watch_cpu_temperatures: true, ..info },
        Metric::CpuPower => SystemInfo { watch_cpu_power: true, ..info },
        Metric::CpuFan => SystemInfo { watch_cpu_fan: true, ..info },
        Metric::GpuFan => SystemInfo { watch_gpu_fan: true, ..info },
        Metric::GpuClock => SystemInfo { watch_gpu_clock_speed: true, ..info },
        Metric::GpuLoad => SystemInfo { watch_gpu_load: true, ..info },
        Metric::GpuTemperature => SystemInfo { watch_gpu_temperatures: true, ..info },
        Metric::Process => SystemInfo { watch_process: true, ..info },
        Metric::Disk => SystemInfo { watch_disk: true, ..info },
        Metric::NetIp => SystemInfo { watch_net_ip: true, ..info },
        Metric::DiskSpeed => SystemInfo { watch_disk_speed: true, ..info },
        Metric::NetworkSpeed => SystemInfo { watch_network_speed: true, ..info },
        _ => info,
    }
}

/// The first station of the list with this name.
pub open spec fn first_city(cities: Seq<City>, name: Seq<char>) -> Option<City>
    decreases cities.len(),
{
    if cities.len() == 0 {
        None
    } else if cities[0].city@ == name {
        Some(cities[0])
    } else {
        first_city(cities.skip(1), name)
    }
}

/// The camera a webcam widget's `tag1` names; camera 0 when it names none.
pub open spec fn webcam_index(tag1: Option<String>) -> u32 {
    match tag1 {
        Some(t) => match crate::text::parse_u16_spec(t@) {
            Some(v) => v as u32,
            None => 0,
        },
        None => 0,
    }
}

/// The cache after the watch request of one widget on a canvas of the given
/// size and frame rate.
pub open spec fn watch_step(info: SystemInfo, w: Widget, width: u32, height: u32, fps: u32, cities: Seq<City>) -> SystemInfo {
    match metric_of_type(wtype(w)) {
        None => info,
        Some(Metric::Webcam) => match w {
            Widget::Image(img) => SystemInfo {
                webcam_info: Some(WebcamInfo { index: webcam_index(img.tag1), fps, width, height }),
                ..info
            },
            Widget::Text(_) => info,
        },
        Some(Metric::Weather) => match w {
            Widget::Text(t) => if t.tag2@.len() > 0 {
                match first_city(cities, t.tag2@) {
                    Some(c) => SystemInfo { watch_weather: Some(c), ..info },
                    None => info,
                }
            } else {
                info
            },
            Widget::Image(_) => info,
        },
        Some(m) => with_flag(info, m),
    }
}

/// The cache after the watch requests of the widgets, in order.
pub open spec fn watch_fold(info: SystemInfo, ws: Seq<Widget>, width: u32, height: u32, fps: u32, cities: Seq<City>) -> SystemInfo
    decreases ws.len(),
{
    if ws.len() == 0 {
        info
    } else {
        watch_step(watch_fold(info, ws.drop_last(), width, height, fps, cities), ws.last(), width, height, fps, cities)
    }
}

#[verifier::rlimit(100)]
fn set_watch(info: &mut SystemInfo, m: Metric)
    requires
        m != Metric::Webcam && m != Metric::Weather,
    ensures
        *final(info) == with_flag(*old(info), m),
{
    match m {
        Metric::Memory => crate::telemetry::watch_memory(info, true),
        Metric::Cpu => crate::telemetry::watch_cpu(info, true),
        Metric::CpuClock => crate::telemetry::watch_cpu_clock_speed(info, true),
        Metric::CpuTemperature => crate::telemetry::watch_cpu_temperatures(info, true),
        Metric::CpuPower => crate::telemetry::watch_cpu_power(info, true),
        Metric::CpuFan => crate::telemetry::watch_cpu_fan(info, true),
        Metric::GpuFan => crate::telemetry::watch_gpu_fan(info, true),
        Metric::GpuClock => crate::telemetry::watch_gpu_clock_speed(info, true),
        Metric::GpuLoad => crate::telemetry::watch_gpu_load(info, true),
        Metric::GpuTemperature => crate::telemetry::watch_gpu_temperatures(info, true),
        Metric::Process => crate::telemetry::watch_process(info, true),
        Metric::Disk => crate::telemetry::watch_disk(info, true),
        Metric::NetIp => crate::telemetry::watch_net_ip(info, true),
        Metric::DiskSpeed => crate::telemetry::watch_disk_speed(info, true),
        Metric::NetworkSpeed => crate::telemetry::watch_network_speed(info, true),
        _ => {},
    }
}

fn clone_city(c: &City) -> (r: City)
    ensures
        r == *c,
{
    City { code: c.code.clone(), province: c.province.clone(), city: c.city.clone(), url: c.url.clone() }
}

/// The weather station named `name`, if the list has one.
pub fn find_city(cities: &Vec<City>, name: &str) -> (r: Option<City>)
    ensures
        r == first_city(cities@, name@),
        r is Some ==> cities@.contains(r->Some_0) && r->Some_0.city@ == name@,
        r is None ==> forall|k: int| 0 <= k < cities@.len() ==> cities@[k].city@ != name@,
{
    let mut i: usize = 0;
    assert(cities@.skip(0) =~= cities@);
    while i < cities.len()
        invariant
            i <= cities@.len(),
            forall|k: int| 0 <= k < i ==> cities@[k].city@ != name@,
            first_city(cities@, name@) == first_city(cities@.skip(i as int), name@),
        decreases cities@.len() - i,
    {
        assert(cities@.skip(i as int)[0] == cities@[i as int]);
        assert(cities@.skip(i as int).skip(1) =~= cities@.skip(i as int + 1));
        if str_eq(cities[i].city.as_str(), name) {
            let c = clone_city(&cities[i]);
            assert(cities@[i as int] == c);
            return Some(c);
        }
        i = i + 1;
    }
    None
}

impl ScreenRender {
    #[verifier::rlimit(100)]
    fn watch_for_widget(&self, w: &Widget, info: &mut SystemInfo, cities: &Vec<City>)
        ensures
            *final(info) == watch_step(*old(info), *w, self.width, self.height, self.fps, cities@),
    {
        let m = metric_of(widget_type_of(w).as_str());
        match m {
            None => {},
            Some(Metric::Webcam) => {
                match w {
                    Widget::Image(img) => {
                        let index: u32 = match &img.tag1 {
                            Some(t) => match crate::text::parse_u16(t.as_str()) {
                                Some(v) => v as u32,
                                None => 0,
                            },
                            None => 0,
                        };
                        crate::telemetry::watch_webcam(info, Some(WebcamInfo { index, fps: self.fps, width: self.width, height: self.height }));
                    },
                    Widget::Text(_) => {},
                }
            },
            Some(Metric::Weather) => {
                match w {
                    Widget::Text(t) => {
                        if t.tag2.as_str().unicode_len() > 0 {
                            match find_city(cities, t.tag2.as_str()) {
                                Some(c) => crate::telemetry::watch_weather(info, Some(c)),
                                None => {},
                            }
                        }
                    },
                    Widget::Image(_) => {},
                }
            },
            Some(mm) => {
                set_watch(info, mm);
            },
        }
    }

    /// Turns on the watch flag of every metric family the widgets need, in
    /// widget order (see `watch_step`). A webcam widget asks for the camera its
    /// `tag1` names at the canvas size and frame rate; a weather widget follows
    /// the first station its `tag2` names, if known. Flags are only turned on.
    #[verifier::rlimit(60)]
    pub fn setup_monitor(&self, info: &mut SystemInfo, cities: &Vec<City>)
        ensures
            *final(info) == watch_fold(*old(info), self.widgets@, self.width, self.height, self.fps, cities@),
    {
        let n = self.widgets.len();
        let mut i: usize = 0;
        while i < n
            invariant
                n == self.widgets@.len(),
                i <= n,
                *info == watch_fold(*old(info), self.widgets@.subrange(0, i as int), self.width, self.height, self.fps, cities@),
            decreases n - i,
        {
            let ghost before = self.widgets@.subrange(0, i as int);
            let ghost after = self.widgets@.subrange(0, i as int + 1);
            assert(after.drop_last() =~= before);
            assert(after.last() == self.widgets@[i as int]);
            self.watch_for_widget(&self.widgets[i], info, cities);
            i = i + 1;
        }
        assert(self.widgets@.subrange(0, n as int) =~= self.widgets@);
    }
}

/// Name of the bundled font; documents do not embed it.
pub const DEFAULT_FONT_NAME: &'static str = "凤凰点阵";
/// Frame rate of a new or legacy canvas.
pub const DEFAULT_FPS: u32 = 10;

/// Why a persisted document could not be loaded.
#[derive(Debug, Clone, Copy, PartialEq, Eq, Structural)]
pub enum ProtocolError {
    /// The LZ4 block is malformed.
    Decompress,
    /// Neither the current schema nor a legacy one matched.
    UnrecognizedSchema,
}

/// A named panel size the editor offers.
#[derive(Debug, Clone)]
pub struct ScreenSize {
    pub name: String,
    pub width: u32,
    pub height: u32,
}

/// The in-memory canvas.
pub struct ScreenRender {
    pub width: u32,
    pub height: u32,
    pub model: String,
    pub widgets: Vec<Widget>,
    pub font_name: String,
    pub font: Option<Vec<u8>>,
    pub fps: u32,
    /// One of 0, 90, 180, 270.
    pub rotate_degree: i32,
    pub device_address: Option<String>,
    pub device_ip: Option<String>,
}

/// The current persisted schema.
pub struct SaveableScreen {
    pub width: u32,
    pub height: u32,
    pub model: String,
    pub fps: u32,
    pub device_address: Option<String>,
    pub widgets: Vec<Widget>,
    pub font: Option<Vec<u8>>,
    pub font_name: String,
    pub rotate_degree: Option<i32>,
    pub device_ip: Option<String>,
}

/// An image widget of the legacy schema: no tags.
pub struct ImageWidgetV10 {
    pub id: String,
    pub image_data: ImageData,
    pub rotation: i32,
    pub position: Rect,
    pub widget_type: String,
    pub frame_index: usize,
    pub color: Option<[u8; 4]>,
    pub num_widget_index: usize,
    pub num_widget: usize,
}

pub enum SaveableWidgetV10 {
    TextWidget(TextWidget),
    ImageWidget(ImageWidgetV10),
}

/// The legacy schema: no frame rate, rotation or device binding.
pub struct SaveableScreenV10 {
    pub width: u32,
    pub height: u32,
    pub model: String,
    pub widgets: Vec<SaveableWidgetV10>,
    pub font: Option<Vec<u8>>,
    pub font_name: String,
}

pub open spec fn is_default_font(name: Seq<char>) -> bool {
    name == DEFAULT_FONT_NAME@
}

/// The document written for a canvas. The bundled font is not embedded.
pub open spec fn to_savable_spec(s: ScreenRender) -> SaveableScreen {
    SaveableScreen {
        width: s.width,
        height: s.height,
        model: s.model,
        fps: s.fps,
        device_address: s.device_address,
        widgets: s.widgets,
        font: if is_default_font(s.font_name@) { None } else { s.font },
        font_name: s.font_name,
        rotate_degree: Some(s.rotate_degree),
        device_ip: s.device_ip,
    }
}

/// The canvas a current-schema document describes; a missing rotation is 0.
pub open spec fn from_savable_spec(d: SaveableScreen) -> ScreenRender {
    ScreenRender {
        width: d.width,
        height: d.height,
        model: d.model,
        widgets: d.widgets,
        font_name: d.font_name,
        font: d.font,
        fps: d.fps,
        rotate_degree: match d.rotate_degree { Some(r) => r, None => 0 },
        device_address: d.device_address,
        device_ip: d.device_ip,
    }
}

pub open spec fn image_from_v10(i: ImageWidgetV10) -> ImageWidget {
    ImageWidget {
        id: i.id,
        image_data: i.image_data,
        rotation: i.rotation,
        position: i.position,
        widget_type: i.widget_type,
        frame_index: i.frame_index,
        color: i.color,
        num_widget_index: i.num_widget_index,
        num_widget: i.num_widget,
        tag1: None,
        tag2: None,
    }
}

pub open spec fn widget_from_v10(w: SaveableWidgetV10) -> Widget {
    match w {
        SaveableWidgetV10::TextWidget(t) => Widget::Text(t),
        SaveableWidgetV10::ImageWidget(i) => Widget::Image(image_from_v10(i)),
    }
}

impl ImageWidget {
    /// Upgrades a legacy image widget; its tags are unset.
    pub fn from_v10(img: ImageWidgetV10) -> (r: ImageWidget)
        ensures
            r == image_from_v10(img),
    {
        ImageWidget {
            id: img.id,
            image_data: img.image_data,
            rotation: img.rotation,
            position: img.position,
            widget_type: img.widget_type,
            frame_index: img.frame_index,
            color: img.color,
            num_widget_index: img.num_widget_index,
            num_widget: img.num_widget,
            tag1: None,
            tag2: None,
        }
    }
}

impl ScreenRender {
    /// An empty canvas at the default frame rate, unrotated, bound to no device.
    pub fn new(model: String, width: u32, height: u32, font: Option<Vec<u8>>, font_name: String) -> (r: ScreenRender)
        ensures
            r.model == model && r.width == width && r.height == height && r.font == font && r.font_name == font_name,
            r.widgets@.len() == 0,
            r.fps == DEFAULT_FPS,
            r.rotate_degree == 0,
            r.device_address is None && r.device_ip is None,
    {
        ScreenRender {
            width,
            height,
            model,
            widgets: Vec::new(),
            font_name,
            font,
            fps: DEFAULT_FPS,
            rotate_degree: 0,
            device_address: None,
            device_ip: None,
        }
    }

    pub fn is_vertical(&self) -> (r: bool)
        ensures
            r == (self.rotate_degree == 90 || self.rotate_degree == 270),
    {
        self.rotate_degree == 90 || self.rotate_degree == 270
    }

    pub fn is_horizontal(&self) -> (r: bool)
        ensures
            r == (self.rotate_degree == 0 || self.rotate_degree == 180),
    {
        self.rotate_degree == 0 || self.rotate_degree == 180
    }

    pub fn width(&self) -> (r: u32)
        ensures
            r == self.width,
    {
        self.width
    }

    pub fn height(&self) -> (r: u32)
        ensures
            r == self.height,
    {
        self.height
    }

    /// The document for this canvas (see `to_savable_spec`).
    pub fn to_savable(self) -> (r: SaveableScreen)
        ensures
            r == to_savable_spec(self),
    {
        let font = if str_eq(self.font_name.as_str(), DEFAULT_FONT_NAME) { None } else { self.font };
        SaveableScreen {
            width: self.width,
            height: self.height,
            model: self.model,
            fps: self.fps,
            device_address: self.device_address,
            widgets: self.widgets,
            font,
            font_name: self.font_name,
            rotate_degree: Some(self.rotate_degree),
            device_ip: self.device_ip,
        }
    }

    /// The canvas a current-schema document describes (see `from_savable_spec`).
    pub fn from_savable(d: SaveableScreen) -> (r: ScreenRender)
        ensures
            r == from_savable_spec(d),
    {
        ScreenRender {
            width: d.width,
            height: d.height,
            model: d.model,
            widgets: d.widgets,
            font_name: d.font_name,
            font: d.font,
            fps: d.fps,
            rotate_degree: match d.rotate_degree { Some(r) => r, None => 0 },
            device_address: d.device_address,
            device_ip: d.device_ip,
        }
    }

    /// The canvas a legacy document describes, with the default frame rate,
    /// no rotation and no device binding.
    pub fn from_v10(d: SaveableScreenV10) -> (r: ScreenRender)
        ensures
            r.width == d.width && r.height == d.height && r.model == d.model,
            r.font == d.font && r.font_name == d.font_name,
            r.fps == DEFAULT_FPS,
            r.rotate_degree == 0,
            r.device_address is None,
            r.device_ip is None,
            r.widgets@ == d.widgets@.map_values(|w: SaveableWidgetV10| widget_from_v10(w)),
    {
        let mut src = d.widgets;
        let ghost orig = src@;
        let mut rev: Vec<Widget> = Vec::new();
        while src.len() > 0
            invariant
                src@.len() + rev@.len() == orig.len(),
                src@ == orig.subrange(0, src@.len() as int),
                forall|k: int| 0 <= k < rev@.len() ==> rev@[k] == widget_from_v10(orig[orig.len() - 1 - k]),
            decreases src@.len(),
        {
            let w = src.pop().unwrap();
            let converted = match w {
                SaveableWidgetV10::TextWidget(t) => Widget::Text(t),
                SaveableWidgetV10::ImageWidget(i) => Widget::Image(ImageWidget::from_v10(i)),
            };
            rev.push(converted);
            assert(src@ =~= orig.subrange(0, src@.len() as int));
        }
        let mut widgets: Vec<Widget> = Vec::new();
        while rev.len() > 0
            invariant
                rev@.len() + widgets@.len() == orig.len(),
                forall|k: int| 0 <= k < rev@.len() ==> rev@[k] == widget_from_v10(orig[orig.len() - 1 - k]),
                forall|k: int| 0 <= k < widgets@.len() ==> widgets@[k] == widget_from_v10(orig[k]),
            decreases rev@.len(),
        {
            let w = rev.pop().unwrap();
            widgets.push(w);
        }
        assert(widgets@ =~= orig.map_values(|w: SaveableWidgetV10| widget_from_v10(w)));
        ScreenRender {
            width: d.width,
            height: d.height,
            model: d.model,
            widgets,
            font_name: d.font_name,
            font: d.font,
            fps: DEFAULT_FPS,
            rotate_degree: 0,
            device_address: None,
            device_ip: None,
        }
    }
}

/// Saving a canvas and loading the document back gives the same size,
/// model, frame rate, rotation, device binding and widgets (so also the
/// same watched metrics).
pub proof fn lemma_document_round_trip(s: ScreenRender, info: SystemInfo, cities: Seq<City>)
    ensures
        ({
            let r = from_savable_spec(to_savable_spec(s));
            &&& r.widgets == s.widgets
            &&& r.width == s.width && r.height == s.height && r.model == s.model
            &&& r.fps == s.fps && r.rotate_degree == s.rotate_degree
            &&& r.device_address == s.device_address && r.device_ip == s.device_ip
            &&& r.font_name == s.font_name
            &&& watched_metrics(r.widgets@) == watched_metrics(s.widgets@)
            &&& watch_fold(info, r.widgets@, r.width, r.height, r.fps, cities)
                == watch_fold(info, s.widgets@, s.width, s.height, s.fps, cities)
        }),
{
}

/// Every widget satisfies its geometry invariant.
pub open spec fn widgets_ok(ws: Seq<Widget>) -> bool {
    forall|i: int| 0 <= i < ws.len() ==> match #[trigger] ws[i] {
        Widget::Text(t) => text_geometry_ok(&t),
        Widget::Image(im) => image_ok(&im),
    }
}

/// How one widget is laid out in a frame pass.
pub open spec fn widget_plan(o: Widget, n: Widget, op: DrawOp, measured: (i32, i32), webcam: Option<(u32, u32)>) -> bool {
    match (o, n) {
        (Widget::Text(a), Widget::Text(b)) => crate::widgets::text_plan(a, b, op, measured),
        (Widget::Image(a), Widget::Image(b)) => crate::widgets::image_plan(a, b, op, webcam),
        _ => false,
    }
}

impl ScreenRender {
    /// One render pass before drawing: ranks every widget among its type and
    /// resolves each text widget's content. `script_results[i]` is the latest
    /// result of widget `i`'s custom script, if one is available.
    #[verifier::rlimit(60)]
    pub fn render(&mut self, info: &SystemInfo, clock: &ClockTexts, script_results: &Vec<Option<String>>)
        requires
            script_results@.len() == old(self).widgets@.len(),
        ensures
            final(self).widgets@.len() == old(self).widgets@.len(),
            forall|i: int| 0 <= i < final(self).widgets@.len() ==> {
                let r = #[trigger] ranked(old(self).widgets@)[i];
                match (r, final(self).widgets@[i]) {
                    (Widget::Text(a), Widget::Text(b)) => same_but_text(&a, &b)
                        && b.text@ == resolved_text_spec(&a, info, clock, script_results@[i]),
                    (Widget::Image(a), Widget::Image(b)) => a == b,
                    _ => false,
                }
            },
            final(self).width == old(self).width && final(self).height == old(self).height,
            final(self).fps == old(self).fps && final(self).rotate_degree == old(self).rotate_degree,
    {
        assign_ranks(&mut self.widgets);
        let ghost ranked_ws = self.widgets@;
        let n = self.widgets.len();
        let mut i: usize = 0;
        while i < n
            invariant
                n == self.widgets@.len(),
                n == ranked_ws.len(),
                n == script_results@.len(),
                i <= n,
                forall|k: int| i <= k < n ==> self.widgets@[k] == ranked_ws[k],
                forall|k: int| 0 <= k < i ==> match (ranked_ws[k], #[trigger] self.widgets@[k]) {
                    (Widget::Text(a), Widget::Text(b)) => same_but_text(&a, &b)
                        && b.text@ == resolved_text_spec(&a, info, clock, script_results@[k]),
                    (Widget::Image(a), Widget::Image(b)) => a == b,
                    _ => false,
                },
                self.width == old(self).width && self.height == old(self).height,
                self.fps == old(self).fps && self.rotate_degree == old(self).rotate_degree,
            decreases n - i,
        {
            let sr = clone_opt_string(&script_results[i]);
            match &mut self.widgets[i] {
                Widget::Text(t) => {
                    t.update_text(info, clock, sr);
                },
                Widget::Image(_) => {},
            }
            i = i + 1;
        }
    }

    /// The draw operations of one frame, in list order (later widgets on top).
    /// `measured[i]` is the size of text widget `i`'s display text; `webcam`
    /// is the size of the latest camera frame. Advances animations.
    #[verifier::rlimit(60)]
    pub fn plan_frame(&mut self, measured: &Vec<(i32, i32)>, webcam: Option<(u32, u32)>) -> (ops: Vec<DrawOp>)
        requires
            widgets_ok(old(self).widgets@),
            measured@.len() == old(self).widgets@.len(),
            forall|i: int| 0 <= i < measured@.len() ==> 0 <= (#[trigger] measured@[i]).0 <= 1_000_000 && 0 <= measured@[i].1 <= 1_000_000,
        ensures
            ops@.len() == old(self).widgets@.len(),
            final(self).widgets@.len() == old(self).widgets@.len(),
            forall|i: int| 0 <= i < final(self).widgets@.len() ==> widget_plan(old(self).widgets@[i], #[trigger] final(self).widgets@[i], ops@[i], measured@[i], webcam),
            final(self).width == old(self).width && final(self).height == old(self).height,
    {
        let n = self.widgets.len();
        let mut ops: Vec<DrawOp> = Vec::new();
        let mut i: usize = 0;
        let ghost orig = self.widgets@;
        while i < n
            invariant
                n == self.widgets@.len(),
                n == orig.len(),
                n == measured@.len(),
                i <= n,
                ops@.len() == i,
                forall|k: int| i <= k < n ==> self.widgets@[k] == orig[k],
                forall|k: int| 0 <= k < i ==> widget_plan(orig[k], #[trigger] self.widgets@[k], ops@[k], measured@[k], webcam),
                self.width == old(self).width && self.height == old(self).height,
                widgets_ok(orig),
                forall|k: int| 0 <= k < measured@.len() ==> 0 <= (#[trigger] measured@[k]).0 <= 1_000_000 && 0 <= measured@[k].1 <= 1_000_000,
            decreases n - i,
        {
            let m = measured[i];
            assert(match orig[i as int] { Widget::Text(t) => text_geometry_ok(&t), Widget::Image(im) => image_ok(&im) });
            let op = match &mut self.widgets[i] {
                Widget::Text(t) => t.plan_draw(m),
                Widget::Image(im) => im.plan_draw(webcam),
            };
            ops.push(op);
            i = i + 1;
        }
        ops
    }

    /// The index of the widget with this id.
    pub fn find_widget(&self, uuid: &str) -> (r: Option<usize>)
        ensures
            r is Some ==> r->Some_0 < self.widgets@.len() && wid(self.widgets@[r->Some_0 as int]) == uuid@
                && forall|k: int| 0 <= k < r->Some_0 ==> wid(self.widgets@[k]) != uuid@,
            r is None ==> forall|k: int| 0 <= k < self.widgets@.len() ==> wid(self.widgets@[k]) != uuid@,
    {
        let mut i: usize = 0;
        while i < self.widgets.len()
            invariant
                i <= self.widgets@.len(),
                forall|k: int| 0 <= k < i ==> wid(self.widgets@[k]) != uuid@,
            decreases self.widgets@.len() - i,
        {
            if str_eq(widget_id(&self.widgets[i]).as_str(), uuid) {
                return Some(i);
            }
            i = i + 1;
        }
        None
    }

    /// The index itself, when a widget stands there.
    pub fn find_widget_by_index(&self, index: usize) -> (r: Option<usize>)
        ensures
            r == (if index < self.widgets@.len() { Some(index) } else { None::<usize> }),
    {
        if index < self.widgets.len() { Some(index) } else { None }
    }

    /// Adds a widget at `(x, y)` and returns its id; an empty type adds nothing.
    /// `"images"` and `"webcam"` add an image widget showing `placeholder`
    /// centred on the point; other types add a text widget numbered after the
    /// text widgets already there.
    pub fn add_widget(&mut self, widget_type: &str, type_label: &str, x: i32, y: i32, placeholder: ImageData) -> (r: Option<String>)
        requires
            -1_000_000 <= x <= 1_000_000,
            -1_000_000 <= y <= 1_000_000,
            placeholder.width <= 1_000_000,
            placeholder.height <= 1_000_000,
        ensures
            *final(self) == (ScreenRender { widgets: final(self).widgets, ..*old(self) }),
            widget_type@.len() == 0 ==> r is None && final(self).widgets@ == old(self).widgets@,
            widget_type@.len() > 0 ==> r is Some && final(self).widgets@.len() == old(self).widgets@.len() + 1
                && final(self).widgets@.subrange(0, old(self).widgets@.len() as int) == old(self).widgets@
                && wid(final(self).widgets@.last()) == r->Some_0@
                && wtype(final(self).widgets@.last()) == widget_type@,
    {
        if widget_type.unicode_len() == 0 {
            return None;
        }
        let id = new_widget_id();
        let w = if str_eq(widget_type, "images") || str_eq(widget_type, "webcam") {
            Widget::Image(ImageWidget::new(x, y, widget_type, id.clone(), placeholder))
        } else {
            let mut text_count: usize = 0;
            let mut i: usize = 0;
            while i < self.widgets.len()
                invariant
                    i <= self.widgets@.len(),
                    text_count <= i,
                decreases self.widgets@.len() - i,
            {
                if let Widget::Text(_) = &self.widgets[i] {
                    text_count = text_count + 1;
                }
                i = i + 1;
            }
            let mut text = String::from_str("文本");
            let num = crate::text::decimal_string(text_count as u128 + 1);
            text.append(num.as_str());
            Widget::Text(TextWidget::new_with_text(x, y, widget_type, type_label, text.as_str(), id.clone()))
        };
        self.widgets.push(w);
        assert(self.widgets@.subrange(0, old(self).widgets@.len() as int) =~= old(self).widgets@);
        Some(id)
    }
}

fn clone_opt_string(o: &Option<String>) -> (r: Option<String>)
    ensures
        r == *o,
{
    match o {
        Some(s) => Some(s.clone()),
        None => None,
    }
}

pub const BLUE: [u8; 4] = [0, 0, 255, 255];

/// The box outlined around the selected widget before clamping: a
/// horizontal progress bar's explicit box, otherwise the widget's position.
pub open spec fn highlight_base(w: Widget) -> Rect {
    match w {
        Widget::Text(t) => if t.widget_type@ != "weather"@ && t.widget_type@ != "uptime"@ && t.tag1@ == "1"@ {
            Rect {
                left: t.position.left,
                top: t.position.top,
                right: (t.position.left + crate::widgets::bar_width(&t)) as i32,
                bottom: (t.position.top + crate::widgets::bar_height(&t)) as i32,
            }
        } else {
            t.position
        },
        Widget::Image(i) => i.position,
    }
}

/// `r` resized to `width x height` around its centre, as `Rect::set_size` does.
pub open spec fn resized(r: Rect, width: int, height: int) -> Rect {
    let cx = crate::rect::half(r.left + r.right);
    let cy = crate::rect::half(r.top + r.bottom);
    Rect {
        left: (cx - crate::rect::half(width)) as i32,
        right: (cx + crate::rect::half(width)) as i32,
        top: (cy - crate::rect::half(height)) as i32,
        bottom: (cy + crate::rect::half(height)) as i32,
    }
}

/// The selection box: the base box, widened to two pixels when thinner, then
/// heightened to two pixels when lower.
pub open spec fn highlight_spec(w: Widget) -> Rect {
    let r1 = highlight_base(w);
    let r2 = if r1.spec_width() <= 1 { resized(r1, 2, r1.spec_height()) } else { r1 };
    if r2.spec_height() <= 1 { resized(r2, r2.spec_width(), 2) } else { r2 }
}

pub open spec fn widget_ok(w: Widget) -> bool {
    match w {
        Widget::Text(t) => text_geometry_ok(&t),
        Widget::Image(im) => image_ok(&im),
    }
}

/// The selection box of a widget: never thinner than two pixels either way;
/// a box already at least that large is kept as it is.
#[verifier::rlimit(60)]
pub fn highlight_rect(w: &Widget) -> (r: Rect)
    requires
        widget_ok(*w),
    ensures
        r == highlight_spec(*w),
        r.spec_width() >= 2,
        r.spec_height() >= 2,
        highlight_base(*w).spec_width() >= 2 && highlight_base(*w).spec_height() >= 2 ==> r == highlight_base(*w),
        -4_000_000 <= r.left && r.right <= 4_000_000 && -4_000_000 <= r.top && r.bottom <= 4_000_000,
{
    let mut rect = match w {
        Widget::Text(t) => {
            if !str_eq(t.widget_type.as_str(), "weather") && !str_eq(t.widget_type.as_str(), "uptime") && str_eq(t.tag1.as_str(), "1") {
                let width = match t.width { Some(v) => v, None => t.font_size as i32 * 5 };
                let height = match t.height { Some(v) => v, None => t.font_size as i32 };
                Rect::from(t.position.left, t.position.top, width, height)
            } else {
                t.position
            }
        },
        Widget::Image(i) => i.position,
    };
    if rect.width() <= 1 {
        let h = rect.height();
        rect.set_size(2, h);
    }
    if rect.height() <= 1 {
        let wd = rect.width();
        rect.set_size(wd, 2);
    }
    rect
}

/// The selection box of any widget is at least two pixels wide and two pixels
/// high, however small or inverted its own box is.
pub proof fn lemma_highlight_at_least_two(w: Widget)
    requires
        widget_ok(w),
    ensures
        highlight_spec(w).spec_width() >= 2,
        highlight_spec(w).spec_height() >= 2,
{
}

impl ScreenRender {
    /// The double outline drawn around the selected widget, if one has this id.
    #[verifier::rlimit(60)]
    pub fn highlight_ops(&self, active_id: &str) -> (ops: Vec<DrawOp>)
        requires
            widgets_ok(self.widgets@),
        ensures
            find_index(self.widgets@, active_id@) is None ==> ops@.len() == 0,
            find_index(self.widgets@, active_id@) is Some ==> ({
                let r = highlight_spec(self.widgets@[find_index(self.widgets@, active_id@)->Some_0]);
                &&& ops@.len() == 2
                &&& ops@[0] == DrawOp::StrokeRect { rect: r, color: BLUE }
                &&& ops@[1] == DrawOp::StrokeRect {
                    rect: Rect { left: (r.left - 1) as i32, top: (r.top - 1) as i32, right: (r.right + 1) as i32, bottom: (r.bottom + 1) as i32 },
                    color: crate::widgets::WHITE,
                }
            }),
    {
        let mut ops: Vec<DrawOp> = Vec::new();
        let found = self.find_widget(active_id);
        proof { lemma_find_index(self.widgets@, active_id@, found); }
        match found {
            None => {},
            Some(i) => {
                assert(widget_ok(self.widgets@[i as int]));
                let rect = highlight_rect(&self.widgets[i]);
                let mut outer = rect;
                outer.inflate(1, 1);
                ops.push(DrawOp::StrokeRect { rect, color: BLUE });
                ops.push(DrawOp::StrokeRect { rect: outer, color: crate::widgets::WHITE });
            },
        }
        ops
    }
}

/// Unpacks a saved document file into its JSON bytes.
pub fn decompress_screen_file(compressed: &[u8]) -> (r: Result<Vec<u8>, ProtocolError>)
    ensures
        r is Ok <==> lz4_unblock(compressed@) is Some,
        r is Ok ==> lz4_unblock(compressed@) == Some(r->Ok_0@),
        r is Err ==> r == Err::<Vec<u8>, ProtocolError>(ProtocolError::Decompress),
{
    match lz4_decompress(compressed) {
        Ok(v) => Ok(v),
        Err(_) => Err(ProtocolError::Decompress),
    }
}

/// Packs a document's JSON bytes for saving.
pub fn compress_document(json: &[u8]) -> (r: Vec<u8>)
    ensures
        r@ == lz4_block(json@),
        json@.len() <= u32::MAX ==> lz4_unblock(r@) == Some(json@),
{
    lz4_compress(json)
}

/// The versioned decode chain: the current schema if it parsed, else the
/// legacy schema, else an error. Nothing is inferred from a partial parse.
pub fn load_document(current: Option<SaveableScreen>, legacy: Option<SaveableScreenV10>) -> (r: Result<ScreenRender, ProtocolError>)
    ensures
        current is Some ==> r is Ok && r->Ok_0 == from_savable_spec(current->Some_0),
        current is None && legacy is Some ==> r is Ok && r->Ok_0.fps == DEFAULT_FPS && r->Ok_0.rotate_degree == 0
            && r->Ok_0.device_address is None && r->Ok_0.device_ip is None
            && r->Ok_0.width == legacy->Some_0.width && r->Ok_0.height == legacy->Some_0.height
            && r->Ok_0.model == legacy->Some_0.model && r->Ok_0.font == legacy->Some_0.font
            && r->Ok_0.font_name == legacy->Some_0.font_name
            && r->Ok_0.widgets@ == legacy->Some_0.widgets@.map_values(|w: SaveableWidgetV10| widget_from_v10(w)),
        current is None && legacy is None ==> r == Err::<ScreenRender, ProtocolError>(ProtocolError::UnrecognizedSchema),
{
    match current {
        Some(d) => Ok(ScreenRender::from_savable(d)),
        None => match legacy {
            Some(d) => Ok(ScreenRender::from_v10(d)),
            None => Err(ProtocolError::UnrecognizedSchema),
        },
    }
}

impl ScreenRender {
    /// Loads a document into this canvas: everything but the model name is
    /// replaced; the font only when the document embeds one.
    pub fn load_from_file(&mut self, d: SaveableScreen)
        ensures
            final(self).width == d.width && final(self).height == d.height && final(self).fps == d.fps,
            final(self).rotate_degree == (match d.rotate_degree { Some(r) => r, None => 0 }),
            final(self).device_address == d.device_address && final(self).device_ip == d.device_ip,
            final(self).widgets == d.widgets,
            final(self).model == old(self).model,
            d.font is Some ==> final(self).font == d.font && final(self).font_name == d.font_name,
            d.font is None ==> final(self).font == old(self).font && final(self).font_name == old(self).font_name,
    {
        self.width = d.width;
        self.height = d.height;
        self.fps = d.fps;
        self.rotate_degree = match d.rotate_degree { Some(r) => r, None => 0 };
        self.device_address = d.device_address;
        self.device_ip = d.device_ip;
        if d.font.is_some() {
            self.font = d.font;
            self.font_name = d.font_name;
        }
        self.widgets = d.widgets;
    }
}

/// The first index holding a widget with this id.
pub open spec fn find_index(ws: Seq<Widget>, uuid: Seq<char>) -> Option<int> {
    if exists|k: int| 0 <= k < ws.len() && wid(ws[k]) == uuid {
        Some(choose|k: int| 0 <= k < ws.len() && wid(ws[k]) == uuid && forall|j: int| 0 <= j < k ==> wid(ws[j]) != uuid)
    } else {
        None
    }
}

proof fn lemma_find_index(ws: Seq<Widget>, uuid: Seq<char>, r: Option<usize>)
    requires
        r is Some ==> r->Some_0 < ws.len() && wid(ws[r->Some_0 as int]) == uuid
            && forall|k: int| 0 <= k < r->Some_0 ==> wid(ws[k]) != uuid,
        r is None ==> forall|k: int| 0 <= k < ws.len() ==> wid(ws[k]) != uuid,
    ensures
        find_index(ws, uuid) == match r { Some(i) => Some(i as int), None => None },
{
    if r is Some {
        let i = r->Some_0 as int;
        assert(0 <= i < ws.len() && wid(ws[i]) == uuid);
        let c = choose|k: int| 0 <= k < ws.len() && wid(ws[k]) == uuid && forall|j: int| 0 <= j < k ==> wid(ws[j]) != uuid;
        assert(0 <= c < ws.len() && wid(ws[c]) == uuid && forall|j: int| 0 <= j < c ==> wid(ws[j]) != uuid);
        if c < i {
        } else if c > i {
        }
    }
}

/// Relies on `uuid::Uuid::new_v4` written hyphenated: a fresh random id of 36 characters.
#[verifier::external_body]
fn new_widget_id() -> (r: String)
    ensures
        r@.len() == 36,
{
    uuid::Uuid::new_v4().to_string()
}

/// The list with the widgets at `i` and `i + 1` exchanged.
pub open spec fn swapped(ws: Seq<Widget>, i: int) -> Seq<Widget> {
    ws.update(i, ws[i + 1]).update(i + 1, ws[i])
}

impl ScreenRender {
    /// Removes the widget with this id; returns whether one was there.
    pub fn delete_widget(&mut self, uuid: &str) -> (r: bool)
        ensures
            *final(self) == (ScreenRender { widgets: final(self).widgets, ..*old(self) }),
            match find_index(old(self).widgets@, uuid@) {
                Some(i) => r && final(self).widgets@ == old(self).widgets@.remove(i),
                None => !r && final(self).widgets@ == old(self).widgets@,
            },
    {
        let found = self.find_widget(uuid);
        proof { lemma_find_index(self.widgets@, uuid@, found); }
        match found {
            None => false,
            Some(i) => {
                let _ = self.widgets.remove(i);
                true
            },
        }
    }

    /// Moves a widget one step towards the top of the drawing order.
    pub fn move_back_widget(&mut self, uuid: &str)
        ensures
            *final(self) == (ScreenRender { widgets: final(self).widgets, ..*old(self) }),
            match find_index(old(self).widgets@, uuid@) {
                Some(i) => if i + 1 < old(self).widgets@.len() {
                    final(self).widgets@ == swapped(old(self).widgets@, i)
                } else {
                    final(self).widgets@ == old(self).widgets@
                },
                None => final(self).widgets@ == old(self).widgets@,
            },
    {
        let found = self.find_widget(uuid);
        proof { lemma_find_index(self.widgets@, uuid@, found); }
        match found {
            None => {},
            Some(i) => {
                if i < self.widgets.len() - 1 {
                    let w = self.widgets.remove(i);
                    self.widgets.insert(i + 1, w);
                    assert(self.widgets@ =~= swapped(old(self).widgets@, i as int));
                }
            },
        }
    }

    /// Moves a widget one step towards the bottom of the drawing order.
    pub fn move_up_widget(&mut self, uuid: &str)
        ensures
            *final(self) == (ScreenRender { widgets: final(self).widgets, ..*old(self) }),
            match find_index(old(self).widgets@, uuid@) {
                Some(i) => if i > 0 {
                    final(self).widgets@ == swapped(old(self).widgets@, i - 1)
                } else {
                    final(self).widgets@ == old(self).widgets@
                },
                None => final(self).widgets@ == old(self).widgets@,
            },
    {
        let found = self.find_widget(uuid);
        proof { lemma_find_index(self.widgets@, uuid@, found); }
        match found {
            None => {},
            Some(i) => {
                if i > 0 {
                    let w = self.widgets.remove(i);
                    self.widgets.insert(i - 1, w);
                    assert(self.widgets@ =~= swapped(old(self).widgets@, i - 1));
                }
            },
        }
    }
}

pub open spec fn label_spec(w: Widget) -> Seq<char> {
    if wtype(w) == "images"@ { "图像"@ } else if wtype(w) == "webcam"@ { "摄像头"@ } else { "文本"@ }
}

impl Widget {
    /// Every widget type but `"images"` and `"webcam"` is text.
    pub fn is_text(&self) -> (r: bool)
        ensures
            r == (wtype(*self) != "images"@ && wtype(*self) != "webcam"@),
    {
        let t = widget_type_of(self);
        !str_eq(t.as_str(), "images") && !str_eq(t.as_str(), "webcam")
    }

    pub fn is_image(&self) -> (r: bool)
        ensures
            r == (wtype(*self) == "images"@),
    {
        str_eq(widget_type_of(self).as_str(), "images")
    }

    pub fn is_webcam(&self) -> (r: bool)
        ensures
            r == (wtype(*self) == "webcam"@),
    {
        str_eq(widget_type_of(self).as_str(), "webcam")
    }

    /// The name the widget list shows for the widget's kind.
    pub fn get_label(&self) -> (r: &'static str)
        ensures
            r@ == label_spec(*self),
    {
        if self.is_image() {
            "图像"
        } else if self.is_webcam() {
            "摄像头"
        } else {
            "文本"
        }
    }
}

fn clone_opt(o: &Option<String>) -> (r: Option<String>)
    ensures
        r == *o,
{
    match o {
        Some(s) => Some(s.clone()),
        None => None,
    }
}

fn clone_bytes(v: &Vec<u8>) -> (r: Vec<u8>)
    ensures
        r@ == v@,
{
    vstd::slice::slice_to_vec(v.as_slice())
}

/// The frames of an image, as byte sequences.
pub open spec fn frames_view(d: ImageData) -> Seq<Seq<u8>> {
    d.frames@.map_values(|f: Vec<u8>| f@)
}

fn clone_image_data(d: &ImageData) -> (r: ImageData)
    ensures
        r.width == d.width && r.height == d.height,
        frames_view(r) == frames_view(*d),
{
    let mut frames: Vec<Vec<u8>> = Vec::new();
    let mut i: usize = 0;
    while i < d.frames.len()
        invariant
            i <= d.frames@.len(),
            frames@.len() == i,
            forall|k: int| 0 <= k < i ==> (#[trigger] frames@[k])@ == d.frames@[k]@,
        decreases d.frames@.len() - i,
    {
        frames.push(clone_bytes(&d.frames[i]));
        i = i + 1;
    }
    let r = ImageData { width: d.width, height: d.height, frames };
    assert(frames_view(r) =~= frames_view(*d));
    r
}

/// `w` copied under a new id and moved by (5, 5); image frames are copied by value.
pub open spec fn duplicate_spec(w: Widget, n: Widget, id: Seq<char>) -> bool {
    match (w, n) {
        (Widget::Text(a), Widget::Text(b)) => b == (TextWidget {
            id: b.id,
            position: Rect { left: (a.position.left + 5) as i32, top: (a.position.top + 5) as i32, right: (a.position.right + 5) as i32, bottom: (a.position.bottom + 5) as i32 },
            ..a
        }) && b.id@ == id,
        (Widget::Image(a), Widget::Image(b)) => b == (ImageWidget {
            id: b.id,
            image_data: b.image_data,
            position: Rect { left: (a.position.left + 5) as i32, top: (a.position.top + 5) as i32, right: (a.position.right + 5) as i32, bottom: (a.position.bottom + 5) as i32 },
            ..a
        }) && b.id@ == id && frames_view(b.image_data) == frames_view(a.image_data)
            && b.image_data.width == a.image_data.width && b.image_data.height == a.image_data.height,
        _ => false,
    }
}

fn duplicate(w: &Widget, id: String) -> (r: Widget)
    requires
        widget_ok(*w),
    ensures
        duplicate_spec(*w, r, id@),
{
    match w {
        Widget::Text(t) => {
            let mut position = t.position;
            position.offset(5, 5);
            Widget::Text(TextWidget {
                id,
                text: t.text.clone(),
                prefix: t.prefix.clone(),
                color: t.color,
                font_size: t.font_size,
                position,
                widget_type: t.widget_type.clone(),
                num_widget_index: t.num_widget_index,
                num_widget: t.num_widget,
                tag1: t.tag1.clone(),
                tag2: t.tag2.clone(),
                width: t.width,
                height: t.height,
                alignment: clone_opt(&t.alignment),
                custom_script: clone_opt(&t.custom_script),
            })
        },
        Widget::Image(i) => {
            let mut position = i.position;
            position.offset(5, 5);
            Widget::Image(ImageWidget {
                id,
                image_data: clone_image_data(&i.image_data),
                rotation: i.rotation,
                position,
                widget_type: i.widget_type.clone(),
                frame_index: i.frame_index,
                color: i.color,
                num_widget_index: i.num_widget_index,
                num_widget: i.num_widget,
                tag1: clone_opt(&i.tag1),
                tag2: clone_opt(&i.tag2),
            })
        },
    }
}

impl ScreenRender {
    /// Duplicates the widget with this id on top of the others, under a new
    /// id and moved by (5, 5); returns the new id.
    #[verifier::rlimit(60)]
    pub fn clone_widget(&mut self, uuid: &str) -> (r: Option<String>)
        requires
            widgets_ok(old(self).widgets@),
        ensures
            *final(self) == (ScreenRender { widgets: final(self).widgets, ..*old(self) }),
            find_index(old(self).widgets@, uuid@) is None ==> r is None && final(self).widgets@ == old(self).widgets@,
            find_index(old(self).widgets@, uuid@) is Some ==> r is Some
                && final(self).widgets@.len() == old(self).widgets@.len() + 1
                && final(self).widgets@.subrange(0, old(self).widgets@.len() as int) == old(self).widgets@
                && duplicate_spec(old(self).widgets@[find_index(old(self).widgets@, uuid@)->Some_0], final(self).widgets@.last(), r->Some_0@),
    {
        let found = self.find_widget(uuid);
        proof { lemma_find_index(self.widgets@, uuid@, found); }
        match found {
            None => None,
            Some(i) => {
                let id = new_widget_id();
                assert(widget_ok(self.widgets@[i as int]));
                let copy = duplicate(&self.widgets[i], id.clone());
                self.widgets.push(copy);
                assert(self.widgets@.subrange(0, old(self).widgets@.len() as int) =~= old(self).widgets@);
                Some(id)
            },
        }
    }

    /// Replaces the embedded font and its name.
    pub fn set_font(&mut self, font: Option<Vec<u8>>, font_name: String)
        ensures
            *final(self) == (ScreenRender { font, font_name, ..*old(self) }),
    {
        self.font = font;
        self.font_name = font_name;
    }
}

} // verus!
