//! Widgets: text bound to a telemetry metric (or plain text), and images.
//! Resolving a widget's content and laying it out is decided here; the
//! pixels are drawn by whoever executes the resulting draw operations.
use vstd::prelude::*;
use crate::rect::Rect;
use crate::telemetry::{
    self, bytes_to_gb_seq, count_seq, disk_rate_seq, disk_usage_seq, ghz_seq, gpu_load_value, na, net_rate_seq,
    percent_pair_seq, seq_max, usage_pair_seq, SystemInfo, SystemUptime, EMPTY_STRING,
};
use crate::text::{dec_seq, decimal_string, digit_char, is_digit, parse_u16, parse_u16_spec, short_tenths_seq, short_tenths_string, str_eq, tenths_seq};

verus! {

/// A text widget. Its `widget_type` picks a telemetry accessor, `"text"` for plain text.
#[derive(Debug, Clone)]
pub struct TextWidget {
    pub id: String,
    pub text: String,
    pub prefix: String,
    pub color: [u8; 4],
    pub font_size: u32,
    pub position: Rect,
    pub widget_type: String,
    /// Rank among the widgets of the same type in the last render pass.
    pub num_widget_index: usize,
    /// Number of widgets of the same type in the last render pass.
    pub num_widget: usize,
    pub tag1: String,
    pub tag2: String,
    pub width: Option<i32>,
    pub height: Option<i32>,
    pub alignment: Option<String>,
    pub custom_script: Option<String>,
}

/// Decoded RGBA frames of an image; more than one frame animates.
#[derive(Debug, Clone, Default)]
pub struct ImageData {
    pub width: u32,
    pub height: u32,
    pub frames: Vec<Vec<u8>>,
}

/// An image widget, or a live webcam when its type is `"webcam"`.
#[derive(Debug, Clone)]
pub struct ImageWidget {
    pub id: String,
    pub image_data: ImageData,
    /// Rotation about the box centre, in degrees.
    pub rotation: i32,
    pub position: Rect,
    pub widget_type: String,
    pub frame_index: usize,
    /// A solid colour drawn instead of the image.
    pub color: Option<[u8; 4]>,
    pub num_widget_index: usize,
    pub num_widget: usize,
    pub tag1: Option<String>,
    pub tag2: Option<String>,
}

/// One widget of a canvas.
#[derive(Debug, Clone)]
pub enum Widget {
    Text(TextWidget),
    Image(ImageWidget),
}

/// Texts that depend on the local clock and calendar, computed by the caller.
#[derive(Debug, Clone)]
pub struct ClockTexts {
    pub date: String,
    pub time: String,
    pub weekday: String,
    pub lunar_year: String,
    pub lunar_date: String,
    pub uptime: SystemUptime,
}

pub open spec fn opt_view(o: Option<String>) -> Option<Seq<char>> {
    match o {
        Some(s) => Some(s@),
        None => None,
    }
}

pub open spec fn or_na(o: Option<Seq<char>>) -> Seq<char> {
    match o {
        Some(s) => s,
        None => na(),
    }
}

pub open spec fn cpu_freq_spec(info: &SystemInfo) -> Option<Seq<char>> {
    if info.cpu_clock_speed@.len() == 0 { None } else { Some(ghz_seq(seq_max(info.cpu_clock_speed@) as nat)) }
}

pub open spec fn cpu_usage_spec(info: &SystemInfo, rank: int, count: int) -> Option<Seq<char>> {
    if count == 1 {
        Some(match info.cpu_usage {
            None => na(),
            Some(t) => tenths_seq(t as nat) + "%"@,
        })
    } else if 0 <= rank <= usize::MAX && info.cpu_usage_percpu@.contains_key(rank as usize) {
        Some(tenths_seq(info.cpu_usage_percpu@[rank as usize] as nat) + "%"@)
    } else {
        None
    }
}

pub open spec fn gpu_fan_spec(info: &SystemInfo, i: int) -> Option<Seq<char>> {
    if 0 <= i < info.gpu_fans@.len() && info.gpu_fans@[i]@.len() > 0 {
        Some(dec_seq(info.gpu_fans@[i]@[0] as nat) + "RPM"@)
    } else {
        None
    }
}

pub open spec fn gpu_clock_spec(info: &SystemInfo, i: int) -> Option<Seq<char>> {
    if info.gpu_clocks@.len() == 0 {
        None
    } else {
        let clocks = info.gpu_clocks@[if 0 <= i < info.gpu_clocks@.len() { i } else { 0 }]@;
        if clocks.len() == 0 { None } else { Some(ghz_seq(seq_max(clocks) as nat)) }
    }
}

pub open spec fn gpu_load_spec(info: &SystemInfo, i: int) -> Option<Seq<char>> {
    match gpu_load_value(info, i) {
        Some(v) => Some(short_tenths_seq(v as nat) + "%"@),
        None => None,
    }
}

pub open spec fn indexed_tenths(v: Seq<u32>, i: int, suffix: Seq<char>) -> Option<Seq<char>> {
    if 0 <= i < v.len() { Some(tenths_seq(v[i] as nat) + suffix) } else { None }
}

pub open spec fn gpu_mem_mb_spec(info: &SystemInfo, i: int) -> Option<Seq<char>> {
    if 0 <= i < info.gpu_memory_total@.len() { Some(dec_seq(info.gpu_memory_total@[i] as nat)) } else { None }
}

pub open spec fn gpu_mem_gb_spec(info: &SystemInfo, i: int) -> Option<Seq<char>> {
    if 0 <= i < info.gpu_memory_total@.len() {
        Some(tenths_seq((info.gpu_memory_total@[i] as nat * 10 + 512) / 1024))
    } else {
        None
    }
}

pub open spec fn gpu_temp_spec(info: &SystemInfo, i: int) -> Option<Seq<char>> {
    if 0 <= i < info.gpu_temperatures@.len() {
        Some(tenths_seq(if info.gpu_temperatures@[i]@.len() > 0 { info.gpu_temperatures@[i]@[0] as nat } else { 0 }) + "°C"@)
    } else {
        None
    }
}

pub open spec fn disk_usage_spec(info: &SystemInfo, i: int) -> Option<Seq<char>> {
    if 0 <= i <= usize::MAX && info.disk_usage@.contains_key(i as usize) { Some(disk_usage_seq(info.disk_usage@[i as usize])) } else { None }
}

pub open spec fn rate_spec(pair: Option<(u64, u64)>, second: bool, disk: bool) -> Seq<char> {
    match pair {
        None => na(),
        Some(p) => {
            let b = if second { p.1 } else { p.0 };
            if disk { disk_rate_seq(b as nat) } else { net_rate_seq(b as nat) }
        },
    }
}

/// Signed tenths written as a float displays them.
pub open spec fn signed_tenths_seq(t: int) -> Seq<char> {
    if t < 0 { "-"@ + short_tenths_seq((-t) as nat) } else { short_tenths_seq(t as nat) }
}

pub open spec fn weather_spec(info: &SystemInfo, tag1: Seq<char>) -> Seq<char> {
    match info.weather_info {
        None => na(),
        Some(w) => if tag1 == "1"@ {
            w.city@
        } else if tag1 == "2"@ {
            signed_tenths_seq(w.temperature as int) + "℃"@
        } else if tag1 == "3"@ {
            w.wind_direct@ + "℃"@
        } else if tag1 == "4"@ {
            w.wind_power@
        } else if tag1 == "5"@ {
            short_tenths_seq(w.wind_speed as nat) + "级"@
        } else if tag1 == "6"@ {
            w.img@
        } else {
            w.info@
        },
    }
}

pub open spec fn uptime_spec(u: SystemUptime, tag1: Seq<char>) -> Seq<char> {
    if tag1 == "1"@ {
        dec_seq(u.minutes as nat)
    } else if tag1 == "2"@ {
        dec_seq(u.hours as nat)
    } else if tag1 == "3"@ {
        dec_seq(u.days as nat)
    } else {
        dec_seq(u.seconds as nat)
    }
}

/// The text the accessor selected by `widget_type` gives, `None` for a type with
/// no accessor or an accessor with nothing to show.
pub open spec fn metric_text_spec(info: &SystemInfo, clock: &ClockTexts, t: Seq<char>, rank: int, count: int, tag1: Seq<char>) -> Option<Seq<char>> {
    if t == "cpu"@ { Some(info.cpu_brand@) }
    else if t == "memory"@ { Some(usage_pair_seq(info.memory)) }
    else if t == "memory_total"@ {
        Some(match info.memory { None => na(), Some(p) => bytes_to_gb_seq(p.1 as nat) + "G"@ })
    }
    else if t == "memory_percent"@ { Some(percent_pair_seq(info.memory)) }
    else if t == "swap"@ { Some(usage_pair_seq(info.swap)) }
    else if t == "swap_percent"@ { Some(percent_pair_seq(info.swap)) }
    else if t == "system"@ { Some(info.system_name@) }
    else if t == "version"@ { Some(info.os_version@) }
    else if t == "kernel"@ { Some(info.kernel_version@) }
    else if t == "host"@ { Some(info.host_name@) }
    else if t == "cpu_freq"@ { cpu_freq_spec(info) }
    else if t == "cpu_usage"@ { cpu_usage_spec(info, rank, count) }
    else if t == "cpu_temp."@ { Some(tenths_seq(info.cpu_temperature_total as nat) + "°C"@) }
    else if t == "cpu_cores_power"@ { Some(tenths_seq(info.cpu_cores_power as nat) + "W"@) }
    else if t == "cpu_package_power"@ { Some(tenths_seq(info.cpu_package_power as nat) + "W"@) }
    else if t == "cpu_fan"@ {
        Some(if info.cpu_fans@.len() > 0 { dec_seq(info.cpu_fans@[0] as nat) + "RPM"@ } else { na() })
    }
    else if t == "gpu_fan"@ { Some(or_na(gpu_fan_spec(info, rank))) }
    else if t == "gpu_clock"@ { Some(or_na(gpu_clock_spec(info, rank))) }
    else if t == "gpu_load"@ { Some(or_na(gpu_load_spec(info, rank))) }
    else if t == "gpu_memory_load"@ { Some(or_na(indexed_tenths(info.gpu_memory_load@, rank, "%"@))) }
    else if t == "gpu_memory_total_mb"@ { Some(or_na(gpu_mem_mb_spec(info, rank))) }
    else if t == "gpu_memory_total_gb"@ { Some(or_na(gpu_mem_gb_spec(info, rank))) }
    else if t == "gpu_temp."@ { Some(or_na(gpu_temp_spec(info, rank))) }
    else if t == "gpu_cores_power"@ { Some(tenths_seq(info.gpu_cores_power as nat) + "W"@) }
    else if t == "gpu_package_power"@ { Some(tenths_seq(info.gpu_package_power as nat) + "W"@) }
    else if t == "num_cpu"@ { Some(count_seq(info.num_cpus)) }
    else if t == "num_process"@ { Some(count_seq(info.num_process)) }
    else if t == "disk_usage"@ { disk_usage_spec(info, rank) }
    else if t == "date"@ { Some(clock.date@) }
    else if t == "local_ip"@ { Some(info.local_ip@) }
    else if t == "net_ip"@ { match info.net_ip { Some(i) => Some(i.query@), None => None } }
    else if t == "net_ip_info"@ {
        match info.net_ip { Some(i) => Some(i.country@ + i.region_name@ + i.city@), None => None }
    }
    else if t == "time"@ { Some(clock.time@) }
    else if t == "weekday"@ { Some(clock.weekday@) }
    else if t == "lunar_year"@ { Some(clock.lunar_year@) }
    else if t == "lunar_date"@ { Some(clock.lunar_date@) }
    else if t == "weather"@ { Some(weather_spec(info, tag1)) }
    else if t == "uptime"@ { Some(uptime_spec(clock.uptime, tag1)) }
    else if t == "disk_read_speed"@ { Some(rate_spec(info.disk_speed_per_sec, false, true)) }
    else if t == "disk_write_speed"@ { Some(rate_spec(info.disk_speed_per_sec, true, true)) }
    else if t == "received_speed"@ { Some(rate_spec(info.network_speed_per_sec, false, false)) }
    else if t == "transmitted_speed"@ { Some(rate_spec(info.network_speed_per_sec, true, false)) }
    else { None }
}

fn or_na_string(o: Option<String>) -> (r: String)
    ensures
        r@ == or_na(opt_view(o)),
{
    match o {
        Some(s) => s,
        None => String::from_str(EMPTY_STRING),
    }
}

fn signed_tenths_string(t: i32) -> (r: String)
    ensures
        r@ == signed_tenths_seq(t as int),
{
    if t < 0 {
        let mut s = String::from_str("-");
        let v = short_tenths_string((-(t as i64)) as u64);
        s.append(v.as_str());
        s
    } else {
        short_tenths_string(t as u64)
    }
}

fn weather_text(info: &SystemInfo, tag1: &str) -> (r: String)
    ensures
        r@ == weather_spec(info, tag1@),
{
    match &info.weather_info {
        None => String::from_str(EMPTY_STRING),
        Some(w) => {
            if str_eq(tag1, "1") {
                w.city.clone()
            } else if str_eq(tag1, "2") {
                let mut s = signed_tenths_string(w.temperature);
                s.append("℃");
                s
            } else if str_eq(tag1, "3") {
                let mut s = w.wind_direct.clone();
                s.append("℃");
                s
            } else if str_eq(tag1, "4") {
                w.wind_power.clone()
            } else if str_eq(tag1, "5") {
                let mut s = short_tenths_string(w.wind_speed as u64);
                s.append("级");
                s
            } else if str_eq(tag1, "6") {
                w.img.clone()
            } else {
                w.info.clone()
            }
        },
    }
}

fn uptime_text(u: SystemUptime, tag1: &str) -> (r: String)
    ensures
        r@ == uptime_spec(u, tag1@),
{
    if str_eq(tag1, "1") {
        decimal_string(u.minutes as u128)
    } else if str_eq(tag1, "2") {
        decimal_string(u.hours as u128)
    } else if str_eq(tag1, "3") {
        decimal_string(u.days as u128)
    } else {
        decimal_string(u.seconds as u128)
    }
}

fn pick_rate(pair: Option<(String, String)>, second: bool) -> (r: Option<String>)
    ensures
        pair is None ==> r is None,
        pair is Some ==> r == Some(if second { pair->Some_0.1 } else { pair->Some_0.0 }),
{
    match pair {
        None => None,
        Some((a, b)) => Some(if second { b } else { a }),
    }
}

/// The text of the accessor that a widget type selects (see `metric_text_spec`).
#[verifier::rlimit(60)]
pub fn metric_text(info: &SystemInfo, clock: &ClockTexts, t: &str, rank: usize, count: usize, tag1: &str) -> (r: Option<String>)
    ensures
        opt_view(r) == metric_text_spec(info, clock, t@, rank as int, count as int, tag1@),
{
    if str_eq(t, "cpu") { telemetry::cpu_brand(info) }
    else if str_eq(t, "memory") { telemetry::memory_info(info) }
    else if str_eq(t, "memory_total") { telemetry::memory_total(info) }
    else if str_eq(t, "memory_percent") { telemetry::memory_percent(info) }
    else if str_eq(t, "swap") { telemetry::swap_info(info) }
    else if str_eq(t, "swap_percent") { telemetry::swap_percent(info) }
    else if str_eq(t, "system") { telemetry::system_name(info) }
    else if str_eq(t, "version") { telemetry::os_version(info) }
    else if str_eq(t, "kernel") { telemetry::kernel_version(info) }
    else if str_eq(t, "host") { telemetry::host_name(info) }
    else if str_eq(t, "cpu_freq") { telemetry::cpu_clock_speed(info, None) }
    else if str_eq(t, "cpu_usage") {
        if count == 1 { telemetry::cpu_usage(info) } else { telemetry::cpu_usage_percpu(info, rank) }
    }
    else if str_eq(t, "cpu_temp.") { telemetry::cpu_temperature(info) }
    else if str_eq(t, "cpu_cores_power") { telemetry::cpu_cores_power(info) }
    else if str_eq(t, "cpu_package_power") { telemetry::cpu_package_power(info) }
    else if str_eq(t, "cpu_fan") { Some(or_na_string(telemetry::cpu_fan(info))) }
    else if str_eq(t, "gpu_fan") { Some(or_na_string(telemetry::gpu_fan(info, rank))) }
    else if str_eq(t, "gpu_clock") { Some(or_na_string(telemetry::gpu_clocks(info, rank))) }
    else if str_eq(t, "gpu_load") { Some(or_na_string(telemetry::gpu_load(info, rank))) }
    else if str_eq(t, "gpu_memory_load") { Some(or_na_string(telemetry::gpu_memory_load(info, rank))) }
    else if str_eq(t, "gpu_memory_total_mb") { Some(or_na_string(telemetry::gpu_memory_total_mb(info, rank))) }
    else if str_eq(t, "gpu_memory_total_gb") { Some(or_na_string(telemetry::gpu_memory_total_gb(info, rank))) }
    else if str_eq(t, "gpu_temp.") { Some(or_na_string(telemetry::gpu_temperature(info, rank))) }
    else if str_eq(t, "gpu_cores_power") { telemetry::gpu_cores_power(info) }
    else if str_eq(t, "gpu_package_power") { telemetry::gpu_package_power(info) }
    else if str_eq(t, "num_cpu") { telemetry::num_cpus(info) }
    else if str_eq(t, "num_process") { telemetry::num_process(info) }
    else if str_eq(t, "disk_usage") { telemetry::disk_usage(info, rank) }
    else if str_eq(t, "date") { Some(clock.date.clone()) }
    else if str_eq(t, "local_ip") { telemetry::local_ip_addresses(info) }
    else if str_eq(t, "net_ip") { telemetry::net_ip_address(info) }
    else if str_eq(t, "net_ip_info") { telemetry::net_ip_info(info) }
    else if str_eq(t, "time") { Some(clock.time.clone()) }
    else if str_eq(t, "weekday") { Some(clock.weekday.clone()) }
    else if str_eq(t, "lunar_year") { Some(clock.lunar_year.clone()) }
    else if str_eq(t, "lunar_date") { Some(clock.lunar_date.clone()) }
    else if str_eq(t, "weather") { Some(weather_text(info, tag1)) }
    else if str_eq(t, "uptime") { Some(uptime_text(clock.uptime, tag1)) }
    else if str_eq(t, "disk_read_speed") { pick_rate(telemetry::disk_speed_per_sec(info), false) }
    else if str_eq(t, "disk_write_speed") { pick_rate(telemetry::disk_speed_per_sec(info), true) }
    else if str_eq(t, "received_speed") { pick_rate(telemetry::network_speed_per_sec(info), false) }
    else if str_eq(t, "transmitted_speed") { pick_rate(telemetry::network_speed_per_sec(info), true) }
    else { None }
}

/// Whitespace as a script command may contain around it.
pub open spec fn is_blank_char(c: char) -> bool {
    c == ' ' || c == '\t' || c == '\n' || c == '\r'
}

/// A custom script is configured when its command is not blank.
pub open spec fn has_script(w: &TextWidget) -> bool {
    match w.custom_script {
        Some(s) => exists|i: int| 0 <= i < s@.len() && !is_blank_char(#[trigger] s@[i]),
        None => false,
    }
}

fn script_configured(w: &TextWidget) -> (r: bool)
    ensures
        r == has_script(w),
{
    match &w.custom_script {
        None => false,
        Some(s) => {
            let n = s.as_str().unicode_len();
            let mut i: usize = 0;
            while i < n
                invariant
                    n == s@.len(),
                    i <= n,
                    w.custom_script == Some(*s),
                    forall|k: int| 0 <= k < i ==> is_blank_char(#[trigger] s@[k]),
                decreases n - i,
            {
                let c = s.as_str().get_char(i);
                if !(c == ' ' || c == '\t' || c == '\n' || c == '\r') {
                    assert(!is_blank_char(s@[i as int]));
                    assert(w.custom_script->Some_0@ == s@);
                    assert(!is_blank_char(w.custom_script->Some_0@[i as int]));
                    return true;
                }
                i = i + 1;
            }
            false
        },
    }
}

/// The text a widget shows after one resolution step: a configured script's
/// latest result when one is available; otherwise the accessor's value
/// unless that is the unavailable marker; otherwise the previous text.
pub open spec fn resolved_text_spec(w: &TextWidget, info: &SystemInfo, clock: &ClockTexts, script_result: Option<String>) -> Seq<char> {
    if has_script(w) {
        match script_result {
            Some(r) => r@,
            None => w.text@,
        }
    } else if w.widget_type@ == "text"@ {
        w.text@
    } else {
        match metric_text_spec(info, clock, w.widget_type@, w.num_widget_index as int, w.num_widget as int, w.tag1@) {
            Some(t) => if t == na() { w.text@ } else { t },
            None => w.text@,
        }
    }
}

/// Everything but the text is kept.
pub open spec fn same_but_text(a: &TextWidget, b: &TextWidget) -> bool {
    &&& a.id == b.id && a.prefix == b.prefix && a.color == b.color && a.font_size == b.font_size
    &&& a.position == b.position && a.widget_type == b.widget_type
    &&& a.num_widget_index == b.num_widget_index && a.num_widget == b.num_widget
    &&& a.tag1 == b.tag1 && a.tag2 == b.tag2 && a.width == b.width && a.height == b.height
    &&& a.alignment == b.alignment && a.custom_script == b.custom_script
}

impl TextWidget {
    /// Whether this widget runs a custom script (the caller runs it and hands back results).
    pub fn has_custom_script(&self) -> (r: bool)
        ensures
            r == has_script(self),
    {
        script_configured(self)
    }

    /// Resolves the widget's text from the script result or the telemetry cache.
    #[verifier::rlimit(60)]
    pub fn update_text(&mut self, info: &SystemInfo, clock: &ClockTexts, script_result: Option<String>)
        ensures
            final(self).text@ == resolved_text_spec(old(self), info, clock, script_result),
            same_but_text(old(self), final(self)),
    {
        if script_configured(self) {
            match script_result {
                Some(r) => {
                    self.text = r;
                },
                None => {},
            }
        } else if !str_eq(self.widget_type.as_str(), "text") {
            let v = metric_text(info, clock, self.widget_type.as_str(), self.num_widget_index, self.num_widget, self.tag1.as_str());
            match v {
                Some(t) => {
                    if !str_eq(t.as_str(), EMPTY_STRING) {
                        self.text = t;
                    }
                },
                None => {},
            }
        }
    }
}

/// The text with every `%` removed, then every `°C` removed.
pub open spec fn strip_units(s: Seq<char>) -> Seq<char> {
    remove_degc(s.filter(|c: char| c != '%'))
}

pub open spec fn remove_degc(s: Seq<char>) -> Seq<char>
    decreases s.len(),
{
    if s.len() == 0 {
        s
    } else if s.len() >= 2 && s[0] == '°' && s[1] == 'C' {
        remove_degc(s.skip(2))
    } else {
        seq![s[0]] + remove_degc(s.skip(1))
    }
}

/// Percentages are read in millionths of a percent.
pub const PERCENT_UNIT: u64 = 1_000_000;
/// The integer part of a percentage is held here once larger: any such
/// percentage already fills more than `FILL_MAX` pixels.
pub const PERCENT_INT_CAP: u64 = 1_000_000_000_000;
/// The longest fill drawn, in pixels; longer fills are held here.
pub const FILL_MAX: i32 = 1_000_000_000;

/// Reads a decimal (`42`, `42.5`, `7.`, `.5`) from index `i` on, in millionths
/// (digits past the sixth decimal add nothing); `None` when anything but
/// digits and one point occurs, or no digit does. `frac` collects the decimals
/// scaled by `place`, the weight of the next decimal digit.
pub open spec fn scan_percent(s: Seq<char>, i: int, int_part: nat, frac: nat, place: nat, seen_dot: bool, any_digit: bool) -> Option<nat>
    decreases s.len() - i,
{
    if i < 0 || i >= s.len() {
        if any_digit { Some(int_part * 1_000_000 + frac) } else { None }
    } else {
        let c = s[i];
        if c == '.' && !seen_dot {
            scan_percent(s, i + 1, int_part, frac, place, true, any_digit)
        } else if is_digit(c) {
            let d = (c as u32 - '0' as u32) as nat;
            if !seen_dot {
                let v = int_part * 10 + d;
                scan_percent(s, i + 1, if v > PERCENT_INT_CAP { PERCENT_INT_CAP as nat } else { v }, frac, place, false, true)
            } else {
                scan_percent(s, i + 1, int_part, frac + d * place, place / 10, true, true)
            }
        } else {
            None
        }
    }
}

/// The percentage a progress bar shows, in millionths of a percent: the text
/// without `%` and `°C`, an optional `+`, then a decimal; anything else shows
/// as zero.
pub open spec fn percent_spec(text: Seq<char>) -> nat {
    let s = strip_units(text);
    let start = if s.len() > 0 && s[0] == '+' { 1int } else { 0int };
    match scan_percent(s, start, 0, 0, 100_000, false, false) {
        Some(v) => v,
        None => 0,
    }
}

/// Filled extent of a progress bar: the floor of `extent * pct / 100`, at
/// least one pixel and at most `FILL_MAX`.
pub open spec fn fill_spec(extent: int, pct: nat) -> int {
    let f = extent * pct / 100_000_000;
    if extent <= 0 || f < 1 { 1 } else if f > FILL_MAX { FILL_MAX as int } else { f }
}

#[verifier::rlimit(60)]
fn strip_units_chars(s: &str) -> (r: Vec<char>)
    ensures
        r@ == strip_units(s@),
{
    let n = s.unicode_len();
    let mut kept: Vec<char> = Vec::new();
    let mut i: usize = 0;
    while i < n
        invariant
            n == s@.len(),
            i <= n,
            kept@ == s@.subrange(0, i as int).filter(|c: char| c != '%'),
        decreases n - i,
    {
        let c = s.get_char(i);
        proof {
            assert(s@.subrange(0, i as int + 1).drop_last() =~= s@.subrange(0, i as int));
            assert(s@.subrange(0, i as int + 1).last() == c);
            reveal(Seq::filter);
        }
        if c != '%' {
            kept.push(c);
        }
        i = i + 1;
    }
    assert(s@.subrange(0, n as int) =~= s@);
    let ghost f = kept@;
    let m = kept.len();
    let mut out: Vec<char> = Vec::new();
    assert(f.subrange(0, m as int) =~= f);
    assert(out@ + remove_degc(f) =~= remove_degc(f));
    let mut j: usize = 0;
    while j < m
        invariant
            m == f.len(),
            kept@ == f,
            j <= m,
            out@ + remove_degc(f.subrange(j as int, m as int)) == remove_degc(f),
        decreases m - j,
    {
        let ghost rest = f.subrange(j as int, m as int);
        if j + 1 < m && kept[j] == '°' && kept[j + 1] == 'C' {
            assert(rest.skip(2) =~= f.subrange(j + 2, m as int));
            j = j + 2;
        } else {
            assert(rest.skip(1) =~= f.subrange(j + 1, m as int));
            assert(rest[0] == kept@[j as int]);
            let ghost before = out@;
            out.push(kept[j]);
            assert(out@ + remove_degc(f.subrange(j + 1, m as int)) =~= before + remove_degc(rest));
            j = j + 1;
        }
    }
    assert(f.subrange(m as int, m as int).len() == 0);
    assert(out@ + remove_degc(f.subrange(m as int, m as int)) =~= out@);
    out
}

fn digit_of(c: char) -> (d: u64)
    requires
        is_digit(c),
    ensures
        d == (c as u32 - '0' as u32) as nat,
        d < 10,
{
    (c as u32 - '0' as u32) as u64
}

/// The percentage shown by a progress bar's text, in millionths (see `percent_spec`).
#[verifier::rlimit(60)]
pub fn percent_value(text: &str) -> (r: u64)
    ensures
        r == percent_spec(text@),
        r <= PERCENT_INT_CAP * 1_000_000 + 1_000_000,
{
    let s = strip_units_chars(text);
    let n = s.len();
    let start: usize = if n > 0 && s[0] == '+' { 1 } else { 0 };
    let mut i: usize = start;
    let mut int_part: u64 = 0;
    let mut frac: u64 = 0;
    let mut place: u64 = 100_000;
    let mut seen_dot = false;
    let mut any_digit = false;
    while i < n
        invariant
            n == s@.len(),
            i <= n,
            s@ == strip_units(text@),
            start == (if s@.len() > 0 && s@[0] == '+' { 1int } else { 0int }),
            int_part <= PERCENT_INT_CAP,
            place <= 100_000,
            frac + place * 10 <= 1_000_000,
            scan_percent(s@, start as int, 0, 0, 100_000, false, false)
                == scan_percent(s@, i as int, int_part as nat, frac as nat, place as nat, seen_dot, any_digit),
        decreases n - i,
    {
        let c = s[i];
        if c == '.' && !seen_dot {
            seen_dot = true;
        } else if '0' <= c && c <= '9' {
            let d = digit_of(c);
            if !seen_dot {
                let v = int_part * 10 + d;
                int_part = if v > PERCENT_INT_CAP { PERCENT_INT_CAP } else { v };
            } else {
                assert(frac + d * place + (place / 10) * 10 <= 1_000_000) by (nonlinear_arith)
                    requires
                        frac + place * 10 <= 1_000_000,
                        d < 10,
                ;
                frac = frac + d * place;
                place = place / 10;
            }
            any_digit = true;
        } else {
            return 0;
        }
        i = i + 1;
    }
    if !any_digit {
        return 0;
    }
    int_part * 1_000_000 + frac
}

/// Filled extent of a progress bar of `extent` pixels at `pct` millionths of a percent.
pub fn progress_fill(extent: i32, pct: u64) -> (r: i32)
    ensures
        r == fill_spec(extent as int, pct as nat),
        1 <= r <= FILL_MAX,
{
    if extent <= 0 {
        return 1;
    }
    assert(0 <= extent as int * pct as int <= 2147483647 * 18446744073709551615) by (nonlinear_arith)
        requires
            extent > 0,
            extent <= i32::MAX,
            pct <= u64::MAX,
    ;
    let v: u128 = (extent as u128 * pct as u128) / 100_000_000;
    if v < 1 { 1 } else if v > FILL_MAX as u128 { FILL_MAX } else { v as i32 }
}

/// At zero percent a progress bar still shows one pixel; at one hundred
/// percent it fills its whole extent.
pub proof fn lemma_progress_fill_ends(extent: int)
    ensures
        fill_spec(extent, 0) >= 1,
        1 <= extent <= FILL_MAX ==> fill_spec(extent, 100_000_000) == extent,
{
    assert(extent * 0 / 100_000_000 == 0) by (nonlinear_arith);
    if extent >= 1 {
        assert(extent * 100_000_000 / 100_000_000 == extent) by (nonlinear_arith);
    }
}

/// A drawing step for whoever owns the canvas.
#[derive(Debug, Clone)]
pub enum DrawOp {
    Nothing,
    FillRect { rect: Rect, color: [u8; 4] },
    StrokeRect { rect: Rect, color: [u8; 4] },
    Text { text: String, color: [u8; 4], size: u32, x: i32, y: i32 },
    /// A weather icon of the bundled atlas, `size` pixels square.
    Icon { index: usize, x: i32, y: i32, size: u32 },
    /// One frame of an image widget into `dst`, rotated about the box centre.
    Image { frame: usize, dst: Rect, rotation: i32 },
    /// The latest camera frame into `dst`.
    Webcam { dst: Rect },
}

/// Coordinates and sizes stay far from the `i32` limits.
pub open spec fn small(x: int) -> bool {
    -1_000_000 <= x <= 1_000_000
}

pub open spec fn rect_small(r: Rect) -> bool {
    small(r.left as int) && small(r.top as int) && small(r.right as int) && small(r.bottom as int)
}

pub open spec fn opt_small(o: Option<i32>) -> bool {
    match o {
        Some(v) => small(v as int),
        None => true,
    }
}

/// The geometry invariant of a text widget.
pub open spec fn text_geometry_ok(w: &TextWidget) -> bool {
    rect_small(w.position) && opt_small(w.width) && opt_small(w.height) && w.font_size <= 10_000
}

pub open spec fn is_progress_bar(w: &TextWidget) -> bool {
    w.widget_type@ != "weather"@ && w.widget_type@ != "uptime"@ && (w.tag1@ == "1"@ || w.tag1@ == "2"@)
}

pub open spec fn is_weather_icon(w: &TextWidget) -> bool {
    w.widget_type@ == "weather"@ && w.tag1@ == "6"@
}

pub open spec fn bar_width(w: &TextWidget) -> int {
    match w.width { Some(v) => v as int, None => w.font_size as int * 5 }
}

pub open spec fn bar_height(w: &TextWidget) -> int {
    match w.height { Some(v) => v as int, None => w.font_size as int }
}

/// The rectangle a progress bar fills: from the left for `tag1 == "1"`,
/// from the bottom up otherwise.
pub open spec fn bar_rect(w: &TextWidget, pct: nat) -> Rect {
    let width = bar_width(w);
    let height = bar_height(w);
    if w.tag1@ == "1"@ {
        let f = fill_spec(width, pct);
        Rect { left: w.position.left, top: w.position.top, right: (w.position.left + f) as i32, bottom: (w.position.top + height) as i32 }
    } else {
        let f = fill_spec(height, pct);
        Rect {
            left: w.position.left,
            top: (w.position.top + (height - f)) as i32,
            right: (w.position.left + width) as i32,
            bottom: (w.position.top + (height - f) + f) as i32,
        }
    }
}

pub open spec fn icon_index_spec(text: Seq<char>) -> usize {
    match parse_u16_spec(text) {
        Some(v) => v as usize,
        None => 0,
    }
}

/// How laying out a text widget changes it and what it draws (see `TextWidget::plan_draw`).
pub open spec fn text_plan(o: TextWidget, n: TextWidget, op: DrawOp, measured: (i32, i32)) -> bool {
    &&& is_weather_icon(&o) ==> n == o && op == (DrawOp::Icon {
        index: icon_index_spec(o.text@),
        x: (o.position.left + crate::rect::half(o.position.spec_width()) - crate::rect::half(o.font_size as int)) as i32,
        y: (o.position.top + crate::rect::half(o.position.spec_height()) - crate::rect::half(o.font_size as int)) as i32,
        size: o.font_size,
    })
    &&& !is_weather_icon(&o) && is_progress_bar(&o) ==> op == (DrawOp::FillRect {
        rect: bar_rect(&o, percent_spec(o.text@)),
        color: o.color,
    }) && n.font_size == (if o.font_size <= 2 { 2 } else { o.font_size }) && n.position == o.position
    &&& !is_weather_icon(&o) && !is_progress_bar(&o) ==> n.font_size == (if o.font_size <= 4 { 4 } else { o.font_size })
        && n.position == text_box(&o, measured)
        && match op {
            DrawOp::Text { text, color, size, x, y } => text@ == o.prefix@ + o.text@
                && color == o.color && size == n.font_size
                && Some(x as int) == text_x(&o, measured) && y == n.position.top,
            DrawOp::Nothing => text_x(&o, measured) is None,
            _ => false,
        }
    &&& n.text == o.text
    &&& n.prefix == o.prefix
    &&& n.widget_type == o.widget_type
}

/// A fixed box with a non-empty alignment aligns the text inside it.
pub open spec fn is_aligned(w: &TextWidget) -> bool {
    w.width is Some && match w.alignment { Some(a) => a@.len() > 0, None => false }
}

/// The box of a text widget after layout: a fixed, aligned box keeps its
/// top-left corner; otherwise the box takes the given (or measured) size
/// around its centre.
pub open spec fn text_box(w: &TextWidget, measured: (i32, i32)) -> Rect {
    let width = match w.width { Some(v) => v as int, None => measured.0 as int };
    let height = match w.height { Some(v) => v as int, None => measured.1 as int };
    let p = w.position;
    if is_aligned(w) {
        Rect { left: p.left, top: p.top, right: (p.left + width) as i32, bottom: (p.top + height) as i32 }
    } else {
        let cx = crate::rect::half(p.left + p.right);
        let cy = crate::rect::half(p.top + p.bottom);
        Rect {
            left: (cx - crate::rect::half(width)) as i32,
            top: (cy - crate::rect::half(height)) as i32,
            right: (cx + crate::rect::half(width)) as i32,
            bottom: (cy + crate::rect::half(height)) as i32,
        }
    }
}

/// Where the text starts: centred, left or right in an aligned box, at the
/// box's left edge otherwise; `None` for an alignment that is not known.
pub open spec fn text_x(w: &TextWidget, measured: (i32, i32)) -> Option<int> {
    let b = text_box(w, measured);
    if is_aligned(w) {
        let a = w.alignment->Some_0@;
        if a == "居中"@ {
            Some(b.left + crate::rect::half(b.spec_width()) - crate::rect::half(measured.0 as int))
        } else if a == "居左"@ {
            Some(b.left as int)
        } else if a == "居右"@ {
            Some(b.right - measured.0)
        } else {
            None
        }
    } else {
        Some(b.left as int)
    }
}

impl TextWidget {
    /// The text drawn for this widget: prefix then text.
    pub fn display_text(&self) -> (r: String)
        ensures
            r@ == self.prefix@ + self.text@,
    {
        let mut s = self.prefix.clone();
        s.append(self.text.as_str());
        s
    }

    /// Lays out the widget for drawing. `measured` is the size of
    /// `display_text()` in the widget's font. A weather icon draws an atlas
    /// entry; a progress bar fills a rectangle; other text is placed in a box
    /// that is either fixed and aligned, or sized to the text around its centre.
    #[verifier::rlimit(60)]
    pub fn plan_draw(&mut self, measured: (i32, i32)) -> (op: DrawOp)
        requires
            text_geometry_ok(old(self)),
            0 <= measured.0 <= 1_000_000,
            0 <= measured.1 <= 1_000_000,
        ensures
            text_plan(*old(self), *final(self), op, measured),
    {
        if str_eq(self.widget_type.as_str(), "weather") && str_eq(self.tag1.as_str(), "6") {
            let index = match parse_u16(self.text.as_str()) {
                Some(v) => v as usize,
                None => 0,
            };
            let (cx, cy) = self.position.center();
            let half = (self.font_size / 2) as i32;
            return DrawOp::Icon { index, x: cx - half, y: cy - half, size: self.font_size };
        }
        if !str_eq(self.widget_type.as_str(), "weather") && !str_eq(self.widget_type.as_str(), "uptime")
            && (str_eq(self.tag1.as_str(), "1") || str_eq(self.tag1.as_str(), "2")) {
            let pct = percent_value(self.text.as_str());
            let width = match self.width { Some(v) => v, None => self.font_size as i32 * 5 };
            let height = match self.height { Some(v) => v, None => self.font_size as i32 };
            if self.font_size <= 2 {
                self.font_size = 2;
            }
            let rect = if str_eq(self.tag1.as_str(), "1") {
                let f = progress_fill(width, pct);
                Rect::from(self.position.left, self.position.top, f, height)
            } else {
                let f = progress_fill(height, pct);
                Rect::from(self.position.left, self.position.top + (height - f), width, f)
            };
            return DrawOp::FillRect { rect, color: self.color };
        }
        if self.font_size <= 4 {
            self.font_size = 4;
        }
        let text = self.display_text();
        let width = match self.width { Some(v) => v, None => measured.0 };
        let height = match self.height { Some(v) => v, None => measured.1 };
        let aligned = match &self.alignment {
            Some(a) => self.width.is_some() && a.as_str().unicode_len() > 0,
            None => false,
        };
        if aligned {
            self.position.set_width_and_height(width, height);
            let a = match &self.alignment { Some(a) => a.as_str(), None => "" };
            if str_eq(a, "居中") {
                let (cx, _cy) = self.position.center();
                DrawOp::Text { text, color: self.color, size: self.font_size, x: cx - measured.0 / 2, y: self.position.top }
            } else if str_eq(a, "居左") {
                DrawOp::Text { text, color: self.color, size: self.font_size, x: self.position.left, y: self.position.top }
            } else if str_eq(a, "居右") {
                DrawOp::Text { text, color: self.color, size: self.font_size, x: self.position.right - measured.0, y: self.position.top }
            } else {
                DrawOp::Nothing
            }
        } else {
            self.position.set_size(width, height);
            DrawOp::Text { text, color: self.color, size: self.font_size, x: self.position.left, y: self.position.top }
        }
    }
}

pub const WHITE: [u8; 4] = [255, 255, 255, 255];

/// The geometry invariant of an image widget: small coordinates and at least one frame.
pub open spec fn image_ok(w: &ImageWidget) -> bool {
    rect_small(w.position) && w.position.left <= w.position.right && w.image_data.frames@.len() > 0
}

/// Saturates to the `i32` range.
pub open spec fn clamp_i32(x: int) -> i32 {
    if x > i32::MAX { i32::MAX } else if x < i32::MIN { i32::MIN } else { x as i32 }
}

/// The frame drawn in a pass: the current one, held to the last.
pub open spec fn current_frame(w: &ImageWidget) -> int {
    let n = w.image_data.frames@.len() as int;
    if w.frame_index >= n { n - 1 } else { w.frame_index as int }
}

/// How laying out an image widget changes it and what it draws (see `ImageWidget::plan_draw`):
/// only the frame index moves, by one frame per pass for an animation.
pub open spec fn image_plan(o: ImageWidget, n: ImageWidget, op: DrawOp, webcam: Option<(u32, u32)>) -> bool {
    &&& n == (ImageWidget { frame_index: n.frame_index, ..o })
    &&& o.color is Some ==> op == (DrawOp::FillRect { rect: o.position, color: o.color->Some_0 }) && n.frame_index == o.frame_index
    &&& o.color is None && o.widget_type@ == "webcam"@ ==> n.frame_index == o.frame_index && op == match webcam {
        Some((fw, fh)) => if fw > 0 {
            DrawOp::Webcam { dst: Rect {
                left: o.position.left,
                top: o.position.top,
                right: o.position.right,
                bottom: clamp_i32(o.position.top + (fh as int * o.position.spec_width()) / fw as int),
            } }
        } else {
            DrawOp::FillRect { rect: o.position, color: WHITE }
        },
        None => DrawOp::FillRect { rect: o.position, color: WHITE },
    }
    &&& o.color is None && o.widget_type@ != "webcam"@ ==> op == (DrawOp::Image {
        frame: current_frame(&o) as usize,
        dst: o.position,
        rotation: o.rotation,
    }) && n.frame_index == (if current_frame(&o) + 1 >= o.image_data.frames@.len() { 0 } else { current_frame(&o) + 1 })
}

impl ImageWidget {
    /// Lays out the widget and advances its animation by one frame. A solid
    /// colour fills the box; a webcam draws the latest frame (`webcam`, its
    /// size) scaled to the box width, or white while there is none.
    #[verifier::rlimit(60)]
    pub fn plan_draw(&mut self, webcam: Option<(u32, u32)>) -> (op: DrawOp)
        requires
            image_ok(old(self)),
        ensures
            image_plan(*old(self), *final(self), op, webcam),
    {
        if let Some(c) = self.color {
            return DrawOp::FillRect { rect: self.position, color: c };
        }
        if str_eq(self.widget_type.as_str(), "webcam") {
            match webcam {
                Some((fw, fh)) => {
                    if fw > 0 {
                        let width = self.position.width();
                        assert(0 <= fh as int * width as int <= 4294967295int * 2_000_000) by (nonlinear_arith)
                            requires
                                0 <= width <= 2_000_000,
                        ;
                        let h64 = (fh as i64 * width as i64) / fw as i64;
                        assert(0 <= h64 <= fh as int * width as int) by (nonlinear_arith)
                            requires
                                h64 == (fh as int * width as int) / fw as int,
                                fh as int * width as int >= 0,
                                fw >= 1,
                        ;
                        let bottom64 = self.position.top as i64 + h64;
                        let bottom: i32 = if bottom64 > i32::MAX as i64 { i32::MAX } else if bottom64 < i32::MIN as i64 { i32::MIN } else { bottom64 as i32 };
                        return DrawOp::Webcam { dst: Rect { left: self.position.left, top: self.position.top, right: self.position.right, bottom } };
                    }
                    return DrawOp::FillRect { rect: self.position, color: WHITE };
                },
                None => {
                    return DrawOp::FillRect { rect: self.position, color: WHITE };
                },
            }
        }
        let n = self.image_data.frames.len();
        if self.frame_index >= n {
            self.frame_index = n - 1;
        }
        let op = DrawOp::Image { frame: self.frame_index, dst: self.position, rotation: self.rotation };
        self.frame_index = self.frame_index + 1;
        if self.frame_index >= n {
            self.frame_index = 0;
        }
        op
    }
}

impl TextWidget {
    /// A new text widget at `(x, y)`; a non-empty label becomes the prefix `"label:"`.
    pub fn new_with_text(x: i32, y: i32, widget_type: &str, type_label: &str, text: &str, id: String) -> (r: TextWidget)
        requires
            x < i32::MAX,
            y < i32::MAX,
        ensures
            r.id == id,
            r.text@ == text@,
            r.widget_type@ == widget_type@,
            r.prefix@ == (if type_label@.len() > 0 { type_label@ + ":"@ } else { Seq::<char>::empty() }),
            r.position == (Rect { left: x, top: y, right: (x + 1) as i32, bottom: (y + 1) as i32 }),
            r.font_size == 14,
            r.color == WHITE,
            r.num_widget_index == 0 && r.num_widget == 1,
            r.tag1@.len() == 0 && r.tag2@.len() == 0,
            r.width is None && r.height is None && r.alignment is None && r.custom_script is None,
    {
        let prefix = if type_label.unicode_len() > 0 {
            let mut p = String::from_str(type_label);
            p.append(":");
            p
        } else {
            String::new()
        };
        TextWidget {
            id,
            text: String::from_str(text),
            prefix,
            color: WHITE,
            font_size: 14,
            position: Rect::new(x, y, x + 1, y + 1),
            widget_type: String::from_str(widget_type),
            num_widget_index: 0,
            num_widget: 1,
            tag1: String::new(),
            tag2: String::new(),
            width: None,
            height: None,
            alignment: None,
            custom_script: None,
        }
    }

    /// A new text widget with the default text.
    pub fn new(x: i32, y: i32, widget_type: &str, type_label: &str, id: String) -> (r: TextWidget)
        requires
            x < i32::MAX,
            y < i32::MAX,
        ensures
            r.id == id,
            r.widget_type@ == widget_type@,
            r.text@ == "文本"@,
    {
        TextWidget::new_with_text(x, y, widget_type, type_label, "文本", id)
    }
}

impl ImageWidget {
    /// A new image widget showing `image` centred on `(x, y)`.
    pub fn new(x: i32, y: i32, widget_type: &str, id: String, image: ImageData) -> (r: ImageWidget)
        requires
            -1_000_000 <= x <= 1_000_000,
            -1_000_000 <= y <= 1_000_000,
            image.width <= 1_000_000,
            image.height <= 1_000_000,
        ensures
            r.id == id,
            r.widget_type@ == widget_type@,
            r.position == (Rect {
                left: (x - image.width as int / 2) as i32,
                top: (y - image.height as int / 2) as i32,
                right: (x - image.width as int / 2 + image.width as int) as i32,
                bottom: (y - image.height as int / 2 + image.height as int) as i32,
            }),
            r.image_data == image,
            r.rotation == 0 && r.frame_index == 0 && r.color is None,
            r.tag1 is None && r.tag2 is None,
    {
        let w = image.width as i32;
        let h = image.height as i32;
        ImageWidget {
            id,
            position: Rect::from(x - w / 2, y - h / 2, w, h),
            image_data: image,
            rotation: 0,
            widget_type: String::from_str(widget_type),
            frame_index: 0,
            color: None,
            num_widget_index: 0,
            num_widget: 1,
            tag1: None,
            tag2: None,
        }
    }
}

/// The state of a widget's script run: whether one is running, and the latest result.
#[derive(Debug, Clone, Default)]
pub struct CustomScriptStatus {
    pub loading: bool,
    pub result: String,
}

/// Shown when a custom script could not be run.
pub const SCRIPT_FAILED: &'static str = "脚本运行失败";

pub open spec fn is_line_break(c: char) -> bool {
    c == '\r' || c == '\n'
}

/// The text a script run shows: its output on one line (line breaks removed),
/// or the failure message when it did not run.
pub open spec fn script_text_spec(output: Option<Seq<char>>) -> Seq<char> {
    match output {
        Some(o) => o.filter(|c: char| !is_line_break(c)),
        None => SCRIPT_FAILED@,
    }
}

/// Turns a script's output into the widget text (see `script_text_spec`).
pub fn script_output_text(output: Option<String>) -> (r: String)
    ensures
        r@ == script_text_spec(opt_view(output)),
{
    match output {
        None => String::from_str(SCRIPT_FAILED),
        Some(o) => {
            let s = o.as_str();
            let n = s.unicode_len();
            let mut r = String::new();
            let mut i: usize = 0;
            while i < n
                invariant
                    n == s@.len(),
                    i <= n,
                    r@ == s@.subrange(0, i as int).filter(|c: char| !is_line_break(c)),
                decreases n - i,
            {
                let c = s.get_char(i);
                proof {
                    assert(s@.subrange(0, i as int + 1).drop_last() =~= s@.subrange(0, i as int));
                    assert(s@.subrange(0, i as int + 1).last() == c);
                    reveal(Seq::filter);
                }
                if !(c == '\r' || c == '\n') {
                    let piece = s.substring_char(i, i + 1);
                    assert(piece@ =~= seq![c]) by {
                        assert(s@.subrange(i as int, i as int + 1)[0] == c);
                    }
                    r.append(piece);
                }
                i = i + 1;
            }
            assert(s@.subrange(0, n as int) =~= s@);
            r
        },
    }
}

/// The integer part a run of digits gives when read from the left, held at
/// `PERCENT_INT_CAP` as `scan_percent` holds it.
pub open spec fn digits_fold(acc: nat, s: Seq<char>) -> nat
    decreases s.len(),
{
    if s.len() == 0 {
        acc
    } else {
        let v = acc * 10 + (s[0] as u32 - '0' as u32) as nat;
        digits_fold(if v > PERCENT_INT_CAP { PERCENT_INT_CAP as nat } else { v }, s.skip(1))
    }
}

proof fn lemma_scan_digits(s: Seq<char>, i: int, acc: nat, any: bool)
    requires
        0 <= i <= s.len(),
        forall|k: int| i <= k < s.len() ==> is_digit(#[trigger] s[k]),
    ensures
        scan_percent(s, i, acc, 0, 100_000, false, any)
            == (if any || i < s.len() { Some(digits_fold(acc, s.skip(i)) * 1_000_000) } else { None::<nat> }),
    decreases s.len() - i,
{
    if i < s.len() {
        let d = (s[i] as u32 - '0' as u32) as nat;
        let v = acc * 10 + d;
        let next = if v > PERCENT_INT_CAP { PERCENT_INT_CAP as nat } else { v };
        lemma_scan_digits(s, i + 1, next, true);
        assert(s.skip(i).skip(1) =~= s.skip(i + 1));
        assert(s.skip(i)[0] == s[i]);
    } else {
        assert(s.skip(i).len() == 0);
    }
}

proof fn lemma_digits_fold_append(acc: nat, a: Seq<char>, b: Seq<char>)
    ensures
        digits_fold(acc, a + b) == digits_fold(digits_fold(acc, a), b),
    decreases a.len(),
{
    if a.len() > 0 {
        let v = acc * 10 + (a[0] as u32 - '0' as u32) as nat;
        let next = if v > PERCENT_INT_CAP { PERCENT_INT_CAP as nat } else { v };
        lemma_digits_fold_append(next, a.skip(1), b);
        assert((a + b).skip(1) =~= a.skip(1) + b);
        assert((a + b)[0] == a[0]);
    } else {
        assert(a + b =~= b);
    }
}

proof fn lemma_digit_value(d: nat)
    requires
        d < 10,
    ensures
        (digit_char(d) as u32 - '0' as u32) as nat == d,
        is_digit(digit_char(d)),
{
}

proof fn lemma_dec_seq_digits(n: nat)
    ensures
        forall|k: int| 0 <= k < dec_seq(n).len() ==> is_digit(#[trigger] dec_seq(n)[k]),
        dec_seq(n).len() >= 1,
        n <= PERCENT_INT_CAP ==> digits_fold(0, dec_seq(n)) == n,
    decreases n,
{
    reveal_with_fuel(digits_fold, 2);
    if n < 10 {
        lemma_digit_value(n);
        assert(dec_seq(n) == seq![digit_char(n)]);
        assert(dec_seq(n).skip(1).len() == 0);
    } else {
        lemma_digit_value(n % 10);
        lemma_dec_seq_digits(n / 10);
        let a = dec_seq(n / 10);
        let b = seq![digit_char(n % 10)];
        assert(dec_seq(n) == a + b);
        assert forall|k: int| 0 <= k < dec_seq(n).len() implies is_digit(#[trigger] dec_seq(n)[k]) by {
            if k < a.len() {
                assert(dec_seq(n)[k] == a[k]);
            }
        }
        if n <= PERCENT_INT_CAP {
            lemma_digits_fold_append(0, a, b);
            assert(b.skip(1).len() == 0);
            assert((n / 10) * 10 + n % 10 == n);
            assert(digits_fold(n / 10, b) == n);
        }
    }
}

proof fn lemma_filter_keeps_digits(s: Seq<char>)
    requires
        forall|k: int| 0 <= k < s.len() ==> is_digit(#[trigger] s[k]),
    ensures
        s.filter(|c: char| c != '%') == s,
    decreases s.len(),
{
    reveal(Seq::filter);
    if s.len() > 0 {
        lemma_filter_keeps_digits(s.drop_last());
        assert(s.drop_last().push(s.last()) =~= s);
    }
}

proof fn lemma_remove_degc_digits(s: Seq<char>)
    requires
        forall|k: int| 0 <= k < s.len() ==> is_digit(#[trigger] s[k]),
    ensures
        remove_degc(s) == s,
    decreases s.len(),
{
    if s.len() > 0 {
        assert(s[0] != '°');
        lemma_remove_degc_digits(s.skip(1));
        assert(seq![s[0]] + s.skip(1) =~= s);
    }
}

/// A whole percentage written as digits and `%` (as in `"0%"` or `"100%"`)
/// reads as exactly that percentage, so a progress bar showing it fills
/// `fill_spec(extent, n * PERCENT_UNIT)` pixels.
pub proof fn lemma_whole_percent_text(n: nat)
    requires
        n <= PERCENT_INT_CAP,
    ensures
        percent_spec(dec_seq(n) + "%"@) == n * 1_000_000,
{
    reveal_strlit("%");
    lemma_dec_seq_digits(n);
    let d = dec_seq(n);
    let t = d + "%"@;
    reveal(Seq::filter);
    assert(t.drop_last() =~= d);
    assert(t.last() == '%');
    lemma_filter_keeps_digits(d);
    assert(t.filter(|c: char| c != '%') == d);
    lemma_remove_degc_digits(d);
    assert(strip_units(t) == d);
    assert(is_digit(d[0]));
    lemma_scan_digits(d, 0, 0, false);
    assert(d.skip(0) =~= d);
}

/// A progress bar whose text is `0%` fills one pixel; one whose text is
/// `100%` fills its whole extent.
pub proof fn lemma_progress_text_ends(extent: int)
    requires
        1 <= extent <= FILL_MAX,
    ensures
        fill_spec(extent, percent_spec(dec_seq(0) + "%"@)) == 1,
        fill_spec(extent, percent_spec(dec_seq(100) + "%"@)) == extent,
{
    lemma_whole_percent_text(0);
    lemma_whole_percent_text(100);
    lemma_progress_fill_ends(extent);
    assert(extent * 0 / 100_000_000 == 0) by (nonlinear_arith);
}

} // verus!
