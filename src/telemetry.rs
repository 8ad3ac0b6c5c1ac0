//! The telemetry cache: watch flags that gate the collectors, the latest
//! samples they publish, and the accessors that turn samples into widget text.
//!
//! Samples are plain integers: percentages, temperatures and powers in tenths,
//! clocks in MHz, fan speeds in RPM, sizes and rates in bytes.
use std::collections::HashMap;
use vstd::prelude::*;
use crate::text::{dec_seq, decimal_string, hundredths_seq, hundredths_string, tenths_seq, tenths_string, short_tenths_seq, short_tenths_string};

verus! {

broadcast use vstd::std_specs::hash::group_hash_axioms;

/// The text shown while a metric has not been sampled yet.
pub const EMPTY_STRING: &'static str = "N/A";

pub open spec fn na() -> Seq<char> {
    EMPTY_STRING@
}

/// Time since boot, split into whole days, hours, minutes and seconds.
#[derive(Debug, Clone, Copy, Default, PartialEq, Eq, Structural)]
pub struct SystemUptime {
    pub days: u32,
    pub hours: u32,
    pub minutes: u32,
    pub seconds: u32,
}

/// The public address of this machine and where it is.
#[derive(Debug, Clone)]
pub struct NetIpInfo {
    pub country: String,
    pub region_name: String,
    pub city: String,
    pub query: String,
}

/// The camera a webcam widget asks for, and the largest frame it can show.
#[derive(Debug, Clone, Copy, PartialEq, Eq, Structural)]
pub struct WebcamInfo {
    pub index: u32,
    pub fps: u32,
    pub width: u32,
    pub height: u32,
}

/// A weather station of the weather service.
#[derive(Debug, Clone)]
pub struct City {
    pub code: String,
    pub province: String,
    pub city: String,
    pub url: String,
}

/// A province of the weather service.
#[derive(Debug, Clone)]
pub struct Province {
    pub code: String,
    pub name: String,
    pub url: String,
}

/// The latest weather report of the watched station.
#[derive(Debug, Clone)]
pub struct WeatherReport {
    pub city: String,
    /// Tenths of a degree Celsius.
    pub temperature: i32,
    pub info: String,
    /// Index of the weather icon, as the service writes it.
    pub img: String,
    pub wind_direct: String,
    pub wind_power: String,
    /// Tenths of the wind scale.
    pub wind_speed: u32,
}

/// Usage of one mounted volume.
#[derive(Debug, Clone)]
pub struct DiskSample {
    pub mount_point: String,
    pub total: u64,
    pub available: u64,
}

/// One decoded camera frame, packed RGB888.
#[derive(Debug, Clone)]
pub struct WebcamFrame {
    pub width: u32,
    pub height: u32,
    pub data: Vec<u8>,
}

/// Sensor readings of one CPU or GPU, as a hardware monitor reports them.
#[derive(Debug, Clone)]
pub struct HardwareInfo {
    pub fans: Vec<u32>,
    pub temperatures: Vec<u32>,
    pub loads: Vec<u32>,
    pub clocks: Vec<u32>,
    pub package_power: u32,
    pub cores_power: u32,
    pub total_load: u32,
    pub total_temperature: u32,
    pub memory_load: u32,
    pub memory_total: u32,
}

/// The shared telemetry cache. Each collector writes only its own family of
/// fields; readers copy values out.
pub struct SystemInfo {
    pub update_delay: u64,
    pub watch_memory: bool,
    pub watch_disk: bool,
    pub watch_disk_speed: bool,
    pub watch_cpu: bool,
    pub watch_cpu_clock_speed: bool,
    pub watch_cpu_temperatures: bool,
    pub watch_cpu_power: bool,
    pub watch_cpu_fan: bool,
    pub watch_gpu_clock_speed: bool,
    pub watch_gpu_temperatures: bool,
    pub watch_gpu_fan: bool,
    pub watch_gpu_load: bool,
    pub watch_process: bool,
    pub watch_weather: Option<City>,
    pub watch_network_speed: bool,
    pub watch_net_ip: bool,
    pub webcam_info: Option<WebcamInfo>,
    /// Used and total memory in bytes.
    pub memory: Option<(u64, u64)>,
    /// Used and total swap in bytes.
    pub swap: Option<(u64, u64)>,
    pub num_cpus: Option<u64>,
    pub cpu_brand: String,
    /// Usage of each core sampled so far, by core index.
    pub cpu_usage_percpu: HashMap<usize, u32>,
    pub cpu_usage: Option<u32>,
    pub cpu_clock_speed: Vec<u32>,
    pub cpu_temperatures: Vec<u32>,
    pub cpu_temperature_total: u32,
    pub cpu_package_power: u32,
    pub cpu_cores_power: u32,
    pub cpu_fans: Vec<u32>,
    pub gpu_clocks: Vec<Vec<u32>>,
    pub gpu_temperatures: Vec<Vec<u32>>,
    pub gpu_temperature_total: Vec<u32>,
    pub gpu_package_power: u32,
    pub gpu_cores_power: u32,
    pub gpu_fans: Vec<Vec<u32>>,
    pub gpu_load: Vec<Vec<u32>>,
    pub gpu_memory_load: Vec<u32>,
    pub gpu_memory_total: Vec<u32>,
    pub gpu_load_total: Vec<u32>,
    pub num_process: Option<u64>,
    /// Each volume sampled so far, by its index in the volume list.
    pub disk_usage: HashMap<usize, DiskSample>,
    /// Disk read and write rates in bytes per second.
    pub disk_speed_per_sec: Option<(u64, u64)>,
    /// Network receive and transmit rates in bytes per second.
    pub network_speed_per_sec: Option<(u64, u64)>,
    pub system_name: String,
    pub kernel_version: String,
    pub os_version: String,
    pub host_name: String,
    pub local_ip: String,
    pub net_ip: Option<NetIpInfo>,
    pub weather_info: Option<WeatherReport>,
    pub webcam_frame: Option<WebcamFrame>,
}

/// Whole tenths of a gigabyte in `bytes`, rounded half up, as the cache shows sizes.
pub open spec fn gb_tenths(bytes: nat) -> nat {
    ((bytes / 1024) * 10 + 524288) / 1048576
}

pub open spec fn bytes_to_gb_seq(bytes: nat) -> Seq<char> {
    tenths_seq(gb_tenths(bytes))
}

/// `used` as a whole percentage of `total`, zero for an empty total.
pub open spec fn percent_of(used: nat, total: nat) -> nat {
    if total == 0 { 0 } else { (used * 100) / total }
}

/// A clock in MHz as GHz with two decimals.
pub open spec fn ghz_seq(mhz: nat) -> Seq<char> {
    hundredths_seq((mhz + 5) / 10) + " GHz"@
}

/// A per-second byte rate: KB/s below one megabyte, MB/s from there on.
pub open spec fn net_rate_seq(b: nat) -> Seq<char> {
    if b < 1048576 {
        tenths_seq((b * 10 + 512) / 1024) + "KB/s"@
    } else {
        tenths_seq((b * 10 + 524288) / 1048576) + "MB/s"@
    }
}

/// A per-second byte rate in MB/s.
pub open spec fn disk_rate_seq(b: nat) -> Seq<char> {
    tenths_seq((b * 10 + 524288) / 1048576) + " MB/s"@
}

pub open spec fn usage_pair_seq(pair: Option<(u64, u64)>) -> Seq<char> {
    match pair {
        None => na(),
        Some(p) => bytes_to_gb_seq(p.0 as nat) + "/"@ + bytes_to_gb_seq(p.1 as nat) + "GB"@,
    }
}

pub open spec fn percent_pair_seq(pair: Option<(u64, u64)>) -> Seq<char> {
    match pair {
        None => na(),
        Some(p) => dec_seq(percent_of(p.0 as nat, p.1 as nat)) + "%"@,
    }
}

pub open spec fn count_seq(n: Option<u64>) -> Seq<char> {
    match n {
        None => na(),
        Some(v) => dec_seq(v as nat),
    }
}

/// The largest element of a non-empty sequence.
pub open spec fn seq_max(s: Seq<u32>) -> u32
    decreases s.len(),
{
    if s.len() <= 1 {
        s[0]
    } else {
        let m = seq_max(s.drop_last());
        if s.last() > m { s.last() } else { m }
    }
}

/// The value `gpu_load` shows for a GPU: its total load, or the first core
/// load when no total is known; a zero total falls back to the first GPU's first core.
pub open spec fn gpu_load_value(info: &SystemInfo, index: int) -> Option<u32> {
    if !(0 <= index < info.gpu_load_total@.len()) {
        if 0 <= index < info.gpu_load@.len() {
            if info.gpu_load@[index]@.len() > 0 { Some(info.gpu_load@[index]@[0]) } else { Some(0u32) }
        } else {
            None
        }
    } else {
        let t = info.gpu_load_total@[index];
        if t == 0 && info.gpu_load@.len() > 0 && info.gpu_load@[0]@.len() > 0 {
            Some(info.gpu_load@[0]@[0])
        } else {
            Some(t)
        }
    }
}

pub open spec fn disk_usage_seq(d: DiskSample) -> Seq<char> {
    "("@ + d.mount_point@ + ") "@ + bytes_to_gb_seq(if d.total >= d.available { (d.total - d.available) as nat } else { 0 }) + "/"@
        + bytes_to_gb_seq(d.total as nat) + "GB"@
}

/// Everything about a fresh cache: nothing watched, nothing sampled.
pub open spec fn is_fresh(info: &SystemInfo) -> bool {
    &&& info.update_delay == 1000
    &&& !info.watch_memory && !info.watch_disk && !info.watch_disk_speed && !info.watch_cpu
    &&& !info.watch_cpu_clock_speed && !info.watch_cpu_temperatures && !info.watch_cpu_power
    &&& !info.watch_cpu_fan && !info.watch_gpu_clock_speed && !info.watch_gpu_temperatures
    &&& !info.watch_gpu_fan && !info.watch_gpu_load && !info.watch_process
    &&& info.watch_weather is None && !info.watch_network_speed && !info.watch_net_ip
    &&& info.webcam_info is None
    &&& info.memory is None && info.swap is None && info.num_cpus is None
    &&& info.cpu_brand@ == na() && info.cpu_usage_percpu@ == Map::<usize, u32>::empty() && info.cpu_usage is None
    &&& info.cpu_clock_speed@.len() == 0 && info.cpu_fans@.len() == 0
    &&& info.gpu_clocks@.len() == 0 && info.gpu_load@.len() == 0 && info.gpu_fans@.len() == 0
    &&& info.gpu_load_total@.len() == 0 && info.gpu_temperatures@.len() == 0
    &&& info.gpu_memory_load@.len() == 0 && info.gpu_memory_total@.len() == 0
    &&& info.num_process is None && info.disk_usage@ == Map::<usize, DiskSample>::empty()
    &&& info.disk_speed_per_sec is None && info.network_speed_per_sec is None
    &&& info.system_name@ == na() && info.local_ip@ == na()
    &&& info.net_ip is None && info.weather_info is None && info.webcam_frame is None
}

fn na_string() -> (r: String)
    ensures
        r@ == na(),
{
    String::from_str(EMPTY_STRING)
}

impl SystemInfo {
    /// An empty cache. The OS strings start as given (the caller reads them once at start-up).
    pub fn new(kernel_version: String, os_version: String, host_name: String) -> (r: SystemInfo)
        ensures
            is_fresh(&r),
            r.kernel_version == kernel_version,
            r.os_version == os_version,
            r.host_name == host_name,
    {
        SystemInfo {
            update_delay: 1000,
            watch_memory: false,
            watch_disk: false,
            watch_disk_speed: false,
            watch_cpu: false,
            watch_cpu_clock_speed: false,
            watch_cpu_temperatures: false,
            watch_cpu_power: false,
            watch_cpu_fan: false,
            watch_gpu_clock_speed: false,
            watch_gpu_temperatures: false,
            watch_gpu_fan: false,
            watch_gpu_load: false,
            watch_process: false,
            watch_weather: None,
            watch_network_speed: false,
            watch_net_ip: false,
            webcam_info: None,
            memory: None,
            swap: None,
            num_cpus: None,
            cpu_brand: na_string(),
            cpu_usage_percpu: HashMap::new(),
            cpu_usage: None,
            cpu_clock_speed: Vec::new(),
            cpu_temperatures: Vec::new(),
            cpu_temperature_total: 0,
            cpu_package_power: 0,
            cpu_cores_power: 0,
            cpu_fans: Vec::new(),
            gpu_clocks: Vec::new(),
            gpu_temperatures: Vec::new(),
            gpu_temperature_total: Vec::new(),
            gpu_package_power: 0,
            gpu_cores_power: 0,
            gpu_fans: Vec::new(),
            gpu_load: Vec::new(),
            gpu_memory_load: Vec::new(),
            gpu_memory_total: Vec::new(),
            gpu_load_total: Vec::new(),
            num_process: None,
            disk_usage: HashMap::new(),
            disk_speed_per_sec: None,
            network_speed_per_sec: None,
            system_name: na_string(),
            kernel_version,
            os_version,
            host_name,
            local_ip: na_string(),
            net_ip: None,
            weather_info: None,
            webcam_frame: None,
        }
    }
}

/// Whole tenths of a gigabyte in `bytes`, written with one decimal.
pub fn bytes_to_gb(bytes: u64) -> (r: String)
    ensures
        r@ == bytes_to_gb_seq(bytes as nat),
{
    let kb = bytes / 1024;
    tenths_string((kb * 10 + 524288) / 1048576)
}

fn percent_string(used: u64, total: u64) -> (r: String)
    ensures
        r@ == dec_seq(percent_of(used as nat, total as nat)) + "%"@,
{
    let p: u128 = if total == 0 { 0 } else { (used as u128 * 100) / total as u128 };
    let mut s = decimal_string(p);
    s.append("%");
    s
}

/// Sets how often the fast collectors sample, in milliseconds.
pub fn set_update_delay(info: &mut SystemInfo, update_delay: u64)
    ensures
        *final(info) == (SystemInfo { update_delay: update_delay, ..*old(info) }),
{
    info.update_delay = update_delay;
}

/// Turns the cpu collector on or off; only that flag changes.
pub fn watch_cpu(info: &mut SystemInfo, watch_cpu: bool)
    ensures
        *final(info) == (SystemInfo { watch_cpu: watch_cpu, ..*old(info) }),
{
    info.watch_cpu = watch_cpu;
}

/// Turns the cpu clock speed collector on or off; only that flag changes.
pub fn watch_cpu_clock_speed(info: &mut SystemInfo, watch_cpu_clock_speed: bool)
    ensures
        *final(info) == (SystemInfo { watch_cpu_clock_speed: watch_cpu_clock_speed, ..*old(info) }),
{
    info.watch_cpu_clock_speed = watch_cpu_clock_speed;
}

/// Turns the cpu temperatures collector on or off; only that flag changes.
pub fn watch_cpu_temperatures(info: &mut SystemInfo, val: bool)
    ensures
        *final(info) == (SystemInfo { watch_cpu_temperatures: val, ..*old(info) }),
{
    info.watch_cpu_temperatures = val;
}

/// Turns the cpu power collector on or off; only that flag changes.
pub fn watch_cpu_power(info: &mut SystemInfo, val: bool)
    ensures
        *final(info) == (SystemInfo { watch_cpu_power: val, ..*old(info) }),
{
    info.watch_cpu_power = val;
}

/// Turns the cpu fan collector on or off; only that flag changes.
pub fn watch_cpu_fan(info: &mut SystemInfo, val: bool)
    ensures
        *final(info) == (SystemInfo { watch_cpu_fan: val, ..*old(info) }),
{
    info.watch_cpu_fan = val;
}

/// Turns the gpu fan collector on or off; only that flag changes.
pub fn watch_gpu_fan(info: &mut SystemInfo, val: bool)
    ensures
        *final(info) == (SystemInfo { watch_gpu_fan: val, ..*old(info) }),
{
    info.watch_gpu_fan = val;
}

/// Turns the gpu temperatures collector on or off; only that flag changes.
pub fn watch_gpu_temperatures(info: &mut SystemInfo, val: bool)
    ensures
        *final(info) == (SystemInfo { watch_gpu_temperatures: val, ..*old(info) }),
{
    info.watch_gpu_temperatures = val;
}

/// Turns the gpu clock speed collector on or off; only that flag changes.
pub fn watch_gpu_clock_speed(info: &mut SystemInfo, val: bool)
    ensures
        *final(info) == (SystemInfo { watch_gpu_clock_speed: val, ..*old(info) }),
{
    info.watch_gpu_clock_speed = val;
}

/// Turns the gpu load collector on or off; only that flag changes.
pub fn watch_gpu_load(info: &mut SystemInfo, val: bool)
    ensures
        *final(info) == (SystemInfo { watch_gpu_load: val, ..*old(info) }),
{
    info.watch_gpu_load = val;
}

/// Turns the memory collector on or off; only that flag changes.
pub fn watch_memory(info: &mut SystemInfo, watch_memory: bool)
    ensures
        *final(info) == (SystemInfo { watch_memory: watch_memory, ..*old(info) }),
{
    info.watch_memory = watch_memory;
}

/// Turns the disk collector on or off; only that flag changes.
pub fn watch_disk(info: &mut SystemInfo, watch_disk: bool)
    ensures
        *final(info) == (SystemInfo { watch_disk: watch_disk, ..*old(info) }),
{
    info.watch_disk = watch_disk;
}

/// Turns the disk speed collector on or off; only that flag changes.
pub fn watch_disk_speed(info: &mut SystemInfo, watch_disk_speed: bool)
    ensures
        *final(info) == (SystemInfo { watch_disk_speed: watch_disk_speed, ..*old(info) }),
{
    info.watch_disk_speed = watch_disk_speed;
}

/// Turns the network speed collector on or off; only that flag changes.
pub fn watch_network_speed(info: &mut SystemInfo, watch_network_speed: bool)
    ensures
        *final(info) == (SystemInfo { watch_network_speed: watch_network_speed, ..*old(info) }),
{
    info.watch_network_speed = watch_network_speed;
}

/// Turns the process collector on or off; only that flag changes.
pub fn watch_process(info: &mut SystemInfo, watch_process: bool)
    ensures
        *final(info) == (SystemInfo { watch_process: watch_process, ..*old(info) }),
{
    info.watch_process = watch_process;
}

/// Sets (or clears) the weather station to follow.
pub fn watch_weather(info: &mut SystemInfo, watch_weather: Option<City>)
    ensures
        *final(info) == (SystemInfo { watch_weather: watch_weather, ..*old(info) }),
{
    info.watch_weather = watch_weather;
}

/// Turns the net ip collector on or off; only that flag changes.
pub fn watch_net_ip(info: &mut SystemInfo, v: bool)
    ensures
        *final(info) == (SystemInfo { watch_net_ip: v, ..*old(info) }),
{
    info.watch_net_ip = v;
}

/// Sets (or clears) the camera to stream.
pub fn watch_webcam(info: &mut SystemInfo, webcam_info: Option<WebcamInfo>)
    ensures
        *final(info) == (SystemInfo { webcam_info: webcam_info, ..*old(info) }),
{
    info.webcam_info = webcam_info;
}

pub fn num_cpus(info: &SystemInfo) -> (r: Option<String>)
    ensures
        r is Some && r->Some_0@ == count_seq(info.num_cpus),
{
    match info.num_cpus {
        None => Some(na_string()),
        Some(n) => Some(decimal_string(n as u128)),
    }
}

pub fn cpu_brand(info: &SystemInfo) -> (r: Option<String>)
    ensures
        r == Some(info.cpu_brand),
{
    Some(info.cpu_brand.clone())
}

/// Used and total memory, `"<used>/<total>GB"`.
pub fn memory_info(info: &SystemInfo) -> (r: Option<String>)
    ensures
        r is Some && r->Some_0@ == usage_pair_seq(info.memory),
{
    Some(usage_pair_string(info.memory))
}

fn usage_pair_string(pair: Option<(u64, u64)>) -> (r: String)
    ensures
        r@ == usage_pair_seq(pair),
{
    match pair {
        None => na_string(),
        Some((used, total)) => {
            let mut s = bytes_to_gb(used);
            s.append("/");
            let t = bytes_to_gb(total);
            s.append(t.as_str());
            s.append("GB");
            s
        },
    }
}

/// Total memory, `"<total>G"`.
pub fn memory_total(info: &SystemInfo) -> (r: Option<String>)
    ensures
        r is Some,
        info.memory is None ==> r->Some_0@ == na(),
        info.memory is Some ==> r->Some_0@ == bytes_to_gb_seq(info.memory->Some_0.1 as nat) + "G"@,
{
    match info.memory {
        None => Some(na_string()),
        Some((_used, total)) => {
            let mut s = bytes_to_gb(total);
            s.append("G");
            Some(s)
        },
    }
}

pub fn memory_percent(info: &SystemInfo) -> (r: Option<String>)
    ensures
        r is Some && r->Some_0@ == percent_pair_seq(info.memory),
{
    match info.memory {
        None => Some(na_string()),
        Some((used, total)) => Some(percent_string(used, total)),
    }
}

pub fn swap_percent(info: &SystemInfo) -> (r: Option<String>)
    ensures
        r is Some && r->Some_0@ == percent_pair_seq(info.swap),
{
    match info.swap {
        None => Some(na_string()),
        Some((used, total)) => Some(percent_string(used, total)),
    }
}

pub fn swap_info(info: &SystemInfo) -> (r: Option<String>)
    ensures
        r is Some && r->Some_0@ == usage_pair_seq(info.swap),
{
    Some(usage_pair_string(info.swap))
}

fn tenths_suffixed(t: u32, suffix: &str) -> (r: String)
    ensures
        r@ == tenths_seq(t as nat) + suffix@,
{
    let mut s = tenths_string(t as u64);
    s.append(suffix);
    s
}

/// Usage of one core, `"12.5%"`; `None` for a core never sampled.
pub fn cpu_usage_percpu(info: &SystemInfo, index: usize) -> (r: Option<String>)
    ensures
        info.cpu_usage_percpu@.contains_key(index) ==> r is Some
            && r->Some_0@ == tenths_seq(info.cpu_usage_percpu@[index] as nat) + "%"@,
        !info.cpu_usage_percpu@.contains_key(index) ==> r is None,
{
    match info.cpu_usage_percpu.get(&index) {
        Some(v) => Some(tenths_suffixed(*v, "%")),
        None => None,
    }
}

/// Usage of all cores together, `"12.5%"`.
pub fn cpu_usage(info: &SystemInfo) -> (r: Option<String>)
    ensures
        r is Some,
        info.cpu_usage is None ==> r->Some_0@ == na(),
        info.cpu_usage is Some ==> r->Some_0@ == tenths_seq(info.cpu_usage->Some_0 as nat) + "%"@,
{
    match info.cpu_usage {
        None => Some(na_string()),
        Some(t) => Some(tenths_suffixed(t, "%")),
    }
}

fn ghz_string(mhz: u32) -> (r: String)
    ensures
        r@ == ghz_seq(mhz as nat),
{
    let mut s = hundredths_string((mhz as u64 + 5) / 10);
    s.append(" GHz");
    s
}

fn max_of(v: &Vec<u32>) -> (r: Option<u32>)
    ensures
        v@.len() == 0 <==> r is None,
        r is Some ==> r->Some_0 == seq_max(v@),
{
    if v.len() == 0 {
        return None;
    }
    let mut m = v[0];
    let mut i: usize = 1;
    assert(v@.subrange(0, 1).len() == 1);
    while i < v.len()
        invariant
            1 <= i <= v@.len(),
            m == seq_max(v@.subrange(0, i as int)),
        decreases v@.len() - i,
    {
        assert(v@.subrange(0, i as int + 1).drop_last() =~= v@.subrange(0, i as int));
        assert(v@.subrange(0, i as int + 1).last() == v@[i as int]);
        if v[i] > m {
            m = v[i];
        }
        i = i + 1;
    }
    assert(v@.subrange(0, v@.len() as int) =~= v@);
    Some(m)
}

/// The clock of one core, or with no index the fastest core, as `"3.40 GHz"`.
pub fn cpu_clock_speed(info: &SystemInfo, index: Option<usize>) -> (r: Option<String>)
    ensures
        match index {
            Some(idx) => if idx < info.cpu_clock_speed@.len() {
                r is Some && r->Some_0@ == ghz_seq(info.cpu_clock_speed@[idx as int] as nat)
            } else {
                r is None
            },
            None => if info.cpu_clock_speed@.len() == 0 {
                r is None
            } else {
                r is Some && r->Some_0@ == ghz_seq(seq_max(info.cpu_clock_speed@) as nat)
            },
        },
{
    match index {
        Some(idx) => {
            if idx < info.cpu_clock_speed.len() {
                Some(ghz_string(info.cpu_clock_speed[idx]))
            } else {
                None
            }
        },
        None => match max_of(&info.cpu_clock_speed) {
            None => None,
            Some(m) => Some(ghz_string(m)),
        },
    }
}

pub fn cpu_temperature(info: &SystemInfo) -> (r: Option<String>)
    ensures
        r is Some && r->Some_0@ == tenths_seq(info.cpu_temperature_total as nat) + "°C"@,
{
    Some(tenths_suffixed(info.cpu_temperature_total, "°C"))
}

pub fn cpu_cores_power(info: &SystemInfo) -> (r: Option<String>)
    ensures
        r is Some && r->Some_0@ == tenths_seq(info.cpu_cores_power as nat) + "W"@,
{
    Some(tenths_suffixed(info.cpu_cores_power, "W"))
}

pub fn cpu_package_power(info: &SystemInfo) -> (r: Option<String>)
    ensures
        r is Some && r->Some_0@ == tenths_seq(info.cpu_package_power as nat) + "W"@,
{
    Some(tenths_suffixed(info.cpu_package_power, "W"))
}

fn rpm_string(rpm: u32) -> (r: String)
    ensures
        r@ == dec_seq(rpm as nat) + "RPM"@,
{
    let mut s = decimal_string(rpm as u128);
    s.append("RPM");
    s
}

/// The first CPU fan, `"1200RPM"`; `None` when no fan is known.
pub fn cpu_fan(info: &SystemInfo) -> (r: Option<String>)
    ensures
        info.cpu_fans@.len() == 0 ==> r is None,
        info.cpu_fans@.len() > 0 ==> r is Some && r->Some_0@ == dec_seq(info.cpu_fans@[0] as nat) + "RPM"@,
{
    if info.cpu_fans.len() == 0 {
        return None;
    }
    Some(rpm_string(info.cpu_fans[0]))
}

/// The load of one GPU, `"37.5%"` (see `gpu_load_value`).
pub fn gpu_load(info: &SystemInfo, index: usize) -> (r: Option<String>)
    ensures
        gpu_load_value(info, index as int) is None ==> r is None,
        gpu_load_value(info, index as int) is Some ==> r is Some
            && r->Some_0@ == short_tenths_seq(gpu_load_value(info, index as int)->Some_0 as nat) + "%"@,
{
    let value: Option<u32> = if index >= info.gpu_load_total.len() {
        if index < info.gpu_load.len() {
            if info.gpu_load[index].len() > 0 { Some(info.gpu_load[index][0]) } else { Some(0u32) }
        } else {
            None
        }
    } else {
        let t = info.gpu_load_total[index];
        if t == 0 && info.gpu_load.len() > 0 && info.gpu_load[0].len() > 0 {
            Some(info.gpu_load[0][0])
        } else {
            Some(t)
        }
    };
    match value {
        None => None,
        Some(v) => {
            let mut s = short_tenths_string(v as u64);
            s.append("%");
            Some(s)
        },
    }
}

pub fn gpu_memory_load(info: &SystemInfo, index: usize) -> (r: Option<String>)
    ensures
        index < info.gpu_memory_load@.len() ==> r is Some
            && r->Some_0@ == tenths_seq(info.gpu_memory_load@[index as int] as nat) + "%"@,
        index >= info.gpu_memory_load@.len() ==> r is None,
{
    if index < info.gpu_memory_load.len() {
        Some(tenths_suffixed(info.gpu_memory_load[index], "%"))
    } else {
        None
    }
}

/// Total memory of one GPU in MB.
pub fn gpu_memory_total_mb(info: &SystemInfo, index: usize) -> (r: Option<String>)
    ensures
        index < info.gpu_memory_total@.len() ==> r is Some
            && r->Some_0@ == dec_seq(info.gpu_memory_total@[index as int] as nat),
        index >= info.gpu_memory_total@.len() ==> r is None,
{
    if index < info.gpu_memory_total.len() {
        Some(decimal_string(info.gpu_memory_total[index] as u128))
    } else {
        None
    }
}

/// Total memory of one GPU in GB with one decimal.
pub fn gpu_memory_total_gb(info: &SystemInfo, index: usize) -> (r: Option<String>)
    ensures
        index < info.gpu_memory_total@.len() ==> r is Some
            && r->Some_0@ == tenths_seq((info.gpu_memory_total@[index as int] as nat * 10 + 512) / 1024),
        index >= info.gpu_memory_total@.len() ==> r is None,
{
    if index < info.gpu_memory_total.len() {
        let mb = info.gpu_memory_total[index] as u64;
        Some(tenths_string((mb * 10 + 512) / 1024))
    } else {
        None
    }
}

/// The fastest clock of one GPU (the first GPU when the index is out of range).
pub fn gpu_clocks(info: &SystemInfo, index: usize) -> (r: Option<String>)
    ensures
        info.gpu_clocks@.len() == 0 ==> r is None,
        info.gpu_clocks@.len() > 0 ==> {
            let idx = if index < info.gpu_clocks@.len() { index as int } else { 0 };
            let clocks = info.gpu_clocks@[idx]@;
            &&& clocks.len() == 0 ==> r is None
            &&& clocks.len() > 0 ==> r is Some && r->Some_0@ == ghz_seq(seq_max(clocks) as nat)
        },
{
    if info.gpu_clocks.len() == 0 {
        return None;
    }
    let idx = if info.gpu_clocks.len() > index { index } else { 0 };
    match max_of(&info.gpu_clocks[idx]) {
        None => None,
        Some(m) => Some(ghz_string(m)),
    }
}

/// The first temperature sensor of one GPU, `"55.0°C"`.
pub fn gpu_temperature(info: &SystemInfo, index: usize) -> (r: Option<String>)
    ensures
        index >= info.gpu_temperatures@.len() ==> r is None,
        index < info.gpu_temperatures@.len() ==> r is Some && r->Some_0@ == tenths_seq(
            if info.gpu_temperatures@[index as int]@.len() > 0 { info.gpu_temperatures@[index as int]@[0] as nat } else { 0 },
        ) + "°C"@,
{
    if index < info.gpu_temperatures.len() {
        let t = if info.gpu_temperatures[index].len() > 0 { info.gpu_temperatures[index][0] } else { 0 };
        Some(tenths_suffixed(t, "°C"))
    } else {
        None
    }
}

pub fn gpu_cores_power(info: &SystemInfo) -> (r: Option<String>)
    ensures
        r is Some && r->Some_0@ == tenths_seq(info.gpu_cores_power as nat) + "W"@,
{
    Some(tenths_suffixed(info.gpu_cores_power, "W"))
}

pub fn gpu_package_power(info: &SystemInfo) -> (r: Option<String>)
    ensures
        r is Some && r->Some_0@ == tenths_seq(info.gpu_package_power as nat) + "W"@,
{
    Some(tenths_suffixed(info.gpu_package_power, "W"))
}

/// The first fan of one GPU; `None` when that GPU or its fans are unknown.
pub fn gpu_fan(info: &SystemInfo, index: usize) -> (r: Option<String>)
    ensures
        (index >= info.gpu_fans@.len() || info.gpu_fans@[index as int]@.len() == 0) ==> r is None,
        (index < info.gpu_fans@.len() && info.gpu_fans@[index as int]@.len() > 0) ==> r is Some
            && r->Some_0@ == dec_seq(info.gpu_fans@[index as int]@[0] as nat) + "RPM"@,
{
    if index >= info.gpu_fans.len() {
        return None;
    }
    if info.gpu_fans[index].len() == 0 {
        return None;
    }
    Some(rpm_string(info.gpu_fans[index][0]))
}

pub fn num_process(info: &SystemInfo) -> (r: Option<String>)
    ensures
        r is Some && r->Some_0@ == count_seq(info.num_process),
{
    match info.num_process {
        None => Some(na_string()),
        Some(n) => Some(decimal_string(n as u128)),
    }
}

/// Usage of one volume, `"(/home) 12.3/456.7GB"`; `None` for a volume never seen.
pub fn disk_usage(info: &SystemInfo, index: usize) -> (r: Option<String>)
    ensures
        !info.disk_usage@.contains_key(index) ==> r is None,
        info.disk_usage@.contains_key(index) ==> r is Some && r->Some_0@ == disk_usage_seq(info.disk_usage@[index]),
{
    let d = match info.disk_usage.get(&index) {
        Some(d) => d,
        None => {
            return None;
        },
    };
    let used = if d.total >= d.available { d.total - d.available } else { 0 };
    let mut s = String::from_str("(");
    s.append(d.mount_point.as_str());
    s.append(") ");
    let u = bytes_to_gb(used);
    s.append(u.as_str());
    s.append("/");
    let t = bytes_to_gb(d.total);
    s.append(t.as_str());
    s.append("GB");
    Some(s)
}

fn disk_rate_string(b: u64) -> (r: String)
    ensures
        r@ == disk_rate_seq(b as nat),
{
    let t = (b as u128 * 10 + 524288) / 1048576;
    let mut s = tenths_string(t as u64);
    s.append(" MB/s");
    s
}

fn net_rate_string(b: u64) -> (r: String)
    ensures
        r@ == net_rate_seq(b as nat),
{
    let mut s;
    if b < 1048576 {
        s = tenths_string((b * 10 + 512) / 1024);
        s.append("KB/s");
    } else {
        let t = (b as u128 * 10 + 524288) / 1048576;
        s = tenths_string(t as u64);
        s.append("MB/s");
    }
    s
}

/// Disk read and write rates, `"1.5 MB/s"` each.
pub fn disk_speed_per_sec(info: &SystemInfo) -> (r: Option<(String, String)>)
    ensures
        r is Some,
        info.disk_speed_per_sec is None ==> r->Some_0.0@ == na() && r->Some_0.1@ == na(),
        info.disk_speed_per_sec is Some ==> r->Some_0.0@ == disk_rate_seq(info.disk_speed_per_sec->Some_0.0 as nat)
            && r->Some_0.1@ == disk_rate_seq(info.disk_speed_per_sec->Some_0.1 as nat),
{
    match info.disk_speed_per_sec {
        None => Some((na_string(), na_string())),
        Some((rd, wr)) => Some((disk_rate_string(rd), disk_rate_string(wr))),
    }
}

/// Network receive and transmit rates of the busiest interface.
pub fn network_speed_per_sec(info: &SystemInfo) -> (r: Option<(String, String)>)
    ensures
        r is Some,
        info.network_speed_per_sec is None ==> r->Some_0.0@ == na() && r->Some_0.1@ == na(),
        info.network_speed_per_sec is Some ==> r->Some_0.0@ == net_rate_seq(info.network_speed_per_sec->Some_0.0 as nat)
            && r->Some_0.1@ == net_rate_seq(info.network_speed_per_sec->Some_0.1 as nat),
{
    match info.network_speed_per_sec {
        None => Some((na_string(), na_string())),
        Some((rx, tx)) => Some((net_rate_string(rx), net_rate_string(tx))),
    }
}

pub fn system_name(info: &SystemInfo) -> (r: Option<String>)
    ensures
        r == Some(info.system_name),
{
    Some(info.system_name.clone())
}

pub fn kernel_version(info: &SystemInfo) -> (r: Option<String>)
    ensures
        r == Some(info.kernel_version),
{
    Some(info.kernel_version.clone())
}

pub fn os_version(info: &SystemInfo) -> (r: Option<String>)
    ensures
        r == Some(info.os_version),
{
    Some(info.os_version.clone())
}

pub fn host_name(info: &SystemInfo) -> (r: Option<String>)
    ensures
        r == Some(info.host_name),
{
    Some(info.host_name.clone())
}

/// The public address, once it has been looked up.
pub fn net_ip_address(info: &SystemInfo) -> (r: Option<String>)
    ensures
        info.net_ip is None ==> r is None,
        info.net_ip is Some ==> r == Some(info.net_ip->Some_0.query),
{
    match &info.net_ip {
        None => None,
        Some(i) => Some(i.query.clone()),
    }
}

/// Country, region and city of the public address, run together.
pub fn net_ip_info(info: &SystemInfo) -> (r: Option<String>)
    ensures
        info.net_ip is None ==> r is None,
        info.net_ip is Some ==> r is Some && r->Some_0@ == info.net_ip->Some_0.country@
            + info.net_ip->Some_0.region_name@ + info.net_ip->Some_0.city@,
{
    match &info.net_ip {
        None => None,
        Some(i) => {
            let mut s = i.country.clone();
            s.append(i.region_name.as_str());
            s.append(i.city.as_str());
            Some(s)
        },
    }
}

pub fn local_ip_addresses(info: &SystemInfo) -> (r: Option<String>)
    ensures
        r == Some(info.local_ip),
{
    Some(info.local_ip.clone())
}

/// Per-core usage after a sample: cores in the sample take its values, cores
/// beyond it keep what they had.
pub open spec fn merged_usage(old: Map<usize, u32>, sample: Seq<u32>, n: int) -> Map<usize, u32>
    decreases n,
{
    if n <= 0 {
        old
    } else {
        merged_usage(old, sample, n - 1).insert((n - 1) as usize, sample[n - 1])
    }
}

/// Publishes a CPU sample: core count, brand, per-core and total usage in tenths of a percent.
#[verifier::rlimit(60)]
pub fn publish_cpu(info: &mut SystemInfo, brand: String, per_core: Vec<u32>, total: u32)
    ensures
        *final(info) == (SystemInfo {
            num_cpus: Some(per_core@.len() as u64),
            cpu_brand: brand,
            cpu_usage_percpu: final(info).cpu_usage_percpu,
            cpu_usage: Some(total),
            ..*old(info)
        }),
        final(info).cpu_usage_percpu@ == merged_usage(old(info).cpu_usage_percpu@, per_core@, per_core@.len() as int),
{
    let mut i: usize = 0;
    while i < per_core.len()
        invariant
            i <= per_core@.len(),
            info.cpu_usage_percpu@ == merged_usage(old(info).cpu_usage_percpu@, per_core@, i as int),
            *info == (SystemInfo { cpu_usage_percpu: info.cpu_usage_percpu, ..*old(info) }),
        decreases per_core@.len() - i,
    {
        info.cpu_usage_percpu.insert(i, per_core[i]);
        i = i + 1;
    }
    info.num_cpus = Some(per_core.len() as u64);
    info.cpu_brand = brand;
    info.cpu_usage = Some(total);
}

/// Publishes used and total memory and swap, in bytes.
pub fn publish_memory(info: &mut SystemInfo, used: u64, total: u64, used_swap: u64, total_swap: u64)
    ensures
        *final(info) == (SystemInfo { memory: Some((used, total)), swap: Some((used_swap, total_swap)), ..*old(info) }),
{
    info.memory = Some((used, total));
    info.swap = Some((used_swap, total_swap));
}

/// The volume map after a sample: volumes in the sample take its values by
/// index, volumes beyond it keep their last sample.
pub open spec fn merged_disks(old: Map<usize, DiskSample>, sample: Seq<DiskSample>, n: int) -> Map<usize, DiskSample>
    decreases n,
{
    if n <= 0 {
        old
    } else {
        merged_disks(old, sample, n - 1).insert((n - 1) as usize, sample[n - 1])
    }
}

/// Publishes the mounted volumes; volumes past the end of the list keep their last sample.
#[verifier::rlimit(100)]
pub fn publish_disks(info: &mut SystemInfo, disks: Vec<DiskSample>)
    ensures
        *final(info) == (SystemInfo { disk_usage: final(info).disk_usage, ..*old(info) }),
        final(info).disk_usage@ == merged_disks(old(info).disk_usage@, disks@, disks@.len() as int),
{
    let mut i: usize = 0;
    while i < disks.len()
        invariant
            i <= disks@.len(),
            info.disk_usage@ == merged_disks(old(info).disk_usage@, disks@, i as int),
            *info == (SystemInfo { disk_usage: info.disk_usage, ..*old(info) }),
        decreases disks@.len() - i,
    {
        info.disk_usage.insert(i, clone_disk(&disks[i]));
        i = i + 1;
    }
}

fn clone_disk(d: &DiskSample) -> (r: DiskSample)
    ensures
        r == *d,
{
    DiskSample { mount_point: d.mount_point.clone(), total: d.total, available: d.available }
}

pub fn publish_process_count(info: &mut SystemInfo, count: u64)
    ensures
        *final(info) == (SystemInfo { num_process: Some(count), ..*old(info) }),
{
    info.num_process = Some(count);
}

/// Publishes disk read and write rates in bytes per second.
pub fn publish_disk_speed(info: &mut SystemInfo, read: u64, write: u64)
    ensures
        *final(info) == (SystemInfo { disk_speed_per_sec: Some((read, write)), ..*old(info) }),
{
    info.disk_speed_per_sec = Some((read, write));
}

/// The interface with the most traffic in one second, as (received, transmitted);
/// zero traffic when there is none.
pub fn busiest_interface(samples: &Vec<(u64, u64)>) -> (r: (u64, u64))
    ensures
        r == (0u64, 0u64) || samples@.contains(r),
        forall|i: int| 0 <= i < samples@.len() ==> samples@[i].0 as int + samples@[i].1 as int <= r.0 as int + r.1 as int,
{
    let mut best: (u64, u64) = (0, 0);
    let mut max: u128 = 0;
    let mut i: usize = 0;
    while i < samples.len()
        invariant
            i <= samples@.len(),
            max == best.0 as int + best.1 as int,
            best == (0u64, 0u64) || samples@.contains(best),
            forall|k: int| 0 <= k < i ==> samples@[k].0 as int + samples@[k].1 as int <= max,
        decreases samples@.len() - i,
    {
        let s = samples[i];
        let total = s.0 as u128 + s.1 as u128;
        if total > max {
            max = total;
            best = s;
            assert(samples@[i as int] == best);
        }
        i = i + 1;
    }
    best
}

/// Publishes network rates in bytes per second.
pub fn publish_network_speed(info: &mut SystemInfo, received: u64, transmitted: u64)
    ensures
        *final(info) == (SystemInfo { network_speed_per_sec: Some((received, transmitted)), ..*old(info) }),
{
    info.network_speed_per_sec = Some((received, transmitted));
}

/// Publishes per-core clocks in MHz.
pub fn publish_cpu_clock_speed(info: &mut SystemInfo, clocks: Vec<u32>)
    ensures
        *final(info) == (SystemInfo { cpu_clock_speed: clocks, ..*old(info) }),
{
    info.cpu_clock_speed = clocks;
}

/// Publishes the OS identity strings and the local address.
pub fn publish_system(info: &mut SystemInfo, system_name: String, kernel_version: String, os_version: String, host_name: String, local_ip: String)
    ensures
        *final(info) == (SystemInfo { system_name, kernel_version, os_version, host_name, local_ip, ..*old(info) }),
{
    info.system_name = system_name;
    info.kernel_version = kernel_version;
    info.os_version = os_version;
    info.host_name = host_name;
    info.local_ip = local_ip;
}

pub fn publish_net_ip(info: &mut SystemInfo, net_ip: NetIpInfo)
    ensures
        *final(info) == (SystemInfo { net_ip: Some(net_ip), ..*old(info) }),
{
    info.net_ip = Some(net_ip);
}

pub fn publish_weather(info: &mut SystemInfo, weather: WeatherReport)
    ensures
        *final(info) == (SystemInfo { weather_info: Some(weather), ..*old(info) }),
{
    info.weather_info = Some(weather);
}

pub fn publish_webcam_frame(info: &mut SystemInfo, frame: WebcamFrame)
    ensures
        *final(info) == (SystemInfo { webcam_frame: Some(frame), ..*old(info) }),
{
    info.webcam_frame = Some(frame);
}

/// Publishes a hardware monitor report: the first CPU's sensors, and every
/// GPU's sensors in order (the powers of the last GPU win).
#[verifier::rlimit(100)]
pub fn publish_hardware(info: &mut SystemInfo, cpu_infos: Vec<HardwareInfo>, gpu_infos: Vec<HardwareInfo>)
    ensures
        *final(info) == (SystemInfo {
            cpu_temperatures: final(info).cpu_temperatures,
            cpu_fans: final(info).cpu_fans,
            cpu_temperature_total: final(info).cpu_temperature_total,
            cpu_cores_power: final(info).cpu_cores_power,
            cpu_package_power: final(info).cpu_package_power,
            gpu_clocks: final(info).gpu_clocks,
            gpu_temperatures: final(info).gpu_temperatures,
            gpu_temperature_total: final(info).gpu_temperature_total,
            gpu_package_power: final(info).gpu_package_power,
            gpu_cores_power: final(info).gpu_cores_power,
            gpu_fans: final(info).gpu_fans,
            gpu_load: final(info).gpu_load,
            gpu_memory_load: final(info).gpu_memory_load,
            gpu_memory_total: final(info).gpu_memory_total,
            gpu_load_total: final(info).gpu_load_total,
            ..*old(info)
        }),
        cpu_infos@.len() > 0 ==> final(info).cpu_temperatures@ == cpu_infos@[0].temperatures@
            && final(info).cpu_fans@ == cpu_infos@[0].fans@
            && final(info).cpu_temperature_total == cpu_infos@[0].total_temperature
            && final(info).cpu_cores_power == cpu_infos@[0].cores_power
            && final(info).cpu_package_power == cpu_infos@[0].package_power,
        cpu_infos@.len() == 0 ==> final(info).cpu_temperatures == old(info).cpu_temperatures
            && final(info).cpu_fans == old(info).cpu_fans
            && final(info).cpu_temperature_total == old(info).cpu_temperature_total,
        final(info).gpu_clocks@.len() == gpu_infos@.len(),
        final(info).gpu_load@.len() == gpu_infos@.len(),
        final(info).gpu_fans@.len() == gpu_infos@.len(),
        final(info).gpu_temperatures@.len() == gpu_infos@.len(),
        final(info).gpu_load_total@.len() == gpu_infos@.len(),
        final(info).gpu_memory_load@.len() == gpu_infos@.len(),
        final(info).gpu_memory_total@.len() == gpu_infos@.len(),
        forall|i: int| 0 <= i < gpu_infos@.len() ==> {
            &&& final(info).gpu_clocks@[i]@ == gpu_infos@[i].clocks@
            &&& final(info).gpu_load@[i]@ == gpu_infos@[i].loads@
            &&& final(info).gpu_fans@[i]@ == gpu_infos@[i].fans@
            &&& final(info).gpu_temperatures@[i]@ == gpu_infos@[i].temperatures@
            &&& final(info).gpu_load_total@[i] == gpu_infos@[i].total_load
            &&& final(info).gpu_memory_load@[i] == gpu_infos@[i].memory_load
            &&& final(info).gpu_memory_total@[i] == gpu_infos@[i].memory_total
        },
        gpu_infos@.len() > 0 ==> final(info).gpu_cores_power == gpu_infos@.last().cores_power
            && final(info).gpu_package_power == gpu_infos@.last().package_power,
{
    let mut clocks: Vec<Vec<u32>> = Vec::new();
    let mut temps: Vec<Vec<u32>> = Vec::new();
    let mut fans: Vec<Vec<u32>> = Vec::new();
    let mut loads: Vec<Vec<u32>> = Vec::new();
    let mut temp_total: Vec<u32> = Vec::new();
    let mut load_total: Vec<u32> = Vec::new();
    let mut mem_load: Vec<u32> = Vec::new();
    let mut mem_total: Vec<u32> = Vec::new();
    let mut cores_power = info.gpu_cores_power;
    let mut package_power = info.gpu_package_power;
    let mut i: usize = 0;
    while i < gpu_infos.len()
        invariant
            i <= gpu_infos@.len(),
            clocks@.len() == i && temps@.len() == i && fans@.len() == i && loads@.len() == i,
            temp_total@.len() == i && load_total@.len() == i && mem_load@.len() == i && mem_total@.len() == i,
            forall|k: int| 0 <= k < i ==> clocks@[k]@ == gpu_infos@[k].clocks@,
            forall|k: int| 0 <= k < i ==> loads@[k]@ == gpu_infos@[k].loads@,
            forall|k: int| 0 <= k < i ==> fans@[k]@ == gpu_infos@[k].fans@,
            forall|k: int| 0 <= k < i ==> temps@[k]@ == gpu_infos@[k].temperatures@,
            forall|k: int| 0 <= k < i ==> load_total@[k] == gpu_infos@[k].total_load,
            forall|k: int| 0 <= k < i ==> mem_load@[k] == gpu_infos@[k].memory_load,
            forall|k: int| 0 <= k < i ==> mem_total@[k] == gpu_infos@[k].memory_total,
            i > 0 ==> cores_power == gpu_infos@[i - 1].cores_power && package_power == gpu_infos@[i - 1].package_power,
        decreases gpu_infos@.len() - i,
    {
        let g = &gpu_infos[i];
        clocks.push(copy_vec(&g.clocks));
        temps.push(copy_vec(&g.temperatures));
        fans.push(copy_vec(&g.fans));
        loads.push(copy_vec(&g.loads));
        temp_total.push(g.total_temperature);
        load_total.push(g.total_load);
        mem_load.push(g.memory_load);
        mem_total.push(g.memory_total);
        cores_power = g.cores_power;
        package_power = g.package_power;
        assert(clocks@[i as int]@ == gpu_infos@[i as int].clocks@);
        assert(loads@[i as int]@ == gpu_infos@[i as int].loads@);
        assert(fans@[i as int]@ == gpu_infos@[i as int].fans@);
        assert(temps@[i as int]@ == gpu_infos@[i as int].temperatures@);
        i = i + 1;
    }
    set_gpu_sensors(info, clocks, temps, temp_total, package_power, cores_power, fans, loads, mem_load, mem_total, load_total);
    if cpu_infos.len() > 0 {
        set_cpu_sensors(info, &cpu_infos[0]);
    }
}

fn set_gpu_sensors(
    info: &mut SystemInfo,
    gpu_clocks: Vec<Vec<u32>>,
    gpu_temperatures: Vec<Vec<u32>>,
    gpu_temperature_total: Vec<u32>,
    gpu_package_power: u32,
    gpu_cores_power: u32,
    gpu_fans: Vec<Vec<u32>>,
    gpu_load: Vec<Vec<u32>>,
    gpu_memory_load: Vec<u32>,
    gpu_memory_total: Vec<u32>,
    gpu_load_total: Vec<u32>,
)
    ensures
        *final(info) == (SystemInfo {
            gpu_clocks,
            gpu_temperatures,
            gpu_temperature_total,
            gpu_package_power,
            gpu_cores_power,
            gpu_fans,
            gpu_load,
            gpu_memory_load,
            gpu_memory_total,
            gpu_load_total,
            ..*old(info)
        }),
{
    info.gpu_clocks = gpu_clocks;
    info.gpu_temperatures = gpu_temperatures;
    info.gpu_temperature_total = gpu_temperature_total;
    info.gpu_package_power = gpu_package_power;
    info.gpu_cores_power = gpu_cores_power;
    info.gpu_fans = gpu_fans;
    info.gpu_load = gpu_load;
    info.gpu_memory_load = gpu_memory_load;
    info.gpu_memory_total = gpu_memory_total;
    info.gpu_load_total = gpu_load_total;
}

fn set_cpu_sensors(info: &mut SystemInfo, c: &HardwareInfo)
    ensures
        *final(info) == (SystemInfo {
            cpu_temperatures: final(info).cpu_temperatures,
            cpu_fans: final(info).cpu_fans,
            cpu_temperature_total: c.total_temperature,
            cpu_cores_power: c.cores_power,
            cpu_package_power: c.package_power,
            ..*old(info)
        }),
        final(info).cpu_temperatures@ == c.temperatures@,
        final(info).cpu_fans@ == c.fans@,
{
    info.cpu_temperatures = copy_vec(&c.temperatures);
    info.cpu_fans = copy_vec(&c.fans);
    info.cpu_temperature_total = c.total_temperature;
    info.cpu_cores_power = c.cores_power;
    info.cpu_package_power = c.package_power;
}

fn copy_vec(v: &Vec<u32>) -> (r: Vec<u32>)
    ensures
        r@ == v@,
{
    let mut r: Vec<u32> = Vec::new();
    let mut i: usize = 0;
    while i < v.len()
        invariant
            i <= v@.len(),
            r@ == v@.subrange(0, i as int),
        decreases v@.len() - i,
    {
        r.push(v[i]);
        i = i + 1;
        assert(r@ =~= v@.subrange(0, i as int));
    }
    assert(v@.subrange(0, v@.len() as int) =~= v@);
    r
}

/// Splits seconds since boot into days, hours, minutes and seconds.
pub fn uptime_from_seconds(total_seconds: u64) -> (u: SystemUptime)
    requires
        total_seconds / 86400 <= u32::MAX,
    ensures
        u.days as int == total_seconds as int / 86400,
        u.hours as int == (total_seconds as int % 86400) / 3600,
        u.minutes as int == (total_seconds as int % 3600) / 60,
        u.seconds as int == total_seconds as int % 60,
{
    let days = total_seconds / 86400;
    let rest = total_seconds % 86400;
    proof {
        vstd::arithmetic::div_mod::lemma_mod_mod(total_seconds as int, 3600, 24);
    }
    SystemUptime {
        days: days as u32,
        hours: (rest / 3600) as u32,
        minutes: ((rest % 3600) / 60) as u32,
        seconds: (rest % 60) as u32,
    }
}

/// The size a camera frame is scaled to so that it fits the bound, keeping
/// its aspect ratio: first limited by width, then by height (each rounded down).
pub open spec fn webcam_scaled_spec(width: nat, height: nat, max_width: nat, max_height: nat) -> (nat, nat) {
    let w1 = if width > max_width { max_width } else { width };
    let h1 = if width > max_width { height * max_width / width } else { height };
    if h1 > max_height {
        (w1 * max_height / h1, max_height)
    } else {
        (w1, h1)
    }
}

pub fn webcam_scaled_size(width: u32, height: u32, max_width: u32, max_height: u32) -> (r: (u32, u32))
    ensures
        (r.0 as nat, r.1 as nat) == webcam_scaled_spec(width as nat, height as nat, max_width as nat, max_height as nat),
{
    let mut w = width as u64;
    let mut h = height as u64;
    if w > max_width as u64 {
        assert((h as int) * (max_width as int) / (w as int) <= h as int) by (nonlinear_arith)
            requires
                w > max_width as u64,
        {
            assert(h * (max_width as u64) <= h * w);
        };
        assert(h * (max_width as u64) <= u64::MAX) by (nonlinear_arith)
            requires
                h <= u32::MAX,
                max_width <= u32::MAX,
        ;
        h = h * max_width as u64 / w;
        w = max_width as u64;
    }
    if h > max_height as u64 {
        assert((w as int) * (max_height as int) / (h as int) <= w as int) by (nonlinear_arith)
            requires
                h > max_height as u64,
        {
            assert(w * (max_height as u64) <= w * h);
        };
        assert(w * (max_height as u64) <= u64::MAX) by (nonlinear_arith)
            requires
                w <= u32::MAX,
                max_height <= u32::MAX,
        ;
        w = w * max_height as u64 / h;
        h = max_height as u64;
    }
    (w as u32, h as u32)
}

/// How often the weather and the public address are refreshed, in milliseconds.
pub const UPDATE_WEATHER_DELAY: u64 = 300000;
pub const UPDATE_NET_IP_DELAY: u64 = 300000;

/// What the polling loop remembers between ticks.
pub struct RefreshState {
    pub last_update: u64,
    pub last_net_ip_update: u64,
    /// The station last queried, and when.
    pub last_weather_code: Option<String>,
    pub last_weather_update: u64,
}

/// The work one tick of the polling loop starts.
pub struct RefreshPlan {
    /// Query the weather of this station.
    pub query_weather: Option<String>,
    /// Look up the public address.
    pub query_net_ip: bool,
    /// Sample the fast metrics that are watched.
    pub sample_system: bool,
}

pub open spec fn elapsed(now: u64, last: u64) -> int {
    if now >= last { now - last } else { 0 }
}

impl RefreshState {
    pub fn new() -> (r: RefreshState)
        ensures
            r.last_update == 0 && r.last_net_ip_update == 0 && r.last_weather_update == 0,
            r.last_weather_code is None,
    {
        RefreshState { last_update: 0, last_net_ip_update: 0, last_weather_code: None, last_weather_update: 0 }
    }
}

/// One tick of the polling loop at time `now` (milliseconds). The weather is
/// queried when five minutes have passed, or at once when the watched station
/// changed; the public address every five minutes while watched; the fast
/// metrics once per update delay.
#[verifier::rlimit(60)]
pub fn plan_refresh(state: &mut RefreshState, info: &SystemInfo, now: u64) -> (plan: RefreshPlan)
    ensures
        ({
            let last_w = match (info.watch_weather, old(state).last_weather_code) {
                (Some(c), Some(prev)) => if prev@ != c.code@ { 0u64 } else { old(state).last_weather_update },
                _ => old(state).last_weather_update,
            };
            &&& info.watch_weather is None ==> plan.query_weather is None
                && final(state).last_weather_update == old(state).last_weather_update
            &&& info.watch_weather is Some ==> final(state).last_weather_code == Some(info.watch_weather->Some_0.code)
                && (elapsed(now, last_w) > UPDATE_WEATHER_DELAY <==> plan.query_weather is Some)
                && (plan.query_weather is Some ==> plan.query_weather->Some_0 == info.watch_weather->Some_0.code
                    && final(state).last_weather_update == now)
                && (plan.query_weather is None ==> final(state).last_weather_update == last_w)
        }),
        plan.query_net_ip == (info.watch_net_ip && elapsed(now, old(state).last_net_ip_update) > UPDATE_NET_IP_DELAY),
        final(state).last_net_ip_update == (if plan.query_net_ip { now } else { old(state).last_net_ip_update }),
        plan.sample_system == (elapsed(now, old(state).last_update) > info.update_delay),
        final(state).last_update == (if plan.sample_system { now } else { old(state).last_update }),
{
    let mut query_weather: Option<String> = None;
    match &info.watch_weather {
        Some(city) => {
            let changed = match &state.last_weather_code {
                Some(prev) => !crate::text::str_eq(prev.as_str(), city.code.as_str()),
                None => false,
            };
            if changed {
                state.last_weather_update = 0;
            }
            state.last_weather_code = Some(city.code.clone());
            let e = if now >= state.last_weather_update { now - state.last_weather_update } else { 0 };
            if e > UPDATE_WEATHER_DELAY {
                state.last_weather_update = now;
                query_weather = Some(city.code.clone());
            }
        },
        None => {},
    }
    let e_ip = if now >= state.last_net_ip_update { now - state.last_net_ip_update } else { 0 };
    let query_net_ip = info.watch_net_ip && e_ip > UPDATE_NET_IP_DELAY;
    if query_net_ip {
        state.last_net_ip_update = now;
    }
    let e = if now >= state.last_update { now - state.last_update } else { 0 };
    let sample_system = e > info.update_delay;
    if sample_system {
        state.last_update = now;
    }
    RefreshPlan { query_weather, query_net_ip, sample_system }
}

/// Relies on `sysinfo::System::uptime`: seconds since boot, whatever the machine reports.
#[verifier::external_body]
fn os_uptime_seconds() -> (r: u64) {
    sysinfo::System::uptime()
}

/// Time since boot; days beyond the `u32` range are held at its maximum.
pub fn system_uptime() -> (u: SystemUptime)
    ensures
        u.hours < 24 && u.minutes < 60 && u.seconds < 60,
{
    let secs = os_uptime_seconds();
    let max_secs: u64 = 4294967295u64 * 86400 + 86399;
    let s = if secs > max_secs { max_secs } else { secs };
    uptime_from_seconds(s)
}

/// The weekday names, Sunday first.
pub open spec fn weekday_spec(d: u32) -> Seq<char> {
    if d == 0 { "星期日"@ }
    else if d == 1 { "星期一"@ }
    else if d == 2 { "星期二"@ }
    else if d == 3 { "星期三"@ }
    else if d == 4 { "星期四"@ }
    else if d == 5 { "星期五"@ }
    else { "星期六"@ }
}

/// The Chinese name of a weekday given as days since Sunday.
pub fn chinese_weekday(num_days_from_sunday: u32) -> (r: String)
    requires
        num_days_from_sunday < 7,
    ensures
        r@ == weekday_spec(num_days_from_sunday),
{
    let s = if num_days_from_sunday == 0 { "星期日" }
        else if num_days_from_sunday == 1 { "星期一" }
        else if num_days_from_sunday == 2 { "星期二" }
        else if num_days_from_sunday == 3 { "星期三" }
        else if num_days_from_sunday == 4 { "星期四" }
        else if num_days_from_sunday == 5 { "星期五" }
        else { "星期六" };
    String::from_str(s)
}

/// The size an image is scaled to so that its longer side fits the matching
/// bound, keeping its aspect ratio, each side rounded to the nearest pixel.
pub open spec fn fit_size_spec(width: nat, height: nat, max_width: nat, max_height: nat) -> (nat, nat) {
    if width > height {
        (max_width, (2 * height * max_width + width) / (2 * width))
    } else if height == 0 {
        (0, 0)
    } else {
        ((2 * width * max_height + height) / (2 * height), max_height)
    }
}

pub fn test_resize_image(width: u32, height: u32, max_width: u32, max_height: u32) -> (r: (u32, u32))
    ensures
        (r.0 as nat, r.1 as nat) == fit_size_spec(width as nat, height as nat, max_width as nat, max_height as nat),
{
    if width > height {
        assert(2 * height as int * max_width as int <= 2 * 4294967295int * 4294967295int) by (nonlinear_arith)
            requires
                height <= u32::MAX,
                max_width <= u32::MAX,
        ;
        let num = 2 * height as u128 * max_width as u128 + width as u128;
        let h = num / (2 * width as u128);
        assert(h <= max_width) by (nonlinear_arith)
            requires
                h == (2 * height as int * max_width as int + width as int) / (2 * width as int),
                height < width,
        {
            assert(2 * height as int * max_width as int + width as int <= 2 * width as int * max_width as int + width as int);
            assert((2 * width as int * max_width as int + width as int) / (2 * width as int) <= max_width);
        };
        (max_width, h as u32)
    } else if height == 0 {
        (0, 0)
    } else {
        assert(2 * width as int * max_height as int <= 2 * 4294967295int * 4294967295int) by (nonlinear_arith)
            requires
                width <= u32::MAX,
                max_height <= u32::MAX,
        ;
        let num = 2 * width as u128 * max_height as u128 + height as u128;
        let w = num / (2 * height as u128);
        assert(w <= max_height as int + 1) by (nonlinear_arith)
            requires
                w == (2 * width as int * max_height as int + height as int) / (2 * height as int),
                width <= height,
                height > 0,
        {
            assert(2 * width as int * max_height as int + height as int <= 2 * height as int * max_height as int + height as int);
        };
        assert(w <= max_height) by (nonlinear_arith)
            requires
                w == (2 * width as int * max_height as int + height as int) / (2 * height as int),
                width <= height,
                height > 0,
        {
            assert(2 * width as int * max_height as int + (height as int) < 2 * (height as int) * (max_height as int + 1));
        };
        (w as u32, max_height)
    }
}

/// Wait before reopening a camera that failed to open, in milliseconds.
pub const WEBCAM_REOPEN_DELAY_MS: u64 = 3000;

/// The camera must be (re)opened when none is open or another index is wanted.
pub fn webcam_needs_reopen(open_index: Option<u32>, wanted: &WebcamInfo) -> (r: bool)
    ensures
        r == (open_index != Some(wanted.index)),
{
    match open_index {
        None => true,
        Some(i) => i != wanted.index,
    }
}

/// The pause after capturing a frame so that frames come at the camera's
/// rate: the rest of the frame period, at least one millisecond.
pub fn webcam_delay_ms(elapsed_ms: u64, fps: u32) -> (r: u64)
    requires
        fps > 0,
    ensures
        r == (if elapsed_ms >= 1000int / (fps as int) { 1int } else { 1000int / (fps as int) - elapsed_ms }),
        r >= 1,
{
    let period = (1000 / fps) as u64;
    if elapsed_ms >= period { 1 } else { period - elapsed_ms }
}

} // verus!
