use usb_screen::telemetry::{
    webcam_delay_ms, webcam_needs_reopen, WebcamInfo,
    busiest_interface, bytes_to_gb, chinese_weekday, cpu_brand, cpu_clock_speed, cpu_fan, cpu_usage, cpu_usage_percpu,
    disk_speed_per_sec, disk_usage, gpu_clocks, gpu_fan, gpu_load, gpu_memory_total_gb, gpu_memory_total_mb,
    gpu_temperature, memory_info, memory_percent, memory_total, net_ip_address, net_ip_info, network_speed_per_sec,
    num_cpus, plan_refresh, publish_cpu, publish_cpu_clock_speed, publish_disk_speed, publish_disks, publish_hardware,
    publish_memory, publish_net_ip, publish_network_speed, set_update_delay, swap_info, swap_percent, test_resize_image,
    uptime_from_seconds, watch_cpu, watch_net_ip, watch_weather, webcam_scaled_size, City, DiskSample, HardwareInfo,
    NetIpInfo, RefreshState, SystemInfo,
};

fn store() -> SystemInfo {
    SystemInfo::new("6.1".to_string(), "Linux".to_string(), "host".to_string())
}

fn hw(loads: Vec<u32>, total_load: u32, clocks: Vec<u32>, fans: Vec<u32>) -> HardwareInfo {
    HardwareInfo {
        fans,
        temperatures: vec![553],
        loads,
        clocks,
        package_power: 455,
        cores_power: 301,
        total_load,
        total_temperature: 612,
        memory_load: 125,
        memory_total: 8192,
    }
}

#[test]
fn fresh_store_shows_unavailable() {
    let s = store();
    assert_eq!(num_cpus(&s), Some("N/A".to_string()));
    assert_eq!(memory_info(&s), Some("N/A".to_string()));
    assert_eq!(memory_total(&s), Some("N/A".to_string()));
    assert_eq!(cpu_usage(&s), Some("N/A".to_string()));
    assert_eq!(cpu_brand(&s), Some("N/A".to_string()));
    assert_eq!(cpu_fan(&s), None);
    assert_eq!(net_ip_address(&s), None);
    assert_eq!(disk_usage(&s, 0), None);
}

#[test]
fn bytes_to_gb_rounds_to_tenths() {
    assert_eq!(bytes_to_gb(8589934592), "8.0");
    assert_eq!(bytes_to_gb(1610612736), "1.5");
    assert_eq!(bytes_to_gb(0), "0.0");
}

#[test]
fn memory_texts() {
    let mut s = store();
    publish_memory(&mut s, 4294967296, 17179869184, 0, 0);
    assert_eq!(memory_info(&s), Some("4.0/16.0GB".to_string()));
    assert_eq!(memory_total(&s), Some("16.0G".to_string()));
    assert_eq!(memory_percent(&s), Some("25%".to_string()));
    assert_eq!(swap_info(&s), Some("0.0/0.0GB".to_string()));
    assert_eq!(swap_percent(&s), Some("0%".to_string()));
}

#[test]
fn cpu_texts() {
    let mut s = store();
    publish_cpu(&mut s, "Ryzen".to_string(), vec![125, 400], 420);
    assert_eq!(num_cpus(&s), Some("2".to_string()));
    assert_eq!(cpu_usage(&s), Some("42.0%".to_string()));
    assert_eq!(cpu_usage_percpu(&s, 0), Some("12.5%".to_string()));
    assert_eq!(cpu_usage_percpu(&s, 1), Some("40.0%".to_string()));
    assert_eq!(cpu_usage_percpu(&s, 2), None);
    publish_cpu(&mut s, "Ryzen".to_string(), vec![10], 10);
    assert_eq!(cpu_usage_percpu(&s, 1), Some("40.0%".to_string()));
    publish_cpu_clock_speed(&mut s, vec![3400, 2999]);
    assert_eq!(cpu_clock_speed(&s, None), Some("3.40 GHz".to_string()));
    assert_eq!(cpu_clock_speed(&s, Some(1)), Some("3.00 GHz".to_string()));
    assert_eq!(cpu_clock_speed(&s, Some(5)), None);
}

#[test]
fn gpu_texts() {
    let mut s = store();
    publish_hardware(&mut s, vec![hw(vec![], 0, vec![], vec![1200])], vec![hw(vec![375], 0, vec![1500, 1800], vec![900]), hw(vec![], 640, vec![], vec![])]);
    assert_eq!(cpu_fan(&s), Some("1200RPM".to_string()));
    assert_eq!(gpu_load(&s, 0), Some("37.5%".to_string()));
    assert_eq!(gpu_load(&s, 1), Some("64%".to_string()));
    assert_eq!(gpu_load(&s, 2), None);
    assert_eq!(gpu_clocks(&s, 0), Some("1.80 GHz".to_string()));
    assert_eq!(gpu_clocks(&s, 9), Some("1.80 GHz".to_string()));
    assert_eq!(gpu_fan(&s, 0), Some("900RPM".to_string()));
    assert_eq!(gpu_fan(&s, 1), None);
    assert_eq!(gpu_temperature(&s, 0), Some("55.3°C".to_string()));
    assert_eq!(gpu_memory_total_mb(&s, 0), Some("8192".to_string()));
    assert_eq!(gpu_memory_total_gb(&s, 0), Some("8.0".to_string()));
}

#[test]
fn rates_and_disks() {
    let mut s = store();
    publish_network_speed(&mut s, 512, 2097152);
    assert_eq!(network_speed_per_sec(&s), Some(("0.5KB/s".to_string(), "2.0MB/s".to_string())));
    publish_disk_speed(&mut s, 1572864, 0);
    assert_eq!(disk_speed_per_sec(&s), Some(("1.5 MB/s".to_string(), "0.0 MB/s".to_string())));
    publish_disks(&mut s, vec![DiskSample { mount_point: "/".to_string(), total: 107374182400, available: 53687091200 }]);
    assert_eq!(disk_usage(&s, 0), Some("(/) 50.0/100.0GB".to_string()));
    assert_eq!(busiest_interface(&vec![(1, 2), (10, 0), (3, 3)]), (10, 0));
    assert_eq!(busiest_interface(&vec![]), (0, 0));
}

#[test]
fn net_ip_texts() {
    let mut s = store();
    publish_net_ip(&mut s, NetIpInfo { country: "中国".to_string(), region_name: "上海".to_string(), city: "上海".to_string(), query: "1.2.3.4".to_string() });
    assert_eq!(net_ip_address(&s), Some("1.2.3.4".to_string()));
    assert_eq!(net_ip_info(&s), Some("中国上海上海".to_string()));
}

#[test]
fn uptime_and_sizes() {
    let u = uptime_from_seconds(90061);
    assert_eq!((u.days, u.hours, u.minutes, u.seconds), (1, 1, 1, 1));
    assert_eq!(webcam_scaled_size(640, 480, 160, 128), (160, 120));
    assert_eq!(webcam_scaled_size(100, 400, 160, 128), (32, 128));
    assert_eq!(webcam_scaled_size(100, 100, 160, 128), (100, 100));
    assert_eq!(test_resize_image(100, 50, 160, 128), (160, 80));
    assert_eq!(test_resize_image(50, 100, 160, 128), (64, 128));
    assert_eq!(test_resize_image(0, 0, 160, 128), (0, 0));
    assert_eq!(chinese_weekday(0), "星期日");
    assert_eq!(chinese_weekday(6), "星期六");
}

#[test]
fn refresh_cadences() {
    let mut s = store();
    let mut st = RefreshState::new();
    watch_net_ip(&mut s, true);
    watch_cpu(&mut s, true);
    set_update_delay(&mut s, 100);
    let p = plan_refresh(&mut st, &s, 400000);
    assert!(p.query_net_ip && p.sample_system && p.query_weather.is_none());
    let p = plan_refresh(&mut st, &s, 400050);
    assert!(!p.query_net_ip && !p.sample_system);
    let p = plan_refresh(&mut st, &s, 400101);
    assert!(p.sample_system);
    let city = |code: &str| City { code: code.to_string(), province: "p".to_string(), city: "c".to_string(), url: String::new() };
    watch_weather(&mut s, Some(city("A")));
    let p = plan_refresh(&mut st, &s, 400200);
    assert_eq!(p.query_weather, Some("A".to_string()));
    let p = plan_refresh(&mut st, &s, 400300);
    assert_eq!(p.query_weather, None);
    watch_weather(&mut s, Some(city("B")));
    let p = plan_refresh(&mut st, &s, 400400);
    assert_eq!(p.query_weather, Some("B".to_string()));
}

#[test]
fn webcam_pacing_and_reopen() {
    let want = WebcamInfo { index: 1, fps: 20, width: 160, height: 128 };
    assert!(webcam_needs_reopen(None, &want));
    assert!(webcam_needs_reopen(Some(0), &want));
    assert!(!webcam_needs_reopen(Some(1), &want));
    assert_eq!(webcam_delay_ms(10, 20), 40);
    assert_eq!(webcam_delay_ms(50, 20), 1);
    assert_eq!(webcam_delay_ms(70, 20), 1);
}
