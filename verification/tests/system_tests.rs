use raspi_monitor::system::{
    format_uptime, ComponentReading, DiskReading, IpV4, NetworkReading, Ratio, SysInfo,
    SystemReading,
};

fn empty_reading() -> SystemReading {
    SystemReading {
        cpu_core_load_bp: vec![],
        used_memory: 0,
        total_memory: 0,
        components: vec![],
        networks: vec![],
        disks: vec![],
        uptime_seconds: 0,
        hostname: None,
    }
}

fn ip(a: u8, b: u8, c: u8, d: u8) -> IpV4 {
    IpV4 { a, b, c, d }
}

#[test]
fn ratio_construction_clamps() {
    assert_eq!(Ratio::new(5, 0), Ratio { num: 0, den: 1 });
    assert_eq!(Ratio::new(7, 4), Ratio { num: 4, den: 4 });
    assert_eq!(Ratio::new(1, 2), Ratio { num: 1, den: 2 });
}

#[test]
fn bar_width_is_the_floor_of_the_ratio_of_74() {
    assert_eq!(Ratio::new(0, 5).bar_width(), 0);
    assert_eq!(Ratio::new(1, 2).bar_width(), 37);
    assert_eq!(Ratio::new(1, 3).bar_width(), 24); // 74/3 = 24.67 truncated
    assert_eq!(Ratio::new(1, 1).bar_width(), 74);
    assert_eq!(Ratio::new(99, 100).bar_width(), 73);
}

#[test]
fn percent_rounds_to_nearest_with_halves_up() {
    assert_eq!(Ratio::new(0, 1).percent(), 0);
    assert_eq!(Ratio::new(1, 2).percent(), 50);
    assert_eq!(Ratio::new(505, 1000).percent(), 51); // 50.5 rounds up
    assert_eq!(Ratio::new(333, 1000).percent(), 33); // 33.3 rounds down
    assert_eq!(Ratio::new(1, 1).percent(), 100);
}

#[test]
fn uptime_over_a_day_keeps_full_hours() {
    // 90000 s = 25 h: one day, with the hours field not reduced modulo 24.
    assert_eq!(format_uptime(90000), "1d25h0m");
}

#[test]
fn uptime_under_a_day_shows_seconds() {
    assert_eq!(format_uptime(3725), "1h2m5s");
    assert_eq!(format_uptime(0), "0h0m0s");
    assert_eq!(format_uptime(86399), "23h59m59s");
}

#[test]
fn ip_text_is_dotted_decimal() {
    assert_eq!(ip(192, 168, 1, 77).to_text(), "192.168.1.77");
    assert_eq!(ip(0, 0, 0, 0).to_text(), "0.0.0.0");
}

#[test]
fn wired_interface_wins_over_wireless() {
    let mut sys = SysInfo::new();
    let mut reading = empty_reading();
    reading.networks = vec![
        NetworkReading { name: "wlan0".to_string(), addrs: vec![ip(10, 0, 0, 2)] },
        NetworkReading { name: "eth0".to_string(), addrs: vec![ip(192, 168, 1, 5)] },
    ];
    sys.refresh(reading);
    assert_eq!(sys.ip_addr(), ip(192, 168, 1, 5));
}

#[test]
fn wireless_interface_is_used_when_wired_has_no_address() {
    let mut sys = SysInfo::new();
    let mut reading = empty_reading();
    reading.networks = vec![
        NetworkReading { name: "eth0".to_string(), addrs: vec![] },
        NetworkReading { name: "wlan0".to_string(), addrs: vec![ip(10, 0, 0, 2)] },
    ];
    sys.refresh(reading);
    assert_eq!(sys.ip_addr(), ip(10, 0, 0, 2));
}

#[test]
fn unknown_interfaces_fall_back_to_the_unspecified_address() {
    let mut sys = SysInfo::new();
    let mut reading = empty_reading();
    reading.networks = vec![
        NetworkReading { name: "lo".to_string(), addrs: vec![ip(127, 0, 0, 1)] },
    ];
    sys.refresh(reading);
    assert_eq!(sys.ip_addr(), ip(0, 0, 0, 0));
}

#[test]
fn root_disk_usage_comes_from_the_root_mount() {
    let mut sys = SysInfo::new();
    let mut reading = empty_reading();
    reading.disks = vec![
        DiskReading { mount_point: "/home".to_string(), total_bytes: 10, available_bytes: 1 },
        DiskReading { mount_point: "/".to_string(), total_bytes: 100, available_bytes: 25 },
    ];
    sys.refresh(reading);
    let usage = sys.root_disk_usage().expect("root mount present");
    assert_eq!(usage, Ratio { num: 75, den: 100 });
    assert_eq!(usage.percent(), 75);
}

#[test]
fn root_disk_usage_is_absent_without_a_root_mount() {
    let mut sys = SysInfo::new();
    let mut reading = empty_reading();
    reading.disks = vec![
        DiskReading { mount_point: "/home".to_string(), total_bytes: 10, available_bytes: 1 },
    ];
    sys.refresh(reading);
    assert!(sys.root_disk_usage().is_none());
}

#[test]
fn empty_root_disk_counts_as_zero_usage() {
    let mut sys = SysInfo::new();
    let mut reading = empty_reading();
    reading.disks = vec![
        DiskReading { mount_point: "/".to_string(), total_bytes: 0, available_bytes: 0 },
    ];
    sys.refresh(reading);
    assert_eq!(sys.root_disk_usage(), Some(Ratio { num: 0, den: 1 }));
}

#[test]
fn cpu_usage_is_the_mean_of_the_cores() {
    let mut sys = SysInfo::new();
    let mut reading = empty_reading();
    reading.cpu_core_load_bp = vec![1000, 2000];
    sys.refresh(reading);
    assert_eq!(sys.cpu_usage(), Ratio { num: 1500, den: 10000 });
    assert_eq!(sys.cpu_usage().percent(), 15);
}

#[test]
fn cpu_usage_without_cores_is_zero() {
    let mut sys = SysInfo::new();
    sys.refresh(empty_reading());
    assert_eq!(sys.cpu_usage(), Ratio { num: 0, den: 1 });
}

#[test]
fn memory_usage_is_used_over_total() {
    let mut sys = SysInfo::new();
    let mut reading = empty_reading();
    reading.used_memory = 1;
    reading.total_memory = 3;
    sys.refresh(reading);
    assert_eq!(sys.memory_usage(), Ratio { num: 1, den: 3 });
    assert_eq!(sys.memory_usage().percent(), 33);
}

#[test]
fn cpu_temperature_comes_from_the_named_sensor() {
    let mut sys = SysInfo::new();
    let mut reading = empty_reading();
    reading.components = vec![
        ComponentReading { label: "rp1_adc temp1".to_string(), temperature_centi: 5000 },
        ComponentReading { label: "cpu_thermal temp1".to_string(), temperature_centi: 4567 },
    ];
    sys.refresh(reading);
    assert_eq!(sys.cpu_temp(), 4567);
}

#[test]
fn missing_sensor_reads_as_zero() {
    let mut sys = SysInfo::new();
    sys.refresh(empty_reading());
    assert_eq!(sys.cpu_temp(), 0);
}

#[test]
fn missing_hostname_reads_as_empty() {
    let mut sys = SysInfo::new();
    sys.refresh(empty_reading());
    assert_eq!(sys.hostname().as_str(), "");
    let mut reading = empty_reading();
    reading.hostname = Some("raspberrypi".to_string());
    sys.refresh(reading);
    assert_eq!(sys.hostname().as_str(), "raspberrypi");
}

#[test]
fn uptime_accessor_formats_the_cached_seconds() {
    let mut sys = SysInfo::new();
    let mut reading = empty_reading();
    reading.uptime_seconds = 90000;
    sys.refresh(reading);
    assert_eq!(sys.uptime(), "1d25h0m");
}
