use raspi_monitor::render::{
    format_percent, render_bar_graph, render_page_1, render_page_2, render_system_monitor,
    round_centi, DrawCmd, FontId, Point, Size,
};
use raspi_monitor::system::{DiskReading, IpV4, NetworkReading, Ratio, SysInfo, SystemReading};

fn reading() -> SystemReading {
    SystemReading {
        cpu_core_load_bp: vec![5000],
        used_memory: 1,
        total_memory: 4,
        components: vec![],
        networks: vec![NetworkReading {
            name: "eth0".to_string(),
            addrs: vec![IpV4 { a: 192, b: 168, c: 1, d: 5 }],
        }],
        disks: vec![DiskReading {
            mount_point: "/".to_string(),
            total_bytes: 100,
            available_bytes: 25,
        }],
        uptime_seconds: 3725,
        hostname: Some("raspberrypi".to_string()),
    }
}

fn snapshot() -> SysInfo {
    let mut sys = SysInfo::new();
    sys.refresh(reading());
    sys
}

#[test]
fn percent_column_is_right_aligned() {
    assert_eq!(format_percent(&Ratio::new(5, 100)), "  5%");
    assert_eq!(format_percent(&Ratio::new(42, 100)), " 42%");
    assert_eq!(format_percent(&Ratio::new(100, 100)), "100%");
    assert_eq!(format_percent(&Ratio::new(0, 1)), "  0%");
}

#[test]
fn rounding_centidegrees_to_whole_degrees() {
    assert_eq!(round_centi(4567), 46);
    assert_eq!(round_centi(4550), 46);
    assert_eq!(round_centi(4549), 45);
    assert_eq!(round_centi(0), 0);
    assert_eq!(round_centi(-120), -1);
    assert_eq!(round_centi(-40), 0);
}

#[test]
fn bar_row_has_label_bar_and_value() {
    let cmds = render_bar_graph(
        Point { x: 0, y: 19 },
        "CPU",
        "text".to_string(),
        &Ratio::new(1, 2),
    );
    assert_eq!(
        cmds,
        vec![
            DrawCmd::Text {
                text: "CPU".to_string(),
                pos: Point { x: 0, y: 24 },
                font: FontId::Font6x10,
            },
            DrawCmd::Rect {
                top_left: Point { x: 26, y: 19 },
                size: Size { width: 37, height: 4 },
            },
            DrawCmd::Text {
                text: "text".to_string(),
                pos: Point { x: 104, y: 24 },
                font: FontId::Font6x10,
            },
        ]
    );
}

#[test]
fn page_1_header_is_the_hostname() {
    let sys = snapshot();
    let cmds = render_page_1(&sys, 3);
    assert_eq!(
        cmds[0],
        DrawCmd::Arc {
            top_left: Point { x: 119, y: 0 },
            diameter: 9,
            start_deg: 108,
            sweep_deg: 245,
        }
    );
    assert_eq!(
        cmds[1],
        DrawCmd::Text {
            text: "raspberrypi".to_string(),
            pos: Point { x: 0, y: 9 },
            font: FontId::Font7x14Bold,
        }
    );
    assert_eq!(
        cmds[2],
        DrawCmd::Line { start: Point { x: 0, y: 12 }, end: Point { x: 128, y: 12 } }
    );
}

#[test]
fn page_2_header_is_the_ip_address() {
    let sys = snapshot();
    let cmds = render_page_2(&sys, 0);
    assert_eq!(
        cmds[0],
        DrawCmd::Arc {
            top_left: Point { x: 119, y: 0 },
            diameter: 9,
            start_deg: 0,
            sweep_deg: 245,
        }
    );
    assert_eq!(
        cmds[1],
        DrawCmd::Text {
            text: "192.168.1.5".to_string(),
            pos: Point { x: 0, y: 9 },
            font: FontId::Font7x14Bold,
        }
    );
}

#[test]
fn monitor_body_lays_out_gauges_and_footer() {
    let sys = snapshot();
    let cmds = render_system_monitor(&sys);
    assert_eq!(
        cmds,
        vec![
            DrawCmd::Text {
                text: "CPU".to_string(),
                pos: Point { x: 0, y: 24 },
                font: FontId::Font6x10,
            },
            DrawCmd::Rect {
                top_left: Point { x: 26, y: 19 },
                size: Size { width: 37, height: 4 },
            },
            DrawCmd::Text {
                text: " 50%".to_string(),
                pos: Point { x: 104, y: 24 },
                font: FontId::Font6x10,
            },
            DrawCmd::Text {
                text: "Mem".to_string(),
                pos: Point { x: 0, y: 34 },
                font: FontId::Font6x10,
            },
            DrawCmd::Rect {
                top_left: Point { x: 26, y: 29 },
                size: Size { width: 18, height: 4 },
            },
            DrawCmd::Text {
                text: " 25%".to_string(),
                pos: Point { x: 104, y: 34 },
                font: FontId::Font6x10,
            },
            DrawCmd::Text {
                text: "Disk".to_string(),
                pos: Point { x: 0, y: 44 },
                font: FontId::Font6x10,
            },
            DrawCmd::Rect {
                top_left: Point { x: 26, y: 39 },
                size: Size { width: 55, height: 4 },
            },
            DrawCmd::Text {
                text: " 75%".to_string(),
                pos: Point { x: 104, y: 44 },
                font: FontId::Font6x10,
            },
            DrawCmd::Text {
                text: "Up: 1h2m5s".to_string(),
                pos: Point { x: 0, y: 58 },
                font: FontId::Font6x10,
            },
            DrawCmd::Text {
                text: "C:  0°C".to_string(),
                pos: Point { x: 84, y: 58 },
                font: FontId::Font6x10,
            },
        ]
    );
}

#[test]
fn absent_disk_renders_a_placeholder_over_an_empty_bar() {
    let mut sys = SysInfo::new();
    let mut r = reading();
    r.disks = vec![];
    sys.refresh(r);
    let cmds = render_system_monitor(&sys);
    assert_eq!(
        cmds[7],
        DrawCmd::Rect { top_left: Point { x: 26, y: 39 }, size: Size { width: 0, height: 4 } }
    );
    assert_eq!(
        cmds[8],
        DrawCmd::Text {
            text: "N/A".to_string(),
            pos: Point { x: 104, y: 44 },
            font: FontId::Font6x10,
        }
    );
}

#[test]
fn footer_shows_rounded_temperature() {
    let mut sys = SysInfo::new();
    let mut r = reading();
    r.components = vec![raspi_monitor::system::ComponentReading {
        label: "cpu_thermal temp1".to_string(),
        temperature_centi: 4567,
    }];
    sys.refresh(r);
    let cmds = render_system_monitor(&sys);
    assert_eq!(
        cmds[10],
        DrawCmd::Text {
            text: "C: 46°C".to_string(),
            pos: Point { x: 84, y: 58 },
            font: FontId::Font6x10,
        }
    );
}

#[test]
fn rendering_twice_yields_identical_commands() {
    let sys = snapshot();
    let first = render_page_1(&sys, 7);
    let second = render_page_1(&sys, 7);
    assert_eq!(first, second);
    let first = render_page_2(&sys, 9);
    let second = render_page_2(&sys, 9);
    assert_eq!(first, second);
}
