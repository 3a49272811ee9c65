use sysagent::debug_log::generate_debug_log;
use sysagent::percent::Percent;
use sysagent::rate::IfaceCounters;
use sysagent::render::{
    calculate_disk_load, color_disk_percentage, create_load_display, create_progress_bar,
    gb_hundredths, kb_hundredths, render_disk_line, render_frame, render_network_line,
};
use sysagent::settings::AppSettings;
use sysagent::snapshot::{build_frame, DiskReading, Snapshot};
use sysagent::text::{dec_u128, two_dec_u128};

const OVERLOAD_MARKER: &str = "\x1b[48;5;208m !!! overloaded \x1b[0m";

fn bars_settings() -> AppSettings {
    AppSettings {
        show_progress_bars: true,
        show_debug_info: false,
    }
}

fn percent_settings() -> AppSettings {
    AppSettings {
        show_progress_bars: false,
        show_debug_info: false,
    }
}

#[test]
fn decimal_rendering() {
    assert_eq!(dec_u128(0), "0");
    assert_eq!(dec_u128(7), "7");
    assert_eq!(dec_u128(1234), "1234");
    assert_eq!(two_dec_u128(49), "0.49");
    assert_eq!(two_dec_u128(100), "1.00");
    assert_eq!(two_dec_u128(12345), "123.45");
    assert_eq!(two_dec_u128(5), "0.05");
}

#[test]
fn unit_conversions() {
    // 500 bytes is 0.48828 KB, rounding to 0.49
    assert_eq!(kb_hundredths(500), 49);
    assert_eq!(kb_hundredths(1024), 100);
    assert_eq!(kb_hundredths(0), 0);
    assert_eq!(gb_hundredths(1073741824), 100);
    assert_eq!(gb_hundredths(536870912), 50);
    assert_eq!(gb_hundredths(0), 0);
}

#[test]
fn bar_empty_at_zero() {
    let bar = create_progress_bar(&Percent::from_ratio(0, 1));
    assert_eq!(bar, "[\x1b[32m\x1b[0m          ]");
}

#[test]
fn bar_full_at_hundred() {
    let bar = create_progress_bar(&Percent::from_ratio(100, 1));
    assert_eq!(bar, "[\x1b[32m#####\x1b[33m##\x1b[38;5;208m###\x1b[0m]");
}

#[test]
fn bar_six_cells_at_fifty_five() {
    // 55% fills 6 cells: five normal-colored, the sixth warning-colored
    let bar = create_progress_bar(&Percent::from_ratio(55, 1));
    assert_eq!(bar, "[\x1b[32m#####\x1b[33m#\x1b[0m    ]");
}

#[test]
fn load_display_palettes() {
    assert_eq!(create_load_display(&Percent::from_ratio(40, 1)), "\x1b[32m40%\x1b[0m");
    assert_eq!(create_load_display(&Percent::from_ratio(60, 1)), "\x1b[33m60%\x1b[0m");
    assert_eq!(
        create_load_display(&Percent::from_ratio(90, 1)),
        "\x1b[38;5;208m90%\x1b[0m"
    );
    assert_eq!(color_disk_percentage(&Percent::from_ratio(40, 1)), "\x1b[32m40%\x1b[0m");
    assert_eq!(color_disk_percentage(&Percent::from_ratio(60, 1)), "\x1b[33m60%\x1b[0m");
    // disks use red, not orange, above the critical boundary
    assert_eq!(color_disk_percentage(&Percent::from_ratio(90, 1)), "\x1b[31m90%\x1b[0m");
}

#[test]
fn disk_load_follows_display_mode() {
    let p = Percent::from_ratio(90, 1);
    assert_eq!(
        calculate_disk_load(&p, &bars_settings()),
        create_progress_bar(&p)
    );
    assert_eq!(
        calculate_disk_load(&p, &percent_settings()),
        color_disk_percentage(&p)
    );
}

#[test]
fn disk_marker_absent_at_exactly_seventy() {
    // 7 of 10 bytes used: exactly 70.0%, no marker
    let d = DiskReading::new(10, 3);
    let line = render_disk_line(&d, 0, &percent_settings());
    assert!(!line.contains("overloaded"));
    assert_eq!(line.chars().count(), 80);
}

#[test]
fn disk_marker_present_above_seventy() {
    // 701 of 1000 bytes used: 70.1%, marker present
    let d = DiskReading::new(1000, 299);
    let line = render_disk_line(&d, 0, &percent_settings());
    assert!(line.ends_with(OVERLOAD_MARKER));
    let field: String = line.chars().take(line.chars().count() - OVERLOAD_MARKER.chars().count()).collect();
    assert_eq!(field.chars().count(), 80);
}

#[test]
fn disk_marker_independent_of_severity_boundary() {
    // 72%: above the 70% overload threshold, below the 75% critical one
    let d = DiskReading::new(100, 28);
    let line = render_disk_line(&d, 0, &percent_settings());
    assert!(line.contains("overloaded"));
    assert!(line.contains("\x1b[33m72%"));
    // 74% in bar mode still carries the marker
    let d = DiskReading::new(100, 26);
    let line = render_disk_line(&d, 0, &bars_settings());
    assert!(line.ends_with(OVERLOAD_MARKER));
}

#[test]
fn disk_line_content() {
    // a 1 GB disk with half used, shown in percent mode
    let d = DiskReading::new(1073741824, 536870912);
    let line = render_disk_line(&d, 0, &percent_settings());
    assert!(line.starts_with("ROM \x1b[32m50%\x1b[0m (Disk 1: 0.50 GB / 1.00 GB)"));
    assert!(!line.contains("overloaded"));
}

#[test]
fn network_line_rendering() {
    assert_eq!(
        render_network_line("Network Received: ", 500),
        "Network Received: 0.49 KB/s"
    );
    assert_eq!(
        render_network_line("Network Transmitted: ", 0),
        "Network Transmitted: 0.00 KB/s"
    );
}

fn sample_snapshot() -> Snapshot {
    Snapshot {
        cpu_e4: 550000,
        memory_used: 1,
        memory_total: 2,
        disks: vec![DiskReading::new(1073741824, 536870912)],
        interfaces: vec![IfaceCounters::new("eth0".to_string(), 1500, 400)],
    }
}

#[test]
fn frame_end_to_end() {
    let prev = vec![IfaceCounters::new("eth0".to_string(), 1000, 500)];
    let snap = sample_snapshot();
    let frame = build_frame(&prev, &snap);
    assert_eq!(frame.received, 500);
    assert_eq!(frame.transmitted, 0);
    let lines = render_frame(&frame, &bars_settings());
    assert_eq!(lines.len(), 6);
    assert_eq!(lines[0], format!("CPU {}", create_progress_bar(&Percent::from_ratio(55, 1))));
    assert_eq!(lines[1], format!("RAM {}", create_progress_bar(&Percent::from_ratio(50, 1))));
    assert_eq!(lines[2], "Network Received: 0.49 KB/s");
    assert_eq!(lines[3], "Network Transmitted: 0.00 KB/s");
    assert_eq!(lines[4], "-".repeat(50));
    assert!(lines[5].starts_with("ROM "));
}

#[test]
fn render_is_idempotent() {
    let prev = vec![IfaceCounters::new("eth0".to_string(), 1000, 500)];
    let snap = sample_snapshot();
    let frame = build_frame(&prev, &snap);
    for settings in [bars_settings(), percent_settings()] {
        let first = render_frame(&frame, &settings);
        let second = render_frame(&frame, &settings);
        assert_eq!(first, second);
    }
}

#[test]
fn debug_log_text() {
    let snap = Snapshot {
        cpu_e4: 123456,
        memory_used: 1,
        memory_total: 2,
        disks: vec![DiskReading::new(1073741824, 536870912)],
        interfaces: vec![IfaceCounters::new("eth0".to_string(), 1073741824, 536870912)],
    };
    let with_debug = AppSettings {
        show_progress_bars: true,
        show_debug_info: true,
    };
    let text = generate_debug_log(&snap, &with_debug, "2024-01-01 00:00:00.000");
    assert_eq!(
        text,
        "Average CPU Usage: 12.35%\n\
         Average RAM Usage: 50.00%\n\
         Total Network Received: 1.00 GB\n\
         Total Network Transmitted: 0.50 GB\n\
         Disk 1 Usage: 50.00%\n\
         Timestamp: 2024-01-01 00:00:00.000\n"
    );
    let without_debug = AppSettings {
        show_progress_bars: true,
        show_debug_info: false,
    };
    let text = generate_debug_log(&snap, &without_debug, "unused");
    assert!(!text.contains("Timestamp"));
}
