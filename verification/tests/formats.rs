use opencode_cloud::disk_usage::{
    build_disk_usage_report, build_host_disk_report, format_bytes_i64, format_bytes_u64,
    format_delta_i64, format_delta_u64, format_disk_usage_report, format_host_disk_report,
    DiskUsageReport, HostDiskReport,
};
use opencode_cloud::status::{
    commit_link, config_path_label, format_continuation, format_duration, format_kv,
    format_label, image_source_text, parse_timestamp_display, rfc3339_candidate,
};
use std::time::Duration;

fn float_rendering(value: u64) -> String {
    let units = ["B", "KB", "MB", "GB", "TB", "PB"];
    let mut size = value as f64;
    let mut index = 0usize;
    while size >= 1024.0 && index + 1 < units.len() {
        size /= 1024.0;
        index += 1;
    }
    if index == 0 {
        format!("{value} {}", units[index])
    } else {
        format!("{size:.2} {}", units[index])
    }
}

#[test]
fn format_bytes_examples() {
    assert_eq!(format_bytes_u64(0), "0 B");
    assert_eq!(format_bytes_u64(1023), "1023 B");
    assert_eq!(format_bytes_u64(1024), "1.00 KB");
    assert_eq!(format_bytes_u64(1536), "1.50 KB");
    assert_eq!(format_bytes_u64(1048576), "1.00 MB");
    assert_eq!(format_bytes_i64(-1), "unknown");
    assert_eq!(format_bytes_i64(2048), "2.00 KB");
}

#[test]
fn format_bytes_agrees_with_float_rendering() {
    let mut samples: Vec<u64> = vec![
        1152, 1035, 1034, 1029, 1028, 1126, 1177, 5_000, 123_456, 999_999, 1_048_575,
        1_073_741_824, 1_099_511_627_776, 1_125_899_906_842_624, u64::MAX, u64::MAX - 1,
        (1u64 << 53) + 1, (1u64 << 60) + 12345, 9_007_199_254_740_993,
    ];
    let mut x: u64 = 0x9E37_79B9_7F4A_7C15;
    for _ in 0..20000 {
        x ^= x << 13;
        x ^= x >> 7;
        x ^= x << 17;
        let shift = (x % 64) as u32;
        samples.push(x >> shift);
    }
    for k in 1..5u64 {
        for frac in 0..=400u64 {
            samples.push((1u64 << (10 * k)) + frac * (1u64 << (10 * k)) / 400);
            samples.push(((1u64 << (10 * k)) * (200 + frac)) / 200 + 1);
        }
    }
    for v in samples {
        assert_eq!(format_bytes_u64(v), float_rendering(v), "value {v}");
    }
}

#[test]
fn deltas() {
    assert_eq!(format_delta_i64(Some(3072), Some(1024)).as_deref(), Some("+2.00 KB"));
    assert_eq!(format_delta_i64(Some(1024), Some(3072)).as_deref(), Some("-2.00 KB"));
    assert_eq!(format_delta_i64(None, Some(3072)), None);
    assert_eq!(format_delta_u64(Some(5), Some(5)).as_deref(), Some("+0 B"));
    assert_eq!(format_delta_u64(Some(1), Some(1025)).as_deref(), Some("-1.00 KB"));
    assert_eq!(format_delta_u64(Some(1), None), None);
}

#[test]
fn disk_usage_report_lines() {
    let before = build_disk_usage_report(Some(1024), Some(0), Some(0), Some(0));
    let after = build_disk_usage_report(Some(2048), Some(1024), Some(0), Some(0));
    assert_eq!(after.total, Some(3072));
    let lines = format_disk_usage_report("after update", after, Some(before));
    assert_eq!(
        lines,
        vec![
            "Docker disk usage (after update):".to_string(),
            "  Images:      2.00 KB".to_string(),
            "  Containers:  1.00 KB".to_string(),
            "  Volumes:     0 B".to_string(),
            "  Build cache: 0 B".to_string(),
            "  Total:       3.00 KB".to_string(),
            "  Delta:       +2.00 KB".to_string(),
        ]
    );
    let partial = build_disk_usage_report(Some(1), None, Some(1), Some(1));
    assert_eq!(partial.total, None);
    let lines = format_disk_usage_report("before", partial, None);
    assert_eq!(lines.len(), 6);
    assert_eq!(lines[2], "  Containers:  unknown");
    assert_eq!(lines[5], "  Total:       unknown");
}

#[test]
fn host_disk_report_lines() {
    assert!(build_host_disk_report(&vec![]).is_none());
    let report = build_host_disk_report(&vec![(4096, 1024), (u64::MAX, 1)]).expect("disks");
    assert_eq!(report.total, u64::MAX);
    assert_eq!(report.available, 1025);
    assert_eq!(report.used, u64::MAX - 1025);
    let small = HostDiskReport { total: 4096, available: 1024, used: 3072 };
    let base = HostDiskReport { total: 4096, available: 2048, used: 2048 };
    let lines = format_host_disk_report("after purge", small, Some(base));
    assert_eq!(
        lines,
        vec![
            "Host disk (after purge):".to_string(),
            "  Total:       4.00 KB".to_string(),
            "  Available:   1.00 KB".to_string(),
            "  Used:        3.00 KB".to_string(),
            "  Delta used:  +1.00 KB".to_string(),
        ]
    );
    let r = DiskUsageReport { images: None, containers: None, volumes: None, build_cache: None, total: None };
    assert_eq!(format_disk_usage_report("x", r, None)[1], "  Images:      unknown");
}

#[test]
fn format_duration_seconds() {
    assert_eq!(format_duration(Duration::from_secs(30).as_secs()), "30s");
    assert_eq!(format_duration(Duration::from_secs(59).as_secs()), "59s");
}

#[test]
fn format_duration_minutes() {
    assert_eq!(format_duration(Duration::from_secs(60).as_secs()), "1m");
    assert_eq!(format_duration(Duration::from_secs(90).as_secs()), "1m 30s");
    assert_eq!(format_duration(Duration::from_secs(120).as_secs()), "2m");
}

#[test]
fn format_duration_hours() {
    assert_eq!(format_duration(Duration::from_secs(3600).as_secs()), "1h");
    assert_eq!(format_duration(Duration::from_secs(3660).as_secs()), "1h 1m");
    assert_eq!(format_duration(Duration::from_secs(7200).as_secs()), "2h");
}

#[test]
fn format_duration_days() {
    assert_eq!(format_duration(Duration::from_secs(86400).as_secs()), "1d");
    assert_eq!(format_duration(Duration::from_secs(90000).as_secs()), "1d 1h");
}

#[test]
fn status_labels_align() {
    assert_eq!(format_label("State:"), "State:         ");
    assert_eq!(format_kv("State:", "running"), "State:          running");
    assert_eq!(format_kv("A very long label:", "x"), "A very long label: x");
    assert_eq!(format_continuation("next"), "                next");
    assert_eq!(config_path_label(true), "Local Config:");
    assert_eq!(config_path_label(false), "Config:");
    assert_eq!(commit_link("unknown"), None);
    assert_eq!(commit_link("abc1234").as_deref(), Some("https://github.com/pRizz/opencode/commit/abc1234"));
    assert_eq!(image_source_text("prebuilt", Some("ghcr.io")), "prebuilt from ghcr.io");
    assert_eq!(image_source_text("prebuilt", None), "prebuilt");
    assert_eq!(image_source_text("build", None), "built from source");
}

#[test]
fn parse_timestamp_display_works() {
    let timestamp = "2024-01-15T10:30:00.123Z";
    let result = parse_timestamp_display(timestamp);
    assert!(result.is_some());
    let display = result.unwrap();
    assert!(display.contains("2024-01-15"));
    assert!(display.contains("10:30:00"));
}

#[test]
fn timestamps_without_fraction_parse() {
    assert_eq!(rfc3339_candidate("2024-01-15T10:30:00Z"), "2024-01-15T10:30:00.0Z");
    assert_eq!(rfc3339_candidate("2024-01-15T10:30:00.5Z"), "2024-01-15T10:30:00.5Z");
    assert_eq!(
        parse_timestamp_display("2024-01-15T10:30:00Z").as_deref(),
        Some("2024-01-15 10:30:00 UTC")
    );
    assert_eq!(parse_timestamp_display("yesterday"), None);
}
