//! The panel of the memory files.

use chrono::Utc;
use peri_kit::event::{Event, EventResult, KeyCode, KeyEvent};
use peri_kit::panels::memory::{
    editor_command, format_relative_time, format_size, relative_time, Ago, MemoryEffect,
    MemoryEntry, MemoryPanel,
};
use peri_kit::time::Moment;

fn size(bytes: u64) -> String {
    let s = format_size(bytes);
    let unit = match s.unit {
        "panel-memory-unit-b" => "B",
        "panel-memory-unit-kb" => "KB",
        "panel-memory-unit-mb" => "MB",
        "panel-memory-unit-gb" => "GB",
        _ => panic!("no unit"),
    };
    format!("{} {}", s.number, unit)
}

#[test]
fn test_format_size_bytes_below_kb() {
    assert_eq!(size(0), "0 B");
    assert_eq!(size(1), "1.0 B");
    assert_eq!(size(9), "9.0 B");
    assert_eq!(size(10), "10 B");
    assert_eq!(size(512), "512 B");
    assert_eq!(size(1023), "1023 B");
}

#[test]
fn test_format_size_kb_threshold() {
    assert_eq!(size(1024), "1.0 KB");
    assert_eq!(size(1536), "1.5 KB");
    assert_eq!(size(10240), "10 KB");
    assert_eq!(size(51200), "50 KB");
}

#[test]
fn test_format_size_mb_and_gb() {
    assert_eq!(size(1048576), "1.0 MB");
    assert_eq!(size(5 * 1024 * 1024), "5.0 MB");
    assert_eq!(size(1024 * 1024 * 1024), "1.0 GB");
}

#[test]
fn test_format_size_u64_max_no_overflow() {
    let s = size(u64::MAX);
    assert!(s.ends_with(" GB"), "expected GB suffix for u64::MAX, got: {}", s);
}

#[test]
fn sizes_round_as_floating_point_does() {
    let mut samples: Vec<u64> = vec![u64::MAX, u64::MAX - 1, 1 << 53, (1 << 53) + 1, (1 << 54) + 3];
    let mut x: u64 = 0x9e37_79b9_7f4a_7c15;
    for i in 0..20_000u64 {
        x = x.wrapping_mul(6364136223846793005).wrapping_add(1442695040888963407);
        samples.push(x >> (i % 64));
    }
    for k in 0..4096u64 {
        samples.push(k * 256);
        samples.push(k * 512 * 1024 + 51);
    }
    for bytes in samples {
        if bytes == 0 {
            continue;
        }
        let (unit, name): (u64, &str) = if bytes >= 1 << 30 {
            (1 << 30, "GB")
        } else if bytes >= 1 << 20 {
            (1 << 20, "MB")
        } else if bytes >= 1 << 10 {
            (1 << 10, "KB")
        } else {
            (1, "B")
        };
        let v = bytes as f64 / unit as f64;
        let expected =
            if v >= 10.0 { format!("{:.0} {}", v, name) } else { format!("{:.1} {}", v, name) };
        assert_eq!(size(bytes), expected, "{}", bytes);
    }
}

fn before(d: chrono::Duration) -> Moment {
    let t = Utc::now() - d;
    Moment { secs: t.timestamp(), nanos: t.timestamp_subsec_nanos() }
}

fn said(ts: Moment) -> String {
    match format_relative_time(ts) {
        Ago::JustNow => "just now".to_string(),
        Ago::Minutes(n) => format!("{n}m ago"),
        Ago::Hours(n) => format!("{n}h ago"),
        Ago::Days(n) => format!("{n}d ago"),
        Ago::Date(d) => d,
    }
}

#[test]
fn test_format_relative_time_just_now() {
    assert_eq!(said(before(chrono::Duration::seconds(0))), "just now");
    assert_eq!(said(before(chrono::Duration::seconds(59))), "just now");
}

#[test]
fn test_format_relative_time_minutes() {
    assert_eq!(said(before(chrono::Duration::minutes(5))), "5m ago");
    assert_eq!(said(before(chrono::Duration::minutes(59))), "59m ago");
}

#[test]
fn test_format_relative_time_hours() {
    assert_eq!(said(before(chrono::Duration::hours(2))), "2h ago");
    assert_eq!(said(before(chrono::Duration::hours(23))), "23h ago");
}

#[test]
fn test_format_relative_time_days() {
    assert_eq!(said(before(chrono::Duration::days(5))), "5d ago");
    assert_eq!(said(before(chrono::Duration::days(29))), "29d ago");
}

#[test]
fn test_format_relative_time_over_30_days_falls_to_date() {
    let result = said(before(chrono::Duration::days(40)));
    assert!(
        result.len() == 10 && result.chars().nth(4) == Some('-'),
        "expected date format YYYY-MM-DD, got: {}",
        result
    );
}

#[test]
fn a_date_is_written_in_utc() {
    let ts = Moment { secs: 1_700_000_000, nanos: 0 };
    let now = Moment { secs: 1_800_000_000, nanos: 0 };
    assert!(matches!(relative_time(ts, now), Ago::Date(d) if d == "2023-11-14"));
}

#[test]
fn the_editor_is_taken_from_its_setting() {
    let c = editor_command(Some("code  --wait"), "/m").unwrap();
    assert_eq!((c.program.as_str(), c.args), ("code", vec!["--wait".to_string(), "/m".into()]));
    let c = editor_command(None, "/m").unwrap();
    assert_eq!((c.program.as_str(), c.args), ("vi", vec!["/m".to_string()]));
    assert!(editor_command(Some("  "), "/m").is_none());
}

#[test]
fn enter_opens_the_selected_file() {
    let entry = |p: &str| MemoryEntry { path: p.into(), size_bytes: 1, modified: None };
    let entries = vec![entry("/a"), entry("/b")];
    let mut p = MemoryPanel::default();
    p.handle_event(&Event::Key(KeyEvent::plain(KeyCode::Down)), &entries, None);
    let (r, e) = p.handle_event(&Event::Key(KeyEvent::plain(KeyCode::Enter)), &entries, None);
    assert_eq!(r, EventResult::Consumed);
    assert!(matches!(e, MemoryEffect::Open(f) if f == "/b"));
    let (_, e) = p.handle_event(&Event::Key(KeyEvent::plain(KeyCode::Esc)), &entries, None);
    assert!(matches!(e, MemoryEffect::Close));
}
