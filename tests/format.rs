use chrono::{Datelike, Timelike};
use muzzman_logger::level::{Color, Level};
use muzzman_logger::record::{ElementKey, LocalStamp, LocationKey, LogRecord, Origin, Timestamp};
use muzzman_logger::render::{format_record, format_with_stamp, stamp_string, StyledLine};

fn record(level: Level) -> LogRecord {
    LogRecord {
        level,
        time: Timestamp { secs: 0, nanos: 0 },
        origin: Origin::Daemon,
        module: None,
        file: None,
        line: None,
        message: "hello".to_string(),
    }
}

fn stamp() -> LocalStamp {
    LocalStamp { year: 2024, month: 3, day: 5, hour: 14, minute: 7 }
}

fn texts(line: &StyledLine) -> Vec<String> {
    line.segments.iter().map(|s| s.text.clone()).collect()
}

#[test]
fn each_level_has_its_label_and_color() {
    let cases = [
        (Level::Error, "ERROR: ", Color::Red),
        (Level::Warn, "Warn:  ", Color::Yellow),
        (Level::Info, "Info:  ", Color::White),
        (Level::Debug, "Debug: ", Color::Blue),
        (Level::Trace, "Trace: ", Color::Green),
    ];
    for (level, label, color) in cases {
        let line = format_with_stamp(&record(level), Some(stamp()));
        assert_eq!(line.segments[0].text, label);
        assert_eq!(line.segments[0].color, color);
        assert_eq!(level.label().len(), 6);
    }
}

#[test]
fn absent_module_and_location_leave_no_trace() {
    let line = format_with_stamp(&record(Level::Info), Some(stamp()));
    assert_eq!(line.plain_text(), "Info:  Daemon 05/03/2024 14:07 hello\n");
    assert!(!line.plain_text().contains("14:07  "));
    assert_eq!(line.segments.len(), 4);
}

#[test]
fn file_without_line_is_omitted() {
    let mut r = record(Level::Warn);
    r.file = Some("a.rs".to_string());
    let line = format_with_stamp(&r, Some(stamp()));
    assert_eq!(line.plain_text(), "Warn:  Daemon 05/03/2024 14:07 hello\n");
    assert!(!line.plain_text().contains("a.rs"));
}

#[test]
fn line_without_file_is_omitted() {
    let mut r = record(Level::Warn);
    r.line = Some(3);
    let line = format_with_stamp(&r, Some(stamp()));
    assert_eq!(line.plain_text(), "Warn:  Daemon 05/03/2024 14:07 hello\n");
}

#[test]
fn full_record_has_every_segment() {
    let mut r = record(Level::Error);
    r.origin = Origin::LibraryCore;
    r.module = Some("app::net".to_string());
    r.file = Some("a.rs".to_string());
    r.line = Some(42);
    let line = format_with_stamp(&r, Some(stamp()));
    assert_eq!(
        texts(&line),
        vec!["ERROR: ", "MuzzManLib ", "05/03/2024 14:07 ", "app::net ", "a.rs:42 ", "hello\n"]
    );
    let colors: Vec<Color> = line.segments.iter().map(|s| s.color).collect();
    assert_eq!(
        colors,
        vec![
            Color::Red,
            Color::White,
            Color::Blue,
            Color::Ansi256(8),
            Color::Ansi256(8),
            Color::White
        ]
    );
}

#[test]
fn timestamp_renders_day_month_year_hour_minute() {
    assert_eq!(stamp_string(&stamp()), "05/03/2024 14:07");
}

#[test]
fn timestamp_pads_small_and_negative_years() {
    let s = LocalStamp { year: 7, month: 12, day: 31, hour: 0, minute: 0 };
    assert_eq!(stamp_string(&s), "31/12/0007 00:00");
    let s = LocalStamp { year: -44, month: 1, day: 1, hour: 23, minute: 59 };
    assert_eq!(stamp_string(&s), "01/01/-0044 23:59");
    let s = LocalStamp { year: 10000, month: 1, day: 1, hour: 0, minute: 0 };
    assert_eq!(stamp_string(&s), "01/01/+10000 00:00");
    let s = LocalStamp { year: 9999, month: 12, day: 31, hour: 23, minute: 59 };
    assert_eq!(stamp_string(&s), "31/12/9999 23:59");
}

#[test]
fn timestamp_matches_chrono_for_large_and_negative_years() {
    for (y, m, d) in [(10000, 1, 1), (262000, 6, 30), (-44, 3, 15), (0, 2, 29)] {
        let date = chrono::NaiveDate::from_ymd_opt(y, m, d).unwrap().and_hms_opt(8, 5, 0).unwrap();
        let s = LocalStamp { year: y, month: m, day: d, hour: 8, minute: 5 };
        assert_eq!(stamp_string(&s), date.format("%d/%m/%Y %H:%M").to_string());
    }
}

#[test]
fn missing_stamp_is_omitted() {
    let line = format_with_stamp(&record(Level::Debug), None);
    assert_eq!(line.plain_text(), "Debug: Daemon hello\n");
}

#[test]
fn record_time_is_placed_on_the_local_calendar() {
    let secs = 1_709_647_620;
    let mut r = record(Level::Info);
    r.time = Timestamp { secs, nanos: 0 };
    let line = format_record(&r);
    let local = chrono::DateTime::from_timestamp(secs, 0).unwrap().with_timezone(&chrono::Local);
    let expected = stamp_string(&LocalStamp {
        year: local.year(),
        month: local.month(),
        day: local.day(),
        hour: local.hour(),
        minute: local.minute(),
    });
    assert_eq!(line.segments[2].text, format!("{expected} "));
    assert_eq!(expected, local.format("%d/%m/%Y %H:%M").to_string());
}

#[test]
fn out_of_range_time_has_no_stamp() {
    let mut r = record(Level::Info);
    r.time = Timestamp { secs: i64::MAX, nanos: 0 };
    let line = format_record(&r);
    assert_eq!(line.plain_text(), "Info:  Daemon hello\n");
}

#[test]
fn element_origin_uses_the_session_debug_text() {
    let mut r = record(Level::Trace);
    r.origin = Origin::Element(ElementKey { uid: 4, location: vec![0, 2] });
    let line = format_with_stamp(&r, None);
    let id = muzzman_lib::element::ElementId {
        uid: 4,
        location_id: muzzman_lib::location::LocationId(vec![0, 2]),
    };
    assert_eq!(line.segments[1].text, format!("{id:?} "));
    assert!(line.segments[1].text.contains("4"));
}

#[test]
fn location_origin_uses_the_session_debug_text() {
    let mut r = record(Level::Trace);
    r.origin = Origin::Location(LocationKey { path: vec![1, 5] });
    let line = format_with_stamp(&r, None);
    let id = muzzman_lib::location::LocationId(vec![1, 5]);
    assert_eq!(line.segments[1].text, format!("{id:?} "));
    assert!(line.segments[1].text.contains("5"));
}

#[test]
fn far_time_in_range_still_has_a_stamp() {
    let secs = 7_000_000_000_000;
    let mut r = record(Level::Info);
    r.time = Timestamp { secs, nanos: 999_999_999 };
    let line = format_record(&r);
    let local = chrono::DateTime::from_timestamp(secs, 999_999_999)
        .unwrap()
        .with_timezone(&chrono::Local);
    assert_eq!(line.segments.len(), 4);
    assert_eq!(line.segments[2].text, format!("{} ", local.format("%d/%m/%Y %H:%M")));
    assert!(line.segments[2].text.contains("/+2"));
}
