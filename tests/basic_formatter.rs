use chrono::{Datelike, Timelike};
use spdlog_core::basic_formatter::{BasicFormatter, LocalTimeCache, LocalTimeCacher, Time};
use spdlog_core::level::Level;
use spdlog_core::record::{Record, Timestamp, MAX_TIMESTAMP_SECS, MIN_TIMESTAMP_SECS};

fn local_text(t: Timestamp, pattern: &str) -> String {
    let utc = chrono::DateTime::from_timestamp(t.secs, t.nanos).unwrap();
    let local: chrono::DateTime<chrono::Local> = utc.into();
    local.format(pattern).to_string()
}

/// The time part of a line for `t`, built from chrono's local breakdown: the
/// year zero-padded to at least four digits, with a `-` before years under 0.
fn expected_time_text(t: Timestamp) -> String {
    let utc = chrono::DateTime::from_timestamp(t.secs, t.nanos).unwrap();
    let local: chrono::DateTime<chrono::Local> = utc.into();
    let year = local.year();
    let year_text = if year >= 0 { format!("{:04}", year) } else { format!("-{:04}", -(year as i64)) };
    format!(
        "{}-{:02}-{:02} {:02}:{:02}:{:02}.{:03}",
        year_text,
        local.month(),
        local.day(),
        local.hour(),
        local.minute(),
        local.second(),
        local.nanosecond() % 1_000_000_000 / 1_000_000
    )
}

fn sample_time() -> Time {
    Time { year: 2021, month: 12, day: 23, hour: 1, minute: 23, second: 45, millisecond: 67 }
}

#[test]
fn format() {
    let record = Record::new(Level::Warn, "test log content");
    let mut buf = String::new();
    let extra_info = BasicFormatter::new().format(&record, &mut buf).unwrap();

    assert_eq!(
        format!("[{}] [warn] test log content", local_text(record.time(), "%Y-%m-%d %H:%M:%S.%3f")),
        buf
    );
    assert_eq!(Some(27..31), extra_info.style_range());
}

#[test]
fn format_with_fixed_time() {
    let record = Record::new(Level::Warn, "test log content");
    let mut buf = String::new();
    let info = BasicFormatter::format_with_time(&sample_time(), &record, &mut buf);
    assert_eq!(buf, "[2021-12-23 01:23:45.067] [warn] test log content");
    assert_eq!(info.style_range(), Some(27..31));
    assert_eq!(&buf[27..31], "warn");
}

#[test]
fn format_with_name_and_location() {
    let record = Record::new(Level::Error, "boom")
        .with_logger_name("app")
        .with_source_location("main.rs", 42);
    let mut buf = String::from("> ");
    let info = BasicFormatter::format_with_time(&sample_time(), &record, &mut buf);
    assert_eq!(buf, "> [2021-12-23 01:23:45.067] [app] [error] [main.rs:42] boom");
    let range = info.style_range().unwrap();
    assert_eq!(&buf[range], "error");
}

#[test]
fn style_range_counts_bytes() {
    let record = Record::new(Level::Critical, "x").with_logger_name("jörð");
    let mut buf = String::new();
    let info = BasicFormatter::format_with_time(&sample_time(), &record, &mut buf);
    assert_eq!(buf, "[2021-12-23 01:23:45.067] [jörð] [critical] x");
    let range = info.style_range().unwrap();
    assert_eq!(range, 36..44);
    assert_eq!(&buf[range], "critical");
}

#[test]
fn format_pads_and_signs_fields() {
    let time = Time { year: -44, month: 3, day: 5, hour: 0, minute: 7, second: 9, millisecond: 5 };
    let record = Record::new(Level::Trace, "");
    let mut buf = String::new();
    BasicFormatter::format_with_time(&time, &record, &mut buf);
    assert_eq!(buf, "[-0044-03-05 00:07:09.005] [trace] ");
    let time = Time { year: 12345, month: 10, day: 31, hour: 23, minute: 59, second: 59, millisecond: 999 };
    let mut buf = String::new();
    BasicFormatter::format_with_time(&time, &record, &mut buf);
    assert_eq!(buf, "[12345-10-31 23:59:59.999] [trace] ");
    let time = Time { year: 7, month: 1, day: 1, hour: 0, minute: 0, second: 0, millisecond: 0 };
    let mut buf = String::new();
    BasicFormatter::format_with_time(&time, &record, &mut buf);
    assert_eq!(buf, "[0007-01-01 00:00:00.000] [trace] ");
}

#[test]
fn format_before_epoch_and_at_range_ends() {
    let formatter = BasicFormatter::new();
    for (secs, nanos) in [(-1_000_000_000, 5_000_000), (MIN_TIMESTAMP_SECS, 0), (MAX_TIMESTAMP_SECS, 999_999_999)] {
        let time = Timestamp::new(secs, nanos).unwrap();
        let mut buf = String::new();
        formatter.format(&Record::new(Level::Info, "p").with_time(time), &mut buf).unwrap();
        assert_eq!(buf, format!("[{}] [info] p", expected_time_text(time)));
    }
}

#[test]
fn format_leap_second() {
    let time = Timestamp::new(1_483_228_799, 1_250_000_000).unwrap();
    let formatter = BasicFormatter::new();
    let mut buf = String::new();
    formatter.format(&Record::new(Level::Info, "leap").with_time(time), &mut buf).unwrap();
    let plain = Timestamp::new(1_483_228_799, 250_000_000).unwrap();
    let mut expected = String::new();
    BasicFormatter::new().format(&Record::new(Level::Info, "leap").with_time(plain), &mut expected).unwrap();
    assert_eq!(buf, expected);
    assert_eq!(&buf[20..24], ".250");
}

#[test]
fn format_uses_record_time() {
    let time = Timestamp::new(1_640_222_625, 67_000_000).unwrap();
    let record = Record::new(Level::Info, "m").with_time(time);
    let formatter = BasicFormatter::default();
    let mut buf = String::new();
    formatter.format(&record, &mut buf).unwrap();
    assert_eq!(buf, format!("[{}] [info] m", local_text(time, "%Y-%m-%d %H:%M:%S.%3f")));
}

#[test]
fn repeated_format_in_one_second() {
    let formatter = BasicFormatter::new();
    let first = Timestamp::new(1_640_222_625, 67_000_000).unwrap();
    let second = Timestamp::new(1_640_222_625, 912_345_678).unwrap();
    let mut a = String::new();
    let mut b = String::new();
    formatter.format(&Record::new(Level::Info, "a").with_time(first), &mut a).unwrap();
    formatter.format(&Record::new(Level::Warn, "b").with_time(second), &mut b).unwrap();
    assert_eq!(a[..20], b[..20]);
    assert_eq!(&a[20..24], ".067");
    assert_eq!(&b[20..24], ".912");
    assert_eq!(b, format!("[{}] [warn] b", local_text(second, "%Y-%m-%d %H:%M:%S.%3f")));
}

#[test]
fn cacher_reuses_fields_within_a_second() {
    let t = Timestamp::new(1_000, 250_000_000).unwrap();
    let cached = Time { year: 1999, month: 1, day: 2, hour: 3, minute: 4, second: 5, millisecond: 6 };
    let mut cacher = LocalTimeCacher { cache: Some(LocalTimeCache { last_secs: 1_000, local_time: cached }) };
    let r = cacher.get(t);
    assert_eq!(r, Time { millisecond: 250, ..cached });
    assert_eq!(cacher.cache, Some(LocalTimeCache { last_secs: 1_000, local_time: r }));
}

#[test]
fn cacher_recomputes_on_new_second() {
    let stale = Time { year: 1999, month: 1, day: 2, hour: 3, minute: 4, second: 5, millisecond: 6 };
    let mut cacher = LocalTimeCacher { cache: Some(LocalTimeCache { last_secs: 999, local_time: stale }) };
    let t = Timestamp::new(1_640_222_625, 67_890_000).unwrap();
    let r = cacher.get(t);
    let expected = local_text(t, "%Y %m %d %H %M %S %3f");
    let got = format!(
        "{} {:02} {:02} {:02} {:02} {:02} {:03}",
        r.year, r.month, r.day, r.hour, r.minute, r.second, r.millisecond
    );
    assert_eq!(got, expected);
    assert_eq!(cacher.cache.unwrap().last_secs, 1_640_222_625);
}

#[test]
fn cacher_fills_when_empty() {
    let mut cacher = LocalTimeCacher::new();
    let t = Timestamp::new(0, 999_999_999).unwrap();
    let r = cacher.get(t);
    assert_eq!(r.millisecond, 999);
    assert_eq!(cacher.cache.unwrap().last_secs, 0);
}

#[test]
fn millisecond_from_nanosecond() {
    assert_eq!(Time::nanosecond_to_millisecond(67_000_000), 67);
    assert_eq!(Time::nanosecond_to_millisecond(999_999), 0);
    assert_eq!(Time::nanosecond_to_millisecond(1_999_999_999), 999);
    let mut t = Time { year: 2000, month: 1, day: 1, hour: 0, minute: 0, second: 0, millisecond: 0 };
    t.set_millisecond_from_nanosecond(123_456_789);
    assert_eq!(t.millisecond, 123);
    assert_eq!(t.year, 2000);
}
