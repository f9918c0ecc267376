use pm_win_shutdown::clock::{format_date_compact, format_iso_utc, iso_utc_now, DateTimeFields};
use pm_win_shutdown::logging::{log_line, same_text};
use pm_win_shutdown::wide::{encode_wide, to_wide_nul, wide_le_bytes};

use chrono::{NaiveDate, TimeZone, Utc};

fn fields(year: i32, month: u32, day: u32, hour: u32, minute: u32, second: u32, nanosecond: u32) -> DateTimeFields {
    DateTimeFields { year, month, day, hour, minute, second, nanosecond }
}

#[test]
fn iso_timestamp_matches_the_documented_example() {
    let t = fields(2026, 9, 15, 13, 28, 45, 123_456_789);
    assert_eq!(format_iso_utc(&t), "2026-09-15T13:28:45.123Z");
}

#[test]
fn iso_timestamp_pads_every_field() {
    let t = fields(7, 1, 2, 3, 4, 5, 6_000_000);
    assert_eq!(format_iso_utc(&t), "0007-01-02T03:04:05.006Z");
    let t = fields(1999, 12, 31, 23, 59, 59, 999_999_999);
    assert_eq!(format_iso_utc(&t), "1999-12-31T23:59:59.999Z");
    let t = fields(2000, 2, 29, 0, 0, 0, 0);
    assert_eq!(format_iso_utc(&t), "2000-02-29T00:00:00.000Z");
}

#[test]
fn iso_timestamp_signs_years_outside_four_digits() {
    let t = fields(12345, 6, 7, 8, 9, 10, 11_000_000);
    assert_eq!(format_iso_utc(&t), "+12345-06-07T08:09:10.011Z");
    let t = fields(-5, 6, 7, 8, 9, 10, 0);
    assert_eq!(format_iso_utc(&t), "-0005-06-07T08:09:10.000Z");
    let t = fields(-12345, 6, 7, 8, 9, 10, 0);
    assert_eq!(format_iso_utc(&t), "-12345-06-07T08:09:10.000Z");
}

#[test]
fn iso_timestamp_agrees_with_chrono_format() {
    let cases: [(i32, u32, u32, u32, u32, u32, u32); 6] = [
        (2026, 9, 15, 13, 28, 45, 123_456_789),
        (1970, 1, 1, 0, 0, 0, 0),
        (999, 3, 4, 5, 6, 7, 8_000_000),
        (10000, 1, 1, 0, 0, 0, 0),
        (-1, 12, 31, 23, 59, 59, 1),
        (262142, 12, 31, 23, 59, 59, 999_999_999),
    ];
    for (y, mo, d, h, mi, s, ns) in cases {
        let dt = NaiveDate::from_ymd_opt(y, mo, d).unwrap().and_hms_nano_opt(h, mi, s, ns).unwrap();
        let expected = Utc.from_utc_datetime(&dt).format("%Y-%m-%dT%H:%M:%S%.3fZ").to_string();
        assert_eq!(format_iso_utc(&fields(y, mo, d, h, mi, s, ns)), expected);
        let expected_date = dt.format("%Y%m%d").to_string();
        assert_eq!(format_date_compact(&fields(y, mo, d, h, mi, s, ns)), expected_date);
    }
}

#[test]
fn compact_date_matches_the_documented_example() {
    let t = fields(2026, 9, 15, 1, 2, 3, 4);
    assert_eq!(format_date_compact(&t), "20260915");
    let t = fields(2026, 1, 5, 0, 0, 0, 0);
    assert_eq!(format_date_compact(&t), "20260105");
}

#[test]
fn current_utc_timestamp_has_the_iso_shape() {
    let s = iso_utc_now();
    let c: Vec<char> = s.chars().collect();
    assert_eq!(c.len(), 24);
    assert_eq!(c[4], '-');
    assert_eq!(c[7], '-');
    assert_eq!(c[10], 'T');
    assert_eq!(c[13], ':');
    assert_eq!(c[16], ':');
    assert_eq!(c[19], '.');
    assert_eq!(c[23], 'Z');
    let year: i32 = s[0..4].parse().unwrap();
    assert!(year >= 2024);
}

#[test]
fn validity_of_fields() {
    assert!(fields(2026, 9, 15, 13, 28, 45, 123).is_valid());
    assert!(fields(2000, 2, 29, 23, 59, 59, 999_999_999).is_valid());
    assert!(!fields(1900, 2, 29, 0, 0, 0, 0).is_valid());
    assert!(fields(2024, 2, 29, 0, 0, 0, 0).is_valid());
    assert!(!fields(2026, 4, 31, 0, 0, 0, 0).is_valid());
    assert!(!fields(2026, 13, 1, 0, 0, 0, 0).is_valid());
    assert!(!fields(2026, 1, 0, 0, 0, 0, 0).is_valid());
    assert!(!fields(2026, 1, 1, 24, 0, 0, 0).is_valid());
    assert!(!fields(2026, 1, 1, 0, 60, 0, 0).is_valid());
    assert!(!fields(2026, 1, 1, 0, 0, 60, 0).is_valid());
    assert!(!fields(2026, 1, 1, 0, 0, 0, 1_000_000_000).is_valid());
    assert!(fields(-262143, 1, 1, 0, 0, 0, 0).is_valid());
    assert!(!fields(262143, 1, 1, 0, 0, 0, 0).is_valid());
    assert!(fields(-4, 2, 29, 0, 0, 0, 0).is_valid());
}

#[test]
fn wide_text_matches_encode_utf16() {
    for s in ["", "A", "pm-win-shutdown 安装完成.", "\"C:\\x\\pm-win-shutdown.exe\" --run", "a😀b"] {
        let expected: Vec<u16> = s.encode_utf16().collect();
        assert_eq!(encode_wide(s), expected);
        let mut with_nul = expected.clone();
        with_nul.push(0);
        assert_eq!(to_wide_nul(s), with_nul);
    }
}

#[test]
fn wide_text_uses_surrogate_pairs() {
    assert_eq!(to_wide_nul("A€😀"), vec![0x41, 0x20AC, 0xD83D, 0xDE00, 0]);
    assert_eq!(String::from_utf16(&encode_wide("x😀y")).unwrap(), "x😀y");
}

#[test]
fn wide_bytes_are_little_endian() {
    assert_eq!(wide_le_bytes(&vec![0x0041, 0x20AC, 0]), vec![0x41, 0x00, 0xAC, 0x20, 0x00, 0x00]);
    let units: Vec<u16> = vec![0xD83D, 0xDE00, 0x1234];
    let bytes = wide_le_bytes(&units);
    let back: Vec<u16> = bytes.chunks(2).map(|p| u16::from_le_bytes([p[0], p[1]])).collect();
    assert_eq!(back, units);
}

#[test]
fn log_lines_put_two_spaces_after_the_timestamp() {
    assert_eq!(
        log_line("2026-09-15T13:28:45.123Z", "install completed"),
        "2026-09-15T13:28:45.123Z  install completed"
    );
    assert_eq!(log_line("", ""), "  ");
}

#[test]
fn text_helpers() {
    assert!(same_text("--run", "--run"));
    assert!(!same_text("--run", "--ru"));
    assert!(!same_text("--run", "--rum"));
    assert!(same_text("", ""));
}
