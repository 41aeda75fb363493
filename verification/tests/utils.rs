use hs_order::utils::{
    decimal_text, format_signed, format_timestamp, integer_text, join, parse_signed, parse_unsigned,
    parse_unsigned_int, text_eq, time_text,
};

#[test]
fn test_format_timestamp_zero() {
    assert_eq!(format_timestamp(0), "未知时间");
}

#[test]
fn test_format_timestamp_invalid() {
    assert_eq!(format_timestamp(i64::MAX), "时间格式错误");
}

#[test]
fn test_format_signed_number() {
    assert_eq!(format_signed(3usize as i128), "+3");
    assert_eq!(format_signed(3i64 as i128), "+3");
    assert_eq!(format_signed(-3i64 as i128), "-3");
}

#[test]
fn test_format_signed_number_zero() {
    assert_eq!(format_signed(0usize as i128), "0");
    assert_eq!(format_signed(0i64 as i128), "0");
}

#[test]
fn test_parse_signed_number_positive() {
    assert_eq!(parse_unsigned_int("+5"), 5);
}

#[test]
fn test_parse_signed_number_negative() {
    assert_eq!(parse_unsigned_int("-3"), 0);
}

#[test]
fn test_parse_signed_number_invalid() {
    assert_eq!(parse_unsigned_int("abc"), 0);
}

#[test]
fn format_signed_matches_std_on_extremes() {
    assert_eq!(format_signed(i64::MAX as i128), format!("{:+}", i64::MAX));
    assert_eq!(format_signed(i64::MIN as i128), format!("{:+}", i64::MIN));
    assert_eq!(format_signed(i128::MAX), format!("{:+}", i128::MAX));
    assert_eq!(format_signed(i128::MIN), format!("{:+}", i128::MIN));
    assert_eq!(format_signed(10), "+10");
    assert_eq!(format_signed(-1000), "-1000");
}

#[test]
fn decimal_text_writes_every_digit() {
    assert_eq!(decimal_text(0), "0");
    assert_eq!(decimal_text(9), "9");
    assert_eq!(decimal_text(10), "10");
    assert_eq!(decimal_text(1234567890), "1234567890");
    assert_eq!(decimal_text(u128::MAX), u128::MAX.to_string());
}

#[test]
fn integer_text_matches_std() {
    assert_eq!(integer_text(0), "0");
    assert_eq!(integer_text(-7), "-7");
    assert_eq!(integer_text(43), "43");
    assert_eq!(integer_text(i64::MIN as i128), i64::MIN.to_string());
}

#[test]
fn parse_unsigned_int_reads_what_std_reads() {
    for text in ["0", "007", "+0", "18446744073709551615", "5", "+5"] {
        assert_eq!(parse_unsigned_int(text), text.parse::<usize>().unwrap());
    }
    for text in ["", "+", "-", "-0", "++5", "5 ", " 5", "5a", "１２", "18446744073709551616", "1e3"] {
        assert!(text.parse::<usize>().is_err());
        assert_eq!(parse_unsigned_int(text), 0);
    }
}

#[test]
fn parse_unsigned_respects_the_bound() {
    assert_eq!(parse_unsigned("4294967295", u32::MAX as u64), Some(4294967295));
    assert_eq!(parse_unsigned("4294967296", u32::MAX as u64), None);
    assert_eq!(parse_unsigned("99999999999999999999999999", u64::MAX), None);
    assert_eq!(parse_unsigned("0", 0), Some(0));
    assert_eq!(parse_unsigned("1", 0), None);
}

#[test]
fn parse_signed_reads_what_std_reads() {
    for text in ["0", "-0", "+0", "42", "-42", "+42", "9223372036854775807", "-9223372036854775808"] {
        assert_eq!(parse_signed(text), Some(text.parse::<i64>().unwrap()));
    }
    for text in ["", "+", "-", "--1", "+-1", "9223372036854775808", "-9223372036854775809", "1.0"] {
        assert!(text.parse::<i64>().is_err());
        assert_eq!(parse_signed(text), None);
    }
}

#[test]
fn text_eq_compares_characters() {
    assert!(text_eq("全部", "全部"));
    assert!(text_eq("", ""));
    assert!(!text_eq("all", "ALL"));
    assert!(!text_eq("all", "al"));
}

#[test]
fn join_puts_the_separator_between_parts() {
    let none: Vec<String> = vec![];
    assert_eq!(join(&none, ", "), "");
    assert_eq!(join(&vec!["战士".to_string()], ", "), "战士");
    assert_eq!(join(&vec!["a".to_string(), "b".to_string(), "c".to_string()], ", "), "a, b, c");
}

#[test]
fn time_text_distinguishes_the_three_cases() {
    assert_eq!(time_text(0, Some("2025-10-08 12:45:00".to_string())), "未知时间");
    assert_eq!(time_text(0, None), "未知时间");
    assert_eq!(time_text(1759898700, Some("2025-10-08 12:45:00".to_string())), "2025-10-08 12:45:00");
    assert_eq!(time_text(1759898700, None), "时间格式错误");
}

#[test]
fn format_timestamp_renders_local_time() {
    let expected = chrono::TimeZone::timestamp_opt(&chrono::Local, 1759898700, 0)
        .single()
        .unwrap()
        .format("%Y-%m-%d %H:%M:%S")
        .to_string();
    assert_eq!(format_timestamp(1759898700), expected);
    let reference = chrono::TimeZone::timestamp_opt(&chrono_tz::Asia::Shanghai, 1759898700, 0)
        .single()
        .unwrap()
        .format("%Y-%m-%d %H:%M:%S")
        .to_string();
    assert_eq!(reference, "2025-10-08 12:45:00");
    assert_eq!(format_timestamp(1759898700).len(), 19);
    assert_eq!(format_timestamp(i64::MIN), "时间格式错误");
}

#[test]
fn signed_text_reads_back_defensively() {
    for n in [0i128, 1, 9, 10, 50, 139, usize::MAX as i128] {
        assert_eq!(parse_unsigned_int(&format_signed(n)) as i128, n);
    }
    for n in [-1i128, -50, i64::MIN as i128, usize::MAX as i128 + 1] {
        assert_eq!(parse_unsigned_int(&format_signed(n)), 0);
    }
}

fn clock_shaped(text: &str) -> bool {
    let body = text.strip_prefix('+').or(text.strip_prefix('-')).unwrap_or(text);
    let chars: Vec<char> = body.chars().collect();
    if chars.len() < 19 {
        return false;
    }
    let year = chars.len() - 15;
    let marks = [(0, '-'), (3, '-'), (6, ' '), (9, ':'), (12, ':')];
    chars.iter().enumerate().all(|(i, c)| {
        match marks.iter().find(|(at, _)| year + at == i) {
            Some((_, mark)) => c == mark,
            None => c.is_ascii_digit(),
        }
    })
}

fn local(ts: i64) -> String {
    chrono::TimeZone::timestamp_opt(&chrono::Local, ts, 0)
        .single()
        .unwrap()
        .format("%Y-%m-%d %H:%M:%S")
        .to_string()
}

#[test]
fn format_timestamp_at_the_ends_of_the_range() {
    let first = -8_334_601_228_800i64;
    let last = 8_210_266_876_799i64;
    assert_eq!(chrono::DateTime::<chrono::Utc>::MIN_UTC.timestamp(), first);
    assert_eq!(chrono::DateTime::<chrono::Utc>::MAX_UTC.timestamp(), last);
    assert_eq!(format_timestamp(first - 1), "时间格式错误");
    assert_eq!(format_timestamp(last + 1), "时间格式错误");
    assert_eq!(format_timestamp(i64::MIN), "时间格式错误");
    assert_eq!(format_timestamp(i64::MAX), "时间格式错误");
    for ts in [first, first + 1, last - 1, last] {
        let text = format_timestamp(ts);
        assert_eq!(text, local(ts));
        assert!(clock_shaped(&text), "{}", text);
    }
}

#[test]
fn format_timestamp_has_the_form_of_a_clock() {
    let stamps = [
        1i64,
        -1,
        1759898700,
        1762927893,
        -62_167_219_200,
        -62_167_219_201,
        253_402_300_799,
        253_402_300_800,
        -30_610_224_000,
        86_400 * 365 * 12_000,
    ];
    for ts in stamps {
        let text = format_timestamp(ts);
        assert_eq!(text, local(ts));
        assert!(clock_shaped(&text), "{}", text);
        assert!(text != "未知时间" && text != "时间格式错误");
    }
    assert!(!clock_shaped("未知时间"));
    assert!(!clock_shaped("2025-10-08 12:45"));
    assert!(!clock_shaped("025-10-08 12:45:00"));
    assert!(clock_shaped("2025-10-08 12:45:00"));
    assert!(clock_shaped("+10000-01-01 00:00:00"));
    assert!(clock_shaped("-0001-12-31 23:59:59"));
}
