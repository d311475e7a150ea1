use sonetto::text::{chars_of, int_string, parse_i32, parse_u32, split_chars, split_whitespace_chars, trim_chars};
use sonetto::time::{cur_time_ms_u128, millis_i64, millis_or_zero, millis_u64, seconds_i32, time_ms_u64, ServerTime, MAX_DURATION_MILLIS};

fn s(v: &[char]) -> String {
    v.iter().collect()
}

#[test]
fn split_keeps_empty_pieces() {
    let cs = chars_of("a##b#");
    let parts = split_chars(&cs, '#');
    let got: Vec<String> = parts.iter().map(|p| s(p)).collect();
    assert_eq!(got, vec!["a", "", "b", ""]);
}

#[test]
fn split_without_separator_is_one_piece() {
    let cs = chars_of("300901");
    let parts = split_chars(&cs, '#');
    assert_eq!(parts.len(), 1);
    assert_eq!(s(&parts[0]), "300901");
}

#[test]
fn whitespace_words_and_trim() {
    let cs = chars_of("  /item   140001\t1000  ");
    let t = trim_chars(&cs);
    assert_eq!(s(&t), "/item   140001\t1000");
    let ws = split_whitespace_chars(&cs);
    let got: Vec<String> = ws.iter().map(|w| s(w)).collect();
    assert_eq!(got, vec!["/item", "140001", "1000"]);
}

#[test]
fn parse_i32_like_std() {
    for text in ["0", "-0", "+7", "-2147483648", "2147483647", "2147483648", "", "-", "+", "1a", " 1", "007"] {
        let cs = chars_of(text);
        assert_eq!(parse_i32(&cs), text.parse::<i32>().ok(), "text {:?}", text);
    }
}

#[test]
fn parse_u32_like_std() {
    for text in ["0", "+5", "-0", "-1", "4294967295", "4294967296", "", "12x"] {
        let cs = chars_of(text);
        assert_eq!(parse_u32(&cs), text.parse::<u32>().ok(), "text {:?}", text);
    }
}

#[test]
fn int_string_matches_display() {
    for n in [0i64, 7, -7, 1000, i64::MAX, i64::MIN, -140001] {
        assert_eq!(int_string(n), format!("{}", n));
    }
}

#[test]
fn parse_of_rendered_i32_round_trips() {
    for n in [0i32, 1, -1, 42, i32::MAX, i32::MIN] {
        let text = int_string(n as i64);
        let cs = chars_of(&text);
        assert_eq!(parse_i32(&cs), Some(n));
    }
}

#[test]
fn server_day_starts_at_five_utc() {
    // 1970-01-02 04:59:59.999 UTC is still server day 0; 05:00 starts day 1.
    assert_eq!(ServerTime::server_day(86_400_000 + 18_000_000 - 1), 0);
    assert_eq!(ServerTime::server_day(86_400_000 + 18_000_000), 1);
    // Rust division rounds toward zero before the first reset.
    assert_eq!(ServerTime::server_day(0), 0);
}

#[test]
fn same_and_new_day() {
    let a = 1_700_000_000_000i64;
    assert!(ServerTime::is_same_day(a, a + 1000));
    assert!(!ServerTime::is_new_day(a, a + 1000));
    assert!(ServerTime::is_new_day(a, a + 86_400_000));
}

#[test]
fn calendar_of_a_known_moment() {
    // 2023-11-14 22:13:20 UTC, so 17:13:20 on the server's date.
    let t = 1_700_000_000_000i64;
    assert_eq!(ServerTime::day_of_month(t), 14);
    assert_eq!(ServerTime::server_month(t), 202311);
    assert_eq!(ServerTime::server_weekday(t), 2);
    // Before 05:00 UTC the server date is still the previous day.
    let early = 1_700_020_800_000i64; // 2023-11-15 04:00 UTC
    assert_eq!(ServerTime::day_of_month(early), 14);
}

#[test]
fn weeks_start_on_monday() {
    // 2023-11-13 is a Monday: 04:59 UTC is still in the previous week.
    let monday_reset = 1_699_851_600_000i64; // 2023-11-13 05:00 UTC
    assert!(!ServerTime::is_same_week(monday_reset - 1, monday_reset));
    assert!(ServerTime::is_same_week(monday_reset, monday_reset + 6 * 86_400_000));
    assert!(!ServerTime::is_same_week(monday_reset, monday_reset + 7 * 86_400_000));
}

#[test]
fn months_follow_the_server_date() {
    let dec1_reset = 1_701_406_800_000i64; // 2023-12-01 05:00 UTC
    assert!(!ServerTime::is_same_month(dec1_reset - 1, dec1_reset));
    assert!(ServerTime::is_same_month(dec1_reset, dec1_reset + 86_400_000));
}

#[test]
fn seconds_truncate_like_as_i32() {
    assert_eq!(seconds_i32(1_700_000_000_999), 1_700_000_000);
    assert_eq!(seconds_i32(-1500), -1);
    assert_eq!(seconds_i32(5_000_000_000_000), (5_000_000_000i64) as i32);
}

#[test]
fn clock_readings_are_after_2020() {
    assert!(cur_time_ms_u128() > 1_577_836_800_000);
    assert!(time_ms_u64() > 1_577_836_800_000);
    assert!(ServerTime::now_ms() > 1_577_836_800_000);
    assert!(ServerTime::server_date().is_some());
    let now = ServerTime::now_sec_i32();
    assert!(now > 1_577_836_800);
}

#[test]
fn clock_readings_before_the_epoch_count_as_zero() {
    assert_eq!(millis_or_zero(None), 0);
    assert_eq!(millis_or_zero(Some((1, 234_999_999))), 1234);
    assert_eq!(millis_or_zero(Some((u64::MAX, 999_999_999))), MAX_DURATION_MILLIS);
    assert_eq!(millis_u64((1u128 << 64) + 5), 5);
    assert_eq!(millis_i64(5), 5);
    assert_eq!(millis_i64(u128::MAX), i64::MAX);
    assert!(cur_time_ms_u128() <= MAX_DURATION_MILLIS);
    assert!(ServerTime::now_ms() > 1_577_836_800_000);
}

#[test]
fn server_date_of_a_moment() {
    let d = ServerTime::server_date_at(1_700_000_000_000).unwrap();
    assert_eq!((d.year, d.month, d.day, d.weekday_from_sunday), (2023, 11, 14, 2));
    assert!(ServerTime::server_date_at(i64::MAX).is_none());
    assert!(ServerTime::server_date().is_some());
}

#[test]
fn same_server_day_same_date_and_month() {
    // 2023-11-30 06:00 UTC and 2023-12-01 04:59 UTC share the server day of November 30th.
    let a = 1_701_324_000_000i64;
    let b = 1_701_406_740_000i64;
    assert!(ServerTime::is_same_day(a, b));
    assert_eq!(ServerTime::day_of_month(a), ServerTime::day_of_month(b));
    assert_eq!(ServerTime::server_weekday(a), ServerTime::server_weekday(b));
    assert!(ServerTime::is_same_month(a, b));
    assert_eq!(ServerTime::server_month(b), 202311);
    // One minute later the server day, and the month, are new.
    assert!(!ServerTime::is_same_month(b, b + 60_000));
}
