use lila::text::{chars_of, parse_u64, replace_all, str_eq, u64_to_decimal};
use lila::time::MessageTime;

#[test]
fn replace_all_agrees_with_std_replace() {
    let cases: &[(&str, &str, &str)] = &[
        ("hello {name}!", "{name}", "lila"),
        ("aaa", "aa", "b"),
        ("aaaa", "aa", "b"),
        ("no match here", "{x}", "y"),
        ("", "{x}", "y"),
        ("ab", "", "X"),
        ("", "", "X"),
        ("{a}{a}{a}", "{a}", "{a}{a}"),
        ("héllo 😭 wörld 😭", "😭", ":("),
        ("“{user}” (user ID: {user_id})", "{user}", "name"),
    ];
    for (s, pat, rep) in cases {
        assert_eq!(replace_all(s, pat, rep), s.replace(pat, rep), "case {:?}", (s, pat, rep));
    }
}

#[test]
fn replace_all_overlapping_pattern_scans_left_to_right() {
    assert_eq!(replace_all("aaa", "aa", "b"), "ba");
}

#[test]
fn replace_all_empty_pattern_surrounds_every_char() {
    assert_eq!(replace_all("ab", "", "X"), "XaXbX");
}

#[test]
fn chars_of_keeps_unicode() {
    assert_eq!(chars_of("a😭b"), vec!['a', '😭', 'b']);
}

#[test]
fn str_eq_compares_contents() {
    assert!(str_eq("send", "send"));
    assert!(!str_eq("send", "sen"));
    assert!(!str_eq("send", "sEnd"));
    assert!(str_eq("", ""));
}

#[test]
fn decimal_matches_to_string() {
    for n in [0u64, 7, 9, 10, 42, 100, 1234567890, 175928847299117063, u64::MAX] {
        assert_eq!(u64_to_decimal(n), n.to_string());
    }
}

#[test]
fn parse_u64_agrees_with_std_parse() {
    let cases = [
        "0", "7", "+7", "-7", "", "+", "-", "007", "12a", " 1", "1 ", "18446744073709551615",
        "18446744073709551616", "99999999999999999999999", "+18446744073709551615", "٣",
        "175928847299117063",
    ];
    for s in cases {
        assert_eq!(parse_u64(s), s.parse::<u64>().ok(), "case {:?}", s);
    }
}

#[test]
fn parse_reads_back_decimal() {
    for n in [0u64, 1, 10, 65535, 1462015105, u64::MAX] {
        assert_eq!(parse_u64(&u64_to_decimal(n)), Some(n));
    }
}

#[test]
fn message_time_formats_utc_calendar_text() {
    let t = MessageTime::from_millis(1462015105796).unwrap();
    assert_eq!(t.millis(), 1462015105796);
    assert_eq!(t.text(), "2016-04-30 11:18:25");
    let epoch = MessageTime::from_millis(0).unwrap();
    assert_eq!(epoch.text(), "1970-01-01 00:00:00");
    let before = MessageTime::from_millis(-1000).unwrap();
    assert_eq!(before.text(), "1969-12-31 23:59:59");
}

#[test]
fn message_time_rejects_instants_outside_the_calendar() {
    assert!(MessageTime::from_millis(i64::MAX).is_none());
    assert!(MessageTime::from_millis(i64::MIN).is_none());
}

#[test]
fn message_time_calendar_range_bounds() {
    let first = MessageTime::from_millis(-8334601228800000).unwrap();
    assert_eq!(first.text(), "-262143-01-01 00:00:00");
    assert!(MessageTime::from_millis(-8334601228800001).is_none());
    let last = MessageTime::from_millis(8210266876799999).unwrap();
    assert_eq!(last.text(), "+262142-12-31 23:59:59");
    assert!(MessageTime::from_millis(8210266876800000).is_none());
}
