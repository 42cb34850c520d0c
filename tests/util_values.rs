use libgen_scraper::text::{decimal_string, parse_u64_chars, to_chars, trim_chars};
use libgen_scraper::util::{calculate_group_id, parse_md5_from_url};

#[test]
fn group_id_equal_zero() {
    assert_eq!(calculate_group_id(0), 0);
}

#[test]
fn group_id_below_1000() {
    assert_eq!(calculate_group_id(531), 0);
    assert_eq!(calculate_group_id(999), 0);
}

#[test]
fn group_id_equal_1000() {
    assert_eq!(calculate_group_id(1000), 1000);
}

#[test]
fn group_id_above_1000() {
    assert_eq!(calculate_group_id(1999), 1000);
}

#[test]
fn group_id_large() {
    assert_eq!(calculate_group_id(19992123), 19992000);
}

#[test]
fn group_id_is_idempotent_and_close() {
    for id in [0u64, 1, 999, 1000, 1001, 3750, 19992123, u64::MAX] {
        let g = calculate_group_id(id);
        assert_eq!(calculate_group_id(g), g);
        assert!(g <= id);
        assert!(id - g < 1000);
    }
}

#[test]
fn md5_happy_path_from_url() {
    let url = "http://libgen.example.com/book?id=12345&md5=abcde".to_string();
    let md5 = parse_md5_from_url(url);
    assert_eq!(md5, Some("abcde".to_string()));
}

#[test]
fn md5_lowercased_from_url() {
    let url = "http://libgen.example.com/book?id=12345&md5=abCdE".to_string();
    assert_eq!(parse_md5_from_url(url), Some("abcde".to_string()));
}

#[test]
fn md5_mixed_case_from_url() {
    let url = "http://libgen.example.com/book?id=12345&md5=123CbbDeeeFGS".to_string();
    let md5 = parse_md5_from_url(url);
    assert_eq!(md5, Some("123cbbdeeefgs".to_string()));
}

#[test]
fn md5_missing_from_url() {
    let url = "http://libgen.example.com/book?id=12345".to_string();
    let md5 = parse_md5_from_url(url);
    assert_eq!(md5, None);
}

#[test]
fn md5_stops_at_second_marker() {
    let url = "a?md5=AB&x=1&md5=CD".to_string();
    assert_eq!(parse_md5_from_url(url), Some("ab&x=1&".to_string()));
    assert_eq!(parse_md5_from_url("md5=".to_string()), Some(String::new()));
}

#[test]
fn decimal_rendering() {
    assert_eq!(decimal_string(0), "0");
    assert_eq!(decimal_string(7), "7");
    assert_eq!(decimal_string(3750), "3750");
    assert_eq!(decimal_string(u64::MAX), "18446744073709551615");
}

#[test]
fn number_parsing_follows_std() {
    let p = |s: &str| parse_u64_chars(&to_chars(s));
    assert_eq!(p("3750"), Some(3750));
    assert_eq!(p("+12"), Some(12));
    assert_eq!(p("007"), Some(7));
    assert_eq!(p("18446744073709551615"), Some(u64::MAX));
    assert_eq!(p("18446744073709551616"), None);
    assert_eq!(p(""), None);
    assert_eq!(p("+"), None);
    assert_eq!(p("-1"), None);
    assert_eq!(p(" 1"), None);
    assert_eq!(p("12a"), None);
    for s in ["0", "+5", "99999", "12x", "", "184467440737095516150"] {
        assert_eq!(p(s), s.parse::<u64>().ok());
    }
}

#[test]
fn trimming_follows_std() {
    for s in ["  a b  ", "\t\nx\u{3000}", "", "   ", "\u{a0}y\u{2009}", "plain"] {
        let t: String = trim_chars(&to_chars(s)).into_iter().collect();
        assert_eq!(t, s.trim());
    }
}
