use auto_spell_checker::downloader::Downloader;
use auto_spell_checker::number::{parse_i32, parse_usize};
use auto_spell_checker::version::{convert_version, try_convert_version, CURRENT_VERSION};

fn chars(s: &str) -> Vec<char> {
    s.chars().collect()
}

#[test]
fn convert_version_weights_parts_from_the_right() {
    assert_eq!(convert_version("0.2.0"), 20);
    assert_eq!(convert_version("1.2.3"), 123);
    assert_eq!(convert_version("7"), 7);
    assert_eq!(convert_version("1.10"), 20);
    assert_eq!(convert_version("0.10.0"), 100);
    assert_eq!(convert_version(CURRENT_VERSION), 20);
}

#[test]
fn convert_version_counts_unreadable_parts_as_zero() {
    assert_eq!(convert_version(""), 0);
    assert_eq!(convert_version("a.b"), 0);
    assert_eq!(convert_version("1.x.3"), 103);
    assert_eq!(convert_version("1..3"), 103);
    assert_eq!(convert_version(" 1.2"), 2);
    assert_eq!(convert_version("2147483648"), 0);
}

#[test]
fn convert_version_reads_signs() {
    assert_eq!(convert_version("-1.5"), -5);
    assert_eq!(convert_version("+3.0"), 30);
    assert_eq!(convert_version("-2147483648"), i32::MIN);
}

#[test]
fn try_convert_version_refuses_overflow() {
    assert_eq!(try_convert_version("0.0.0.0.0.0.0.0.0.0.0"), None);
    assert_eq!(try_convert_version("0.0.0.0.0.0.0.0.0.0"), Some(0));
    assert_eq!(try_convert_version("3.0.0.0.0.0.0.0.0.0"), None);
    assert_eq!(try_convert_version("2.1.4.7.4.8.3.6.4.7"), Some(2147483647));
    assert_eq!(try_convert_version("2.1.4.7.4.8.3.6.4.8"), None);
    assert_eq!(try_convert_version("2147483647.1"), None);
    assert_eq!(try_convert_version("-2147483648"), Some(i32::MIN));
    assert_eq!(try_convert_version("0.2.0"), Some(20));
}

#[test]
fn check_version_compares_current_with_latest() {
    let d = Downloader::new();
    assert!(d.check_version("0.2.0", "0.2.0"));
    assert!(!d.check_version("0.2.0", "0.3.0"));
    assert!(d.check_version("0.3.0", "0.2.9"));
    assert!(d.check_version("0.10.0", "0.9.0"));
    assert!(!d.check_version("0.2.0", "1.0.0"));
}

#[test]
fn parse_i32_follows_str_parse() {
    for s in ["0", "007", "-0", "+12", "-2147483648", "2147483647", "2147483648", "-2147483649",
        "", "+", "-", "12a", " 1", "1 ", "+-1", "--1", "99999999999999999999", "١٢"] {
        assert_eq!(parse_i32(&chars(s)), s.parse::<i32>().ok(), "reading {:?}", s);
    }
}

#[test]
fn parse_usize_follows_str_parse() {
    for s in ["0", "42", "+42", "-1", "", "+", "18446744073709551615", "18446744073709551616",
        "4294967296", "1x"] {
        assert_eq!(parse_usize(&chars(s)), s.parse::<usize>().ok(), "reading {:?}", s);
    }
}
