use auto_spell_checker::passport::extract_passport_key;
use regex::Regex;

#[test]
fn extract_finds_the_key_value() {
    assert_eq!(extract_passport_key("x passportKey=abc123&foo=1\"y"), "abc123&foo=1");
    assert_eq!(extract_passport_key("passportKey=k1 passportKey=k2"), "k1");
    assert_eq!(extract_passport_key("a PASSPORTKEY=XYZ'"), "XYZ");
}

#[test]
fn extract_skips_markers_without_value() {
    assert_eq!(extract_passport_key("passportKey=\"q\" passportKey=good"), "good");
    assert_eq!(extract_passport_key("passportKey= x"), "");
    assert_eq!(extract_passport_key("passportKey="), "");
}

#[test]
fn extract_gives_empty_without_marker() {
    assert_eq!(extract_passport_key(""), "");
    assert_eq!(extract_passport_key("nothing here"), "");
    assert_eq!(extract_passport_key("passportKe=abc"), "");
}

#[test]
fn extract_folds_case_as_unicode_does() {
    assert_eq!(extract_passport_key("pa\u{17F}\u{17F}port\u{212A}ey=v"), "v");
    assert_eq!(extract_passport_key("passportKey=ab\u{3000}cd"), "ab");
    assert_eq!(extract_passport_key("passportKey=한글\u{A0}x"), "한글");
}

fn regex_key(re: &Regex, body: &str) -> String {
    if let Some(captures) = re.captures(body) {
        if let Some(value) = captures.get(1) {
            return value.as_str().to_string();
        }
    }
    String::new()
}

#[test]
fn extract_agrees_with_the_regex() {
    let pieces = [
        "passportKey=", "PassportKEY=", "pa\u{17F}sport\u{212A}ey=", "passport", "Key=", "a", "Z",
        "9", "\"", "'", " ", "\t", "\u{2028}", "\u{85}", "=", "&", "한", "\u{212A}", "\u{17F}",
        "k", "s", "P",
    ];
    let re = Regex::new(r#"(?i)passportKey=([^"'\s]+)"#).unwrap();
    let mut seed: u64 = 0x2545F4914F6CDD1D;
    for _ in 0..300 {
        let mut body = String::new();
        seed ^= seed << 13;
        seed ^= seed >> 7;
        seed ^= seed << 17;
        let count = (seed % 9) as usize;
        for _ in 0..count {
            seed ^= seed << 13;
            seed ^= seed >> 7;
            seed ^= seed << 17;
            body.push_str(pieces[(seed % pieces.len() as u64) as usize]);
        }
        assert_eq!(extract_passport_key(&body), regex_key(&re, &body), "body {:?}", body);
    }
}
