use auto_spell_checker::json::{notag_html, JsonValue};

fn object(fields: Vec<(&str, JsonValue)>) -> JsonValue {
    JsonValue::Object(fields.into_iter().map(|(k, v)| (k.to_string(), v)).collect())
}

fn reply(leaf: JsonValue) -> JsonValue {
    object(vec![(
        "message",
        object(vec![("result", object(vec![("errata_count", JsonValue::Number("0".to_string())), ("notag_html", leaf)]))]),
    )])
}

#[test]
fn notag_html_reads_the_corrected_text() {
    let r = reply(JsonValue::Str("맞춤법 검사".to_string()));
    assert_eq!(notag_html(&r), Some("맞춤법 검사".to_string()));
}

#[test]
fn notag_html_is_none_when_absent_or_not_text() {
    assert_eq!(notag_html(&reply(JsonValue::Null)), None);
    assert_eq!(notag_html(&reply(JsonValue::Number("3".to_string()))), None);
    assert_eq!(notag_html(&object(vec![])), None);
    assert_eq!(notag_html(&JsonValue::Array(vec![])), None);
    assert_eq!(notag_html(&object(vec![("message", JsonValue::Bool(true))])), None);
}

#[test]
fn notag_html_takes_the_first_field_of_a_name() {
    let r = object(vec![
        ("other", JsonValue::Null),
        ("message", object(vec![("result", object(vec![("notag_html", JsonValue::Str("a".to_string()))]))])),
        ("message", JsonValue::Null),
    ]);
    assert_eq!(notag_html(&r), Some("a".to_string()));
}

use auto_spell_checker::json::{reply_text, ReplyError};

#[test]
fn reply_text_reads_a_speller_reply() {
    let body = r#"{"message":{"result":{"errata_count":1,"origin_html":"x","notag_html":"안녕하세요 반갑습니다"}}}"#;
    assert_eq!(reply_text(body).ok(), Some("안녕하세요 반갑습니다".to_string()));
}

#[test]
fn reply_text_reports_missing_text_and_bad_json() {
    assert!(matches!(reply_text(r#"{"message":{"result":{}}}"#), Err(ReplyError::MissingText)));
    assert!(matches!(
        reply_text(r#"{"message":{"result":{"notag_html":5}}}"#),
        Err(ReplyError::MissingText)
    ));
    assert!(matches!(reply_text("[1, 2.5, null, true]"), Err(ReplyError::MissingText)));
    assert!(matches!(reply_text("{not json"), Err(ReplyError::Malformed)));
    assert!(matches!(reply_text(""), Err(ReplyError::Malformed)));
    assert!(matches!(reply_text(r#"{"a":1} x"#), Err(ReplyError::Malformed)));
}
