//! What the spell checker does when Left Ctrl + Left Alt is pressed: read the
//! clipboard, send its text to the speller unless it is too long, and report
//! the outcome in a notification and, on success, in the clipboard.

use vstd::prelude::*;
use vstd::string::*;
use vstd::utf8::encode_utf8;

verus! {

pub const UNKNOWN_MSG: &'static str = "뭔가 잘못됐습니다. 이우람에게 연락하세요.";
pub const WRONG_CLIPBOARD_TEXT_MSG: &'static str = "클립보드에 문자가 아닌 요소가 복사되어 있습니다.";
pub const PASSPORT_KEY_MSG: &'static str = "패스포트 키를 가져오는데 실패했습니다. 이우람에게 연락하세요.";
pub const SUMMARY_F_START: &'static str = "프로그램 시작을 실패했습니다.";
pub const SUMMARY_S: &'static str = "결과가 클립보드에 복사되었습니다.";
pub const SUMMARY_F: &'static str = "맞춤법 검사에 실패했습니다.";
pub const SUMMARY_F_MAX: &'static str = "300자 이상의 텍스트는 검사할 수 없습니다.";

/// The longest clipboard text, in UTF-8 bytes, that is sent to the speller.
pub const MAX_TEXT_BYTES: usize = 300;

/// The system error code of a clipboard that holds no text.
pub const NOT_TEXT_ERROR: i32 = 126;

/// A notification: its body and its summary line.
pub struct Notification {
    pub msg: String,
    pub summary: String,
}

/// What reading the clipboard gave: its text, or the system error code.
pub enum ClipboardRead {
    Text(String),
    Error(i32),
}

/// What to do after reading the clipboard.
pub enum HotkeyAction {
    /// Show a notification and stop.
    Notify(Notification),
    /// Send this text to the speller.
    Check(String),
}

/// The length in UTF-8 bytes of a text, as `str::len` gives it.
pub open spec fn byte_len(t: Seq<char>) -> usize {
    encode_utf8(t).len() as usize
}

/// The notification whose body is `msg` and whose summary is `summary`.
pub open spec fn is_notification(n: Notification, msg: Seq<char>, summary: Seq<char>) -> bool {
    n.msg@ == msg && n.summary@ == summary
}

fn notification(msg: &str, summary: &str) -> (n: Notification)
    ensures
        is_notification(n, msg@, summary@),
{
    Notification { msg: msg.to_owned(), summary: summary.to_owned() }
}

/// Decides what the hotkey does with what the clipboard held: a text of more
/// than 300 UTF-8 bytes is refused, any other text goes to the speller, a
/// clipboard without text and any other failure are reported.
pub fn on_clipboard(read: ClipboardRead) -> (action: HotkeyAction)
    ensures
        match read {
            ClipboardRead::Text(t) => if byte_len(t@) > MAX_TEXT_BYTES {
                action matches HotkeyAction::Notify(n) && is_notification(
                    n,
                    SUMMARY_F@,
                    SUMMARY_F_MAX@,
                )
            } else {
                action matches HotkeyAction::Check(c) && c@ == t@
            },
            ClipboardRead::Error(code) => action matches HotkeyAction::Notify(n) && if code
                == NOT_TEXT_ERROR {
                is_notification(n, WRONG_CLIPBOARD_TEXT_MSG@, SUMMARY_F@)
            } else {
                is_notification(n, UNKNOWN_MSG@, SUMMARY_F@)
            },
        },
{
    match read {
        ClipboardRead::Text(text) => {
            let length = text.as_str().len();
            if length > MAX_TEXT_BYTES {
                HotkeyAction::Notify(notification(SUMMARY_F, SUMMARY_F_MAX))
            } else {
                HotkeyAction::Check(text)
            }
        },
        ClipboardRead::Error(code) => {
            if code == NOT_TEXT_ERROR {
                HotkeyAction::Notify(notification(WRONG_CLIPBOARD_TEXT_MSG, SUMMARY_F))
            } else {
                HotkeyAction::Notify(notification(UNKNOWN_MSG, SUMMARY_F))
            }
        },
    }
}

/// Decides how the speller's answer is reported: a corrected text is shown
/// and put into the clipboard; a failure is shown only.
pub fn on_spell_result(result: Option<String>) -> (outcome: (Notification, Option<String>))
    ensures
        match result {
            Some(text) => is_notification(outcome.0, text@, SUMMARY_S@) && (outcome.1 matches Some(
                c,
            ) && c@ == text@),
            None => is_notification(outcome.0, UNKNOWN_MSG@, SUMMARY_F@) && outcome.1 is None,
        },
{
    match result {
        Some(text) => {
            let shown = text.clone();
            (Notification { msg: shown, summary: SUMMARY_S.to_owned() }, Some(text))
        },
        None => (notification(UNKNOWN_MSG, SUMMARY_F), None),
    }
}

/// Decides how start-up goes on from fetching the passport key: with the key,
/// or, where it could not be fetched, with a notification and no start.
pub fn on_passport_key(result: Option<String>) -> (outcome: Result<String, Notification>)
    ensures
        match result {
            Some(key) => outcome matches Ok(k) && k@ == key@,
            None => outcome matches Err(n) && is_notification(n, PASSPORT_KEY_MSG@, SUMMARY_F_START@),
        },
{
    match result {
        Some(key) => Ok(key),
        None => Err(notification(PASSPORT_KEY_MSG, SUMMARY_F_START)),
    }
}

} // verus!
