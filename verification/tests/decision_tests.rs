use auto_spell_checker::hotkey::{
    on_clipboard, on_passport_key, on_spell_result, ClipboardRead, HotkeyAction, PASSPORT_KEY_MSG,
    SUMMARY_F, SUMMARY_F_MAX, SUMMARY_F_START, SUMMARY_S, UNKNOWN_MSG, WRONG_CLIPBOARD_TEXT_MSG,
};
use auto_spell_checker::process::{
    console_walk_result, consoles_to_close, other_instances, ProcessEntry, NO_MORE_PROCESSES,
};
use auto_spell_checker::tray::{create_guidance, tray_action, Message, TrayAction, GUIDANCE};

#[test]
fn clipboard_text_goes_to_the_speller() {
    match on_clipboard(ClipboardRead::Text("안녕하세요".to_string())) {
        HotkeyAction::Check(t) => assert_eq!(t, "안녕하세요"),
        _ => panic!("expected a check"),
    }
    match on_clipboard(ClipboardRead::Text("a".repeat(300))) {
        HotkeyAction::Check(t) => assert_eq!(t.len(), 300),
        _ => panic!("expected a check"),
    }
}

#[test]
fn clipboard_text_over_300_bytes_is_refused() {
    match on_clipboard(ClipboardRead::Text("a".repeat(301))) {
        HotkeyAction::Notify(n) => {
            assert_eq!(n.msg, SUMMARY_F);
            assert_eq!(n.summary, SUMMARY_F_MAX);
        }
        _ => panic!("expected a notification"),
    }
    // 101 Hangul syllables are 303 bytes.
    assert!(matches!(on_clipboard(ClipboardRead::Text("가".repeat(101))), HotkeyAction::Notify(_)));
    assert!(matches!(on_clipboard(ClipboardRead::Text("가".repeat(100))), HotkeyAction::Check(_)));
}

#[test]
fn clipboard_errors_are_reported() {
    match on_clipboard(ClipboardRead::Error(126)) {
        HotkeyAction::Notify(n) => {
            assert_eq!(n.msg, WRONG_CLIPBOARD_TEXT_MSG);
            assert_eq!(n.summary, SUMMARY_F);
        }
        _ => panic!("expected a notification"),
    }
    match on_clipboard(ClipboardRead::Error(5)) {
        HotkeyAction::Notify(n) => {
            assert_eq!(n.msg, UNKNOWN_MSG);
            assert_eq!(n.summary, SUMMARY_F);
        }
        _ => panic!("expected a notification"),
    }
}

#[test]
fn spell_results_are_reported() {
    let (n, clip) = on_spell_result(Some("고친 글".to_string()));
    assert_eq!(n.msg, "고친 글");
    assert_eq!(n.summary, SUMMARY_S);
    assert_eq!(clip, Some("고친 글".to_string()));
    let (n, clip) = on_spell_result(None);
    assert_eq!(n.msg, UNKNOWN_MSG);
    assert_eq!(n.summary, SUMMARY_F);
    assert_eq!(clip, None);
}

#[test]
fn passport_key_failure_stops_start_up() {
    assert_eq!(on_passport_key(Some("k".to_string())).ok(), Some("k".to_string()));
    match on_passport_key(None) {
        Err(n) => {
            assert_eq!(n.msg, PASSPORT_KEY_MSG);
            assert_eq!(n.summary, SUMMARY_F_START);
        }
        Ok(_) => panic!("expected a failure"),
    }
}

#[test]
fn tray_messages_map_to_actions() {
    assert!(matches!(tray_action(Some(Message::Quit)), Some(TrayAction::Exit(0))));
    assert!(matches!(tray_action(Some(Message::ShowWindow)), Some(TrayAction::ShowGuidance)));
    assert!(matches!(tray_action(Some(Message::Report)), Some(TrayAction::OpenReportPage)));
    assert!(tray_action(None).is_none());
}

#[test]
fn guidance_command_prints_version_and_guide() {
    let args = create_guidance("0.2.0");
    assert_eq!(args.len(), 2);
    assert_eq!(args[0], "/C");
    assert_eq!(args[1], format!("echo 0.2.0 ver {}", GUIDANCE));
}

#[test]
fn consoles_are_the_children_of_the_process() {
    let entries = vec![
        ProcessEntry { pid: 10, parent_pid: 1 },
        ProcessEntry { pid: 11, parent_pid: 7 },
        ProcessEntry { pid: 12, parent_pid: 1 },
        ProcessEntry { pid: 7, parent_pid: 1 },
    ];
    assert_eq!(consoles_to_close(&entries, 1), vec![10, 12, 7]);
    assert_eq!(consoles_to_close(&entries, 7), vec![11]);
    assert_eq!(consoles_to_close(&entries, 99), Vec::<u32>::new());
}

#[test]
fn other_instances_spare_the_running_one() {
    assert_eq!(other_instances(&vec![5, 9, 5, 3], 5), vec![9, 3]);
    assert_eq!(other_instances(&vec![5], 5), Vec::<u32>::new());
    assert_eq!(other_instances(&vec![], 5), Vec::<u32>::new());
}

#[test]
fn console_walk_succeeds_only_at_the_snapshot_end() {
    assert_eq!(console_walk_result(NO_MORE_PROCESSES), Ok(()));
    assert_eq!(NO_MORE_PROCESSES as u32, 0x8007_0012);
    assert_eq!(console_walk_result(-2147024891), Err(-2147024891));
}
