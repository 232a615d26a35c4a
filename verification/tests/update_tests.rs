use auto_spell_checker::downloader::{
    Downloader, EXECUTOR_EXE, PATCHER_EXE,
};
use auto_spell_checker::paths::{
    display_user_name, install_file_path, installer_patcher_dir, patcher_dir_path,
};
use auto_spell_checker::patcher::patcher_args;
use auto_spell_checker::speller::speller_form;
use auto_spell_checker::update::{
    manage_version, update_notice, update_succeeded, UpdateAction, UpdateEvent, UpdateNotice, UpdateOutcome,
    UpdateState, CHECK_VERSION_ERR_MSG, CHECK_VERSION_MSG, SUMMARY_F_CHECK_VERSION,
    SUMMARY_S_CHECK_VERSION,
};

#[test]
fn display_user_name_turns_dots_into_spaces() {
    assert_eq!(display_user_name("hong.gil.dong"), "hong gil dong");
    assert_eq!(display_user_name("user"), "user");
    assert_eq!(display_user_name(".a."), " a ");
    assert_eq!(display_user_name(""), "");
    assert_eq!(display_user_name("홍.길동"), "홍 길동");
}

#[test]
fn patcher_folders_follow_the_user_name() {
    assert_eq!(patcher_dir_path("kim.min"), "C:\\Users\\kim min\\Auto spell checker");
    assert_eq!(installer_patcher_dir("kim.min"), "C:\\Userskim min");
    assert_eq!(install_file_path("C:\\x", "a.exe"), "C:\\x\\a.exe");
}

#[test]
fn downloads_name_their_objects() {
    let d = Downloader::new();
    let e = d.download_executor("C:\\dir");
    assert_eq!(e.install_path, "C:\\dir");
    assert_eq!(e.file_name, EXECUTOR_EXE);
    assert_eq!(
        e.url,
        "http://ec2-15-164-94-231.ap-northeast-2.compute.amazonaws.com/download_exe?object_key=EXECUTOR_OBJECT_KEY"
    );
    let p = d.download_patcher("C:\\p");
    assert_eq!(p.file_name, PATCHER_EXE);
    assert!(p.url.ends_with("?object_key=PATCHER_OBJECT_KEY"));
    let (a, b) = d.download_executor_and_patcher("x", "y");
    assert_eq!((a.install_path.as_str(), b.install_path.as_str()), ("x", "y"));
    assert_eq!(
        d.latest_version_url(),
        "http://ec2-15-164-94-231.ap-northeast-2.compute.amazonaws.com/lastest_version"
    );
}

#[test]
fn patcher_arguments_are_read() {
    let args = vec!["patcher".to_string(), "C:\\app".to_string(), "4242".to_string()];
    let p = patcher_args(&args).unwrap();
    assert_eq!(p.install_path, "C:\\app");
    assert_eq!(p.pid, Some(4242));
    let bad = vec!["patcher".to_string(), "C:\\app".to_string(), "x1".to_string()];
    assert_eq!(patcher_args(&bad).unwrap().pid, None);
    assert!(patcher_args(&vec!["patcher".to_string()]).is_none());
}

#[test]
fn speller_form_carries_key_and_text() {
    let form = speller_form("key", "text");
    assert_eq!(
        form,
        vec![
            ("passportKey".to_string(), "key".to_string()),
            ("color_blindness".to_string(), "0".to_string()),
            ("q".to_string(), "text".to_string()),
        ]
    );
}

#[test]
fn update_notices_have_their_texts() {
    let n = update_notice(&UpdateNotice::UpdateAvailable);
    assert_eq!((n.msg.as_str(), n.summary.as_str()), (CHECK_VERSION_MSG, SUMMARY_S_CHECK_VERSION));
    let n = update_notice(&UpdateNotice::CheckFailed);
    assert_eq!((n.msg.as_str(), n.summary.as_str()), (CHECK_VERSION_ERR_MSG, SUMMARY_F_CHECK_VERSION));
}

fn step(state: UpdateState, event: UpdateEvent) -> (UpdateState, Vec<UpdateAction>) {
    manage_version(state, event)
}

#[test]
fn update_run_when_outdated_downloads_and_relaunches() {
    let (s, a) = step(UpdateState::Start, UpdateEvent::Started);
    assert!(matches!(a.as_slice(), [UpdateAction::CheckVersion]));
    let (s, a) = step(s, UpdateEvent::VersionChecked(Some(false)));
    assert!(matches!(
        a.as_slice(),
        [UpdateAction::Notify(UpdateNotice::UpdateAvailable), UpdateAction::ReadUserName]
    ));
    let (s, a) = step(s, UpdateEvent::UserName(Some("kim.min".to_string())));
    let dir = "C:\\Users\\kim min\\Auto spell checker".to_string();
    assert!(matches!(a.as_slice(), [UpdateAction::CheckDir(d)] if *d == dir));
    let (s, a) = step(s, UpdateEvent::DirExists(false));
    assert!(matches!(a.as_slice(), [UpdateAction::CreateDir(d)] if *d == dir));
    let (s, a) = step(s, UpdateEvent::DirCreated(true));
    assert!(matches!(a.as_slice(), [UpdateAction::CheckPatcher(d)] if *d == dir));
    let (s, a) = step(s, UpdateEvent::PatcherExists(false));
    assert!(matches!(a.as_slice(), [UpdateAction::DownloadPatcher(d)] if *d == dir));
    let (s, a) = step(s, UpdateEvent::Downloaded(true));
    assert!(matches!(a.as_slice(), [UpdateAction::LaunchPatcher(d)] if *d == dir));
    let (s, a) = step(s, UpdateEvent::Launched(true));
    assert!(matches!(a.as_slice(), [UpdateAction::Exit(0)]));
    assert!(matches!(s, UpdateState::Finished(UpdateOutcome::Relaunched)));
    let (s, a) = step(s, UpdateEvent::Started);
    assert!(a.is_empty());
    assert!(matches!(s, UpdateState::Finished(UpdateOutcome::Relaunched)));
}

#[test]
fn update_run_ends_when_up_to_date_or_failing() {
    let (s, a) = step(UpdateState::CheckingVersion, UpdateEvent::VersionChecked(Some(true)));
    assert!(a.is_empty());
    assert!(matches!(s, UpdateState::Finished(UpdateOutcome::UpToDate)));
    let (s, a) = step(UpdateState::CheckingVersion, UpdateEvent::VersionChecked(None));
    assert!(matches!(a.as_slice(), [UpdateAction::Notify(UpdateNotice::CheckFailed)]));
    assert!(matches!(s, UpdateState::Finished(UpdateOutcome::CheckFailed)));
    let (s, _) = step(UpdateState::CreatingDir("d".to_string()), UpdateEvent::DirCreated(false));
    assert!(matches!(s, UpdateState::Finished(UpdateOutcome::DirFailed)));
    let (s, _) = step(UpdateState::Downloading("d".to_string()), UpdateEvent::Downloaded(false));
    assert!(matches!(s, UpdateState::Finished(UpdateOutcome::DownloadFailed)));
    let (s, a) = step(UpdateState::CheckingPatcher("d".to_string()), UpdateEvent::PatcherExists(true));
    assert!(matches!(a.as_slice(), [UpdateAction::LaunchPatcher(d)] if d == "d"));
    assert!(matches!(s, UpdateState::Launching));
    let (s, a) = step(UpdateState::ReadingUserName, UpdateEvent::Launched(true));
    assert!(a.is_empty());
    assert!(matches!(s, UpdateState::ReadingUserName));
}

#[test]
fn update_run_fails_without_user_name_or_launch() {
    let (s, a) = step(UpdateState::ReadingUserName, UpdateEvent::UserName(None));
    assert!(a.is_empty());
    assert!(matches!(s, UpdateState::Finished(UpdateOutcome::UserNameFailed)));
    let (s, a) = step(UpdateState::Launching, UpdateEvent::Launched(false));
    assert!(a.is_empty());
    assert!(matches!(s, UpdateState::Finished(UpdateOutcome::LaunchFailed)));
}

#[test]
fn update_outcomes_map_to_success() {
    assert!(update_succeeded(&UpdateOutcome::UpToDate));
    assert!(update_succeeded(&UpdateOutcome::Relaunched));
    for failed in [
        UpdateOutcome::CheckFailed,
        UpdateOutcome::DirFailed,
        UpdateOutcome::DownloadFailed,
        UpdateOutcome::UserNameFailed,
        UpdateOutcome::LaunchFailed,
    ] {
        assert!(!update_succeeded(&failed));
    }
}
