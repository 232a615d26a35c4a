//! The tray icon's menu, what each of its entries does, and the console
//! command that shows the usage guide.

use vstd::prelude::*;
use vstd::string::*;

verus! {

/// The usage guide that the console shows after the version line.
pub const GUIDANCE: &'static str = "&& echo --------------------------------------------------------------------- && echo 1. 원하는 텍스트를 클립 보드에 복사 (Ctrl + C) && echo 2. Left Ctrl + Left Alt를 순서대로 누르면 자동 맞춤법 검사가 진행됩니다. && echo 3. 자동 맞춤법 검사가 완료되면 클립보드에 자동으로 복사됩니다. && echo 4. 원하는 곳에 붙여넣기 하세요. && echo --------------------------------------------------------------------- && echo 해당 앱은 백그라운드로 실행됩니다. && echo 앱을 종료하거나 사용법을 다시 보고 싶다면 숨겨진 아이콘에서 우클릭하세요. && echo 문의 사항은 이우람에게 해주세요. && pause";
pub const REPORT_URL: &'static str = "https://auto-spell-checker.web.app/";
pub const USAGE: &'static str = "사용법";
pub const REPORT: &'static str = "홈페이지";
pub const QUIT: &'static str = "종료";
pub const TRAY_TITLE: &'static str = "Auto Spell Checker";
pub const COMMAND_PROGRAM: &'static str = "cmd";
pub const APP_ICON: &'static str = "app-icon";

/// A request made from the tray menu.
pub enum Message {
    /// Quit the application.
    Quit,
    /// Show the usage guide again.
    ShowWindow,
    /// Open the home page.
    Report,
}

/// What the tray does for a request.
pub enum TrayAction {
    /// End the process with this exit code.
    Exit(i32),
    /// Replace the usage console with a new one.
    ShowGuidance,
    /// Open the home page in the browser.
    OpenReportPage,
}

/// What the tray does for what its channel gave: `None` stands for a failed
/// receive, which is ignored.
pub fn tray_action(received: Option<Message>) -> (action: Option<TrayAction>)
    ensures
        match received {
            Some(Message::Quit) => action == Some(TrayAction::Exit(0)),
            Some(Message::ShowWindow) => action == Some(TrayAction::ShowGuidance),
            Some(Message::Report) => action == Some(TrayAction::OpenReportPage),
            None => action is None,
        },
{
    match received {
        Some(Message::Quit) => Some(TrayAction::Exit(0)),
        Some(Message::ShowWindow) => Some(TrayAction::ShowGuidance),
        Some(Message::Report) => Some(TrayAction::OpenReportPage),
        None => None,
    }
}

/// The arguments of `cmd` that open the usage console: `/C`, then the
/// command that prints `<version> ver` and the guide.
pub fn create_guidance(version: &str) -> (args: Vec<String>)
    ensures
        args@.len() == 2,
        args@[0]@ == "/C"@,
        args@[1]@ == "echo "@ + version@ + " ver "@ + GUIDANCE@,
{
    let mut command = "echo ".to_owned();
    command.append(version);
    command.append(" ver ");
    command.append(GUIDANCE);
    let mut args: Vec<String> = Vec::new();
    args.push("/C".to_owned());
    args.push(command);
    args
}

} // verus!
