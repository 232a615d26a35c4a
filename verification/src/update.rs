//! The updater: it asks the server whether the running version is the latest
//! one and, where it is not, makes sure the patcher is on disk, starts it and
//! ends the spell checker so that the patcher can replace it.
//!
//! The decisions stand in [`manage_version`], a step function from the
//! current state and the outcome of the last outside operation to the next
//! state and the operations to perform next.

use vstd::prelude::*;
use vstd::string::*;
use crate::hotkey::{Notification, is_notification};
use crate::paths::{patcher_dir_path, replace_char, USERS_PATH, SEPARATOR, PARENT_FOLDER};

verus! {

pub const CHECK_VERSION_ERR_MSG: &'static str = "버전을 확인하는데 실패했습니다.";
pub const CHECK_VERSION_MSG: &'static str = "최신 버젼이 존재합니다 업데이트를 진행합니다.";
pub const SUMMARY_S_CHECK_VERSION: &'static str = "최신 버젼 확인";
pub const SUMMARY_F_CHECK_VERSION: &'static str = "버전을 확인 실패";

/// How an update run ended.
pub enum UpdateOutcome {
    /// The running version is the latest one.
    UpToDate,
    /// The server could not be asked.
    CheckFailed,
    /// The patcher's folder could not be created.
    DirFailed,
    /// The patcher could not be downloaded.
    DownloadFailed,
    /// The user name could not be read.
    UserNameFailed,
    /// The patcher could not be started.
    LaunchFailed,
    /// The patcher was started and the spell checker ends.
    Relaunched,
}

/// Where an update run stands.
pub enum UpdateState {
    Start,
    CheckingVersion,
    ReadingUserName,
    CheckingDir(String),
    CreatingDir(String),
    CheckingPatcher(String),
    Downloading(String),
    Launching,
    Finished(UpdateOutcome),
}

/// The outcome of the last outside operation.
pub enum UpdateEvent {
    Started,
    /// Whether the running version is the latest, or `None` if the server
    /// could not be asked.
    VersionChecked(Option<bool>),
    /// The user name, or `None` if it could not be read.
    UserName(Option<String>),
    DirExists(bool),
    /// Whether the folder was created.
    DirCreated(bool),
    PatcherExists(bool),
    /// Whether the download succeeded.
    Downloaded(bool),
    /// Whether the patcher was started.
    Launched(bool),
}

/// Which notification the updater shows.
pub enum UpdateNotice {
    UpdateAvailable,
    CheckFailed,
}

/// An outside operation to perform.
pub enum UpdateAction {
    CheckVersion,
    Notify(UpdateNotice),
    ReadUserName,
    /// Ask whether this folder exists.
    CheckDir(String),
    /// Create this folder and its parents.
    CreateDir(String),
    /// Ask whether the patcher exists in this folder.
    CheckPatcher(String),
    /// Download the patcher into this folder.
    DownloadPatcher(String),
    /// Start the patcher in this folder, handing it this program's folder
    /// and process id.
    LaunchPatcher(String),
    /// End this process with this code.
    Exit(i32),
}

/// [`UpdateState`] with its texts as character sequences.
pub ghost enum UpdateStateView {
    Start,
    CheckingVersion,
    ReadingUserName,
    CheckingDir(Seq<char>),
    CreatingDir(Seq<char>),
    CheckingPatcher(Seq<char>),
    Downloading(Seq<char>),
    Launching,
    Finished(UpdateOutcome),
}

/// [`UpdateEvent`] with its texts as character sequences.
pub ghost enum UpdateEventView {
    Started,
    VersionChecked(Option<bool>),
    UserName(Option<Seq<char>>),
    DirExists(bool),
    DirCreated(bool),
    PatcherExists(bool),
    Downloaded(bool),
    Launched(bool),
}

/// [`UpdateAction`] with its texts as character sequences.
pub ghost enum UpdateActionView {
    CheckVersion,
    Notify(UpdateNotice),
    ReadUserName,
    CheckDir(Seq<char>),
    CreateDir(Seq<char>),
    CheckPatcher(Seq<char>),
    DownloadPatcher(Seq<char>),
    LaunchPatcher(Seq<char>),
    Exit(i32),
}

impl View for UpdateState {
    type V = UpdateStateView;

    open spec fn view(&self) -> UpdateStateView {
        match self {
            UpdateState::Start => UpdateStateView::Start,
            UpdateState::CheckingVersion => UpdateStateView::CheckingVersion,
            UpdateState::ReadingUserName => UpdateStateView::ReadingUserName,
            UpdateState::CheckingDir(d) => UpdateStateView::CheckingDir(d@),
            UpdateState::CreatingDir(d) => UpdateStateView::CreatingDir(d@),
            UpdateState::CheckingPatcher(d) => UpdateStateView::CheckingPatcher(d@),
            UpdateState::Downloading(d) => UpdateStateView::Downloading(d@),
            UpdateState::Launching => UpdateStateView::Launching,
            UpdateState::Finished(o) => UpdateStateView::Finished(*o),
        }
    }
}

impl View for UpdateEvent {
    type V = UpdateEventView;

    open spec fn view(&self) -> UpdateEventView {
        match self {
            UpdateEvent::Started => UpdateEventView::Started,
            UpdateEvent::VersionChecked(r) => UpdateEventView::VersionChecked(*r),
            UpdateEvent::UserName(n) => UpdateEventView::UserName(
                match n {
                    Some(name) => Some(name@),
                    None => None,
                },
            ),
            UpdateEvent::DirExists(b) => UpdateEventView::DirExists(*b),
            UpdateEvent::DirCreated(b) => UpdateEventView::DirCreated(*b),
            UpdateEvent::PatcherExists(b) => UpdateEventView::PatcherExists(*b),
            UpdateEvent::Downloaded(b) => UpdateEventView::Downloaded(*b),
            UpdateEvent::Launched(ok) => UpdateEventView::Launched(*ok),
        }
    }
}

impl View for UpdateAction {
    type V = UpdateActionView;

    open spec fn view(&self) -> UpdateActionView {
        match self {
            UpdateAction::CheckVersion => UpdateActionView::CheckVersion,
            UpdateAction::Notify(n) => UpdateActionView::Notify(*n),
            UpdateAction::ReadUserName => UpdateActionView::ReadUserName,
            UpdateAction::CheckDir(d) => UpdateActionView::CheckDir(d@),
            UpdateAction::CreateDir(d) => UpdateActionView::CreateDir(d@),
            UpdateAction::CheckPatcher(d) => UpdateActionView::CheckPatcher(d@),
            UpdateAction::DownloadPatcher(d) => UpdateActionView::DownloadPatcher(d@),
            UpdateAction::LaunchPatcher(d) => UpdateActionView::LaunchPatcher(d@),
            UpdateAction::Exit(c) => UpdateActionView::Exit(*c),
        }
    }
}

/// The folder that the patcher is kept in, for a user name.
pub open spec fn patcher_dir_of(user_name: Seq<char>) -> Seq<char> {
    USERS_PATH@ + SEPARATOR@ + replace_char(user_name, '.', ' ') + SEPARATOR@ + PARENT_FOLDER@
}

/// The state after `event` in state `state`. An event that does not fit the
/// state changes nothing.
pub open spec fn update_next(state: UpdateStateView, event: UpdateEventView) -> UpdateStateView {
    match (state, event) {
        (UpdateStateView::Start, UpdateEventView::Started) => UpdateStateView::CheckingVersion,
        (UpdateStateView::CheckingVersion, UpdateEventView::VersionChecked(r)) => match r {
            None => UpdateStateView::Finished(UpdateOutcome::CheckFailed),
            Some(true) => UpdateStateView::Finished(UpdateOutcome::UpToDate),
            Some(false) => UpdateStateView::ReadingUserName,
        },
        (UpdateStateView::ReadingUserName, UpdateEventView::UserName(n)) => match n {
            Some(name) => UpdateStateView::CheckingDir(patcher_dir_of(name)),
            None => UpdateStateView::Finished(UpdateOutcome::UserNameFailed),
        },
        (UpdateStateView::CheckingDir(d), UpdateEventView::DirExists(e)) => if e {
            UpdateStateView::CheckingPatcher(d)
        } else {
            UpdateStateView::CreatingDir(d)
        },
        (UpdateStateView::CreatingDir(d), UpdateEventView::DirCreated(ok)) => if ok {
            UpdateStateView::CheckingPatcher(d)
        } else {
            UpdateStateView::Finished(UpdateOutcome::DirFailed)
        },
        (UpdateStateView::CheckingPatcher(d), UpdateEventView::PatcherExists(e)) => if e {
            UpdateStateView::Launching
        } else {
            UpdateStateView::Downloading(d)
        },
        (UpdateStateView::Downloading(d), UpdateEventView::Downloaded(ok)) => if ok {
            UpdateStateView::Launching
        } else {
            UpdateStateView::Finished(UpdateOutcome::DownloadFailed)
        },
        (UpdateStateView::Launching, UpdateEventView::Launched(ok)) => if ok {
            UpdateStateView::Finished(UpdateOutcome::Relaunched)
        } else {
            UpdateStateView::Finished(UpdateOutcome::LaunchFailed)
        },
        _ => state,
    }
}

/// The operations to perform after `event` in state `state`.
pub open spec fn update_actions(state: UpdateStateView, event: UpdateEventView) -> Seq<
    UpdateActionView,
> {
    match (state, event) {
        (UpdateStateView::Start, UpdateEventView::Started) => seq![UpdateActionView::CheckVersion],
        (UpdateStateView::CheckingVersion, UpdateEventView::VersionChecked(r)) => match r {
            None => seq![UpdateActionView::Notify(UpdateNotice::CheckFailed)],
            Some(true) => Seq::<UpdateActionView>::empty(),
            Some(false) => seq![
                UpdateActionView::Notify(UpdateNotice::UpdateAvailable),
                UpdateActionView::ReadUserName,
            ],
        },
        (UpdateStateView::ReadingUserName, UpdateEventView::UserName(n)) => match n {
            Some(name) => seq![UpdateActionView::CheckDir(patcher_dir_of(name))],
            None => Seq::<UpdateActionView>::empty(),
        },
        (UpdateStateView::CheckingDir(d), UpdateEventView::DirExists(e)) => if e {
            seq![UpdateActionView::CheckPatcher(d)]
        } else {
            seq![UpdateActionView::CreateDir(d)]
        },
        (UpdateStateView::CreatingDir(d), UpdateEventView::DirCreated(ok)) => if ok {
            seq![UpdateActionView::CheckPatcher(d)]
        } else {
            Seq::<UpdateActionView>::empty()
        },
        (UpdateStateView::CheckingPatcher(d), UpdateEventView::PatcherExists(e)) => if e {
            seq![UpdateActionView::LaunchPatcher(d)]
        } else {
            seq![UpdateActionView::DownloadPatcher(d)]
        },
        (UpdateStateView::Downloading(d), UpdateEventView::Downloaded(ok)) => if ok {
            seq![UpdateActionView::LaunchPatcher(d)]
        } else {
            Seq::<UpdateActionView>::empty()
        },
        (UpdateStateView::Launching, UpdateEventView::Launched(ok)) => if ok {
            seq![UpdateActionView::Exit(0)]
        } else {
            Seq::<UpdateActionView>::empty()
        },
        _ => Seq::<UpdateActionView>::empty(),
    }
}

/// The views of a list of operations.
pub open spec fn actions_view(actions: Seq<UpdateAction>) -> Seq<UpdateActionView> {
    actions.map_values(|a: UpdateAction| a@)
}

fn one(action: UpdateAction) -> (v: Vec<UpdateAction>)
    ensures
        actions_view(v@) =~= seq![action@],
{
    let mut v: Vec<UpdateAction> = Vec::new();
    v.push(action);
    v
}

/// One step of the updater: the next state, and the operations to perform.
pub fn manage_version(state: UpdateState, event: UpdateEvent) -> (next: (
    UpdateState,
    Vec<UpdateAction>,
))
    ensures
        next.0@ == update_next(state@, event@),
        actions_view(next.1@) =~= update_actions(state@, event@),
{
    let ghost s = state@;
    let ghost e = event@;
    match (state, event) {
        (UpdateState::Start, UpdateEvent::Started) => (
            UpdateState::CheckingVersion,
            one(UpdateAction::CheckVersion),
        ),
        (UpdateState::CheckingVersion, UpdateEvent::VersionChecked(r)) => match r {
            None => (
                UpdateState::Finished(UpdateOutcome::CheckFailed),
                one(UpdateAction::Notify(UpdateNotice::CheckFailed)),
            ),
            Some(true) => (UpdateState::Finished(UpdateOutcome::UpToDate), Vec::new()),
            Some(false) => {
                let mut v: Vec<UpdateAction> = Vec::new();
                v.push(UpdateAction::Notify(UpdateNotice::UpdateAvailable));
                v.push(UpdateAction::ReadUserName);
                (UpdateState::ReadingUserName, v)
            },
        },
        (UpdateState::ReadingUserName, UpdateEvent::UserName(n)) => match n {
            Some(name) => {
                let dir = patcher_dir_path(name.as_str());
                let action_dir = dir.clone();
                (UpdateState::CheckingDir(dir), one(UpdateAction::CheckDir(action_dir)))
            },
            None => (UpdateState::Finished(UpdateOutcome::UserNameFailed), Vec::new()),
        },
        (UpdateState::CheckingDir(d), UpdateEvent::DirExists(exists)) => {
            let a = d.clone();
            if exists {
                (UpdateState::CheckingPatcher(d), one(UpdateAction::CheckPatcher(a)))
            } else {
                (UpdateState::CreatingDir(d), one(UpdateAction::CreateDir(a)))
            }
        },
        (UpdateState::CreatingDir(d), UpdateEvent::DirCreated(ok)) => {
            if ok {
                let a = d.clone();
                (UpdateState::CheckingPatcher(d), one(UpdateAction::CheckPatcher(a)))
            } else {
                (UpdateState::Finished(UpdateOutcome::DirFailed), Vec::new())
            }
        },
        (UpdateState::CheckingPatcher(d), UpdateEvent::PatcherExists(exists)) => {
            if exists {
                (UpdateState::Launching, one(UpdateAction::LaunchPatcher(d)))
            } else {
                let a = d.clone();
                (UpdateState::Downloading(d), one(UpdateAction::DownloadPatcher(a)))
            }
        },
        (UpdateState::Downloading(d), UpdateEvent::Downloaded(ok)) => {
            if ok {
                (UpdateState::Launching, one(UpdateAction::LaunchPatcher(d)))
            } else {
                (UpdateState::Finished(UpdateOutcome::DownloadFailed), Vec::new())
            }
        },
        (UpdateState::Launching, UpdateEvent::Launched(ok)) => {
            if ok {
                (UpdateState::Finished(UpdateOutcome::Relaunched), one(UpdateAction::Exit(0)))
            } else {
                (UpdateState::Finished(UpdateOutcome::LaunchFailed), Vec::new())
            }
        },
        (other, _) => (other, Vec::new()),
    }
}

/// The state that a run of events leads to from `state`, and every operation
/// it asks for, in order.
pub open spec fn update_run(state: UpdateStateView, events: Seq<UpdateEventView>) -> (
    UpdateStateView,
    Seq<UpdateActionView>,
)
    decreases events.len(),
{
    if events.len() == 0 {
        (state, Seq::<UpdateActionView>::empty())
    } else {
        let rest = update_run(update_next(state, events[0]), events.drop_first());
        (rest.0, update_actions(state, events[0]) + rest.1)
    }
}

/// Once a run has finished, nothing changes it any more and it asks for no
/// operation.
pub proof fn lemma_finished_is_final(outcome: UpdateOutcome, events: Seq<UpdateEventView>)
    ensures
        update_run(UpdateStateView::Finished(outcome), events) == (
            UpdateStateView::Finished(outcome),
            Seq::<UpdateActionView>::empty(),
        ),
    decreases events.len(),
{
    if events.len() > 0 {
        lemma_finished_is_final(outcome, events.drop_first());
        assert(Seq::<UpdateActionView>::empty() + Seq::<UpdateActionView>::empty()
            =~= Seq::<UpdateActionView>::empty());
    }
}

/// When the server answers that the running version is the latest, the
/// updater finishes at once: whatever happens after, it downloads nothing,
/// starts nothing and shows nothing.
pub proof fn lemma_up_to_date_does_nothing(events: Seq<UpdateEventView>)
    ensures
        update_run(
            UpdateStateView::CheckingVersion,
            seq![UpdateEventView::VersionChecked(Some(true))] + events,
        ) == (UpdateStateView::Finished(UpdateOutcome::UpToDate), Seq::<UpdateActionView>::empty()),
{
    let all = seq![UpdateEventView::VersionChecked(Some(true))] + events;
    assert(all.drop_first() =~= events);
    lemma_finished_is_final(UpdateOutcome::UpToDate, events);
    assert(Seq::<UpdateActionView>::empty() + Seq::<UpdateActionView>::empty()
        =~= Seq::<UpdateActionView>::empty());
}

/// When the user name cannot be read, the run ends at once with that failure:
/// no folder is looked at or created, nothing is downloaded or started, and
/// the process does not end.
pub proof fn lemma_user_name_failure_stops(events: Seq<UpdateEventView>)
    ensures
        update_run(
            UpdateStateView::ReadingUserName,
            seq![UpdateEventView::UserName(None)] + events,
        ) == (
            UpdateStateView::Finished(UpdateOutcome::UserNameFailed),
            Seq::<UpdateActionView>::empty(),
        ),
{
    let all = seq![UpdateEventView::UserName(None)] + events;
    assert(all.drop_first() =~= events);
    lemma_finished_is_final(UpdateOutcome::UserNameFailed, events);
    assert(Seq::<UpdateActionView>::empty() + Seq::<UpdateActionView>::empty()
        =~= Seq::<UpdateActionView>::empty());
}

/// When the patcher cannot be started, the run ends with that failure and the
/// process does not end.
pub proof fn lemma_launch_failure_stops(events: Seq<UpdateEventView>)
    ensures
        update_run(UpdateStateView::Launching, seq![UpdateEventView::Launched(false)] + events)
            == (
            UpdateStateView::Finished(UpdateOutcome::LaunchFailed),
            Seq::<UpdateActionView>::empty(),
        ),
{
    let all = seq![UpdateEventView::Launched(false)] + events;
    assert(all.drop_first() =~= events);
    lemma_finished_is_final(UpdateOutcome::LaunchFailed, events);
    assert(Seq::<UpdateActionView>::empty() + Seq::<UpdateActionView>::empty()
        =~= Seq::<UpdateActionView>::empty());
}

/// A run ends because of its folder only right after creating that folder
/// failed: a folder that already exists never ends a run.
pub proof fn lemma_dir_failed_only_after_failed_create(
    state: UpdateStateView,
    event: UpdateEventView,
)
    requires
        !(state is Finished),
        update_next(state, event) == UpdateStateView::Finished(UpdateOutcome::DirFailed),
    ensures
        state is CreatingDir,
        event == UpdateEventView::DirCreated(false),
{
}

/// An update where the patcher's folder and the patcher are already there:
/// the run looks at the user's folder, finds the patcher, starts it and ends
/// the process, and creates and downloads nothing.
pub proof fn lemma_update_with_patcher_present(user_name: Seq<char>)
    ensures
        update_run(
            UpdateStateView::Start,
            seq![
                UpdateEventView::Started,
                UpdateEventView::VersionChecked(Some(false)),
                UpdateEventView::UserName(Some(user_name)),
                UpdateEventView::DirExists(true),
                UpdateEventView::PatcherExists(true),
                UpdateEventView::Launched(true),
            ],
        ) == (
            UpdateStateView::Finished(UpdateOutcome::Relaunched),
            seq![
                UpdateActionView::CheckVersion,
                UpdateActionView::Notify(UpdateNotice::UpdateAvailable),
                UpdateActionView::ReadUserName,
                UpdateActionView::CheckDir(patcher_dir_of(user_name)),
                UpdateActionView::CheckPatcher(patcher_dir_of(user_name)),
                UpdateActionView::LaunchPatcher(patcher_dir_of(user_name)),
                UpdateActionView::Exit(0),
            ],
        ),
{
    let d = patcher_dir_of(user_name);
    let es = seq![
        UpdateEventView::Started,
        UpdateEventView::VersionChecked(Some(false)),
        UpdateEventView::UserName(Some(user_name)),
        UpdateEventView::DirExists(true),
        UpdateEventView::PatcherExists(true),
        UpdateEventView::Launched(true),
    ];
    let r6 = update_run(UpdateStateView::Finished(UpdateOutcome::Relaunched), es.skip(6));
    assert(es.skip(6) =~= Seq::<UpdateEventView>::empty());
    let r5 = update_run(UpdateStateView::Launching, es.skip(5));
    assert(es.skip(5).drop_first() =~= es.skip(6));
    assert(r5.1 =~= seq![UpdateActionView::Exit(0)]);
    let r4 = update_run(UpdateStateView::CheckingPatcher(d), es.skip(4));
    assert(es.skip(4).drop_first() =~= es.skip(5));
    assert(r4.1 =~= seq![UpdateActionView::LaunchPatcher(d), UpdateActionView::Exit(0)]);
    let r3 = update_run(UpdateStateView::CheckingDir(d), es.skip(3));
    assert(es.skip(3).drop_first() =~= es.skip(4));
    assert(r3.1 =~= seq![
        UpdateActionView::CheckPatcher(d),
        UpdateActionView::LaunchPatcher(d),
        UpdateActionView::Exit(0),
    ]);
    let r2 = update_run(UpdateStateView::ReadingUserName, es.skip(2));
    assert(es.skip(2).drop_first() =~= es.skip(3));
    assert(r2.1 =~= seq![
        UpdateActionView::CheckDir(d),
        UpdateActionView::CheckPatcher(d),
        UpdateActionView::LaunchPatcher(d),
        UpdateActionView::Exit(0),
    ]);
    let r1 = update_run(UpdateStateView::CheckingVersion, es.skip(1));
    assert(es.skip(1).drop_first() =~= es.skip(2));
    assert(r1.1 =~= seq![
        UpdateActionView::Notify(UpdateNotice::UpdateAvailable),
        UpdateActionView::ReadUserName,
        UpdateActionView::CheckDir(d),
        UpdateActionView::CheckPatcher(d),
        UpdateActionView::LaunchPatcher(d),
        UpdateActionView::Exit(0),
    ]);
    assert(es.drop_first() =~= es.skip(1));
}

/// An update where neither the folder nor the patcher is there yet: the run
/// creates the user's folder, downloads the patcher into it, starts it and
/// ends the process.
pub proof fn lemma_update_first_install(user_name: Seq<char>)
    ensures
        update_run(
            UpdateStateView::Start,
            seq![
                UpdateEventView::Started,
                UpdateEventView::VersionChecked(Some(false)),
                UpdateEventView::UserName(Some(user_name)),
                UpdateEventView::DirExists(false),
                UpdateEventView::DirCreated(true),
                UpdateEventView::PatcherExists(false),
                UpdateEventView::Downloaded(true),
                UpdateEventView::Launched(true),
            ],
        ) == (
            UpdateStateView::Finished(UpdateOutcome::Relaunched),
            seq![
                UpdateActionView::CheckVersion,
                UpdateActionView::Notify(UpdateNotice::UpdateAvailable),
                UpdateActionView::ReadUserName,
                UpdateActionView::CheckDir(patcher_dir_of(user_name)),
                UpdateActionView::CreateDir(patcher_dir_of(user_name)),
                UpdateActionView::CheckPatcher(patcher_dir_of(user_name)),
                UpdateActionView::DownloadPatcher(patcher_dir_of(user_name)),
                UpdateActionView::LaunchPatcher(patcher_dir_of(user_name)),
                UpdateActionView::Exit(0),
            ],
        ),
{
    let d = patcher_dir_of(user_name);
    let es = seq![
        UpdateEventView::Started,
        UpdateEventView::VersionChecked(Some(false)),
        UpdateEventView::UserName(Some(user_name)),
        UpdateEventView::DirExists(false),
        UpdateEventView::DirCreated(true),
        UpdateEventView::PatcherExists(false),
        UpdateEventView::Downloaded(true),
        UpdateEventView::Launched(true),
    ];
    assert(es.skip(8) =~= Seq::<UpdateEventView>::empty());
    let acts = seq![
        UpdateActionView::CheckVersion,
        UpdateActionView::Notify(UpdateNotice::UpdateAvailable),
        UpdateActionView::ReadUserName,
        UpdateActionView::CheckDir(d),
        UpdateActionView::CreateDir(d),
        UpdateActionView::CheckPatcher(d),
        UpdateActionView::DownloadPatcher(d),
        UpdateActionView::LaunchPatcher(d),
        UpdateActionView::Exit(0),
    ];
    assert(es.skip(7).drop_first() =~= es.skip(8));
    assert(es.skip(7)[0] == UpdateEventView::Launched(true));
    assert(update_run(
        UpdateStateView::Finished(UpdateOutcome::Relaunched),
        Seq::<UpdateEventView>::empty(),
    ).1 =~= Seq::<UpdateActionView>::empty());
    assert(acts.skip(8) =~= seq![UpdateActionView::Exit(0)]);
    assert(update_run(UpdateStateView::Launching, es.skip(7)).1 =~= acts.skip(8));
    assert(es.skip(6).drop_first() =~= es.skip(7));
    assert(update_run(UpdateStateView::Downloading(d), es.skip(6)).1 =~= acts.skip(7));
    assert(es.skip(5).drop_first() =~= es.skip(6));
    assert(update_run(UpdateStateView::CheckingPatcher(d), es.skip(5)).1 =~= acts.skip(6));
    assert(es.skip(4).drop_first() =~= es.skip(5));
    assert(update_run(UpdateStateView::CreatingDir(d), es.skip(4)).1 =~= acts.skip(5));
    assert(es.skip(3).drop_first() =~= es.skip(4));
    assert(update_run(UpdateStateView::CheckingDir(d), es.skip(3)).1 =~= acts.skip(4));
    assert(es.skip(2).drop_first() =~= es.skip(3));
    assert(update_run(UpdateStateView::ReadingUserName, es.skip(2)).1 =~= acts.skip(3));
    assert(es.skip(1).drop_first() =~= es.skip(2));
    assert(update_run(UpdateStateView::CheckingVersion, es.skip(1)).1 =~= acts.skip(1));
    assert(es.drop_first() =~= es.skip(1));
    assert(acts.skip(0) =~= acts);
}

/// The patcher is started only from a folder that holds it: right after it
/// was found there, or right after it was downloaded there.
pub proof fn lemma_launch_needs_patcher(
    state: UpdateStateView,
    event: UpdateEventView,
    dir: Seq<char>,
)
    requires
        update_actions(state, event).contains(UpdateActionView::LaunchPatcher(dir)),
    ensures
        (state == UpdateStateView::CheckingPatcher(dir) && event
            == UpdateEventView::PatcherExists(true)) || (state == UpdateStateView::Downloading(dir)
            && event == UpdateEventView::Downloaded(true)),
{
    let acts = update_actions(state, event);
    let k = choose|k: int| 0 <= k < acts.len() && acts[k] == UpdateActionView::LaunchPatcher(dir);
    assert(acts[k] == UpdateActionView::LaunchPatcher(dir));
}

/// Whether a run that ended with `outcome` went well: the version was the
/// latest, or the patcher was started. Every other ending is an error.
pub fn update_succeeded(outcome: &UpdateOutcome) -> (ok: bool)
    ensures
        ok == (*outcome is UpToDate || *outcome is Relaunched),
{
    match outcome {
        UpdateOutcome::UpToDate => true,
        UpdateOutcome::Relaunched => true,
        _ => false,
    }
}

/// The notification that the updater shows for `notice`.
pub fn update_notice(notice: &UpdateNotice) -> (n: Notification)
    ensures
        match notice {
            UpdateNotice::UpdateAvailable => is_notification(
                n,
                CHECK_VERSION_MSG@,
                SUMMARY_S_CHECK_VERSION@,
            ),
            UpdateNotice::CheckFailed => is_notification(
                n,
                CHECK_VERSION_ERR_MSG@,
                SUMMARY_F_CHECK_VERSION@,
            ),
        },
{
    match notice {
        UpdateNotice::UpdateAvailable => Notification {
            msg: CHECK_VERSION_MSG.to_owned(),
            summary: SUMMARY_S_CHECK_VERSION.to_owned(),
        },
        UpdateNotice::CheckFailed => Notification {
            msg: CHECK_VERSION_ERR_MSG.to_owned(),
            summary: SUMMARY_F_CHECK_VERSION.to_owned(),
        },
    }
}

} // verus!
