//! The commands that the background task takes, and the status that it keeps.

use crate::sync_engine::model::Mode;
use crate::types;
use crate::types::{SyncError, SyncReport};
use vstd::prelude::*;
use vstd::string::*;

verus! {

/// A command to the background task.
#[derive(Debug, Clone, Copy)]
pub enum SyncCommand {
    /// Push the progress of one comic.
    PushProgress { library_id: i64, comic_id: i64 },
    PushAll,
    PullAll,
    SyncAll,
    Shutdown,
}

/// What is known of the background task.
#[derive(Debug, Clone)]
pub struct SyncStatusInfo {
    pub is_running: bool,
    pub last_error: String,
    pub synced_count: u32,
}

/// The contents of a [`SyncStatusInfo`].
pub struct StatusView {
    pub is_running: bool,
    pub last_error: Seq<char>,
    pub synced_count: int,
}

impl View for SyncStatusInfo {
    type V = StatusView;

    open spec fn view(&self) -> StatusView {
        StatusView {
            is_running: self.is_running,
            last_error: self.last_error@,
            synced_count: self.synced_count as int,
        }
    }
}

/// The status of a task that is not running and has done nothing.
pub open spec fn idle_status() -> StatusView {
    StatusView { is_running: false, last_error: Seq::empty(), synced_count: 0 }
}

impl Default for SyncStatusInfo {
    fn default() -> (r: Self)
        ensures
            r@ == idle_status(),
    {
        let r = Self { is_running: false, last_error: String::new(), synced_count: 0 };
        assert(r@.last_error =~= Seq::<char>::empty());
        r
    }
}

/// What a command makes the background task do.
#[derive(Debug, Clone, Copy)]
pub enum Task {
    PushSingle { library_id: i64, comic_id: i64 },
    Run(Mode),
    Stop,
}

/// What a command makes the background task do.
pub fn task_for(command: SyncCommand) -> (r: Task)
    ensures
        r == (match command {
            SyncCommand::PushProgress { library_id, comic_id } => Task::PushSingle {
                library_id,
                comic_id,
            },
            SyncCommand::PushAll => Task::Run(Mode::Push),
            SyncCommand::PullAll => Task::Run(Mode::Pull),
            SyncCommand::SyncAll => Task::Run(Mode::Sync),
            SyncCommand::Shutdown => Task::Stop,
        }),
{
    match command {
        SyncCommand::PushProgress { library_id, comic_id } => Task::PushSingle {
            library_id,
            comic_id,
        },
        SyncCommand::PushAll => Task::Run(Mode::Push),
        SyncCommand::PullAll => Task::Run(Mode::Pull),
        SyncCommand::SyncAll => Task::Run(Mode::Sync),
        SyncCommand::Shutdown => Task::Stop,
    }
}

/// What came of a task.
#[derive(Debug)]
pub enum TaskOutcome {
    PushSingle(Result<(), SyncError>),
    Run(Mode, Result<SyncReport, SyncError>),
    /// The task was to stop, or nobody is left to send commands.
    Stopped,
}

/// The contents of a [`TaskOutcome`].
pub enum TaskOutcomeView {
    PushSingle(Result<(), types::ErrorView>),
    Run(Mode, Result<types::ReportView, types::ErrorView>),
    Stopped,
}

impl View for TaskOutcome {
    type V = TaskOutcomeView;

    open spec fn view(&self) -> TaskOutcomeView {
        match *self {
            TaskOutcome::PushSingle(r) => TaskOutcomeView::PushSingle(types::outcome(r)),
            TaskOutcome::Run(mode, Ok(report)) => TaskOutcomeView::Run(mode, Ok(report@)),
            TaskOutcome::Run(mode, Err(e)) => TaskOutcomeView::Run(mode, Err(e@)),
            TaskOutcome::Stopped => TaskOutcomeView::Stopped,
        }
    }
}

/// How much a run synchronised. Of a push run the pushes count; of the others
/// the pulls as well.
pub open spec fn synced_by(mode: Mode, report: types::ReportView) -> int {
    let pushed = report.pages_pushed + report.completions_pushed;
    if mode == Mode::Push {
        pushed
    } else {
        pushed + report.pages_pulled + report.completions_pulled
    }
}

/// The status after a task: an error is kept as the last one, a success counts
/// what it synchronised.
pub open spec fn status_after(before: StatusView, outcome: TaskOutcomeView) -> StatusView {
    match outcome {
        TaskOutcomeView::PushSingle(Ok(_)) => StatusView {
            synced_count: before.synced_count + 1,
            ..before
        },
        TaskOutcomeView::PushSingle(Err(e)) => StatusView { last_error: e.message(), ..before },
        TaskOutcomeView::Run(mode, Ok(report)) => StatusView {
            synced_count: before.synced_count + synced_by(mode, report),
            ..before
        },
        TaskOutcomeView::Run(_, Err(e)) => StatusView { last_error: e.message(), ..before },
        TaskOutcomeView::Stopped => StatusView { is_running: false, ..before },
    }
}

impl SyncStatusInfo {
    /// The status of a task that was just started.
    pub fn started() -> (r: SyncStatusInfo)
        ensures
            r@ == (StatusView { is_running: true, ..idle_status() }),
    {
        let mut r = SyncStatusInfo::default();
        r.is_running = true;
        r
    }

    /// Whether the count still fits its type once the outcome is recorded.
    pub fn has_room(&self, outcome: &TaskOutcome) -> (r: bool)
        ensures
            r == (status_after(self@, outcome@).synced_count <= u32::MAX),
    {
        match outcome {
            TaskOutcome::PushSingle(Ok(_)) => self.synced_count < u32::MAX,
            TaskOutcome::Run(mode, Ok(report)) => {
                let pushed: u64 = report.pages_pushed as u64 + report.completions_pushed as u64;
                let pulled: u64 = match mode {
                    Mode::Push => 0,
                    _ => report.pages_pulled as u64 + report.completions_pulled as u64,
                };
                self.synced_count as u64 + pushed + pulled <= u32::MAX as u64
            },
            _ => true,
        }
    }

    /// Records what came of a task.
    pub fn record(&mut self, outcome: &TaskOutcome)
        requires
            status_after(old(self)@, outcome@).synced_count <= u32::MAX,
        ensures
            final(self)@ == status_after(old(self)@, outcome@),
    {
        match outcome {
            TaskOutcome::PushSingle(Ok(_)) => {
                self.synced_count = self.synced_count + 1;
            },
            TaskOutcome::PushSingle(Err(e)) => {
                self.last_error = e.to_string();
            },
            TaskOutcome::Run(mode, Ok(report)) => {
                let pushed: u32 = report.pages_pushed + report.completions_pushed;
                let pulled: u32 = match mode {
                    Mode::Push => 0,
                    _ => report.pages_pulled + report.completions_pulled,
                };
                self.synced_count = self.synced_count + (pushed + pulled);
            },
            TaskOutcome::Run(_, Err(e)) => {
                self.last_error = e.to_string();
            },
            TaskOutcome::Stopped => {
                self.is_running = false;
            },
        }
    }
}

/// An error leaves the count alone, a success leaves the last error alone, the
/// count never goes down, and only stopping stops the task.
pub proof fn failures_do_not_stop_the_task(before: StatusView, outcome: TaskOutcomeView)
    requires
        outcome matches TaskOutcomeView::Run(_, Ok(report)) ==> {
            &&& report.pages_pushed >= 0
            &&& report.completions_pushed >= 0
            &&& report.pages_pulled >= 0
            &&& report.completions_pulled >= 0
        },
    ensures
        ({
            let after = status_after(before, outcome);
            let error = outcome matches TaskOutcomeView::PushSingle(Err(_))
                || outcome matches TaskOutcomeView::Run(_, Err(_));
            &&& !(outcome is Stopped) ==> after.is_running == before.is_running
            &&& outcome is Stopped ==> !after.is_running
            &&& after.synced_count >= before.synced_count
            &&& error ==> after.synced_count == before.synced_count
            &&& !error ==> after.last_error == before.last_error
        }),
{
}

/// What a task leaves in the status: a push of one comic that went well counts
/// one; a run that went well counts what it pushed, pages and completions, and
/// what it pulled where it was no push run; a failure is kept as the last
/// error, in words, and counts nothing; stopping only stops.
pub proof fn each_outcome_is_recorded(
    before: StatusView,
    mode: Mode,
    report: types::ReportView,
    e: types::ErrorView,
)
    ensures
        status_after(before, TaskOutcomeView::PushSingle(Ok(()))) == (StatusView {
            synced_count: before.synced_count + 1,
            ..before
        }),
        status_after(before, TaskOutcomeView::PushSingle(Err(e))) == (StatusView {
            last_error: e.message(),
            ..before
        }),
        status_after(before, TaskOutcomeView::Run(mode, Err(e))) == (StatusView {
            last_error: e.message(),
            ..before
        }),
        mode == Mode::Push ==> status_after(before, TaskOutcomeView::Run(mode, Ok(report))) == (
        StatusView {
            synced_count: before.synced_count + report.pages_pushed + report.completions_pushed,
            ..before
        }),
        mode != Mode::Push ==> status_after(before, TaskOutcomeView::Run(mode, Ok(report))) == (
        StatusView {
            synced_count: before.synced_count + report.pages_pushed + report.completions_pushed
                + report.pages_pulled + report.completions_pulled,
            ..before
        }),
        status_after(before, TaskOutcomeView::Stopped) == (StatusView {
            is_running: false,
            ..before
        }),
{
}

/// A task that has not started has done nothing, and the contents of a status
/// are its fields.
pub proof fn status_shows_what_it_holds(status: SyncStatusInfo)
    ensures
        !idle_status().is_running,
        idle_status().last_error.len() == 0,
        idle_status().synced_count == 0,
        status@.is_running == status.is_running,
        status@.last_error == status.last_error@,
        status@.synced_count == status.synced_count,
{
}

/// The contents of an outcome are what it says.
pub proof fn outcomes_show_what_they_say(outcome: TaskOutcome)
    ensures
        outcome matches TaskOutcome::PushSingle(Ok(_)) ==> outcome@
            == TaskOutcomeView::PushSingle(Ok(())),
        outcome matches TaskOutcome::PushSingle(Err(e)) ==> outcome@
            == TaskOutcomeView::PushSingle(Err(e@)),
        outcome matches TaskOutcome::Run(mode, Ok(report)) ==> outcome@
            == TaskOutcomeView::Run(mode, Ok(report@)),
        outcome matches TaskOutcome::Run(mode, Err(e)) ==> outcome@
            == TaskOutcomeView::Run(mode, Err(e@)),
        outcome is Stopped ==> outcome@ is Stopped,
{
}

/// Each command has its own task: the push of the very comic that it names, a
/// run in its own direction, or the end.
pub proof fn each_command_has_its_task(command: SyncCommand, task: Task)
    requires
        call_ensures(task_for, (command,), task),
    ensures
        command matches SyncCommand::PushProgress { library_id, comic_id } ==> (
        task matches Task::PushSingle { library_id: l, comic_id: c } && l == library_id && c
            == comic_id),
        command is PushAll <==> task == Task::Run(Mode::Push),
        command is PullAll <==> task == Task::Run(Mode::Pull),
        command is SyncAll <==> task == Task::Run(Mode::Sync),
        command is Shutdown <==> task is Stop,
{
}

} // verus!
