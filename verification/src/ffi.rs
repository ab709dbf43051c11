//! The values that cross the boundary to the host application, and the answers
//! it gets.

use crate::config::{Config, LibraryConfig};
use crate::runtime;
use crate::runtime::SyncStatusInfo;
use crate::text::concat2;
use crate::types;
use crate::types::SyncError;
use vstd::prelude::*;
use vstd::string::*;

verus! {

/// One library of the host application. Empty `stump_library_id` and
/// `stump_library_path` mean "discover this library at start-up".
#[derive(Debug)]
pub struct LibraryEntry {
    pub yac_library_id: i64,
    pub ydb_path: String,
    pub library_root: String,
    pub stump_library_id: String,
    pub stump_library_path: String,
}

/// The settings of the host application.
#[derive(Debug)]
pub struct SyncConfig {
    pub stump_url: String,
    pub api_key: String,
    pub user_id: String,
    pub mapping_db_path: String,
    pub sync_interval_secs: u64,
    pub libraries: Vec<LibraryEntry>,
}

/// The answer to a command.
#[derive(Debug)]
pub struct SyncResult {
    pub success: bool,
    pub error_message: String,
}

/// The contents of a [`SyncResult`].
pub struct SyncResultView {
    pub success: bool,
    pub error_message: Seq<char>,
}

impl View for SyncResult {
    type V = SyncResultView;

    open spec fn view(&self) -> SyncResultView {
        SyncResultView { success: self.success, error_message: self.error_message@ }
    }
}

/// The status as the host application sees it.
#[derive(Debug)]
pub struct SyncStatus {
    pub is_running: bool,
    pub last_error: String,
    pub synced_count: u32,
}

impl View for SyncStatus {
    type V = runtime::StatusView;

    open spec fn view(&self) -> runtime::StatusView {
        runtime::StatusView {
            is_running: self.is_running,
            last_error: self.last_error@,
            synced_count: self.synced_count as int,
        }
    }
}

/// The answer for a success.
pub fn make_ok() -> (r: SyncResult)
    ensures
        r@ == (SyncResultView { success: true, error_message: Seq::empty() }),
{
    let r = SyncResult { success: true, error_message: String::new() };
    assert(r@.error_message =~= Seq::<char>::empty());
    r
}

/// The answer for a failure.
pub fn make_err(msg: String) -> (r: SyncResult)
    ensures
        r@ == (SyncResultView { success: false, error_message: msg@ }),
{
    SyncResult { success: false, error_message: msg }
}

/// The settings of a library that an entry stands for.
pub open spec fn library_of(entry: LibraryEntry) -> LibraryConfig {
    LibraryConfig {
        yac_library_id: entry.yac_library_id,
        ydb_path: entry.ydb_path,
        library_root: entry.library_root,
        stump_library_id: entry.stump_library_id,
        stump_library_path: entry.stump_library_path,
    }
}

/// The settings of the libraries, one for each entry and in order.
pub fn library_configs_from_ffi(entries: &[LibraryEntry]) -> (r: Vec<LibraryConfig>)
    ensures
        r@ == entries@.map_values(|e: LibraryEntry| library_of(e)),
{
    let mut r: Vec<LibraryConfig> = Vec::new();
    let n: usize = entries.len();
    let ghost all = entries@.map_values(|e: LibraryEntry| library_of(e));
    for i in 0..n
        invariant
            n == entries@.len(),
            all == entries@.map_values(|e: LibraryEntry| library_of(e)),
            r@ == all.take(i as int),
    {
        let e = &entries[i];
        r.push(
            LibraryConfig {
                yac_library_id: e.yac_library_id,
                ydb_path: e.ydb_path.clone(),
                library_root: e.library_root.clone(),
                stump_library_id: e.stump_library_id.clone(),
                stump_library_path: e.stump_library_path.clone(),
            },
        );
        assert(all.take(i + 1) =~= all.take(i as int).push(all[i as int]));
    }
    assert(all.take(n as int) =~= all);
    r
}

/// The settings of the library that the host application's settings stand for.
pub fn config_from_ffi(config: &SyncConfig) -> (r: Config)
    ensures
        r.stump_url == config.stump_url,
        r.api_key == config.api_key,
        r.user_id == config.user_id,
        r.mapping_db_path == config.mapping_db_path,
        r.sync_interval_secs == config.sync_interval_secs,
        r.libraries@ == config.libraries@.map_values(|e: LibraryEntry| library_of(e)),
{
    Config {
        stump_url: config.stump_url.clone(),
        api_key: config.api_key.clone(),
        user_id: config.user_id.clone(),
        mapping_db_path: config.mapping_db_path.clone(),
        sync_interval_secs: config.sync_interval_secs,
        libraries: library_configs_from_ffi(config.libraries.as_slice()),
    }
}

/// What became of a command.
#[derive(Debug)]
pub enum Handed {
    /// The place where the background task is kept cannot be used any more.
    Poisoned(String),
    /// There is no background task.
    NotStarted,
    /// The background task was there, with this outcome.
    Outcome(Result<(), SyncError>),
}

/// The contents of a [`Handed`].
pub enum HandedView {
    Poisoned(Seq<char>),
    NotStarted,
    Outcome(Result<(), types::ErrorView>),
}

impl View for Handed {
    type V = HandedView;

    open spec fn view(&self) -> HandedView {
        match *self {
            Handed::Poisoned(cause) => HandedView::Poisoned(cause@),
            Handed::NotStarted => HandedView::NotStarted,
            Handed::Outcome(r) => HandedView::Outcome(types::outcome(r)),
        }
    }
}

/// The answer to a command, by what became of it.
pub open spec fn answer_to(handed: HandedView) -> SyncResultView {
    match handed {
        HandedView::Poisoned(cause) => SyncResultView {
            success: false,
            error_message: "lock poisoned: "@ + cause,
        },
        HandedView::NotStarted => SyncResultView {
            success: false,
            error_message: types::ErrorView::NotInitialized.message(),
        },
        HandedView::Outcome(Ok(_)) => SyncResultView {
            success: true,
            error_message: Seq::empty(),
        },
        HandedView::Outcome(Err(e)) => SyncResultView {
            success: false,
            error_message: e.message(),
        },
    }
}

/// The answer to a command, by what became of it.
pub fn command_answer(handed: Handed) -> (r: SyncResult)
    ensures
        r@ == answer_to(handed@),
{
    match handed {
        Handed::Poisoned(cause) => make_err(concat2("lock poisoned: ", cause.as_str())),
        Handed::NotStarted => make_err("sync engine not initialized".to_owned()),
        Handed::Outcome(Ok(_)) => make_ok(),
        Handed::Outcome(Err(e)) => make_err(e.to_string()),
    }
}

/// What is found where the background task is kept.
#[derive(Debug)]
pub enum StatusFound {
    Poisoned,
    NotStarted,
    Known(SyncStatusInfo),
}

/// The status that the host application is told.
pub fn status_answer(found: StatusFound) -> (r: SyncStatus)
    ensures
        r@ == (match found {
            StatusFound::Poisoned => runtime::StatusView {
                last_error: "lock poisoned"@,
                ..runtime::idle_status()
            },
            StatusFound::NotStarted => runtime::idle_status(),
            StatusFound::Known(info) => info@,
        }),
{
    match found {
        StatusFound::Poisoned => SyncStatus {
            is_running: false,
            last_error: "lock poisoned".to_owned(),
            synced_count: 0,
        },
        StatusFound::NotStarted => {
            let r = SyncStatus { is_running: false, last_error: String::new(), synced_count: 0 };
            assert(r@.last_error =~= Seq::<char>::empty());
            r
        },
        StatusFound::Known(info) => SyncStatus {
            is_running: info.is_running,
            last_error: info.last_error,
            synced_count: info.synced_count,
        },
    }
}

/// A command is answered with success exactly where the background task was
/// there and took it.
pub proof fn success_means_delivered(handed: HandedView)
    ensures
        answer_to(handed).success <==> handed matches HandedView::Outcome(Ok(_)),
{
}

/// A failure is answered in words: that there is no background task, that the
/// place where it is kept cannot be used and why, or what went wrong in it. A
/// success is answered without words.
pub proof fn failure_is_answered_in_words(cause: Seq<char>, e: types::ErrorView)
    ensures
        answer_to(HandedView::NotStarted) == (SyncResultView {
            success: false,
            error_message: "sync engine not initialized"@,
        }),
        answer_to(HandedView::Poisoned(cause)) == (SyncResultView {
            success: false,
            error_message: "lock poisoned: "@ + cause,
        }),
        answer_to(HandedView::Outcome(Err(e))) == (SyncResultView {
            success: false,
            error_message: e.message(),
        }),
        answer_to(HandedView::Outcome(Ok(()))).error_message.len() == 0,
{
}

/// An entry of the host application is taken over as it is.
pub proof fn entry_is_taken_over(entry: LibraryEntry)
    ensures
        library_of(entry)@.yac_library_id == entry.yac_library_id,
        library_of(entry)@.ydb_path == entry.ydb_path@,
        library_of(entry)@.library_root == entry.library_root@,
        library_of(entry)@.stump_library_id == entry.stump_library_id@,
        library_of(entry)@.stump_library_path == entry.stump_library_path@,
{
}

/// The contents of what became of a command are what it says, and those of an
/// answer are its fields.
pub proof fn answers_show_what_they_hold(handed: Handed, result: SyncResult)
    ensures
        handed matches Handed::Poisoned(cause) ==> handed@ == HandedView::Poisoned(cause@),
        handed is NotStarted ==> handed@ is NotStarted,
        handed matches Handed::Outcome(Ok(_)) ==> handed@ == HandedView::Outcome(Ok(())),
        handed matches Handed::Outcome(Err(e)) ==> handed@ == HandedView::Outcome(Err(e@)),
        result@.success == result.success,
        result@.error_message == result.error_message@,
{
}

/// The host application is told the status as it is known. Without a task it is
/// told that nothing runs and nothing was done, and nothing else unless the
/// place where the task is kept cannot be used.
pub proof fn known_status_is_told(found: StatusFound, status: SyncStatus)
    requires
        call_ensures(status_answer, (found,), status),
    ensures
        found matches StatusFound::Known(info) ==> status.is_running == info.is_running
            && status.last_error@ == info.last_error@ && status.synced_count == info.synced_count,
        !(found is Known) ==> !status.is_running && status.synced_count == 0,
        found is NotStarted ==> status.last_error@.len() == 0,
        found is Poisoned ==> status.last_error@ == "lock poisoned"@,
{
}

/// The settings of the host application are taken over as they are, library by
/// library and in order.
pub proof fn settings_are_taken_over(config: &SyncConfig, r: Config, i: int)
    requires
        call_ensures(config_from_ffi, (config,), r),
        0 <= i < config.libraries@.len(),
    ensures
        r.stump_url@ == config.stump_url@,
        r.api_key@ == config.api_key@,
        r.user_id@ == config.user_id@,
        r.mapping_db_path@ == config.mapping_db_path@,
        r.sync_interval_secs == config.sync_interval_secs,
        r.libraries@.len() == config.libraries@.len(),
        r.libraries@[i].yac_library_id == config.libraries@[i].yac_library_id,
        r.libraries@[i].ydb_path@ == config.libraries@[i].ydb_path@,
        r.libraries@[i].library_root@ == config.libraries@[i].library_root@,
        r.libraries@[i].stump_library_id@ == config.libraries@[i].stump_library_id@,
        r.libraries@[i].stump_library_path@ == config.libraries@[i].stump_library_path@,
{
}

} // verus!
