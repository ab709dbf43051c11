//! The records that the two sides exchange, and the error of the library.

use crate::text;
use crate::text::concat2;
use vstd::prelude::*;
use vstd::string::*;

verus! {

/// Progress to push toward Stump. Page and completion are independent
/// dimensions, so either, both, or neither may be present.
#[derive(Debug, Clone, Copy, PartialEq)]
pub struct PushAction {
    /// New page to send to Stump (`None` leaves Stump's page unchanged).
    pub page: Option<i32>,
    /// Mark the comic complete on Stump.
    pub mark_complete: bool,
}

/// Progress to pull toward YACReader. Page and completion are independent
/// dimensions, so either, both, or neither may be present.
#[derive(Debug, Clone, Copy, PartialEq)]
pub struct PullAction {
    /// New page to write into the `.ydb` (`None` leaves YACReader's page
    /// unchanged).
    pub page: Option<i32>,
    /// In a monotonic pull, a request to raise the `read` flag, of no effect
    /// when false. In a regression pull (`allow_regression`), the exact value
    /// of the flag, so that false clears it.
    pub set_read: bool,
    /// Permits the writer to lower the page or to clear `read`. Set only for a
    /// validated re-read or un-completion on the Stump side.
    pub allow_regression: bool,
    /// The time to record alongside the pull, if one is known.
    pub last_opened: Option<i64>,
}

/// The outcome of reconciling one comic. A comic may need a push and a pull at
/// once, so the two are independent.
#[derive(Debug, Clone)]
pub struct BidirectionalDelta {
    pub comic_info_id: i64,
    pub stump_media_id: String,
    pub ydb_path: String,
    pub num_pages: i32,
    pub push: Option<PushAction>,
    pub pull: Option<PullAction>,
    /// The page that both sides hold after this synchronisation; the baseline
    /// of the next one.
    pub final_page: i32,
    /// The completion that both sides hold after this synchronisation.
    pub final_complete: bool,
}

/// The contents of a [`BidirectionalDelta`].
pub struct DeltaView {
    pub comic_info_id: i64,
    pub stump_media_id: Seq<char>,
    pub ydb_path: Seq<char>,
    pub num_pages: i32,
    pub push: Option<PushAction>,
    pub pull: Option<PullAction>,
    pub final_page: i32,
    pub final_complete: bool,
}

impl View for BidirectionalDelta {
    type V = DeltaView;

    open spec fn view(&self) -> DeltaView {
        DeltaView {
            comic_info_id: self.comic_info_id,
            stump_media_id: self.stump_media_id@,
            ydb_path: self.ydb_path@,
            num_pages: self.num_pages,
            push: self.push,
            pull: self.pull,
            final_page: self.final_page,
            final_complete: self.final_complete,
        }
    }
}

/// A Stump library, as the list of libraries names it.
#[derive(Debug, Clone)]
pub struct StumpLibrary {
    pub id: String,
    pub name: String,
    pub path: String,
}

/// A comic and its progress in a YACReader library.
#[derive(Debug, Clone)]
pub struct ComicProgress {
    pub comic_info_id: i64,
    pub comic_id: i64,
    pub current_page: i32,
    pub num_pages: i32,
    pub read: bool,
    pub has_been_opened: bool,
    pub last_time_opened: Option<i64>,
    pub hash: Option<String>,
    pub relative_path: String,
}

/// A comic in a Stump library.
///
/// Completion is no flag of the active session: it is the presence of a
/// finished session in `read_history`. The active session only carries the
/// page in progress.
#[derive(Debug, Clone)]
pub struct StumpMedia {
    pub id: String,
    pub name: String,
    pub pages: i32,
    pub path: String,
    /// The active reading session, if there is one.
    pub read_progress: Option<ActiveReadingSession>,
    /// The finished reading sessions.
    pub read_history: Vec<FinishedReadingSession>,
}

impl StumpMedia {
    /// Stump has recorded at least one finished session.
    pub open spec fn completed(self) -> bool {
        self.read_history@.len() > 0
    }

    /// The page of the active session, if it has a real one (an epub session
    /// has page -1).
    pub open spec fn active_page(self) -> Option<i32> {
        match self.read_progress {
            Some(session) => match session.page {
                Some(page) => if page >= 0 {
                    Some(page)
                } else {
                    None
                },
                None => None,
            },
            None => None,
        }
    }

    /// The page that Stump stands at: that of the active session; failing
    /// that, the last one of a finished comic; failing that, 0.
    pub open spec fn page_now(self) -> i32 {
        match self.active_page() {
            Some(page) => page,
            None => if self.completed() {
                self.pages
            } else {
                0
            },
        }
    }

    /// When the first finished session ended, if that is recorded.
    pub open spec fn first_completed_at(self) -> Option<Seq<char>> {
        if self.read_history@.len() > 0 {
            text::opt_text(self.read_history@[0].completed_at)
        } else {
            None
        }
    }

    /// When the active session was last updated, if that is recorded.
    pub open spec fn active_updated_at(self) -> Option<Seq<char>> {
        match self.read_progress {
            Some(session) => text::opt_text(session.updated_at),
            None => None,
        }
    }

    /// When this comic last changed on Stump: the active session's update,
    /// failing that the end of the first finished session.
    pub open spec fn changed_at(self) -> Option<Seq<char>> {
        match self.active_updated_at() {
            Some(t) => Some(t),
            None => self.first_completed_at(),
        }
    }

    /// The current page on Stump. A finished comic without an active session
    /// stands at its last page, never at 0.
    pub fn current_page(&self) -> (page: i32)
        ensures
            page == self.page_now(),
    {
        if let Some(session) = &self.read_progress {
            if let Some(page) = session.page {
                if page >= 0 {
                    return page;
                }
            }
        }
        if self.is_complete() {
            self.pages
        } else {
            0
        }
    }

    /// A comic is complete if Stump has recorded a finished session.
    pub fn is_complete(&self) -> (r: bool)
        ensures
            r == self.completed(),
    {
        self.read_history.len() > 0
    }

    /// When this comic last changed on Stump. Two such times come from the
    /// same server in one fixed format, so they compare as texts.
    pub fn stump_timestamp(&self) -> (r: Option<&str>)
        ensures
            text::opt_str(r) == self.changed_at(),
    {
        if let Some(session) = &self.read_progress {
            if let Some(t) = &session.updated_at {
                return Some(t.as_str());
            }
        }
        if self.read_history.len() > 0 {
            if let Some(t) = &self.read_history[0].completed_at {
                return Some(t.as_str());
            }
        }
        None
    }
}

/// The reading session in progress for a comic. `page` is -1 for an epub.
#[derive(Debug, Clone)]
pub struct ActiveReadingSession {
    pub page: Option<i32>,
    pub updated_at: Option<String>,
}

/// A finished reading session. Its presence marks the comic as complete.
#[derive(Debug, Clone)]
pub struct FinishedReadingSession {
    pub completed_at: Option<String>,
}

/// Progress to push toward Stump in a one-way synchronisation.
#[derive(Debug, Clone)]
pub struct SyncDelta {
    pub stump_media_id: String,
    pub new_page: Option<i32>,
    pub should_mark_complete: bool,
}

/// The contents of a [`SyncDelta`].
pub struct SyncDeltaView {
    pub stump_media_id: Seq<char>,
    pub new_page: Option<i32>,
    pub should_mark_complete: bool,
}

impl View for SyncDelta {
    type V = SyncDeltaView;

    open spec fn view(&self) -> SyncDeltaView {
        SyncDeltaView {
            stump_media_id: self.stump_media_id@,
            new_page: self.new_page,
            should_mark_complete: self.should_mark_complete,
        }
    }
}

/// The record that ties a YACReader comic to a Stump comic.
#[derive(Debug, Clone)]
pub struct MediaMapping {
    pub id: i64,
    pub library_mapping_id: i64,
    pub yac_comic_info_id: i64,
    pub yac_comic_id: i64,
    pub stump_media_id: String,
    pub relative_path: String,
    pub filename: String,
    pub matched_via: String,
}

/// The state that the last synchronisation of a comic left behind.
#[derive(Debug, Clone)]
pub struct SyncState {
    pub id: i64,
    pub media_mapping_id: i64,
    pub yac_current_page: i32,
    pub stump_current_page: i32,
    pub yac_read: bool,
    pub stump_complete: bool,
    pub yac_last_modified: Option<String>,
    pub stump_last_modified: Option<String>,
    pub last_synced_at: String,
}

/// What a run over the libraries has done.
#[derive(Debug, Clone)]
pub struct SyncReport {
    pub libraries_processed: u32,
    pub comics_matched: u32,
    pub pages_pushed: u32,
    pub completions_pushed: u32,
    pub pages_pulled: u32,
    pub completions_pulled: u32,
    pub errors: Vec<String>,
}

/// The contents of a [`SyncReport`].
pub struct ReportView {
    pub libraries_processed: int,
    pub comics_matched: int,
    pub pages_pushed: int,
    pub completions_pushed: int,
    pub pages_pulled: int,
    pub completions_pulled: int,
    pub errors: Seq<Seq<char>>,
}

impl View for SyncReport {
    type V = ReportView;

    open spec fn view(&self) -> ReportView {
        ReportView {
            libraries_processed: self.libraries_processed as int,
            comics_matched: self.comics_matched as int,
            pages_pushed: self.pages_pushed as int,
            completions_pushed: self.completions_pushed as int,
            pages_pulled: self.pages_pulled as int,
            completions_pulled: self.completions_pulled as int,
            errors: text::texts(self.errors@),
        }
    }
}

/// The report of a run that has done nothing yet.
pub open spec fn empty_report() -> ReportView {
    ReportView {
        libraries_processed: 0,
        comics_matched: 0,
        pages_pushed: 0,
        completions_pushed: 0,
        pages_pulled: 0,
        completions_pulled: 0,
        errors: Seq::empty(),
    }
}

impl SyncReport {
    /// The report of a run that has done nothing yet.
    pub fn new() -> (r: Self)
        ensures
            r@ == empty_report(),
    {
        let r = Self {
            libraries_processed: 0,
            comics_matched: 0,
            pages_pushed: 0,
            completions_pushed: 0,
            pages_pulled: 0,
            completions_pulled: 0,
            errors: Vec::new(),
        };
        assert(r@.errors =~= Seq::<Seq<char>>::empty());
        r
    }
}

impl Default for SyncReport {
    fn default() -> (r: Self)
        ensures
            r@ == empty_report(),
    {
        Self::new()
    }
}

/// What can go wrong in a synchronisation.
#[derive(Debug)]
pub enum SyncError {
    Database(String),
    Http(String),
    GraphQL(String),
    Config(String),
    NotInitialized,
}

/// The contents of a [`SyncError`].
pub enum ErrorView {
    Database(Seq<char>),
    Http(Seq<char>),
    GraphQL(Seq<char>),
    Config(Seq<char>),
    NotInitialized,
}

impl View for SyncError {
    type V = ErrorView;

    open spec fn view(&self) -> ErrorView {
        match self {
            SyncError::Database(m) => ErrorView::Database(m@),
            SyncError::Http(m) => ErrorView::Http(m@),
            SyncError::GraphQL(m) => ErrorView::GraphQL(m@),
            SyncError::Config(m) => ErrorView::Config(m@),
            SyncError::NotInitialized => ErrorView::NotInitialized,
        }
    }
}

impl ErrorView {
    /// The text that tells a reader what went wrong.
    pub open spec fn message(self) -> Seq<char> {
        match self {
            ErrorView::Database(m) => "database error: "@ + m,
            ErrorView::Http(m) => "HTTP error: "@ + m,
            ErrorView::GraphQL(m) => "GraphQL error: "@ + m,
            ErrorView::Config(m) => "config error: "@ + m,
            ErrorView::NotInitialized => "sync engine not initialized"@,
        }
    }
}

/// The contents of an outcome: its value, or the contents of its error.
pub open spec fn outcome<T>(r: Result<T, SyncError>) -> Result<T, ErrorView> {
    match r {
        Ok(v) => Ok(v),
        Err(e) => Err(e@),
    }
}

impl SyncError {
    /// The text that tells a reader what went wrong.
    pub fn to_string(&self) -> (r: String)
        ensures
            r@ == self@.message(),
    {
        match self {
            SyncError::Database(m) => concat2("database error: ", m.as_str()),
            SyncError::Http(m) => concat2("HTTP error: ", m.as_str()),
            SyncError::GraphQL(m) => concat2("GraphQL error: ", m.as_str()),
            SyncError::Config(m) => concat2("config error: ", m.as_str()),
            SyncError::NotInitialized => "sync engine not initialized".to_owned(),
        }
    }
}

/// The error type of `rusqlite`. Nothing is claimed of what it holds.
#[verifier::external_type_specification]
#[verifier::external_body]
pub struct ExRusqliteError(rusqlite::Error);

/// The error type of `reqwest`. Nothing is claimed of what it holds.
#[verifier::external_type_specification]
#[verifier::external_body]
pub struct ExReqwestError(reqwest::Error);

impl From<rusqlite::Error> for SyncError {
    fn from(e: rusqlite::Error) -> (r: Self)
        ensures
            r matches SyncError::Database(m) && to_string_from_display_ensures(&e, m),
    {
        SyncError::Database(e.to_string())
    }
}

/// The conversion is stated on `from` itself: the message is a string that
/// `to_string` may give for the error.
impl vstd::std_specs::convert::FromSpecImpl<rusqlite::Error> for SyncError {
    open spec fn obeys_from_spec() -> bool {
        false
    }

    open spec fn from_spec(e: rusqlite::Error) -> Self {
        SyncError::Database(arbitrary())
    }
}

impl From<reqwest::Error> for SyncError {
    fn from(e: reqwest::Error) -> (r: Self)
        ensures
            r matches SyncError::Http(m) && to_string_from_display_ensures(&e, m),
    {
        SyncError::Http(e.to_string())
    }
}

/// The conversion is stated on `from` itself: the message is a string that
/// `to_string` may give for the error.
impl vstd::std_specs::convert::FromSpecImpl<reqwest::Error> for SyncError {
    open spec fn obeys_from_spec() -> bool {
        false
    }

    open spec fn from_spec(e: reqwest::Error) -> Self {
        SyncError::Http(arbitrary())
    }
}

/// An active session with a real page decides where Stump stands, whatever was
/// finished before: a finished comic that is opened again stands where the new
/// session does. Without a real page a finished comic stands at its last page
/// and an unfinished one at 0.
pub proof fn active_session_decides_the_page(media: StumpMedia, page: i32)
    ensures
        media.read_progress matches Some(session) && session.page == Some(page) && page >= 0
            ==> media.page_now() == page,
        (media.read_progress matches Some(session) ==> session.page matches Some(p) ==> p < 0)
            && media.read_history@.len() > 0 ==> media.page_now() == media.pages,
        (media.read_progress matches Some(session) ==> session.page matches Some(p) ==> p < 0)
            && media.read_history@.len() == 0 ==> media.page_now() == 0,
{
}

/// A comic is complete on Stump exactly where a session of it was finished; an
/// active session neither completes it nor takes that back.
pub proof fn finished_session_means_complete(
    media: StumpMedia,
    session: Option<ActiveReadingSession>,
)
    ensures
        media.completed() <==> media.read_history@.len() > 0,
        (StumpMedia { read_progress: session, ..media }).completed() == media.completed(),
{
}

/// A comic changed on Stump when its active session was last updated; where
/// that is not recorded, when its first finished session ended; and where that
/// is not recorded either, nothing is known.
pub proof fn time_of_change_prefers_the_active_session(
    media: StumpMedia,
    session: ActiveReadingSession,
    t: String,
)
    ensures
        media.read_progress == Some(session) && session.updated_at == Some(t)
            ==> media.changed_at() == Some(t@),
        (media.read_progress matches Some(s) ==> s.updated_at is None)
            && media.read_history@.len() > 0 && media.read_history@[0].completed_at == Some(t)
            ==> media.changed_at() == Some(t@) && media.first_completed_at() == Some(t@),
        (media.read_progress matches Some(s) ==> s.updated_at is None)
            && media.read_history@.len() == 0 ==> media.changed_at() is None,
        (media.read_progress matches Some(s) ==> s.updated_at is None)
            && media.read_history@.len() > 0 && media.read_history@[0].completed_at is None
            ==> media.changed_at() is None,
        media.first_completed_at() is Some <==> media.read_history@.len() > 0
            && media.read_history@[0].completed_at is Some,
        media.read_history@.len() > 0 && media.read_history@[0].completed_at == Some(t)
            ==> media.first_completed_at() == Some(t@),
{
}

/// The text of an error ends with its cause, behind the words for its kind.
pub proof fn message_ends_with_the_cause(cause: Seq<char>)
    ensures
        ErrorView::Database(cause).message() == "database error: "@ + cause,
        ErrorView::Http(cause).message() == "HTTP error: "@ + cause,
        ErrorView::GraphQL(cause).message() == "GraphQL error: "@ + cause,
        ErrorView::Config(cause).message() == "config error: "@ + cause,
        ErrorView::NotInitialized.message() == "sync engine not initialized"@,
{
}

/// The contents of a delta are its fields, with texts in place of strings.
pub proof fn deltas_show_what_they_hold(both: BidirectionalDelta, one: SyncDelta)
    ensures
        both@.comic_info_id == both.comic_info_id,
        both@.stump_media_id == both.stump_media_id@,
        both@.ydb_path == both.ydb_path@,
        both@.num_pages == both.num_pages,
        both@.push == both.push,
        both@.pull == both.pull,
        both@.final_page == both.final_page,
        both@.final_complete == both.final_complete,
        one@.stump_media_id == one.stump_media_id@,
        one@.new_page == one.new_page,
        one@.should_mark_complete == one.should_mark_complete,
{
}

/// The contents of a report are its counters and the texts of its errors.
pub proof fn report_shows_what_it_holds(report: SyncReport)
    ensures
        report@.libraries_processed == report.libraries_processed,
        report@.comics_matched == report.comics_matched,
        report@.pages_pushed == report.pages_pushed,
        report@.completions_pushed == report.completions_pushed,
        report@.pages_pulled == report.pages_pulled,
        report@.completions_pulled == report.completions_pulled,
        report@.errors.len() == report.errors@.len(),
        forall|i: int|
            0 <= i < report.errors@.len() ==> #[trigger] report@.errors[i] == report.errors@[i]@,
{
}

/// The contents of an error are its kind and its text, and an outcome shows
/// either its value or the contents of its error.
pub proof fn errors_show_what_they_hold<T>(m: String, value: T, e: SyncError)
    ensures
        SyncError::Database(m)@ == ErrorView::Database(m@),
        SyncError::Http(m)@ == ErrorView::Http(m@),
        SyncError::GraphQL(m)@ == ErrorView::GraphQL(m@),
        SyncError::Config(m)@ == ErrorView::Config(m@),
        SyncError::NotInitialized@ == ErrorView::NotInitialized,
        outcome(Ok::<T, SyncError>(value)) == Ok::<T, ErrorView>(value),
        outcome(Err::<T, SyncError>(e)) == Err::<T, ErrorView>(e@),
{
}

/// What is read off a media: the page of an active session with a real page,
/// and complete exactly with a finished session.
pub proof fn media_tells_where_it_stands(
    media: &StumpMedia,
    page: i32,
    complete: bool,
    changed: Option<&str>,
)
    requires
        call_ensures(StumpMedia::current_page, (media,), page),
        call_ensures(StumpMedia::is_complete, (media,), complete),
        call_ensures(StumpMedia::stump_timestamp, (media,), changed),
    ensures
        media.read_progress matches Some(session) ==> session.page matches Some(p) ==> p >= 0
            ==> page == p,
        media.read_progress is None ==> page == (if complete {
            media.pages
        } else {
            0
        }),
        complete <==> media.read_history@.len() > 0,
        media.read_progress matches Some(session) ==> session.updated_at matches Some(t) ==> (
        changed matches Some(c) && c@ == t@),
        media.read_progress is None && media.read_history@.len() == 0 ==> changed is None,
{
}

} // verus!
