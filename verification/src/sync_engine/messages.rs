//! What a run asks of the outside world, and what it is told in return.

use crate::sync_engine::matching;
use crate::sync_engine::matching::MappingRow;
use crate::text;
use crate::types;
use crate::types::{ComicProgress, MediaMapping, StumpMedia, SyncError, SyncState};
use vstd::prelude::*;

verus! {

/// The next thing that a run needs done.
#[derive(Debug)]
pub enum Action {
    /// Look up or create the record of a library in the mapping database;
    /// answered by `LibraryId`.
    EnsureLibrary { ydb_path: String, stump_library_id: String, stump_library_path: String },
    /// Read the comics of a `.ydb`, all of them or only those that were opened;
    /// answered by `Comics`.
    ReadComics { ydb_path: String, opened_only: bool },
    /// Fetch the media of a Stump library; answered by `Media`.
    FetchMedia { stump_library_id: String },
    /// Store the record of a matched pair; answered by `Done`.
    InsertMapping { library_mapping_id: i64, row: MappingRow },
    /// Look up the Stump media that a comic is mapped to; answered by
    /// `StumpId`.
    FindStumpId { comic_info_id: i64 },
    /// List the mappings of a library; answered by `Mappings`.
    ListMappings { library_mapping_id: i64 },
    /// Load the recorded state of a mapping, if there is a mapping, and read
    /// the clock; answered by `State`.
    LoadState { mapping: Option<i64> },
    /// Send a page to Stump; answered by `Done`.
    UpdateProgress { media_id: String, page: i32 },
    /// Mark a media complete on Stump; answered by `Done`.
    MarkComplete { media_id: String },
    /// Write progress to a `.ydb`; answered by `Done`.
    WriteProgress {
        ydb_path: String,
        comic_info_id: i64,
        page: i32,
        num_pages: i32,
        read: bool,
        allow_regression: bool,
        last_opened: Option<i64>,
    },
    /// Record the state that a comic converged to; answered by `Done`.
    SaveState {
        mapping_id: i64,
        page: i32,
        complete: bool,
        yac_modified: Option<String>,
        stump_modified: Option<String>,
    },
    /// Nothing: the run is over.
    Finish,
}

/// The contents of an [`Action`].
pub enum ActionView {
    EnsureLibrary {
        ydb_path: Seq<char>,
        stump_library_id: Seq<char>,
        stump_library_path: Seq<char>,
    },
    ReadComics { ydb_path: Seq<char>, opened_only: bool },
    FetchMedia { stump_library_id: Seq<char> },
    InsertMapping { library_mapping_id: i64, row: matching::MappingRowView },
    FindStumpId { comic_info_id: i64 },
    ListMappings { library_mapping_id: i64 },
    LoadState { mapping: Option<i64> },
    UpdateProgress { media_id: Seq<char>, page: i32 },
    MarkComplete { media_id: Seq<char> },
    WriteProgress {
        ydb_path: Seq<char>,
        comic_info_id: i64,
        page: i32,
        num_pages: i32,
        read: bool,
        allow_regression: bool,
        last_opened: Option<i64>,
    },
    SaveState {
        mapping_id: i64,
        page: i32,
        complete: bool,
        yac_modified: Option<Seq<char>>,
        stump_modified: Option<Seq<char>>,
    },
    Finish,
}

impl View for Action {
    type V = ActionView;

    open spec fn view(&self) -> ActionView {
        match *self {
            Action::EnsureLibrary { ydb_path, stump_library_id, stump_library_path } =>
                ActionView::EnsureLibrary {
                ydb_path: ydb_path@,
                stump_library_id: stump_library_id@,
                stump_library_path: stump_library_path@,
            },
            Action::ReadComics { ydb_path, opened_only } => ActionView::ReadComics {
                ydb_path: ydb_path@,
                opened_only,
            },
            Action::FetchMedia { stump_library_id } => ActionView::FetchMedia {
                stump_library_id: stump_library_id@,
            },
            Action::InsertMapping { library_mapping_id, row } => ActionView::InsertMapping {
                library_mapping_id,
                row: row@,
            },
            Action::FindStumpId { comic_info_id } => ActionView::FindStumpId { comic_info_id },
            Action::ListMappings { library_mapping_id } => ActionView::ListMappings {
                library_mapping_id,
            },
            Action::LoadState { mapping } => ActionView::LoadState { mapping },
            Action::UpdateProgress { media_id, page } => ActionView::UpdateProgress {
                media_id: media_id@,
                page,
            },
            Action::MarkComplete { media_id } => ActionView::MarkComplete { media_id: media_id@ },
            Action::WriteProgress {
                ydb_path,
                comic_info_id,
                page,
                num_pages,
                read,
                allow_regression,
                last_opened,
            } => ActionView::WriteProgress {
                ydb_path: ydb_path@,
                comic_info_id,
                page,
                num_pages,
                read,
                allow_regression,
                last_opened,
            },
            Action::SaveState { mapping_id, page, complete, yac_modified, stump_modified } =>
                ActionView::SaveState {
                mapping_id,
                page,
                complete,
                yac_modified: text::opt_text(yac_modified),
                stump_modified: text::opt_text(stump_modified),
            },
            Action::Finish => ActionView::Finish,
        }
    }
}

impl ActionView {
    /// The action changes something on Stump.
    pub open spec fn changes_stump(self) -> bool {
        self is UpdateProgress || self is MarkComplete
    }

    /// The action changes a `.ydb`.
    pub open spec fn changes_ydb(self) -> bool {
        self is WriteProgress
    }

    /// The action changes the recorded state.
    pub open spec fn changes_state(self) -> bool {
        self is SaveState
    }
}

/// What came of an action.
#[derive(Debug)]
pub enum Reply {
    /// The action failed.
    Failed(SyncError),
    LibraryId(i64),
    Comics(Vec<ComicProgress>),
    Media(Vec<StumpMedia>),
    StumpId(Option<String>),
    Mappings(Vec<MediaMapping>),
    /// The recorded state, and the time in seconds.
    State(Option<SyncState>, i64),
    /// The action was carried out and has nothing to report.
    Done,
}

/// The contents of a [`Reply`].
pub enum ReplyView {
    Failed(types::ErrorView),
    LibraryId(i64),
    Comics(Seq<ComicProgress>),
    Media(Seq<StumpMedia>),
    StumpId(Option<Seq<char>>),
    Mappings(Seq<MediaMapping>),
    State(Option<SyncState>, i64),
    Done,
}

impl View for Reply {
    type V = ReplyView;

    open spec fn view(&self) -> ReplyView {
        match *self {
            Reply::Failed(e) => ReplyView::Failed(e@),
            Reply::LibraryId(id) => ReplyView::LibraryId(id),
            Reply::Comics(v) => ReplyView::Comics(v@),
            Reply::Media(v) => ReplyView::Media(v@),
            Reply::StumpId(id) => ReplyView::StumpId(text::opt_text(id)),
            Reply::Mappings(v) => ReplyView::Mappings(v@),
            Reply::State(prev, now) => ReplyView::State(prev, now),
            Reply::Done => ReplyView::Done,
        }
    }
}

/// The reply is one that the action asks for, or a failure.
pub open spec fn answers(reply: ReplyView, action: ActionView) -> bool {
    match action {
        ActionView::Finish => false,
        _ => reply is Failed || match action {
            ActionView::EnsureLibrary { .. } => reply is LibraryId,
            ActionView::ReadComics { .. } => reply is Comics,
            ActionView::FetchMedia { .. } => reply is Media,
            ActionView::FindStumpId { .. } => reply is StumpId,
            ActionView::ListMappings { .. } => reply is Mappings,
            ActionView::LoadState { .. } => reply is State,
            _ => reply is Done,
        },
    }
}

/// The contents of an action that changes something are what it says: which
/// media, which page, which comic in which file, which state.
pub proof fn changing_actions_show_what_they_say(action: Action)
    ensures
        action matches Action::UpdateProgress { media_id, page } ==> action@
            == (ActionView::UpdateProgress { media_id: media_id@, page }),
        action matches Action::MarkComplete { media_id } ==> action@ == (
        ActionView::MarkComplete { media_id: media_id@ }),
        action matches Action::WriteProgress {
            ydb_path,
            comic_info_id,
            page,
            num_pages,
            read,
            allow_regression,
            last_opened,
        } ==> action@ == (ActionView::WriteProgress {
            ydb_path: ydb_path@,
            comic_info_id,
            page,
            num_pages,
            read,
            allow_regression,
            last_opened,
        }),
        action matches Action::SaveState {
            mapping_id,
            page,
            complete,
            yac_modified,
            stump_modified,
        } ==> action@ == (ActionView::SaveState {
            mapping_id,
            page,
            complete,
            yac_modified: text::opt_text(yac_modified),
            stump_modified: text::opt_text(stump_modified),
        }),
        action matches Action::InsertMapping { library_mapping_id, row } ==> action@ == (
        ActionView::InsertMapping { library_mapping_id, row: row@ }),
{
}

/// The contents of an action that asks for something are what it asks for.
pub proof fn asking_actions_show_what_they_ask(action: Action)
    ensures
        action matches Action::EnsureLibrary { ydb_path, stump_library_id, stump_library_path }
            ==> action@ == (ActionView::EnsureLibrary {
            ydb_path: ydb_path@,
            stump_library_id: stump_library_id@,
            stump_library_path: stump_library_path@,
        }),
        action matches Action::ReadComics { ydb_path, opened_only } ==> action@ == (
        ActionView::ReadComics { ydb_path: ydb_path@, opened_only }),
        action matches Action::FetchMedia { stump_library_id } ==> action@ == (
        ActionView::FetchMedia { stump_library_id: stump_library_id@ }),
        action matches Action::FindStumpId { comic_info_id } ==> action@ == (
        ActionView::FindStumpId { comic_info_id }),
        action matches Action::ListMappings { library_mapping_id } ==> action@ == (
        ActionView::ListMappings { library_mapping_id }),
        action matches Action::LoadState { mapping } ==> action@ == (ActionView::LoadState {
            mapping,
        }),
        action is Finish <==> action@ is Finish,
{
}

/// The contents of a reply are what it says.
pub proof fn replies_show_what_they_say(reply: Reply)
    ensures
        reply matches Reply::Failed(e) ==> reply@ == ReplyView::Failed(e@),
        reply matches Reply::LibraryId(id) ==> reply@ == ReplyView::LibraryId(id),
        reply matches Reply::Comics(v) ==> reply@ == ReplyView::Comics(v@),
        reply matches Reply::Media(v) ==> reply@ == ReplyView::Media(v@),
        reply matches Reply::StumpId(Some(id)) ==> reply@ == ReplyView::StumpId(Some(id@)),
        reply matches Reply::StumpId(None) ==> reply@ == ReplyView::StumpId(None),
        reply matches Reply::Mappings(v) ==> reply@ == ReplyView::Mappings(v@),
        reply matches Reply::State(prev, now) ==> reply@ == ReplyView::State(prev, now),
        reply is Done <==> reply@ is Done,
{
}

} // verus!
