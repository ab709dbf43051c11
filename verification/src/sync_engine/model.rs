//! The states of a run over all libraries, what it asks for in each of them,
//! and which state follows on which reply.

use crate::config;
use crate::decimal;
use crate::sync_engine::matching;
use crate::sync_engine::messages;
use crate::sync_engine::reconcile;
use crate::types;
use crate::types::{ComicProgress, MediaMapping, StumpMedia, SyncState};
use vstd::prelude::*;

verus! {

/// Which way progress flows in a run.
#[derive(Debug, Clone, Copy, PartialEq, Eq, Structural)]
pub enum Mode {
    /// From YACReader to Stump, for comics that were opened.
    Push,
    /// Both ways.
    Sync,
    /// From Stump to YACReader.
    Pull,
}

/// The steps for one comic of a two-way run, in their order.
#[derive(Debug, Clone, Copy, PartialEq, Eq, Structural)]
pub enum Stage {
    /// Send the page to Stump.
    Page,
    /// Mark the comic complete on Stump.
    Mark,
    /// Write the progress to the `.ydb`.
    Write,
    /// Record the converged state.
    Save,
}

/// Where a run stands; the numbers are places in the lists it works on.
pub enum PhaseView {
    /// Before the current library.
    Ensure,
    Read,
    Fetch,
    /// At a matched pair that is to be recorded.
    Insert(int),
    /// At a comic, in a push run.
    Find(int),
    /// At a comic and its media, in a push run.
    SendPage(int, int),
    SendMark(int, int),
    List,
    /// At a matched pair, in a two-way run.
    Load(int),
    Comic(int, Stage),
    Finished,
    Aborted,
}

/// What a run knows of the current library.
pub struct WorkView {
    pub library_id: i64,
    pub comics: Seq<ComicProgress>,
    pub media: Seq<StumpMedia>,
    /// The matched pairs, as places in `comics` and `media`.
    pub pairs: Seq<(int, int)>,
    pub mappings: Seq<MediaMapping>,
    /// The recorded state of the current comic.
    pub prev: Option<SyncState>,
    /// The time at which that state was loaded.
    pub now: i64,
}

/// The state of a run.
pub struct RunView {
    pub mode: Mode,
    pub libraries: Seq<config::LibraryConfigView>,
    /// The place of the current library.
    pub at: int,
    pub report: types::ReportView,
    pub work: WorkView,
    pub phase: PhaseView,
    /// What made the run stop before its end.
    pub error: Option<types::ErrorView>,
}

/// Nothing is known of the library yet.
pub open spec fn no_work() -> WorkView {
    WorkView {
        library_id: 0,
        comics: Seq::empty(),
        media: Seq::empty(),
        pairs: Seq::empty(),
        mappings: Seq::empty(),
        prev: None,
        now: 0,
    }
}

/// The state at the start of a run.
pub open spec fn started(mode: Mode, libraries: Seq<config::LibraryConfigView>) -> RunView {
    RunView {
        mode,
        libraries,
        at: 0,
        report: types::empty_report(),
        work: no_work(),
        phase: if libraries.len() > 0 {
            PhaseView::Ensure
        } else {
            PhaseView::Finished
        },
        error: None,
    }
}

/// The place of the last media with this id.
pub open spec fn media_with_id(media: Seq<StumpMedia>, id: Seq<char>) -> Option<int>
    decreases media.len(),
{
    if media.len() == 0 {
        None
    } else if media.last().id@ == id {
        Some(media.len() - 1)
    } else {
        media_with_id(media.drop_last(), id)
    }
}

/// The id of the last mapping of this comic.
pub open spec fn mapping_id_of(mappings: Seq<MediaMapping>, comic_info_id: i64) -> Option<i64>
    decreases mappings.len(),
{
    if mappings.len() == 0 {
        None
    } else if mappings.last().yac_comic_info_id == comic_info_id {
        Some(mappings.last().id)
    } else {
        mapping_id_of(mappings.drop_last(), comic_info_id)
    }
}

/// What reconciling a matched pair comes to.
#[verifier::opaque]
pub open spec fn pair_delta(work: WorkView, ydb_path: Seq<char>, n: int) -> types::DeltaView {
    reconcile::reconciled(
        work.comics[work.pairs[n].0],
        work.media[work.pairs[n].1],
        ydb_path,
        work.prev,
        work.now,
    )
}

/// Every counter fits its type.
pub open spec fn counters_fit(report: types::ReportView) -> bool {
    &&& report.libraries_processed <= u32::MAX
    &&& report.comics_matched <= u32::MAX
    &&& report.pages_pushed <= u32::MAX
    &&& report.completions_pushed <= u32::MAX
    &&& report.pages_pulled <= u32::MAX
    &&& report.completions_pulled <= u32::MAX
}

impl RunView {
    /// The current library.
    pub open spec fn library(self) -> config::LibraryConfigView {
        self.libraries[self.at]
    }

    /// The comic of a matched pair.
    pub open spec fn comic(self, n: int) -> ComicProgress {
        self.work.comics[self.work.pairs[n].0]
    }

    /// The media of a matched pair.
    pub open spec fn media(self, n: int) -> StumpMedia {
        self.work.media[self.work.pairs[n].1]
    }

    /// What reconciling a matched pair comes to.
    pub open spec fn delta(self, n: int) -> types::DeltaView {
        pair_delta(self.work, self.library().ydb_path, n)
    }

    /// The id of the record of a matched pair.
    pub open spec fn mapping(self, n: int) -> Option<i64> {
        mapping_id_of(self.work.mappings, self.comic(n).comic_info_id)
    }

    /// A step is to be done for a matched pair. A pull run never pushes.
    pub open spec fn due(self, n: int, stage: Stage) -> bool {
        match stage {
            Stage::Page => self.mode == Mode::Sync && (self.delta(n).push matches Some(push)
                && push.page is Some),
            Stage::Mark => self.mode == Mode::Sync && (self.delta(n).push matches Some(push)
                && push.mark_complete),
            Stage::Write => self.delta(n).pull is Some,
            Stage::Save => self.mapping(n) is Some,
        }
    }

    /// The same run with one more error in its report.
    pub open spec fn with_error(self, message: Seq<char>) -> RunView {
        RunView {
            report: types::ReportView { errors: self.report.errors.push(message), ..self.report },
            ..self
        }
    }

    /// On to the next library, or to the end.
    pub open spec fn next_library(self) -> RunView {
        RunView {
            at: self.at + 1,
            work: no_work(),
            phase: if self.at + 1 < self.libraries.len() {
                PhaseView::Ensure
            } else {
                PhaseView::Finished
            },
            ..self
        }
    }

    /// The library failed: the error is recorded under its path.
    pub open spec fn library_failed(self, e: types::ErrorView) -> RunView {
        self.with_error(self.library().ydb_path + ": "@ + e.message()).next_library()
    }

    /// On to recording the pair at `n`. Once all pairs are recorded they count
    /// as matched.
    pub open spec fn insert_from(self, n: int) -> RunView {
        if n < self.work.pairs.len() {
            RunView { phase: PhaseView::Insert(n), ..self }
        } else {
            let counted = RunView {
                report: types::ReportView {
                    comics_matched: self.report.comics_matched + self.work.pairs.len(),
                    ..self.report
                },
                ..self
            };
            if self.mode == Mode::Push {
                counted.find_from(0)
            } else {
                RunView { phase: PhaseView::List, ..counted }
            }
        }
    }

    /// On to the comic at `n`, in a push run.
    pub open spec fn find_from(self, n: int) -> RunView {
        if n < self.work.comics.len() {
            RunView { phase: PhaseView::Find(n), ..self }
        } else {
            self.next_library()
        }
    }

    /// The comic at `n` is mapped to `id`. It is passed over where it is not
    /// mapped, where its media is not in the library, and where there is
    /// nothing to push.
    pub open spec fn found(self, n: int, id: Option<Seq<char>>) -> RunView {
        match id {
            Some(id) => match media_with_id(self.work.media, id) {
                Some(m) => match reconcile::one_way(self.work.comics[n], self.work.media[m]) {
                    Some(d) => if d.new_page is Some {
                        RunView { phase: PhaseView::SendPage(n, m), ..self }
                    } else {
                        RunView { phase: PhaseView::SendMark(n, m), ..self }
                    },
                    None => self.find_from(n + 1),
                },
                None => self.find_from(n + 1),
            },
            None => self.find_from(n + 1),
        }
    }

    /// All that was to be pushed for a comic has been pushed.
    pub open spec fn sent(self, n: int, m: int) -> RunView {
        let d = reconcile::one_way(self.work.comics[n], self.work.media[m])->0;
        RunView {
            report: types::ReportView {
                pages_pushed: self.report.pages_pushed + if d.new_page is Some {
                    1int
                } else {
                    0
                },
                completions_pushed: self.report.completions_pushed + if d.should_mark_complete {
                    1int
                } else {
                    0
                },
                ..self.report
            },
            ..self
        }.find_from(n + 1)
    }

    /// The push of a comic to its media failed.
    pub open spec fn media_error(self, id: Seq<char>, e: types::ErrorView) -> RunView {
        self.with_error(id + ": "@ + e.message())
    }

    /// The pull of a comic failed.
    pub open spec fn comic_error(self, comic_info_id: i64, e: types::ErrorView) -> RunView {
        self.with_error(
            "yac:"@ + decimal::decimal(comic_info_id as int) + ": "@ + e.message(),
        )
    }

    /// On to the pair at `n`, in a two-way run.
    pub open spec fn load_from(self, n: int) -> RunView {
        if n < self.work.pairs.len() {
            RunView { phase: PhaseView::Load(n), ..self }
        } else {
            self.next_library()
        }
    }

    /// On to recording the converged state, where the pair has a record.
    pub open spec fn to_save(self, n: int) -> RunView {
        if self.due(n, Stage::Save) {
            RunView { phase: PhaseView::Comic(n, Stage::Save), ..self }
        } else {
            self.load_from(n + 1)
        }
    }

    /// On to the pull, where there is one.
    pub open spec fn to_write(self, n: int) -> RunView {
        if self.due(n, Stage::Write) {
            RunView { phase: PhaseView::Comic(n, Stage::Write), ..self }
        } else {
            self.to_save(n)
        }
    }

    /// On to the completion, where it is to be pushed.
    pub open spec fn to_mark(self, n: int) -> RunView {
        if self.due(n, Stage::Mark) {
            RunView { phase: PhaseView::Comic(n, Stage::Mark), ..self }
        } else {
            self.to_write(n)
        }
    }

    /// On to the page, where it is to be pushed.
    pub open spec fn to_page(self, n: int) -> RunView {
        if self.due(n, Stage::Page) {
            RunView { phase: PhaseView::Comic(n, Stage::Page), ..self }
        } else {
            self.to_mark(n)
        }
    }

    /// The page of a pair was pushed.
    pub open spec fn count_page_push(self) -> RunView {
        RunView {
            report: types::ReportView {
                pages_pushed: self.report.pages_pushed + 1,
                ..self.report
            },
            ..self
        }
    }

    /// The completion of a pair was pushed.
    pub open spec fn count_mark(self) -> RunView {
        RunView {
            report: types::ReportView {
                completions_pushed: self.report.completions_pushed + 1,
                ..self.report
            },
            ..self
        }
    }

    /// A pull was written.
    pub open spec fn count_pull(self, n: int) -> RunView {
        let pull = self.delta(n).pull->0;
        RunView {
            report: types::ReportView {
                pages_pulled: self.report.pages_pulled + if pull.page is Some {
                    1int
                } else {
                    0
                },
                completions_pulled: self.report.completions_pulled + if pull.set_read {
                    1int
                } else {
                    0
                },
                ..self.report
            },
            ..self
        }
    }

    /// The next action.
    pub open spec fn action(self) -> messages::ActionView {
        match self.phase {
            PhaseView::Ensure => messages::ActionView::EnsureLibrary {
                ydb_path: self.library().ydb_path,
                stump_library_id: self.library().stump_library_id,
                stump_library_path: self.library().stump_library_path,
            },
            PhaseView::Read => messages::ActionView::ReadComics {
                ydb_path: self.library().ydb_path,
                opened_only: self.mode == Mode::Push,
            },
            PhaseView::Fetch => messages::ActionView::FetchMedia {
                stump_library_id: self.library().stump_library_id,
            },
            PhaseView::Insert(n) => messages::ActionView::InsertMapping {
                library_mapping_id: self.work.library_id,
                row: matching::mapping_of(self.comic(n), self.media(n)),
            },
            PhaseView::Find(n) => messages::ActionView::FindStumpId {
                comic_info_id: self.work.comics[n].comic_info_id,
            },
            PhaseView::SendPage(n, m) => messages::ActionView::UpdateProgress {
                media_id: self.work.media[m].id@,
                page: self.work.comics[n].current_page,
            },
            PhaseView::SendMark(n, m) => messages::ActionView::MarkComplete {
                media_id: self.work.media[m].id@,
            },
            PhaseView::List => messages::ActionView::ListMappings {
                library_mapping_id: self.work.library_id,
            },
            PhaseView::Load(n) => messages::ActionView::LoadState { mapping: self.mapping(n) },
            PhaseView::Comic(n, Stage::Page) => messages::ActionView::UpdateProgress {
                media_id: self.media(n).id@,
                page: self.delta(n).final_page,
            },
            PhaseView::Comic(n, Stage::Mark) => messages::ActionView::MarkComplete {
                media_id: self.media(n).id@,
            },
            PhaseView::Comic(n, Stage::Write) => {
                let pull = self.delta(n).pull->0;
                messages::ActionView::WriteProgress {
                    ydb_path: self.library().ydb_path,
                    comic_info_id: self.comic(n).comic_info_id,
                    page: match pull.page {
                        Some(page) => page,
                        None => self.comic(n).current_page,
                    },
                    num_pages: self.comic(n).num_pages,
                    read: pull.set_read,
                    allow_regression: pull.allow_regression,
                    last_opened: pull.last_opened,
                }
            },
            PhaseView::Comic(n, Stage::Save) => messages::ActionView::SaveState {
                mapping_id: self.mapping(n)->0,
                page: self.delta(n).final_page,
                complete: self.delta(n).final_complete,
                yac_modified: match self.comic(n).last_time_opened {
                    Some(t) => Some(decimal::decimal(t as int)),
                    None => None,
                },
                stump_modified: self.media(n).changed_at(),
            },
            PhaseView::Finished => messages::ActionView::Finish,
            PhaseView::Aborted => messages::ActionView::Finish,
        }
    }

    /// The run after a reply. A reply that does not answer the current action
    /// changes nothing.
    pub open spec fn step(self, reply: messages::ReplyView) -> RunView {
        match (self.phase, reply) {
            (PhaseView::Ensure, messages::ReplyView::LibraryId(id)) => RunView {
                work: WorkView { library_id: id, ..self.work },
                report: types::ReportView {
                    libraries_processed: self.report.libraries_processed + 1,
                    ..self.report
                },
                phase: PhaseView::Read,
                ..self
            },
            (PhaseView::Ensure, messages::ReplyView::Failed(e)) => RunView {
                phase: PhaseView::Aborted,
                error: Some(e),
                ..self
            },
            (PhaseView::Read, messages::ReplyView::Comics(comics)) => RunView {
                work: WorkView { comics, ..self.work },
                phase: PhaseView::Fetch,
                ..self
            },
            (PhaseView::Fetch, messages::ReplyView::Media(media)) => RunView {
                work: WorkView {
                    media,
                    pairs: matching::matched(
                        self.work.comics,
                        media,
                        self.library().stump_library_path,
                    ),
                    ..self.work
                },
                ..self
            }.insert_from(0),
            (PhaseView::Insert(n), messages::ReplyView::Done) => self.insert_from(n + 1),
            (PhaseView::Find(n), messages::ReplyView::StumpId(id)) => self.found(n, id),
            (PhaseView::SendPage(n, m), messages::ReplyView::Done) => {
                let d = reconcile::one_way(self.work.comics[n], self.work.media[m])->0;
                if d.should_mark_complete {
                    RunView { phase: PhaseView::SendMark(n, m), ..self }
                } else {
                    self.sent(n, m)
                }
            },
            (PhaseView::SendMark(n, m), messages::ReplyView::Done) => self.sent(n, m),
            (PhaseView::SendPage(n, m), messages::ReplyView::Failed(e)) => self.media_error(
                self.work.media[m].id@,
                e,
            ).find_from(n + 1),
            (PhaseView::SendMark(n, m), messages::ReplyView::Failed(e)) => self.media_error(
                self.work.media[m].id@,
                e,
            ).find_from(n + 1),
            (PhaseView::List, messages::ReplyView::Mappings(mappings)) => RunView {
                work: WorkView { mappings, ..self.work },
                ..self
            }.load_from(0),
            (PhaseView::Load(n), messages::ReplyView::State(prev, now)) => RunView {
                work: WorkView { prev, now, ..self.work },
                ..self
            }.to_page(n),
            (
                PhaseView::Comic(n, Stage::Page),
                messages::ReplyView::Done,
            ) => self.count_page_push().to_mark(n),
            (PhaseView::Comic(n, Stage::Page), messages::ReplyView::Failed(e)) => self.media_error(
                self.media(n).id@,
                e,
            ).to_write(n),
            (
                PhaseView::Comic(n, Stage::Mark),
                messages::ReplyView::Done,
            ) => self.count_mark().to_write(n),
            (PhaseView::Comic(n, Stage::Mark), messages::ReplyView::Failed(e)) => self.media_error(
                self.media(n).id@,
                e,
            ).to_write(n),
            (
                PhaseView::Comic(n, Stage::Write),
                messages::ReplyView::Done,
            ) => self.count_pull(n).to_save(n),
            (PhaseView::Comic(n, Stage::Write), messages::ReplyView::Failed(e)) => self.comic_error(
                self.comic(n).comic_info_id,
                e,
            ).to_save(n),
            (PhaseView::Comic(n, Stage::Save), messages::ReplyView::Done) => self.load_from(n + 1),
            (PhaseView::Comic(n, Stage::Save), messages::ReplyView::Failed(_)) => self.load_from(
                n + 1,
            ),
            (PhaseView::Read, messages::ReplyView::Failed(e)) => self.library_failed(e),
            (PhaseView::Fetch, messages::ReplyView::Failed(e)) => self.library_failed(e),
            (PhaseView::Insert(_), messages::ReplyView::Failed(e)) => self.library_failed(e),
            (PhaseView::Find(_), messages::ReplyView::Failed(e)) => self.library_failed(e),
            (PhaseView::List, messages::ReplyView::Failed(e)) => self.library_failed(e),
            (PhaseView::Load(_), messages::ReplyView::Failed(e)) => self.library_failed(e),
            _ => self,
        }
    }

    /// The run is inside its current library, past the fetch of its media.
    pub open spec fn inside(self) -> bool {
        &&& 0 <= self.at < self.libraries.len()
        &&& self.report.libraries_processed == self.at + 1
        &&& self.error is None
        &&& self.work.pairs == matching::matched(
            self.work.comics,
            self.work.media,
            self.library().stump_library_path,
        )
    }

    /// The state is one that a run can be in.
    pub open spec fn wf(self) -> bool {
        match self.phase {
            PhaseView::Ensure => {
                &&& 0 <= self.at < self.libraries.len()
                &&& self.report.libraries_processed == self.at
                &&& self.error is None
                &&& self.work == no_work()
            },
            PhaseView::Read => {
                &&& 0 <= self.at < self.libraries.len()
                &&& self.report.libraries_processed == self.at + 1
                &&& self.error is None
            },
            PhaseView::Fetch => {
                &&& 0 <= self.at < self.libraries.len()
                &&& self.report.libraries_processed == self.at + 1
                &&& self.error is None
            },
            PhaseView::Insert(n) => self.inside() && 0 <= n < self.work.pairs.len(),
            PhaseView::Find(n) => {
                &&& self.inside()
                &&& self.mode == Mode::Push
                &&& 0 <= n < self.work.comics.len()
            },
            PhaseView::SendPage(n, m) => {
                &&& self.inside()
                &&& self.mode == Mode::Push
                &&& 0 <= n < self.work.comics.len()
                &&& 0 <= m < self.work.media.len()
                &&& reconcile::one_way(self.work.comics[n], self.work.media[m]) matches Some(d)
                &&& d.new_page is Some
            },
            PhaseView::SendMark(n, m) => {
                &&& self.inside()
                &&& self.mode == Mode::Push
                &&& 0 <= n < self.work.comics.len()
                &&& 0 <= m < self.work.media.len()
                &&& reconcile::one_way(self.work.comics[n], self.work.media[m]) matches Some(d)
                &&& d.should_mark_complete
            },
            PhaseView::List => self.inside() && self.mode != Mode::Push,
            PhaseView::Load(n) => {
                &&& self.inside()
                &&& self.mode != Mode::Push
                &&& 0 <= n < self.work.pairs.len()
            },
            PhaseView::Comic(n, stage) => {
                &&& self.inside()
                &&& self.mode != Mode::Push
                &&& 0 <= n < self.work.pairs.len()
                &&& self.due(n, stage)
            },
            PhaseView::Finished => {
                &&& self.at == self.libraries.len()
                &&& self.report.libraries_processed == self.at
                &&& self.error is None
            },
            PhaseView::Aborted => {
                &&& 0 <= self.at < self.libraries.len()
                &&& self.report.libraries_processed == self.at
                &&& self.error is Some
            },
        }
    }
}

/// Moving on to another step of a pair, or past it, leaves the report alone.
pub proof fn moving_on_keeps_the_report(run: RunView, n: int)
    ensures
        run.to_page(n).report == run.report,
        run.to_mark(n).report == run.report,
        run.to_write(n).report == run.report,
        run.to_save(n).report == run.report,
        run.load_from(n + 1).report == run.report,
        run.find_from(n + 1).report == run.report,
{
}

/// The counters change only where a library was recorded or an action was
/// carried out.
pub proof fn only_progress_is_counted(run: RunView, reply: messages::ReplyView)
    requires
        !(reply is LibraryId),
        !(reply is Done),
    ensures
        run.step(reply).report == (types::ReportView {
            errors: run.step(reply).report.errors,
            ..run.report
        }),
{
    match run.phase {
        PhaseView::Load(n) => {
            if let messages::ReplyView::State(prev, now) = reply {
                let loaded = RunView { work: WorkView { prev, now, ..run.work }, ..run };
                moving_on_keeps_the_report(loaded, n);
            }
        },
        PhaseView::Comic(n, _) => {
            if let messages::ReplyView::Failed(e) = reply {
                moving_on_keeps_the_report(run.media_error(run.media(n).id@, e), n);
                moving_on_keeps_the_report(run.comic_error(run.comic(n).comic_info_id, e), n);
            }
        },
        PhaseView::Find(n) => {
            moving_on_keeps_the_report(run, n);
        },
        _ => {},
    }
}

} // verus!
