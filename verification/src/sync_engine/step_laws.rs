//! What each reply makes a run ask for next, from its first action to its last.
//!
//! The laws follow a run through a library: its record, its comics and media,
//! the matched pairs, and then the comics of a push run, or the pairs of a run
//! that pulls as well.

use crate::config;
use crate::decimal;
use crate::sync_engine::matching;
use crate::sync_engine::messages;
use crate::sync_engine::model;
use crate::sync_engine::model::{Mode, Stage};
use crate::sync_engine::reconcile;
use crate::sync_engine::run_laws;
use crate::types;
use crate::types::{ComicProgress, MediaMapping, PullAction, StumpMedia, SyncState};
use vstd::prelude::*;

verus! {

/// The run is about to work on the library at `at`: it asks for the record of
/// that library, and behind the last one it is over.
pub open spec fn stands_before(run: model::RunView, at: int) -> bool {
    &&& run.at == at
    &&& at < run.libraries.len() ==> {
        &&& run.phase is Ensure
        &&& run.work == model::no_work()
        &&& run.action() == messages::ActionView::EnsureLibrary {
            ydb_path: run.libraries[at].ydb_path,
            stump_library_id: run.libraries[at].stump_library_id,
            stump_library_path: run.libraries[at].stump_library_path,
        }
    }
    &&& at >= run.libraries.len() ==> {
        &&& run.phase is Finished
        &&& run.action() is Finish
    }
}

/// The run looks up the mapping of the comic at `n`; behind the last comic it
/// turns to the next library.
pub open spec fn turns_to_comic(run: model::RunView, next: model::RunView, n: int) -> bool {
    &&& n < run.work.comics.len() ==> {
        &&& next.at == run.at
        &&& next.work == run.work
        &&& next.phase == model::PhaseView::Find(n)
        &&& next.action() == messages::ActionView::FindStumpId {
            comic_info_id: run.work.comics[n].comic_info_id,
        }
    }
    &&& n >= run.work.comics.len() ==> stands_before(next, run.at + 1)
}

/// The run loads the recorded state of the pair at `n`; behind the last pair it
/// turns to the next library.
pub open spec fn turns_to_pair(run: model::RunView, next: model::RunView, n: int) -> bool {
    &&& n < run.work.pairs.len() ==> {
        &&& next.at == run.at
        &&& next.work == run.work
        &&& next.phase == model::PhaseView::Load(n)
        &&& next.action() is LoadState
    }
    &&& n >= run.work.pairs.len() ==> stands_before(next, run.at + 1)
}

/// The run asks for the pull of the pair at `n` to be written. Without a page
/// the comic's own is written.
pub open spec fn asks_to_write(next: model::RunView, n: int, pull: PullAction) -> bool {
    let comic = next.work.comics[next.work.pairs[n].0];
    &&& next.phase == model::PhaseView::Comic(n, Stage::Write)
    &&& next.action() == messages::ActionView::WriteProgress {
        ydb_path: next.libraries[next.at].ydb_path,
        comic_info_id: comic.comic_info_id,
        page: match pull.page {
            Some(page) => page,
            None => comic.current_page,
        },
        num_pages: comic.num_pages,
        read: pull.set_read,
        allow_regression: pull.allow_regression,
        last_opened: pull.last_opened,
    }
}

/// The run asks for the converged state of the pair at `n` to be recorded,
/// with the times that both sides were read with.
pub open spec fn asks_to_save(
    next: model::RunView,
    n: int,
    mapping_id: i64,
    delta: types::DeltaView,
) -> bool {
    let comic = next.work.comics[next.work.pairs[n].0];
    let media = next.work.media[next.work.pairs[n].1];
    &&& next.phase == model::PhaseView::Comic(n, Stage::Save)
    &&& next.action() == messages::ActionView::SaveState {
        mapping_id,
        page: delta.final_page,
        complete: delta.final_complete,
        yac_modified: match comic.last_time_opened {
            Some(t) => Some(decimal::decimal(t as int)),
            None => None,
        },
        stump_modified: media.changed_at(),
    }
}

/// A run starts with an empty report, before its first library.
pub proof fn run_starts_before_its_first_library(
    mode: Mode,
    libraries: Seq<config::LibraryConfigView>,
)
    ensures
        ({
            let run = model::started(mode, libraries);
            &&& run.mode == mode
            &&& run.libraries == libraries
            &&& run.error is None
            &&& stands_before(run, 0)
            &&& run.report.libraries_processed == 0
            &&& run.report.comics_matched == 0
            &&& run.report.pages_pushed == 0
            &&& run.report.completions_pushed == 0
            &&& run.report.pages_pulled == 0
            &&& run.report.completions_pulled == 0
            &&& run.report.errors.len() == 0
        }),
{
}

/// Once a library has its record it counts as processed, and its comics are
/// read: those that were opened in a push run, all of them otherwise.
pub proof fn recorded_library_is_read(run: model::RunView, id: i64)
    requires
        run.phase is Ensure,
    ensures
        ({
            let next = run.step(messages::ReplyView::LibraryId(id));
            &&& next.phase is Read
            &&& next.at == run.at
            &&& next.work.library_id == id
            &&& next.action() == messages::ActionView::ReadComics {
                ydb_path: run.libraries[run.at].ydb_path,
                opened_only: run.mode == Mode::Push,
            }
            &&& next.report == (types::ReportView {
                libraries_processed: run.report.libraries_processed + 1,
                ..run.report
            })
        }),
{
}

/// A run that cannot have the record of a library is over, with that error.
pub proof fn missing_record_ends_the_run(run: model::RunView, e: types::ErrorView)
    requires
        run.phase is Ensure,
    ensures
        ({
            let next = run.step(messages::ReplyView::Failed(e));
            &&& next.phase is Aborted
            &&& next.action() is Finish
            &&& next.error == Some(e)
            &&& next.report == run.report
        }),
{
}

/// Once the comics of a library are read its media are fetched.
pub proof fn media_are_fetched_behind_the_comics(run: model::RunView, comics: Seq<ComicProgress>)
    requires
        run.phase is Read,
    ensures
        ({
            let next = run.step(messages::ReplyView::Comics(comics));
            &&& next.phase is Fetch
            &&& next.at == run.at
            &&& next.work == (model::WorkView { comics, ..run.work })
            &&& next.action() == messages::ActionView::FetchMedia {
                stump_library_id: run.libraries[run.at].stump_library_id,
            }
            &&& next.report == run.report
        }),
{
}

/// Once the media are fetched the matched pairs are recorded, the first one
/// first. Without any, a push run turns to its comics and any other run lists
/// the mappings.
pub proof fn fetched_media_are_matched_and_recorded(run: model::RunView, media: Seq<StumpMedia>)
    requires
        run.phase is Fetch,
    ensures
        ({
            let next = run.step(messages::ReplyView::Media(media));
            let pairs = matching::matched(
                run.work.comics,
                media,
                run.libraries[run.at].stump_library_path,
            );
            let fetched = model::RunView {
                work: model::WorkView { media, pairs, ..run.work },
                ..run
            };
            &&& next.report == run.report
            &&& pairs.len() > 0 ==> {
                &&& next.at == run.at
                &&& next.work == fetched.work
                &&& next.phase == model::PhaseView::Insert(0)
                &&& next.action() == messages::ActionView::InsertMapping {
                    library_mapping_id: run.work.library_id,
                    row: matching::mapping_of(run.work.comics[pairs[0].0], media[pairs[0].1]),
                }
            }
            &&& pairs.len() == 0 && run.mode == Mode::Push ==> turns_to_comic(fetched, next, 0)
            &&& pairs.len() == 0 && run.mode != Mode::Push ==> {
                &&& next.at == run.at
                &&& next.work == fetched.work
                &&& next.phase is List
                &&& next.action() == messages::ActionView::ListMappings {
                    library_mapping_id: run.work.library_id,
                }
            }
        }),
{
}

/// The pairs are recorded one behind the other. Behind the last one they all
/// count as matched, a push run turns to its first comic, and any other run
/// lists the mappings.
pub proof fn pairs_are_recorded_in_order(run: model::RunView, n: int)
    requires
        run.phase == model::PhaseView::Insert(n),
        0 <= n < run.work.pairs.len(),
    ensures
        ({
            let next = run.step(messages::ReplyView::Done);
            let pairs = run.work.pairs;
            &&& n + 1 < pairs.len() ==> {
                &&& next.at == run.at
                &&& next.work == run.work
                &&& next.phase == model::PhaseView::Insert(n + 1)
                &&& next.action() == messages::ActionView::InsertMapping {
                    library_mapping_id: run.work.library_id,
                    row: matching::mapping_of(
                        run.work.comics[pairs[n + 1].0],
                        run.work.media[pairs[n + 1].1],
                    ),
                }
                &&& next.report == run.report
            }
            &&& n + 1 == pairs.len() ==> {
                &&& next.report == (types::ReportView {
                    comics_matched: run.report.comics_matched + pairs.len(),
                    ..run.report
                })
                &&& run.mode == Mode::Push ==> turns_to_comic(run, next, 0)
                &&& run.mode != Mode::Push ==> {
                    &&& next.at == run.at
                    &&& next.work == run.work
                    &&& next.phase is List
                    &&& next.action() == messages::ActionView::ListMappings {
                        library_mapping_id: run.work.library_id,
                    }
                }
            }
        }),
{
}

/// A failure that belongs to the whole library ends the work on it: the error
/// is recorded under the library's path, nothing is counted, and the run turns
/// to the next library.
pub proof fn failed_library_is_left(run: model::RunView, e: types::ErrorView)
    requires
        run.phase is Read || run.phase is Fetch || run.phase is Insert || run.phase is Find
            || run.phase is List || run.phase is Load,
    ensures
        ({
            let next = run.step(messages::ReplyView::Failed(e));
            &&& stands_before(next, run.at + 1)
            &&& next.report == (types::ReportView {
                errors: run.report.errors.push(
                    run.libraries[run.at].ydb_path + ": "@ + e.message(),
                ),
                ..run.report
            })
        }),
{
}

/// `media_with_id` gives the last media with an id.
proof fn media_with_id_is_the_last(media: Seq<StumpMedia>, id: Seq<char>, m: int)
    requires
        0 <= m < media.len(),
        media[m].id@ == id,
        forall|k: int| m < k < media.len() ==> (#[trigger] media[k]).id@ != id,
    ensures
        model::media_with_id(media, id) == Some(m),
    decreases media.len(),
{
    if m < media.len() - 1 {
        let rest = media.drop_last();
        assert(media[media.len() - 1].id@ != id);
        assert forall|k: int| m < k < rest.len() implies (#[trigger] rest[k]).id@ != id by {
            assert(rest[k] == media[k]);
        }
        media_with_id_is_the_last(rest, id, m);
    }
}

/// A push run pushes every comic that is mapped to a media of the library and
/// is ahead of it. Where the comic's page is ahead it sends that page; where
/// only the completion is ahead it sends the mark; and it passes the comic over
/// only where neither is, whether or not Stump knows a session of it. Of
/// several media with one id the last one counts.
pub proof fn mapped_comic_is_pushed(run: model::RunView, n: int, id: Seq<char>, m: int)
    requires
        run.phase == model::PhaseView::Find(n),
        0 <= n < run.work.comics.len(),
        0 <= m < run.work.media.len(),
        run.work.media[m].id@ == id,
        forall|k: int|
            m < k < run.work.media.len() ==> (#[trigger] run.work.media[k]).id@ != id,
    ensures
        ({
            let next = run.step(messages::ReplyView::StumpId(Some(id)));
            let comic = run.work.comics[n];
            let media = run.work.media[m];
            let ahead = comic.current_page > media.page_now();
            let unmarked = comic.read && media.read_history@.len() == 0;
            &&& next.report == run.report
            &&& ahead ==> {
                &&& next.at == run.at
                &&& next.work == run.work
                &&& next.phase == model::PhaseView::SendPage(n, m)
                &&& next.action() == messages::ActionView::UpdateProgress {
                    media_id: id,
                    page: comic.current_page,
                }
            }
            &&& !ahead && unmarked ==> {
                &&& next.at == run.at
                &&& next.work == run.work
                &&& next.phase == model::PhaseView::SendMark(n, m)
                &&& next.action() == messages::ActionView::MarkComplete { media_id: id }
            }
            &&& !ahead && !unmarked ==> turns_to_comic(run, next, n + 1)
        }),
{
    media_with_id_is_the_last(run.work.media, id, m);
}

/// A push run passes a comic over without a word where it has no mapping or its
/// media is not in the library.
pub proof fn unmapped_comic_is_passed_over(run: model::RunView, n: int, id: Option<Seq<char>>)
    requires
        run.phase == model::PhaseView::Find(n),
        0 <= n < run.work.comics.len(),
        id matches Some(text) ==> forall|k: int|
            0 <= k < run.work.media.len() ==> (#[trigger] run.work.media[k]).id@ != text,
    ensures
        ({
            let next = run.step(messages::ReplyView::StumpId(id));
            &&& next.report == run.report
            &&& turns_to_comic(run, next, n + 1)
        }),
{
    if let Some(text) = id {
        run_laws::media_with_id_is_in_range(run.work.media, text);
    }
}

/// In a push run the mark follows a page that was sent, where YACReader alone
/// holds the comic as complete. A comic counts once all of it has been sent,
/// page and mark each once, and then the next comic comes. A failure counts
/// nothing, is recorded under the id of the media, and the next comic comes.
pub proof fn pushed_comic_is_counted(
    run: model::RunView,
    n: int,
    m: int,
    e: types::ErrorView,
)
    requires
        0 <= n < run.work.comics.len(),
        0 <= m < run.work.media.len(),
        run.phase == model::PhaseView::SendPage(n, m) ==> run.work.comics[n].current_page
            > run.work.media[m].page_now(),
        run.phase == model::PhaseView::SendMark(n, m) ==> run.work.comics[n].read
            && run.work.media[m].read_history@.len() == 0,
    ensures
        ({
            let next = run.step(messages::ReplyView::Done);
            let failed = run.step(messages::ReplyView::Failed(e));
            let comic = run.work.comics[n];
            let media = run.work.media[m];
            let ahead = comic.current_page > media.page_now();
            let unmarked = comic.read && media.read_history@.len() == 0;
            &&& run.phase == model::PhaseView::SendPage(n, m) && unmarked ==> {
                &&& next.at == run.at
                &&& next.work == run.work
                &&& next.report == run.report
                &&& next.phase == model::PhaseView::SendMark(n, m)
                &&& next.action() == messages::ActionView::MarkComplete { media_id: media.id@ }
            }
            &&& run.phase == model::PhaseView::SendPage(n, m) && !unmarked ==> {
                &&& turns_to_comic(run, next, n + 1)
                &&& next.report == (types::ReportView {
                    pages_pushed: run.report.pages_pushed + 1,
                    ..run.report
                })
            }
            &&& run.phase == model::PhaseView::SendMark(n, m) ==> {
                &&& turns_to_comic(run, next, n + 1)
                &&& ahead ==> next.report == (types::ReportView {
                    pages_pushed: run.report.pages_pushed + 1,
                    completions_pushed: run.report.completions_pushed + 1,
                    ..run.report
                })
                &&& !ahead ==> next.report == (types::ReportView {
                    completions_pushed: run.report.completions_pushed + 1,
                    ..run.report
                })
            }
            &&& run.phase == model::PhaseView::SendPage(n, m) || run.phase
                == model::PhaseView::SendMark(n, m) ==> {
                &&& turns_to_comic(run, failed, n + 1)
                &&& failed.report == (types::ReportView {
                    errors: run.report.errors.push(media.id@ + ": "@ + e.message()),
                    ..run.report
                })
            }
        }),
{
}

/// Once the mappings are listed the run turns to the first pair.
pub proof fn listed_mappings_lead_to_the_pairs(run: model::RunView, mappings: Seq<MediaMapping>)
    requires
        run.phase is List,
    ensures
        ({
            let next = run.step(messages::ReplyView::Mappings(mappings));
            let listed = model::RunView {
                work: model::WorkView { mappings, ..run.work },
                ..run
            };
            &&& next.report == run.report
            &&& turns_to_pair(listed, next, 0)
        }),
{
}

/// `mapping_id_of` gives the last mapping of a comic.
proof fn mapping_id_is_the_last(mappings: Seq<MediaMapping>, comic_info_id: i64, k: int)
    requires
        0 <= k < mappings.len(),
        mappings[k].yac_comic_info_id == comic_info_id,
        forall|j: int|
            k < j < mappings.len() ==> (#[trigger] mappings[j]).yac_comic_info_id
                != comic_info_id,
    ensures
        model::mapping_id_of(mappings, comic_info_id) == Some(mappings[k].id),
    decreases mappings.len(),
{
    if k < mappings.len() - 1 {
        let rest = mappings.drop_last();
        assert(mappings[mappings.len() - 1].yac_comic_info_id != comic_info_id);
        assert forall|j: int| k < j < rest.len() implies (#[trigger] rest[j]).yac_comic_info_id
            != comic_info_id by {
            assert(rest[j] == mappings[j]);
        }
        mapping_id_is_the_last(rest, comic_info_id, k);
    }
}

/// `mapping_id_of` gives nothing for a comic without a mapping.
proof fn mapping_id_needs_a_mapping(mappings: Seq<MediaMapping>, comic_info_id: i64)
    requires
        forall|j: int|
            0 <= j < mappings.len() ==> (#[trigger] mappings[j]).yac_comic_info_id
                != comic_info_id,
    ensures
        model::mapping_id_of(mappings, comic_info_id) is None,
    decreases mappings.len(),
{
    if mappings.len() > 0 {
        let rest = mappings.drop_last();
        assert(mappings[mappings.len() - 1].yac_comic_info_id != comic_info_id);
        assert forall|j: int| 0 <= j < rest.len() implies (#[trigger] rest[j]).yac_comic_info_id
            != comic_info_id by {
            assert(rest[j] == mappings[j]);
        }
        mapping_id_needs_a_mapping(rest, comic_info_id);
    }
}

/// The record of a pair is the last listed mapping of its comic, and the state
/// is loaded and saved under that one.
pub proof fn pair_goes_by_the_last_mapping(run: model::RunView, n: int, k: int)
    requires
        0 <= k < run.work.mappings.len(),
        run.work.mappings[k].yac_comic_info_id
            == run.work.comics[run.work.pairs[n].0].comic_info_id,
        forall|j: int|
            k < j < run.work.mappings.len() ==> (#[trigger] run.work.mappings[j]).yac_comic_info_id
                != run.work.comics[run.work.pairs[n].0].comic_info_id,
    ensures
        run.mapping(n) == Some(run.work.mappings[k].id),
        run.phase == model::PhaseView::Load(n) ==> run.action() == (
        messages::ActionView::LoadState { mapping: Some(run.work.mappings[k].id) }),
        run.phase == model::PhaseView::Comic(n, Stage::Save) ==> (
        run.action() matches messages::ActionView::SaveState { mapping_id, .. } && mapping_id
            == run.work.mappings[k].id),
{
    mapping_id_is_the_last(
        run.work.mappings,
        run.work.comics[run.work.pairs[n].0].comic_info_id,
        k,
    );
}

/// A pair whose comic has no listed mapping has no record: there is no state to
/// load for it.
pub proof fn pair_without_mapping_has_no_state(run: model::RunView, n: int)
    requires
        forall|j: int|
            0 <= j < run.work.mappings.len() ==> (
            #[trigger] run.work.mappings[j]).yac_comic_info_id
                != run.work.comics[run.work.pairs[n].0].comic_info_id,
    ensures
        run.mapping(n) is None,
        run.phase == model::PhaseView::Load(n) ==> run.action() == (
        messages::ActionView::LoadState { mapping: None }),
{
    mapping_id_needs_a_mapping(
        run.work.mappings,
        run.work.comics[run.work.pairs[n].0].comic_info_id,
    );
}

/// A pair is reconciled as its comic and its media were read, against the state
/// that was loaded for it and at the time that was read with it, in every mode.
pub proof fn pair_is_reconciled_against_its_state(run: model::RunView, n: int)
    ensures
        run.delta(n) == reconcile::reconciled(
            run.work.comics[run.work.pairs[n].0],
            run.work.media[run.work.pairs[n].1],
            run.libraries[run.at].ydb_path,
            run.work.prev,
            run.work.now,
        ),
{
    reveal(model::pair_delta);
}

/// What follows once nothing is left to be pushed for the pair at `n`: the pull
/// is written where there is one; failing that, the converged state is recorded
/// where the pair has a record; failing that, the next pair comes.
pub open spec fn goes_on_to_the_pull(
    run: model::RunView,
    next: model::RunView,
    n: int,
    delta: types::DeltaView,
) -> bool {
    &&& delta.pull matches Some(pull) ==> {
        &&& next.at == run.at
        &&& next.work == run.work
        &&& asks_to_write(next, n, pull)
    }
    &&& delta.pull is None ==> goes_on_to_the_record(run, next, n, delta)
}

/// What follows once nothing is left to be written for the pair at `n`: the
/// converged state is recorded where the pair has a record; failing that, the
/// next pair comes.
pub open spec fn goes_on_to_the_record(
    run: model::RunView,
    next: model::RunView,
    n: int,
    delta: types::DeltaView,
) -> bool {
    &&& run.mapping(n) matches Some(id) ==> {
        &&& next.at == run.at
        &&& next.work == run.work
        &&& asks_to_save(next, n, id, delta)
    }
    &&& run.mapping(n) is None ==> turns_to_pair(run, next, n + 1)
}

/// Once the state of a pair is loaded, a two-way run first sends the page that
/// the reconciliation pushes, or without one the mark that it pushes. Where it
/// pushes nothing, and in every pull run, the run goes on to the pull, and in
/// no mode past a pull that there is.
pub proof fn loaded_pair_is_pushed_and_pulled(
    run: model::RunView,
    n: int,
    prev: Option<SyncState>,
    now: i64,
)
    requires
        run.phase == model::PhaseView::Load(n),
        0 <= n < run.work.pairs.len(),
    ensures
        ({
            let next = run.step(messages::ReplyView::State(prev, now));
            let media = run.work.media[run.work.pairs[n].1];
            let delta = reconcile::reconciled(
                run.work.comics[run.work.pairs[n].0],
                media,
                run.libraries[run.at].ydb_path,
                prev,
                now,
            );
            let loaded = model::RunView {
                work: model::WorkView { prev, now, ..run.work },
                ..run
            };
            let sends_page = run.mode == Mode::Sync && (delta.push matches Some(push)
                && push.page is Some);
            let sends_mark = run.mode == Mode::Sync && (delta.push matches Some(push)
                && push.mark_complete);
            &&& next.report == run.report
            &&& sends_page ==> {
                &&& next.at == run.at
                &&& next.work == loaded.work
                &&& next.phase == model::PhaseView::Comic(n, Stage::Page)
                &&& next.action() == messages::ActionView::UpdateProgress {
                    media_id: media.id@,
                    page: delta.push->0.page->0,
                }
            }
            &&& !sends_page && sends_mark ==> {
                &&& next.at == run.at
                &&& next.work == loaded.work
                &&& next.phase == model::PhaseView::Comic(n, Stage::Mark)
                &&& next.action() == messages::ActionView::MarkComplete { media_id: media.id@ }
            }
            &&& !sends_page && !sends_mark ==> goes_on_to_the_pull(loaded, next, n, delta)
        }),
{
    reveal(model::pair_delta);
}

/// A page that was sent counts as pushed, and the mark follows where there is
/// one; otherwise the run goes on to the pull. A page that could not be sent
/// is recorded under the id of the media and counts nothing, and the run goes
/// on to the pull without the mark.
pub proof fn pushed_page_is_followed_up(run: model::RunView, n: int, e: types::ErrorView)
    requires
        run.phase == model::PhaseView::Comic(n, Stage::Page),
        0 <= n < run.work.pairs.len(),
        run.mode == Mode::Sync,
    ensures
        ({
            let done = run.step(messages::ReplyView::Done);
            let failed = run.step(messages::ReplyView::Failed(e));
            let media = run.work.media[run.work.pairs[n].1];
            let sends_mark = run.delta(n).push matches Some(push) && push.mark_complete;
            &&& done.report == (types::ReportView {
                pages_pushed: run.report.pages_pushed + 1,
                ..run.report
            })
            &&& sends_mark ==> {
                &&& done.at == run.at
                &&& done.work == run.work
                &&& done.phase == model::PhaseView::Comic(n, Stage::Mark)
                &&& done.action() == messages::ActionView::MarkComplete { media_id: media.id@ }
            }
            &&& !sends_mark ==> goes_on_to_the_pull(run, done, n, run.delta(n))
            &&& failed.report == (types::ReportView {
                errors: run.report.errors.push(media.id@ + ": "@ + e.message()),
                ..run.report
            })
            &&& goes_on_to_the_pull(run, failed, n, run.delta(n))
        }),
{
}

/// A mark that was sent counts as a completion pushed; one that could not be
/// sent is recorded under the id of the media and counts nothing. Either way
/// the run goes on to the pull.
pub proof fn pushed_mark_is_followed_up(run: model::RunView, n: int, e: types::ErrorView)
    requires
        run.phase == model::PhaseView::Comic(n, Stage::Mark),
        0 <= n < run.work.pairs.len(),
    ensures
        ({
            let done = run.step(messages::ReplyView::Done);
            let failed = run.step(messages::ReplyView::Failed(e));
            let media = run.work.media[run.work.pairs[n].1];
            &&& done.report == (types::ReportView {
                completions_pushed: run.report.completions_pushed + 1,
                ..run.report
            })
            &&& goes_on_to_the_pull(run, done, n, run.delta(n))
            &&& failed.report == (types::ReportView {
                errors: run.report.errors.push(media.id@ + ": "@ + e.message()),
                ..run.report
            })
            &&& goes_on_to_the_pull(run, failed, n, run.delta(n))
        }),
{
}

/// A pull that was written counts its page, where it has one, and its
/// completion, where it sets `read`; one that could not be written is recorded
/// under the id of the comic and counts nothing. Either way the converged state
/// comes next.
pub proof fn written_pull_is_followed_up(
    run: model::RunView,
    n: int,
    pull: PullAction,
    e: types::ErrorView,
)
    requires
        run.phase == model::PhaseView::Comic(n, Stage::Write),
        0 <= n < run.work.pairs.len(),
        run.delta(n).pull == Some(pull),
    ensures
        ({
            let done = run.step(messages::ReplyView::Done);
            let failed = run.step(messages::ReplyView::Failed(e));
            let comic = run.work.comics[run.work.pairs[n].0];
            &&& done.report.pages_pulled == run.report.pages_pulled + (if pull.page is Some {
                1int
            } else {
                0
            })
            &&& done.report.completions_pulled == run.report.completions_pulled + (
            if pull.set_read {
                1int
            } else {
                0
            })
            &&& done.report == (types::ReportView {
                pages_pulled: done.report.pages_pulled,
                completions_pulled: done.report.completions_pulled,
                ..run.report
            })
            &&& goes_on_to_the_record(run, done, n, run.delta(n))
            &&& failed.report == (types::ReportView {
                errors: run.report.errors.push(
                    "yac:"@ + decimal::decimal(comic.comic_info_id as int) + ": "@ + e.message(),
                ),
                ..run.report
            })
            &&& goes_on_to_the_record(run, failed, n, run.delta(n))
        }),
{
}

/// Once the converged state of a pair was recorded, or could not be, the next
/// pair comes; neither changes the report.
pub proof fn recorded_state_ends_the_pair(run: model::RunView, n: int, e: types::ErrorView)
    requires
        run.phase == model::PhaseView::Comic(n, Stage::Save),
        0 <= n < run.work.pairs.len(),
    ensures
        ({
            let done = run.step(messages::ReplyView::Done);
            let failed = run.step(messages::ReplyView::Failed(e));
            &&& turns_to_pair(run, done, n + 1)
            &&& turns_to_pair(run, failed, n + 1)
            &&& done.report == run.report
            &&& failed.report == run.report
        }),
{
}

/// In no mode is the converged state of a pair recorded, or the pair left,
/// before its pull was asked for: a run that comes to recording the state of a
/// pair with a pull, or past the pair, comes from that write.
pub proof fn no_pair_is_recorded_or_left_without_its_pull(
    run: model::RunView,
    n: int,
    reply: messages::ReplyView,
)
    requires
        run.wf(),
        messages::answers(reply, run.action()),
        run.phase == model::PhaseView::Load(n) && !(reply is Failed) || (
        run.phase matches model::PhaseView::Comic(k, stage) && k == n && stage != Stage::Save),
        ({
            let delta = reconcile::reconciled(
                run.work.comics[run.work.pairs[n].0],
                run.work.media[run.work.pairs[n].1],
                run.libraries[run.at].ydb_path,
                match reply {
                    messages::ReplyView::State(prev, _) => prev,
                    _ => run.work.prev,
                },
                match reply {
                    messages::ReplyView::State(_, now) => now,
                    _ => run.work.now,
                },
            );
            delta.pull is Some
        }),
        run.step(reply).phase != model::PhaseView::Comic(n, Stage::Page),
        run.step(reply).phase != model::PhaseView::Comic(n, Stage::Mark),
        run.step(reply).phase != model::PhaseView::Comic(n, Stage::Write),
    ensures
        run.action() is WriteProgress,
{
    reveal(model::pair_delta);
}

/// A run is over once no library is left, and stays over.
pub proof fn finished_run_stays_finished(run: model::RunView, reply: messages::ReplyView)
    requires
        run.phase is Finished || run.phase is Aborted,
    ensures
        run.action() is Finish,
        run.step(reply) == run,
{
}

} // verus!
