//! What holds of every run, whatever the outside world replies.

use crate::config;
use crate::sync_engine::matching;
use crate::sync_engine::messages;
use crate::sync_engine::model;
use crate::sync_engine::model::{Mode, Stage};
use crate::sync_engine::reconcile;
use crate::sync_engine::ydb;
use crate::sync_engine::ydb::YdbRow;
use crate::types;
use vstd::prelude::*;

verus! {

/// The run after a sequence of replies.
pub open spec fn run_after(
    run: model::RunView,
    replies: Seq<messages::ReplyView>,
) -> model::RunView
    decreases replies.len(),
{
    if replies.len() == 0 {
        run
    } else {
        run_after(run, replies.drop_last()).step(replies.last())
    }
}

/// A reply takes a possible state to a possible one, and changes neither the
/// mode nor the libraries.
pub proof fn step_keeps_states_possible(run: model::RunView, reply: messages::ReplyView)
    requires
        run.wf(),
    ensures
        run.step(reply).wf(),
        run.step(reply).mode == run.mode,
        run.step(reply).libraries == run.libraries,
{
    if run.phase is Find {
        if let messages::ReplyView::StumpId(Some(id)) = reply {
            media_with_id_is_in_range(run.work.media, id);
        }
    }
}

/// The place that `media_with_id` gives holds a media with that id.
pub proof fn media_with_id_is_in_range(media: Seq<crate::types::StumpMedia>, id: Seq<char>)
    ensures
        match model::media_with_id(media, id) {
            Some(m) => 0 <= m < media.len() && media[m].id@ == id,
            None => forall|k: int| 0 <= k < media.len() ==> (#[trigger] media[k]).id@ != id,
        },
    decreases media.len(),
{
    if media.len() > 0 && media.last().id@ != id {
        let rest = media.drop_last();
        media_with_id_is_in_range(rest, id);
        assert forall|k: int| 0 <= k < rest.len() implies #[trigger] media[k] == rest[k] by {}
    }
}

/// Every state that a run reaches from its start is possible.
pub proof fn reached_states_are_possible(
    mode: Mode,
    libraries: Seq<config::LibraryConfigView>,
    replies: Seq<messages::ReplyView>,
)
    ensures
        run_after(model::started(mode, libraries), replies).wf(),
        run_after(model::started(mode, libraries), replies).mode == mode,
        run_after(model::started(mode, libraries), replies).libraries == libraries,
    decreases replies.len(),
{
    if replies.len() > 0 {
        reached_states_are_possible(mode, libraries, replies.drop_last());
        step_keeps_states_possible(
            run_after(model::started(mode, libraries), replies.drop_last()),
            replies.last(),
        );
    }
}

/// A pull run never changes anything on Stump.
pub proof fn pull_run_never_pushes(
    libraries: Seq<config::LibraryConfigView>,
    replies: Seq<messages::ReplyView>,
)
    ensures
        !run_after(
            model::started(Mode::Pull, libraries),
            replies,
        ).action().changes_stump(),
{
    reached_states_are_possible(Mode::Pull, libraries, replies);
}

/// A push run never changes a `.ydb` nor the recorded state.
pub proof fn push_run_leaves_yacreader_alone(
    libraries: Seq<config::LibraryConfigView>,
    replies: Seq<messages::ReplyView>,
)
    ensures
        ({
            let action = run_after(
                model::started(Mode::Push, libraries),
                replies,
            ).action();
            !action.changes_ydb() && !action.changes_state()
        }),
{
    reached_states_are_possible(Mode::Push, libraries, replies);
}

/// A media is marked complete only where Stump, as it was fetched, does not
/// hold it as complete: a completion is pushed once and not repeated.
pub proof fn marks_only_the_incomplete(run: model::RunView)
    requires
        run.wf(),
    ensures
        run.action() matches messages::ActionView::MarkComplete { media_id } ==> exists|m: int|
            0 <= m < run.work.media.len() && (#[trigger] run.work.media[m]).id@ == media_id
                && !run.work.media[m].completed(),
{
    if let model::PhaseView::SendMark(n, m) = run.phase {
        assert(run.work.media[m].id@ == run.work.media[m].id@);
        assert(!run.work.media[m].completed());
    }
    if let model::PhaseView::Comic(n, Stage::Mark) = run.phase {
        matching::matches_are_real_and_ordered(
            run.work.comics,
            run.work.media,
            run.library().stump_library_path,
        );
        reveal(model::pair_delta);
        let m = run.work.pairs[n].1;
        assert(!run.work.media[m].completed());
    }
}

/// A `.ydb` is lowered only on evidence: a write that may regress comes only
/// where Stump's clock for the comic advanced past the recorded baseline and
/// Stump stands below it, in page or in completion.
pub proof fn regression_write_needs_evidence(run: model::RunView, n: int)
    requires
        run.wf(),
        run.phase == model::PhaseView::Comic(n, Stage::Write),
    ensures
        run.action() matches messages::ActionView::WriteProgress { allow_regression, .. }
            ==> allow_regression ==> {
            &&& run.work.prev matches Some(p)
            &&& reconcile::stump_clock_advanced(run.media(n), run.work.prev)
            &&& run.media(n).page_now() < p.yac_current_page || (p.yac_read && !run.media(
                n,
            ).completed())
        },
{
    reveal(model::pair_delta);
}

/// Without such evidence a write of a run loses nothing: applied to any row,
/// it leaves the page at least where it was and keeps a set `read`.
pub proof fn write_without_evidence_loses_nothing(
    run: model::RunView,
    n: int,
    row: YdbRow,
    now: i64,
)
    requires
        run.wf(),
        run.phase == model::PhaseView::Comic(n, Stage::Write),
        !reconcile::stump_clock_advanced(run.media(n), run.work.prev),
    ensures
        run.action() matches messages::ActionView::WriteProgress {
            page,
            num_pages,
            read,
            allow_regression,
            last_opened,
            ..
        } ==> {
            let new = ydb::written_row(
                row,
                page,
                num_pages,
                read,
                allow_regression,
                last_opened,
                now,
            );
            &&& !allow_regression
            &&& new.current_page >= row.current_page
            &&& row.read ==> new.read
        },
{
    reveal(model::pair_delta);
}

/// Stump is lowered only on evidence: a page below the one that Stump was
/// fetched with is sent only where YACReader's clock for the comic advanced
/// past the recorded baseline and YACReader stands below it. A push run only
/// sends pages above it.
pub proof fn page_push_lowers_only_on_evidence(run: model::RunView, n: int)
    requires
        run.wf(),
    ensures
        run.phase == model::PhaseView::Comic(n, Stage::Page) ==> {
            &&& run.delta(n).final_page != run.media(n).page_now()
            &&& run.delta(n).final_page < run.media(n).page_now() ==> {
                &&& run.work.prev matches Some(p)
                &&& reconcile::yac_clock_advanced(run.comic(n), run.work.prev)
                &&& run.comic(n).current_page < p.yac_current_page
            }
        },
        run.phase matches model::PhaseView::SendPage(c, m) ==> run.work.comics[c].current_page
            > run.work.media[m].page_now(),
{
    reveal(model::pair_delta);
}

/// The pairs of a two-way run are worked on one after the other, none twice
/// and none left out, unless the state of one cannot be loaded.
pub proof fn pairs_follow_in_order(run: model::RunView, n: int, reply: messages::ReplyView)
    requires
        run.wf(),
        run.phase == model::PhaseView::Load(n) || (run.phase matches model::PhaseView::Comic(k, _)
            && k == n),
        messages::answers(reply, run.action()),
        run.phase is Load ==> !(reply is Failed),
    ensures
        match run.step(reply).phase {
            model::PhaseView::Comic(k, _) => k == n && run.step(reply).at == run.at,
            model::PhaseView::Load(k) => k == n + 1 && run.step(reply).at == run.at,
            _ => n + 1 == run.work.pairs.len() && run.step(reply).at == run.at + 1,
        },
{
}

/// The comics of a push run are worked on one after the other, none twice and
/// none left out, unless the mapping of one cannot be looked up.
pub proof fn comics_follow_in_order(run: model::RunView, n: int, reply: messages::ReplyView)
    requires
        run.wf(),
        run.phase == model::PhaseView::Find(n) || (run.phase matches model::PhaseView::SendPage(
            k,
            _,
        ) && k == n) || (run.phase matches model::PhaseView::SendMark(k, _) && k == n),
        messages::answers(reply, run.action()),
        run.phase is Find ==> !(reply is Failed),
    ensures
        match run.step(reply).phase {
            model::PhaseView::Find(k) => k == n + 1 && run.step(reply).at == run.at,
            model::PhaseView::SendPage(k, _) => k == n && run.step(reply).at == run.at,
            model::PhaseView::SendMark(k, _) => k == n && run.step(reply).at == run.at,
            _ => n + 1 == run.work.comics.len() && run.step(reply).at == run.at + 1,
        },
{
}

/// The comics of a library are read once and its media are fetched once: past
/// the fetch, neither is asked for before the next library.
pub proof fn library_is_fetched_once(run: model::RunView, reply: messages::ReplyView)
    requires
        run.wf(),
        !(run.phase is Ensure),
        !(run.phase is Read),
    ensures
        run.step(reply).action() is ReadComics ==> run.step(reply).at > run.at,
        run.step(reply).action() is FetchMedia ==> run.step(reply).at > run.at || run.step(reply)
            == run,
{
}

/// The counters go with the mode: a push run pulls nothing and a pull run
/// pushes nothing.
pub proof fn counters_follow_the_mode(
    mode: Mode,
    libraries: Seq<config::LibraryConfigView>,
    replies: Seq<messages::ReplyView>,
)
    ensures
        ({
            let report = run_after(model::started(mode, libraries), replies).report;
            &&& mode == Mode::Push ==> report.pages_pulled == 0 && report.completions_pulled == 0
            &&& mode == Mode::Pull ==> report.pages_pushed == 0 && report.completions_pushed == 0
        }),
    decreases replies.len(),
{
    if replies.len() > 0 {
        let before = run_after(model::started(mode, libraries), replies.drop_last());
        let reply = replies.last();
        counters_follow_the_mode(mode, libraries, replies.drop_last());
        reached_states_are_possible(mode, libraries, replies.drop_last());
        match before.phase {
            model::PhaseView::Comic(n, _) => {
                model::moving_on_keeps_the_report(before.count_page_push(), n);
                model::moving_on_keeps_the_report(before.count_mark(), n);
                model::moving_on_keeps_the_report(before.count_pull(n), n);
                if let messages::ReplyView::Failed(e) = reply {
                    model::only_progress_is_counted(before, reply);
                }
            },
            model::PhaseView::Insert(_) => {},
            model::PhaseView::SendPage(_, _) => {},
            model::PhaseView::SendMark(_, _) => {},
            _ => {
                if !(reply is LibraryId) && !(reply is Done) {
                    model::only_progress_is_counted(before, reply);
                }
            },
        }
    }
}

/// A failure that belongs to a library or a comic does not stop the run: one
/// error is recorded (none for a state that could not be recorded), no counter
/// changes, and the run goes on.
pub proof fn failure_does_not_stop_the_run(run: model::RunView, e: types::ErrorView)
    requires
        run.wf(),
        !(run.phase is Ensure),
        !(run.phase is Finished),
        !(run.phase is Aborted),
    ensures
        ({
            let next = run.step(messages::ReplyView::Failed(e));
            let errors = next.report.errors.len() - run.report.errors.len();
            &&& !(next.phase is Aborted)
            &&& next.error is None
            &&& next.report == (types::ReportView {
                errors: next.report.errors,
                ..run.report
            })
            &&& run.report.errors.is_prefix_of(next.report.errors)
            &&& errors == (if run.phase matches model::PhaseView::Comic(_, Stage::Save) {
                0int
            } else {
                1
            })
        }),
{
}

/// A run stops before its end only where the record of a library cannot be
/// had, and then with that error.
pub proof fn run_stops_only_without_library_record(
    run: model::RunView,
    reply: messages::ReplyView,
)
    requires
        run.wf(),
        !(run.phase is Aborted),
        run.step(reply).phase is Aborted,
    ensures
        run.phase is Ensure,
        reply matches messages::ReplyView::Failed(e) && run.step(reply).error == Some(e),
{
}

/// A report only grows: no counter goes down and no error is dropped.
pub proof fn report_only_grows(run: model::RunView, reply: messages::ReplyView)
    ensures
        ({
            let next = run.step(reply).report;
            &&& next.libraries_processed >= run.report.libraries_processed
            &&& next.comics_matched >= run.report.comics_matched
            &&& next.pages_pushed >= run.report.pages_pushed
            &&& next.completions_pushed >= run.report.completions_pushed
            &&& next.pages_pulled >= run.report.pages_pulled
            &&& next.completions_pulled >= run.report.completions_pulled
            &&& run.report.errors.is_prefix_of(next.errors)
        }),
{
    match run.phase {
        model::PhaseView::Comic(n, _) => {
            model::moving_on_keeps_the_report(run.count_page_push(), n);
            model::moving_on_keeps_the_report(run.count_mark(), n);
            model::moving_on_keeps_the_report(run.count_pull(n), n);
            if let messages::ReplyView::Failed(e) = reply {
                model::moving_on_keeps_the_report(run.media_error(run.media(n).id@, e), n);
                model::moving_on_keeps_the_report(
                    run.comic_error(run.comic(n).comic_info_id, e),
                    n,
                );
            }
        },
        model::PhaseView::Insert(_) => {},
        model::PhaseView::SendPage(_, _) => {},
        model::PhaseView::SendMark(_, _) => {},
        _ => {
            if !(reply is LibraryId) && !(reply is Done) {
                model::only_progress_is_counted(run, reply);
            }
        },
    }
}

/// A run that reached its end has processed every library.
pub proof fn finished_run_has_processed_all(
    mode: Mode,
    libraries: Seq<config::LibraryConfigView>,
    replies: Seq<messages::ReplyView>,
)
    ensures
        ({
            let run = run_after(model::started(mode, libraries), replies);
            run.phase is Finished ==> run.report.libraries_processed == libraries.len()
        }),
{
    reached_states_are_possible(mode, libraries, replies);
}

/// The converged state is recorded whatever fails: once a pair that has a
/// record is being worked on, every reply leads to another step for the same
/// pair until the state is saved.
pub proof fn state_is_recorded_whatever_fails(
    run: model::RunView,
    n: int,
    stage: Stage,
    reply: messages::ReplyView,
)
    requires
        run.wf(),
        run.phase == model::PhaseView::Comic(n, stage),
        stage != Stage::Save,
        run.mapping(n) is Some,
    ensures
        run.step(reply).phase matches model::PhaseView::Comic(k, _) && k == n,
        run.step(reply).delta(n) == run.delta(n),
        run.step(reply).mapping(n) == run.mapping(n),
{
}

/// A failed push does not hold up the pull of the same comic, but the
/// completion is not sent after a page that could not be sent.
pub proof fn failed_push_keeps_the_pull(
    run: model::RunView,
    n: int,
    stage: Stage,
    e: types::ErrorView,
)
    requires
        run.wf(),
        run.phase == model::PhaseView::Comic(n, stage),
        stage == Stage::Page || stage == Stage::Mark,
    ensures
        run.delta(n).pull is Some ==> run.step(messages::ReplyView::Failed(e)).phase
            == model::PhaseView::Comic(n, Stage::Write),
        run.step(messages::ReplyView::Failed(e)).phase != model::PhaseView::Comic(
            n,
            Stage::Mark,
        ),
{
}

/// A reply that does not answer the current action changes nothing.
pub proof fn unrelated_reply_is_ignored(run: model::RunView, reply: messages::ReplyView)
    requires
        !messages::answers(reply, run.action()),
    ensures
        run.step(reply) == run,
{
}

/// How far a run is from its end: the libraries left, the kind of step, the
/// items left at that kind of step, and the steps left for the item. Compared
/// in this order.
pub open spec fn distance(run: model::RunView) -> (int, int, int, int) {
    let libraries = run.libraries.len() - run.at;
    let pairs = run.work.pairs.len();
    let comics = run.work.comics.len();
    match run.phase {
        model::PhaseView::Ensure => (libraries, 6, 0, 0),
        model::PhaseView::Read => (libraries, 5, 0, 0),
        model::PhaseView::Fetch => (libraries, 4, 0, 0),
        model::PhaseView::Insert(n) => (libraries, 3, pairs - n, 0),
        model::PhaseView::List => (libraries, 2, 0, 0),
        model::PhaseView::Find(n) => (libraries, 1, comics - n, 2),
        model::PhaseView::SendPage(n, _) => (libraries, 1, comics - n, 1),
        model::PhaseView::SendMark(n, _) => (libraries, 1, comics - n, 0),
        model::PhaseView::Load(n) => (libraries, 1, pairs - n, 4),
        model::PhaseView::Comic(n, Stage::Page) => (libraries, 1, pairs - n, 3),
        model::PhaseView::Comic(n, Stage::Mark) => (libraries, 1, pairs - n, 2),
        model::PhaseView::Comic(n, Stage::Write) => (libraries, 1, pairs - n, 1),
        model::PhaseView::Comic(n, Stage::Save) => (libraries, 1, pairs - n, 0),
        model::PhaseView::Finished => (libraries, 0, 0, 0),
        model::PhaseView::Aborted => (libraries, 0, 0, 0),
    }
}

/// One distance is smaller than another.
pub open spec fn nearer(a: (int, int, int, int), b: (int, int, int, int)) -> bool {
    ||| a.0 < b.0
    ||| a.0 == b.0 && a.1 < b.1
    ||| a.0 == b.0 && a.1 == b.1 && a.2 < b.2
    ||| a.0 == b.0 && a.1 == b.1 && a.2 == b.2 && a.3 < b.3
}

/// Every reply that answers the current action, a failure too, brings the run
/// nearer to its end. As no part of a distance is negative, a run ends.
pub proof fn every_answer_brings_the_end_nearer(run: model::RunView, reply: messages::ReplyView)
    requires
        run.wf(),
        messages::answers(reply, run.action()),
    ensures
        nearer(distance(run.step(reply)), distance(run)),
        distance(run).0 >= 0,
        distance(run).1 >= 0,
        distance(run).2 >= 0,
        distance(run).3 >= 0,
{
}

/// A report has room exactly where each of its counters fits 32 bits; errors
/// take no room.
pub proof fn room_is_a_matter_of_the_counters(report: types::ReportView)
    ensures
        model::counters_fit(report) <==> {
            &&& report.libraries_processed <= 0xffff_ffff
            &&& report.comics_matched <= 0xffff_ffff
            &&& report.pages_pushed <= 0xffff_ffff
            &&& report.completions_pushed <= 0xffff_ffff
            &&& report.pages_pulled <= 0xffff_ffff
            &&& report.completions_pulled <= 0xffff_ffff
        },
{
}

} // verus!
