//! What one cycle of a synchronisation achieves for one comic: the delta of the
//! reconciliation, applied on both sides.

use crate::sync_engine::reconcile;
use crate::sync_engine::ydb;
use crate::sync_engine::ydb::YdbRow;
use crate::types;
use crate::types::{ComicProgress, PullAction, PushAction, StumpMedia, SyncState};
use vstd::prelude::*;

verus! {

/// The row holds the progress that was read as `yac`.
pub open spec fn holds_progress(row: YdbRow, yac: ComicProgress) -> bool {
    &&& row.current_page == yac.current_page
    &&& row.read == yac.read
    &&& row.num_pages == yac.num_pages
}

/// The row of a comic after a pull has been applied to it at the time `now`. A
/// pull without a page writes the page that the comic was read with.
pub open spec fn pulled_row(
    row: YdbRow,
    yac: ComicProgress,
    pull: Option<PullAction>,
    now: i64,
) -> YdbRow {
    match pull {
        Some(p) => match ydb::write_outcome(
            Some(row),
            Seq::empty(),
            yac.comic_info_id,
            match p.page {
                Some(page) => page,
                None => yac.current_page,
            },
            yac.num_pages,
            p.set_read,
            p.allow_regression,
            p.last_opened,
            now,
        ) {
            Ok(Some(new)) => new,
            _ => row,
        },
        None => row,
    }
}

/// Stump after a push of `delta` has been applied to it: it stands at the page
/// that was pushed, without one where it stood, and a completion is at most
/// added.
pub open spec fn takes_push(before: StumpMedia, delta: types::DeltaView, after: StumpMedia) -> bool {
    &&& after.page_now() == (match delta.push {
        Some(PushAction { page: Some(page), .. }) => page,
        _ => before.page_now(),
    })
    &&& after.completed() == (before.completed() || (delta.push matches Some(push)
        && push.mark_complete))
}

/// The delta pulls a page up to or past the last one of a comic that is
/// complete on neither side, so that the write itself completes the comic.
pub open spec fn completes_by_page(yac: ComicProgress, delta: types::DeltaView) -> bool {
    &&& delta.pull matches Some(pull) && !pull.allow_regression
    &&& !delta.final_complete
    &&& 0 < yac.num_pages <= delta.final_page
}

/// YACReader dropped a completion that Stump still holds.
pub open spec fn unread_against_stump(
    yac: ComicProgress,
    stump: StumpMedia,
    prev: Option<SyncState>,
) -> bool {
    reconcile::yac_unread(yac, prev) && stump.completed()
}

/// One cycle settles a comic: once push and pull have been applied, both sides
/// hold the converged page and completion, and the next cycle finds nothing to
/// do, whatever baseline it starts from. Left out are a comic that the write
/// completes by its page, and a completion that was dropped in YACReader but
/// stays on Stump; see the two laws below.
pub proof fn one_cycle_settles(
    yac: ComicProgress,
    stump: StumpMedia,
    ydb_path: Seq<char>,
    prev: Option<SyncState>,
    row: YdbRow,
    now: i64,
    next_yac: ComicProgress,
    next_stump: StumpMedia,
    next_prev: Option<SyncState>,
    later: i64,
)
    requires
        holds_progress(row, yac),
        ({
            let delta = reconcile::reconciled(yac, stump, ydb_path, prev, now);
            &&& holds_progress(pulled_row(row, yac, delta.pull, now), next_yac)
            &&& takes_push(stump, delta, next_stump)
            &&& !completes_by_page(yac, delta)
        }),
        !unread_against_stump(yac, stump, prev),
    ensures
        ({
            let delta = reconcile::reconciled(yac, stump, ydb_path, prev, now);
            let next = reconcile::reconciled(next_yac, next_stump, ydb_path, next_prev, later);
            &&& next_yac.current_page == delta.final_page
            &&& next_stump.page_now() == delta.final_page
            &&& next_yac.read == delta.final_complete
            &&& next_stump.completed() == delta.final_complete
            &&& next.push is None
            &&& next.pull is None
        }),
{
    let delta = reconcile::reconciled(yac, stump, ydb_path, prev, now);
    reconcile::agreement_is_stable(next_yac, next_stump, ydb_path, next_prev, later);
}

/// The page always settles in one cycle, in the cases that the completion
/// needs another one for as well.
pub proof fn one_cycle_settles_the_page(
    yac: ComicProgress,
    stump: StumpMedia,
    ydb_path: Seq<char>,
    prev: Option<SyncState>,
    row: YdbRow,
    now: i64,
)
    requires
        holds_progress(row, yac),
    ensures
        ({
            let delta = reconcile::reconciled(yac, stump, ydb_path, prev, now);
            pulled_row(row, yac, delta.pull, now).current_page == delta.final_page
        }),
{
}

/// A comic that the write completed by its page is marked complete on Stump by
/// the next cycle, which starts from the recorded baseline.
pub proof fn completion_by_page_follows(
    yac: ComicProgress,
    stump: StumpMedia,
    ydb_path: Seq<char>,
    prev: Option<SyncState>,
    row: YdbRow,
    now: i64,
    next_yac: ComicProgress,
    next_stump: StumpMedia,
    recorded: SyncState,
    later: i64,
)
    requires
        holds_progress(row, yac),
        ({
            let delta = reconcile::reconciled(yac, stump, ydb_path, prev, now);
            &&& completes_by_page(yac, delta)
            &&& holds_progress(pulled_row(row, yac, delta.pull, now), next_yac)
            &&& takes_push(stump, delta, next_stump)
            &&& recorded.yac_read == delta.final_complete
        }),
        !stump.completed(),
    ensures
        next_yac.read,
        reconcile::reconciled(
            next_yac,
            next_stump,
            ydb_path,
            Some(recorded),
            later,
        ).push matches Some(push) && push.mark_complete,
{
}

/// A completion that YACReader dropped and Stump still holds is left dropped
/// in this cycle: nothing is pulled back and nothing is marked. As completion
/// cannot be taken off Stump, the next cycle, which starts from the recorded
/// baseline, pulls it again.
pub proof fn stump_completion_comes_back(
    yac: ComicProgress,
    stump: StumpMedia,
    ydb_path: Seq<char>,
    prev: Option<SyncState>,
    row: YdbRow,
    now: i64,
    next_yac: ComicProgress,
    next_stump: StumpMedia,
    recorded: SyncState,
    later: i64,
)
    requires
        holds_progress(row, yac),
        unread_against_stump(yac, stump, prev),
        ({
            let delta = reconcile::reconciled(yac, stump, ydb_path, prev, now);
            &&& takes_push(stump, delta, next_stump)
            &&& holds_progress(pulled_row(row, yac, delta.pull, now), next_yac)
            &&& recorded.yac_read == delta.final_complete
        }),
    ensures
        ({
            let delta = reconcile::reconciled(yac, stump, ydb_path, prev, now);
            let next = reconcile::reconciled(
                next_yac,
                next_stump,
                ydb_path,
                Some(recorded),
                later,
            );
            &&& !delta.final_complete
            &&& delta.pull matches Some(pull) ==> !pull.set_read
            &&& delta.push matches Some(push) ==> !push.mark_complete
            &&& next.final_complete
            &&& !next_yac.read ==> (next.pull matches Some(pull) && pull.set_read)
        }),
{
}

/// The page of Stump settles in one cycle as well: the push alone takes it to
/// the converged page, from whatever baseline.
pub proof fn one_cycle_settles_the_page_on_stump(
    yac: ComicProgress,
    stump: StumpMedia,
    ydb_path: Seq<char>,
    prev: Option<SyncState>,
    now: i64,
    next_stump: StumpMedia,
)
    requires
        takes_push(stump, reconcile::reconciled(yac, stump, ydb_path, prev, now), next_stump),
    ensures
        next_stump.page_now() == reconcile::reconciled(
            yac,
            stump,
            ydb_path,
            prev,
            now,
        ).final_page,
{
}

} // verus!
