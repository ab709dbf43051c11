//! Reconciliation of one comic across YACReader and Stump.
//!
//! Page and completion are independent dimensions. Each converges upward by
//! default, which never loses progress. A side may pull the other down only
//! when it alone moved back since the last synchronisation and its own clock
//! advanced past the recorded baseline.

use crate::clock;
use crate::clock::now_epoch_secs;
use crate::decimal;
use crate::decimal::parse_i64;
use crate::text;
use crate::text::text_precedes;
use crate::types;
use crate::types::{
    BidirectionalDelta, ComicProgress, PullAction, PushAction, StumpMedia, SyncDelta, SyncState,
};
use vstd::prelude::*;
use vstd::string::*;

verus! {

/// The recorded state behind an optional reference.
pub open spec fn known(prev: Option<&SyncState>) -> Option<SyncState> {
    match prev {
        Some(p) => Some(*p),
        None => None,
    }
}

/// A time in seconds that is strictly past a baseline written in decimal. An
/// absent or unreadable time is past nothing.
pub open spec fn later_epoch(current: Option<i64>, baseline: Option<Seq<char>>) -> bool {
    match (current, baseline) {
        (Some(c), Some(text)) => match decimal::parsed(text) {
            Some(b) => c > b,
            None => false,
        },
        _ => false,
    }
}

/// A written time that comes strictly after a written baseline in lexical
/// order. An absent time comes after nothing.
pub open spec fn later_text(current: Option<Seq<char>>, baseline: Option<Seq<char>>) -> bool {
    match (current, baseline) {
        (Some(c), Some(b)) => text::precedes(b, c),
        _ => false,
    }
}

/// YACReader's clock for this comic advanced past the recorded baseline.
pub open spec fn yac_clock_advanced(yac: ComicProgress, prev: Option<SyncState>) -> bool {
    match prev {
        Some(p) => later_epoch(yac.last_time_opened, text::opt_text(p.yac_last_modified)),
        None => false,
    }
}

/// Stump's clock for this comic advanced past the recorded baseline.
pub open spec fn stump_clock_advanced(stump: StumpMedia, prev: Option<SyncState>) -> bool {
    match prev {
        Some(p) => later_text(stump.changed_at(), text::opt_text(p.stump_last_modified)),
        None => false,
    }
}

/// YACReader stands below the last converged page, and its clock vouches for
/// the move.
pub open spec fn yac_back(yac: ComicProgress, prev: Option<SyncState>) -> bool {
    prev matches Some(p) && yac.current_page < p.yac_current_page && yac_clock_advanced(yac, prev)
}

/// Stump stands below the last converged page, and its clock vouches for the
/// move.
pub open spec fn stump_back(stump: StumpMedia, prev: Option<SyncState>) -> bool {
    prev matches Some(p) && stump.page_now() < p.yac_current_page && stump_clock_advanced(
        stump,
        prev,
    )
}

/// YACReader dropped a completion that the baseline records, and its clock
/// vouches for it.
pub open spec fn yac_unread(yac: ComicProgress, prev: Option<SyncState>) -> bool {
    prev matches Some(p) && p.yac_read && !yac.read && yac_clock_advanced(yac, prev)
}

/// Stump dropped a completion that the baseline records, and its clock vouches
/// for it.
pub open spec fn stump_unread(stump: StumpMedia, prev: Option<SyncState>) -> bool {
    prev matches Some(p) && p.yac_read && !stump.completed() && stump_clock_advanced(stump, prev)
}

/// The greater of two pages.
pub open spec fn greater_page(a: i32, b: i32) -> i32 {
    if a >= b {
        a
    } else {
        b
    }
}

/// The page both sides converge to: that of the one side that moved back on
/// its own, otherwise the greater one.
pub open spec fn converged_page(
    yac: ComicProgress,
    stump: StumpMedia,
    prev: Option<SyncState>,
) -> i32 {
    if yac_back(yac, prev) && !stump_back(stump, prev) {
        yac.current_page
    } else if stump_back(stump, prev) && !yac_back(yac, prev) {
        stump.page_now()
    } else {
        greater_page(yac.current_page, stump.page_now())
    }
}

/// The completion both sides converge to: none where one side alone dropped
/// it, otherwise whatever either side holds.
pub open spec fn converged_complete(
    yac: ComicProgress,
    stump: StumpMedia,
    prev: Option<SyncState>,
) -> bool {
    if yac_unread(yac, prev) != stump_unread(stump, prev) {
        false
    } else {
        yac.read || stump.completed()
    }
}

/// Stump alone moved back, in page or in completion.
pub open spec fn stump_regressed(
    yac: ComicProgress,
    stump: StumpMedia,
    prev: Option<SyncState>,
) -> bool {
    ||| stump_back(stump, prev) && !yac_back(yac, prev)
    ||| stump_unread(stump, prev) && !yac_unread(yac, prev)
}

/// What Stump must be told to reach the converged state.
pub open spec fn push_toward(
    stump: StumpMedia,
    final_page: i32,
    final_complete: bool,
) -> Option<PushAction> {
    let page_differs = stump.page_now() != final_page;
    let mark_complete = final_complete && !stump.completed();
    if page_differs || mark_complete {
        Some(
            PushAction {
                page: if page_differs {
                    Some(final_page)
                } else {
                    None
                },
                mark_complete,
            },
        )
    } else {
        None
    }
}

/// What YACReader must be told to take over a validated move back of Stump:
/// the exact converged state.
pub open spec fn regression_pull(
    yac: ComicProgress,
    final_page: i32,
    final_complete: bool,
) -> Option<PullAction> {
    let page_differs = yac.current_page != final_page;
    if page_differs || final_complete != yac.read {
        Some(
            PullAction {
                page: if page_differs {
                    Some(final_page)
                } else {
                    None
                },
                set_read: final_complete,
                allow_regression: true,
                last_opened: None,
            },
        )
    } else {
        None
    }
}

/// What YACReader must be told to catch up with the converged state; `now` is
/// recorded where Stump dates the completion that is taken over.
pub open spec fn raising_pull(
    yac: ComicProgress,
    stump: StumpMedia,
    final_page: i32,
    final_complete: bool,
    now: i64,
) -> Option<PullAction> {
    let page_behind = yac.current_page < final_page;
    let set_read = final_complete && !yac.read;
    if page_behind || set_read {
        Some(
            PullAction {
                page: if page_behind {
                    Some(final_page)
                } else {
                    None
                },
                set_read,
                allow_regression: false,
                last_opened: if set_read && stump.first_completed_at() is Some {
                    Some(now)
                } else {
                    None
                },
            },
        )
    } else {
        None
    }
}

/// The outcome of reconciling `yac` and `stump` against the baseline `prev` at
/// the time `now`.
pub open spec fn reconciled(
    yac: ComicProgress,
    stump: StumpMedia,
    ydb_path: Seq<char>,
    prev: Option<SyncState>,
    now: i64,
) -> types::DeltaView {
    let final_page = converged_page(yac, stump, prev);
    let final_complete = converged_complete(yac, stump, prev);
    types::DeltaView {
        comic_info_id: yac.comic_info_id,
        stump_media_id: stump.id@,
        ydb_path,
        num_pages: yac.num_pages,
        push: push_toward(stump, final_page, final_complete),
        pull: if stump_regressed(yac, stump, prev) {
            regression_pull(yac, final_page, final_complete)
        } else {
            raising_pull(yac, stump, final_page, final_complete, now)
        },
        final_page,
        final_complete,
    }
}

/// The one-way outcome: what Stump must be told where YACReader is ahead.
pub open spec fn one_way(yac: ComicProgress, stump: StumpMedia) -> Option<types::SyncDeltaView> {
    let page_ahead = yac.current_page > stump.page_now();
    let mark_complete = yac.read && !stump.completed();
    if page_ahead || mark_complete {
        Some(
            types::SyncDeltaView {
                stump_media_id: stump.id@,
                new_page: if page_ahead {
                    Some(yac.current_page)
                } else {
                    None
                },
                should_mark_complete: mark_complete,
            },
        )
    } else {
        None
    }
}

/// The contents of an optional one-way delta.
pub open spec fn opt_delta(delta: Option<SyncDelta>) -> Option<types::SyncDeltaView> {
    match delta {
        Some(d) => Some(d@),
        None => None,
    }
}

/// What to push to Stump where YACReader is ahead, or nothing.
pub fn compute_delta(yac: &ComicProgress, stump: &StumpMedia) -> (r: Option<SyncDelta>)
    ensures
        opt_delta(r) == one_way(*yac, *stump),
{
    let should_push_page = yac.current_page > stump.current_page();
    let should_mark_complete = yac.read && !stump.is_complete();
    if !should_push_page && !should_mark_complete {
        return None;
    }
    Some(
        SyncDelta {
            stump_media_id: stump.id.clone(),
            new_page: if should_push_page {
                Some(yac.current_page)
            } else {
                None
            },
            should_mark_complete,
        },
    )
}

/// Whether `current` is strictly past `baseline`, both being times of
/// YACReader's clock in seconds, the latter in decimal. A missing or
/// unreadable time is never newer, so data that cannot be checked never
/// triggers a move back.
pub fn yac_ts_newer(current: Option<i64>, baseline: Option<&str>) -> (r: bool)
    ensures
        r == later_epoch(current, text::opt_str(baseline)),
{
    match (current, baseline) {
        (Some(c), Some(text)) => match parse_i64(text) {
            Some(b) => c > b,
            None => false,
        },
        _ => false,
    }
}

/// Whether `current` comes strictly after `baseline`, both being times that
/// one Stump server wrote in one fixed format. A missing time is never newer.
pub fn stump_ts_newer(current: Option<&str>, baseline: Option<&str>) -> (r: bool)
    ensures
        r == later_text(text::opt_str(current), text::opt_str(baseline)),
{
    match (current, baseline) {
        (Some(c), Some(b)) => text_precedes(b, c),
        _ => false,
    }
}

/// An optional string as an optional slice.
fn as_opt_str(s: &Option<String>) -> (r: Option<&str>)
    ensures
        text::opt_str(r) == text::opt_text(*s),
{
    match s {
        Some(t) => Some(t.as_str()),
        None => None,
    }
}

/// Reconciles one comic at the time `now`.
pub fn reconcile_at(
    yac: &ComicProgress,
    stump: &StumpMedia,
    ydb_path: &str,
    prev: Option<&SyncState>,
    now: i64,
) -> (delta: BidirectionalDelta)
    ensures
        delta@ == reconciled(*yac, *stump, ydb_path@, known(prev), now),
{
    let stump_page: i32 = stump.current_page();
    let stump_complete = stump.is_complete();
    let yac_page: i32 = yac.current_page;

    let mut final_page: i32 = if yac_page >= stump_page {
        yac_page
    } else {
        stump_page
    };
    let mut final_complete = yac.read || stump_complete;
    let mut stump_side_back = false;
    if let Some(p) = prev {
        let yac_newer = yac_ts_newer(yac.last_time_opened, as_opt_str(&p.yac_last_modified));
        let stump_newer = stump_ts_newer(
            stump.stump_timestamp(),
            as_opt_str(&p.stump_last_modified),
        );

        let page_back_yac = yac_page < p.yac_current_page && yac_newer;
        let page_back_stump = stump_page < p.yac_current_page && stump_newer;
        if page_back_yac && !page_back_stump {
            final_page = yac_page;
        } else if page_back_stump && !page_back_yac {
            final_page = stump_page;
            stump_side_back = true;
        }

        // Only the step from read to unread can lose anything, so it alone is
        // looked for.
        if p.yac_read {
            let unread_yac = !yac.read && yac_newer;
            let unread_stump = !stump_complete && stump_newer;
            if unread_yac && !unread_stump {
                final_complete = false;
            } else if unread_stump && !unread_yac {
                final_complete = false;
                stump_side_back = true;
            }
        }
    }

    // Completion is only ever added on Stump, never removed.
    let push_page = stump_page != final_page;
    let mark_complete = final_complete && !stump_complete;
    let push = if push_page || mark_complete {
        Some(
            PushAction {
                page: if push_page {
                    Some(final_page)
                } else {
                    None
                },
                mark_complete,
            },
        )
    } else {
        None
    };

    let pull = if stump_side_back {
        let pull_page = yac_page != final_page;
        if pull_page || final_complete != yac.read {
            Some(
                PullAction {
                    page: if pull_page {
                        Some(final_page)
                    } else {
                        None
                    },
                    set_read: final_complete,
                    allow_regression: true,
                    last_opened: None,
                },
            )
        } else {
            None
        }
    } else {
        let pull_page = yac_page < final_page;
        let set_read = final_complete && !yac.read;
        let dated = stump.read_history.len() > 0 && stump.read_history[0].completed_at.is_some();
        if pull_page || set_read {
            Some(
                PullAction {
                    page: if pull_page {
                        Some(final_page)
                    } else {
                        None
                    },
                    set_read,
                    allow_regression: false,
                    last_opened: if set_read && dated {
                        Some(now)
                    } else {
                        None
                    },
                },
            )
        } else {
            None
        }
    };

    BidirectionalDelta {
        comic_info_id: yac.comic_info_id,
        stump_media_id: stump.id.clone(),
        ydb_path: ydb_path.to_owned(),
        num_pages: yac.num_pages,
        push,
        pull,
        final_page,
        final_complete,
    }
}

/// Reconciles one comic across YACReader and Stump, against the state that the
/// last synchronisation recorded for it. The time of the call enters only as
/// the time to record for a completion that is pulled.
pub fn compute_bidirectional_delta(
    yac: &ComicProgress,
    stump: &StumpMedia,
    ydb_path: &str,
    prev: Option<&SyncState>,
) -> (delta: BidirectionalDelta)
    ensures
        exists|now: i64|
            clock::clock_reads(now) && delta@ == #[trigger] reconciled(
                *yac,
                *stump,
                ydb_path@,
                known(prev),
                now,
            ),
{
    let now: i64 = now_epoch_secs();
    reconcile_at(yac, stump, ydb_path, prev, now)
}

/// Without a baseline nothing moves back: the page is the greater one, and a
/// completion on either side is kept.
pub proof fn first_sync_is_monotonic(yac: ComicProgress, stump: StumpMedia)
    ensures
        converged_page(yac, stump, None) == greater_page(yac.current_page, stump.page_now()),
        converged_complete(yac, stump, None) == (yac.read || stump.completed()),
        !stump_regressed(yac, stump, None),
{
}

/// Where neither clock advanced past the baseline nothing moves back, however
/// far the sides stand below it: stale data cannot lose progress.
pub proof fn stale_data_is_monotonic(
    yac: ComicProgress,
    stump: StumpMedia,
    prev: Option<SyncState>,
)
    requires
        !yac_clock_advanced(yac, prev),
        !stump_clock_advanced(stump, prev),
    ensures
        converged_page(yac, stump, prev) == greater_page(yac.current_page, stump.page_now()),
        converged_complete(yac, stump, prev) == (yac.read || stump.completed()),
        !stump_regressed(yac, stump, prev),
{
}

/// A time that is missing on either side of a comparison vouches for nothing.
pub proof fn missing_time_is_never_newer(current: Option<i64>, written: Option<Seq<char>>)
    ensures
        !later_epoch(None, written),
        !later_epoch(current, None),
        !later_text(None, written),
        !later_text(written, None),
{
}

/// A time that equals the baseline vouches for nothing: the comparison is
/// strict on both clocks.
pub proof fn equal_time_is_not_newer(t: i64, written: Seq<char>)
    ensures
        !later_epoch(Some(t), Some(decimal::decimal(t as int))),
        !later_text(Some(written), Some(written)),
{
    decimal::decimal_round_trip(t);
    text::precedes_is_strict(written, written);
}

/// A baseline that was written down from a time reads back as that time, so
/// "newer" means newer than what was recorded.
pub proof fn recorded_time_reads_back(current: i64, recorded: i64)
    ensures
        later_epoch(Some(current), Some(decimal::decimal(recorded as int))) == (current
            > recorded),
{
    decimal::decimal_round_trip(recorded);
}

/// The converged page is the page of one of the two sides, and it lies below
/// the greater one only where exactly one side stands below the baseline with
/// a clock that advanced, and then it is that side's page.
pub proof fn page_lowered_only_by_one_side(
    yac: ComicProgress,
    stump: StumpMedia,
    prev: Option<SyncState>,
)
    ensures
        ({
            let page = converged_page(yac, stump, prev);
            &&& page == yac.current_page || page == stump.page_now()
            &&& page <= greater_page(yac.current_page, stump.page_now())
            &&& page < greater_page(yac.current_page, stump.page_now()) ==> {
                &&& prev matches Some(p)
                &&& page < p.yac_current_page
                &&& yac_back(yac, prev) != stump_back(stump, prev)
                &&& yac_back(yac, prev) ==> page == yac.current_page
                &&& stump_back(stump, prev) ==> page == stump.page_now()
            }
        }),
{
}

/// Where both sides moved back the greater page stays.
pub proof fn both_back_keeps_the_greater_page(
    yac: ComicProgress,
    stump: StumpMedia,
    prev: Option<SyncState>,
)
    requires
        yac_back(yac, prev),
        stump_back(stump, prev),
    ensures
        converged_page(yac, stump, prev) == greater_page(yac.current_page, stump.page_now()),
{
}

/// A completion that a side holds is dropped only where the baseline records
/// it and the other side alone dropped it with a clock that advanced.
pub proof fn completion_dropped_only_by_one_side(
    yac: ComicProgress,
    stump: StumpMedia,
    prev: Option<SyncState>,
)
    requires
        yac.read || stump.completed(),
        !converged_complete(yac, stump, prev),
    ensures
        prev matches Some(p) && p.yac_read,
        yac_unread(yac, prev) != stump_unread(stump, prev),
        yac_unread(yac, prev) ==> stump.completed() && yac_clock_advanced(yac, prev),
        stump_unread(stump, prev) ==> yac.read && stump_clock_advanced(stump, prev),
{
}

/// The writer is allowed to lower YACReader's state only where Stump moved
/// back, below the baseline and with a clock that advanced, and YACReader did
/// not do so in the same dimension.
pub proof fn regression_needs_stump_evidence(
    yac: ComicProgress,
    stump: StumpMedia,
    ydb_path: Seq<char>,
    prev: Option<SyncState>,
    now: i64,
)
    ensures
        reconciled(yac, stump, ydb_path, prev, now).pull matches Some(pull)
            ==> pull.allow_regression ==> {
            &&& prev matches Some(p)
            &&& stump_clock_advanced(stump, prev)
            &&& (stump.page_now() < p.yac_current_page && !yac_back(yac, prev)) || (p.yac_read
                && !stump.completed() && !yac_unread(yac, prev))
        },
{
}

/// A pull that is not a regression only raises: its page lies above
/// YACReader's, and it asks for the `read` flag only where it is not set.
pub proof fn plain_pull_only_raises(
    yac: ComicProgress,
    stump: StumpMedia,
    ydb_path: Seq<char>,
    prev: Option<SyncState>,
    now: i64,
)
    ensures
        reconciled(yac, stump, ydb_path, prev, now).pull matches Some(pull)
            ==> !pull.allow_regression ==> {
            &&& pull.page matches Some(page) ==> page > yac.current_page
            &&& pull.set_read ==> !yac.read
            &&& pull.page is Some || pull.set_read
        },
{
}

/// Every page that is sent, in either direction, is the converged one.
pub proof fn sent_pages_are_converged(
    yac: ComicProgress,
    stump: StumpMedia,
    ydb_path: Seq<char>,
    prev: Option<SyncState>,
    now: i64,
)
    ensures
        ({
            let delta = reconciled(yac, stump, ydb_path, prev, now);
            &&& delta.push matches Some(push) ==> push.page matches Some(page) ==> page
                == delta.final_page
            &&& delta.pull matches Some(pull) ==> pull.page matches Some(page) ==> page
                == delta.final_page
        }),
{
}

/// A comic is marked complete on Stump only where Stump does not hold it as
/// complete, so no finished session is recorded twice. The same holds of the
/// one-way delta.
pub proof fn completes_only_the_incomplete(
    yac: ComicProgress,
    stump: StumpMedia,
    ydb_path: Seq<char>,
    prev: Option<SyncState>,
    now: i64,
)
    ensures
        reconciled(yac, stump, ydb_path, prev, now).push matches Some(push) ==> push.mark_complete
            ==> !stump.completed(),
        one_way(yac, stump) matches Some(delta) ==> delta.should_mark_complete ==> yac.read
            && !stump.completed(),
{
}

/// Two sides that agree on page and completion are left alone, whatever the
/// baseline says.
pub proof fn agreement_is_stable(
    yac: ComicProgress,
    stump: StumpMedia,
    ydb_path: Seq<char>,
    prev: Option<SyncState>,
    now: i64,
)
    requires
        yac.current_page == stump.page_now(),
        yac.read == stump.completed(),
    ensures
        ({
            let delta = reconciled(yac, stump, ydb_path, prev, now);
            &&& delta.push is None
            &&& delta.pull is None
            &&& delta.final_page == yac.current_page
            &&& delta.final_complete == yac.read
        }),
        one_way(yac, stump) is None,
{
}

/// The time of the call enters the outcome only as the time that a pull
/// records.
pub proof fn time_enters_only_the_recorded_time(
    yac: ComicProgress,
    stump: StumpMedia,
    ydb_path: Seq<char>,
    prev: Option<SyncState>,
    now: i64,
    later: i64,
)
    ensures
        ({
            let a = reconciled(yac, stump, ydb_path, prev, now);
            let b = reconciled(yac, stump, ydb_path, prev, later);
            &&& a == (types::DeltaView { pull: a.pull, ..b })
            &&& a.pull is Some == b.pull is Some
            &&& a.pull matches Some(p) ==> b.pull matches Some(q) ==> p == (PullAction {
                last_opened: p.last_opened,
                ..q
            })
        }),
{
}

/// At a first synchronisation the push is the one-way delta.
pub proof fn first_push_is_the_one_way_delta(
    yac: ComicProgress,
    stump: StumpMedia,
    ydb_path: Seq<char>,
    now: i64,
)
    ensures
        (match (reconciled(yac, stump, ydb_path, None, now).push, one_way(yac, stump)) {
            (Some(push), Some(delta)) => push.page == delta.new_page && push.mark_complete
                == delta.should_mark_complete,
            (None, None) => true,
            _ => false,
        }),
{
}

/// The delta speaks of the comic and the media that were reconciled.
pub proof fn delta_names_its_pair(
    yac: ComicProgress,
    stump: StumpMedia,
    ydb_path: Seq<char>,
    prev: Option<SyncState>,
    now: i64,
)
    ensures
        ({
            let delta = reconciled(yac, stump, ydb_path, prev, now);
            &&& delta.comic_info_id == yac.comic_info_id
            &&& delta.stump_media_id == stump.id@
            &&& delta.ydb_path == ydb_path
            &&& delta.num_pages == yac.num_pages
        }),
{
}

/// The push brings Stump to the converged state and does nothing else,
/// whatever the baseline is. It carries a page exactly where Stump stands at
/// another page than the converged one, and then the converged one. It marks
/// the comic exactly where it converged to complete and Stump has no finished
/// session of it. Where Stump lacks neither there is no push.
pub proof fn push_brings_stump_to_the_converged_state(
    yac: ComicProgress,
    stump: StumpMedia,
    ydb_path: Seq<char>,
    prev: Option<SyncState>,
    now: i64,
)
    ensures
        ({
            let delta = reconciled(yac, stump, ydb_path, prev, now);
            let behind = stump.page_now() != delta.final_page;
            let unmarked = delta.final_complete && stump.read_history@.len() == 0;
            &&& (delta.push matches Some(push) && push.page == Some(delta.final_page)) <==> behind
            &&& (delta.push matches Some(push) && push.page is Some) <==> behind
            &&& (delta.push matches Some(push) && push.mark_complete) <==> unmarked
            &&& delta.push is Some <==> behind || unmarked
        }),
{
}

/// The pull brings YACReader to the converged state and does nothing else,
/// whatever the baseline is. It carries a page exactly where YACReader stands
/// at another page than the converged one, and then the converged one. It
/// raises the `read` flag where only that is missing, and it may clear it, or
/// lower the page, only with the permission to regress. Where YACReader holds
/// the converged state already there is no pull.
pub proof fn pull_brings_yacreader_to_the_converged_state(
    yac: ComicProgress,
    stump: StumpMedia,
    ydb_path: Seq<char>,
    prev: Option<SyncState>,
    now: i64,
)
    ensures
        ({
            let delta = reconciled(yac, stump, ydb_path, prev, now);
            let elsewhere = yac.current_page != delta.final_page;
            &&& (delta.pull matches Some(pull) && pull.page == Some(delta.final_page))
                <==> elsewhere
            &&& (delta.pull matches Some(pull) && pull.page is Some) <==> elsewhere
            &&& delta.pull is Some <==> elsewhere || yac.read != delta.final_complete
            &&& delta.pull matches Some(pull) ==> {
                &&& yac.current_page > delta.final_page ==> pull.allow_regression
                &&& yac.read && !delta.final_complete ==> pull.allow_regression
                &&& pull.allow_regression ==> pull.set_read == delta.final_complete
                &&& !pull.allow_regression ==> pull.set_read == (delta.final_complete && !yac.read)
            }
        }),
{
}

/// A pull records the time of the call exactly where it raises `read` for a
/// completion that Stump dates; any other pull leaves the time to the writer.
pub proof fn dated_completion_is_pulled_with_the_time(
    yac: ComicProgress,
    stump: StumpMedia,
    ydb_path: Seq<char>,
    prev: Option<SyncState>,
    now: i64,
)
    ensures
        reconciled(yac, stump, ydb_path, prev, now).pull matches Some(pull) ==> {
            let dated = !pull.allow_regression && pull.set_read && stump.read_history@.len() > 0
                && stump.read_history@[0].completed_at is Some;
            &&& dated ==> pull.last_opened == Some(now)
            &&& !dated ==> pull.last_opened is None
        },
{
}

/// Without a baseline the two sides meet at the greater page, and the comic is
/// complete where either side holds it as complete. Nothing may regress.
pub proof fn first_sync_meets_at_the_greater_page(
    yac: ComicProgress,
    stump: StumpMedia,
    ydb_path: Seq<char>,
    now: i64,
)
    ensures
        ({
            let delta = reconciled(yac, stump, ydb_path, None, now);
            &&& delta.final_page >= yac.current_page
            &&& delta.final_page >= stump.page_now()
            &&& delta.final_page == yac.current_page || delta.final_page == stump.page_now()
            &&& delta.final_complete <==> yac.read || stump.read_history@.len() > 0
            &&& delta.pull matches Some(pull) ==> !pull.allow_regression
        }),
{
}

/// The side that moved back on its own decides the page. A side moved back
/// where it stands below the recorded page and its own time lies strictly past
/// the recorded one: YACReader's as a number, Stump's as a text. Where both
/// moved back, or neither, the two meet at the greater page.
pub proof fn lone_reread_decides_the_page(
    yac: ComicProgress,
    stump: StumpMedia,
    ydb_path: Seq<char>,
    p: SyncState,
    now: i64,
)
    ensures
        ({
            let delta = reconciled(yac, stump, ydb_path, Some(p), now);
            let yac_moved = yac.current_page < p.yac_current_page && (
            yac.last_time_opened matches Some(t) && p.yac_last_modified matches Some(recorded)
                && decimal::parsed(recorded@) matches Some(b) && t > b);
            let stump_moved = stump.page_now() < p.yac_current_page && (
            stump.changed_at() matches Some(t) && p.stump_last_modified matches Some(recorded)
                && text::precedes(recorded@, t));
            &&& yac_moved && !stump_moved ==> delta.final_page == yac.current_page
            &&& stump_moved && !yac_moved ==> delta.final_page == stump.page_now()
            &&& yac_moved == stump_moved ==> {
                &&& delta.final_page >= yac.current_page
                &&& delta.final_page >= stump.page_now()
                &&& delta.final_page == yac.current_page || delta.final_page == stump.page_now()
            }
        }),
{
}

/// The side that dropped a recorded completion on its own decides the
/// completion: it is dropped. A side dropped it where it does not hold it and
/// its own time lies strictly past the recorded one. Where no completion is
/// recorded, or both sides dropped it, or neither, the comic is complete where
/// either side holds it as complete.
pub proof fn lone_unread_decides_the_completion(
    yac: ComicProgress,
    stump: StumpMedia,
    ydb_path: Seq<char>,
    p: SyncState,
    now: i64,
)
    ensures
        ({
            let delta = reconciled(yac, stump, ydb_path, Some(p), now);
            let yac_dropped = p.yac_read && !yac.read && (yac.last_time_opened matches Some(t)
                && p.yac_last_modified matches Some(recorded) && decimal::parsed(
                recorded@,
            ) matches Some(b) && t > b);
            let stump_dropped = p.yac_read && stump.read_history@.len() == 0 && (
            stump.changed_at() matches Some(t) && p.stump_last_modified matches Some(recorded)
                && text::precedes(recorded@, t));
            &&& yac_dropped != stump_dropped ==> !delta.final_complete
            &&& yac_dropped == stump_dropped ==> (delta.final_complete <==> yac.read
                || stump.read_history@.len() > 0)
        }),
{
}

/// The permission to regress goes with a pull exactly where Stump alone moved
/// back, in page or in completion, below a baseline that its time lies past.
pub proof fn lone_stump_reread_may_lower_yacreader(
    yac: ComicProgress,
    stump: StumpMedia,
    ydb_path: Seq<char>,
    p: SyncState,
    now: i64,
)
    ensures
        reconciled(yac, stump, ydb_path, Some(p), now).pull matches Some(pull) ==> {
            let yac_past = yac.last_time_opened matches Some(t)
                && p.yac_last_modified matches Some(recorded) && decimal::parsed(
                recorded@,
            ) matches Some(b) && t > b;
            let stump_past = stump.changed_at() matches Some(t)
                && p.stump_last_modified matches Some(recorded) && text::precedes(recorded@, t);
            pull.allow_regression <==> stump_past && {
                ||| stump.page_now() < p.yac_current_page && !(yac.current_page
                    < p.yac_current_page && yac_past)
                ||| p.yac_read && stump.read_history@.len() == 0 && !(!yac.read && yac_past)
            }
        },
{
}

/// The one-way delta carries YACReader's page exactly where it lies above
/// Stump's, and the mark exactly where YACReader alone holds the comic as
/// complete. Where YACReader is ahead in neither there is no delta.
pub proof fn one_way_delta_carries_what_is_ahead(yac: ComicProgress, stump: StumpMedia)
    ensures
        ({
            let ahead = yac.current_page > stump.page_now();
            let unmarked = yac.read && stump.read_history@.len() == 0;
            &&& one_way(yac, stump) is Some <==> ahead || unmarked
            &&& one_way(yac, stump) matches Some(delta) ==> {
                &&& delta.stump_media_id == stump.id@
                &&& delta.new_page == Some(yac.current_page) <==> ahead
                &&& delta.new_page is Some <==> ahead
                &&& delta.should_mark_complete <==> unmarked
            }
        }),
{
}

/// A time is newer only where both times are there and it lies strictly past
/// the other: as a number past the number that the baseline denotes, and as a
/// text behind the baseline in lexical order.
pub proof fn newer_means_strictly_past(
    c: i64,
    written: Seq<char>,
    current: Seq<char>,
)
    ensures
        later_epoch(Some(c), Some(written)) <==> (decimal::parsed(written) matches Some(b) && b
            < c),
        later_text(Some(current), Some(written)) <==> text::precedes(written, current),
{
}

/// What is behind an optional reference, and what an optional delta holds.
pub proof fn optional_values_are_what_is_there(state: SyncState, delta: SyncDelta)
    ensures
        known(Some(&state)) == Some(state),
        known(None) is None,
        opt_delta(Some(delta)) == Some(delta@),
        opt_delta(None) is None,
{
}

/// What a reconciliation hands out, at whatever time it is made: a page for
/// Stump exactly where Stump stands elsewhere than both sides converge to, a
/// mark exactly where Stump lacks the completion, and a pull exactly where
/// YACReader stands elsewhere or holds another completion.
pub proof fn reconciliation_sends_each_side_what_it_lacks(
    yac: &ComicProgress,
    stump: &StumpMedia,
    ydb_path: &str,
    prev: Option<&SyncState>,
    now: i64,
    delta: BidirectionalDelta,
)
    requires
        call_ensures(reconcile_at, (yac, stump, ydb_path, prev, now), delta) || call_ensures(
            compute_bidirectional_delta,
            (yac, stump, ydb_path, prev),
            delta,
        ),
    ensures
        (delta.push matches Some(push) && push.page == Some(delta.final_page)) <==>
            stump.page_now() != delta.final_page,
        (delta.push matches Some(push) && push.page is Some) <==> stump.page_now()
            != delta.final_page,
        (delta.push matches Some(push) && push.mark_complete) <==> delta.final_complete
            && stump.read_history@.len() == 0,
        (delta.pull matches Some(pull) && pull.page == Some(delta.final_page)) <==>
            yac.current_page != delta.final_page,
        delta.pull is Some <==> yac.current_page != delta.final_page || yac.read
            != delta.final_complete,
        delta.comic_info_id == yac.comic_info_id,
        delta.stump_media_id@ == stump.id@,
        delta.ydb_path@ == ydb_path@,
        delta.num_pages == yac.num_pages,
{
    if call_ensures(reconcile_at, (yac, stump, ydb_path, prev, now), delta) {
        let d = reconciled(*yac, *stump, ydb_path@, known(prev), now);
        assert(delta@ == d);
        assert(delta@.push == delta.push);
        assert(delta@.pull == delta.pull);
        push_brings_stump_to_the_converged_state(*yac, *stump, ydb_path@, known(prev), now);
        pull_brings_yacreader_to_the_converged_state(*yac, *stump, ydb_path@, known(prev), now);
    } else {
        let at = choose|at: i64|
            clock::clock_reads(at) && delta@ == #[trigger] reconciled(
                *yac,
                *stump,
                ydb_path@,
                known(prev),
                at,
            );
        assert(delta@.push == delta.push);
        assert(delta@.pull == delta.pull);
        push_brings_stump_to_the_converged_state(*yac, *stump, ydb_path@, known(prev), at);
        pull_brings_yacreader_to_the_converged_state(*yac, *stump, ydb_path@, known(prev), at);
    }
}

/// What a one-way reconciliation hands out: YACReader's page exactly where it
/// is ahead, and the mark exactly where Stump lacks the completion.
pub proof fn one_way_reconciliation_sends_what_is_ahead(
    yac: &ComicProgress,
    stump: &StumpMedia,
    r: Option<SyncDelta>,
)
    requires
        call_ensures(compute_delta, (yac, stump), r),
    ensures
        (r matches Some(delta) && delta.new_page == Some(yac.current_page)) <==> yac.current_page
            > stump.page_now(),
        (r matches Some(delta) && delta.should_mark_complete) <==> yac.read
            && stump.read_history@.len() == 0,
        r is Some <==> yac.current_page > stump.page_now() || (yac.read
            && stump.read_history@.len() == 0),
        r matches Some(delta) ==> delta.stump_media_id@ == stump.id@,
{
    one_way_delta_carries_what_is_ahead(*yac, *stump);
}

} // verus!
