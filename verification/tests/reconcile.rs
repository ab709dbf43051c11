//! Reconciliation of one comic, and the write that follows a pull.

use stump_sync::sync_engine::reconcile::{stump_ts_newer, yac_ts_newer};
use stump_sync::sync_engine::ydb::{comic_from_columns, decode_row, ComicColumns};
use stump_sync::sync_engine::{
    compute_bidirectional_delta, compute_delta, plan_write, reconcile_at, write_yac_progress,
    YdbRow,
};
use stump_sync::types::{
    ActiveReadingSession, ComicProgress, FinishedReadingSession, PullAction, PushAction,
    StumpMedia, SyncState,
};

fn make_comic(id: i64, path: &str, page: i32, read: bool) -> ComicProgress {
    ComicProgress {
        comic_info_id: id,
        comic_id: id + 1000,
        current_page: page,
        num_pages: 20,
        read,
        has_been_opened: true,
        last_time_opened: Some(1700000000),
        hash: Some("abc123".into()),
        relative_path: path.to_string(),
    }
}

/// A media with an active session at `page` and, when `complete`, one finished
/// session.
fn make_stump_media(id: &str, path: &str, page: i32, complete: bool) -> StumpMedia {
    StumpMedia {
        id: id.to_string(),
        name: "test".into(),
        pages: 20,
        path: path.to_string(),
        read_progress: Some(ActiveReadingSession { page: Some(page), updated_at: None }),
        read_history: if complete {
            vec![FinishedReadingSession { completed_at: Some("2024-01-01".into()) }]
        } else {
            vec![]
        },
    }
}

/// A converged baseline, with the times of both sides.
fn make_sync_state(
    last_page: i32,
    last_read: bool,
    yac_ts: Option<&str>,
    stump_ts: Option<&str>,
) -> SyncState {
    SyncState {
        id: 1,
        media_mapping_id: 1,
        yac_current_page: last_page,
        stump_current_page: last_page,
        yac_read: last_read,
        stump_complete: last_read,
        yac_last_modified: yac_ts.map(str::to_string),
        stump_last_modified: stump_ts.map(str::to_string),
        last_synced_at: "2026-05-20T00:00:00Z".to_string(),
    }
}

fn comic_with_ts(page: i32, read: bool, last_time_opened: Option<i64>) -> ComicProgress {
    ComicProgress {
        comic_info_id: 1,
        comic_id: 1001,
        current_page: page,
        num_pages: 20,
        read,
        has_been_opened: true,
        last_time_opened,
        hash: Some("h".into()),
        relative_path: "test.cbz".into(),
    }
}

fn stump_with_ts(page: i32, complete: bool, updated_at: Option<&str>) -> StumpMedia {
    StumpMedia {
        id: "sm-1".into(),
        name: "test".into(),
        pages: 20,
        path: "/comics/test.cbz".into(),
        read_progress: Some(ActiveReadingSession {
            page: Some(page),
            updated_at: updated_at.map(str::to_string),
        }),
        read_history: if complete {
            vec![FinishedReadingSession { completed_at: Some("2024-01-01".into()) }]
        } else {
            vec![]
        },
    }
}

/// A row of a `.ydb`, as a query gives its columns.
fn row(current_page: i32, num_pages: i32, read: i32, has_been_opened: i32) -> YdbRow {
    decode_row(Some(current_page), Some(read), Some(has_been_opened), None, Some(num_pages))
}

/// The row after a write.
fn written(
    row: YdbRow,
    page: i32,
    num_pages: i32,
    read: bool,
    allow_regression: bool,
    last: Option<i64>,
) -> YdbRow {
    match write_yac_progress(Some(row), "/t.ydb", 1, page, num_pages, read, allow_regression, last)
    {
        Ok(Some(new)) => new,
        Ok(None) => row,
        Err(e) => panic!("{}", e.to_string()),
    }
}

#[test]
fn test_delta_yac_ahead() {
    let comic = make_comic(1, "test.cbz", 10, false);
    let media = make_stump_media("sm-1", "/comics/test.cbz", 5, false);

    let delta = compute_delta(&comic, &media).unwrap();
    assert_eq!(delta.stump_media_id, "sm-1");
    assert_eq!(delta.new_page, Some(10));
    assert!(!delta.should_mark_complete);
}

#[test]
fn test_delta_stump_ahead() {
    let comic = make_comic(1, "test.cbz", 5, false);
    let media = make_stump_media("sm-1", "/comics/test.cbz", 10, false);

    let delta = compute_delta(&comic, &media);
    assert!(delta.is_none());
}

#[test]
fn test_delta_equal() {
    let comic = make_comic(1, "test.cbz", 10, false);
    let media = make_stump_media("sm-1", "/comics/test.cbz", 10, false);

    let delta = compute_delta(&comic, &media);
    assert!(delta.is_none());
}

#[test]
fn test_delta_yac_complete_stump_not() {
    let comic = make_comic(1, "test.cbz", 20, true);
    let media = make_stump_media("sm-1", "/comics/test.cbz", 20, false);

    let delta = compute_delta(&comic, &media).unwrap();
    assert!(delta.new_page.is_none());
    assert!(delta.should_mark_complete);
}

#[test]
fn test_delta_both_complete() {
    let comic = make_comic(1, "test.cbz", 20, true);
    let media = make_stump_media("sm-1", "/comics/test.cbz", 20, true);

    let delta = compute_delta(&comic, &media);
    assert!(delta.is_none());
}

#[test]
fn test_delta_yac_ahead_and_complete() {
    let comic = make_comic(1, "test.cbz", 20, true);
    let media = make_stump_media("sm-1", "/comics/test.cbz", 10, false);

    let delta = compute_delta(&comic, &media).unwrap();
    assert_eq!(delta.new_page, Some(20));
    assert!(delta.should_mark_complete);
}

#[test]
fn test_delta_no_stump_progress() {
    let comic = make_comic(1, "test.cbz", 5, false);
    let media = StumpMedia {
        id: "sm-1".into(),
        name: "test".into(),
        pages: 20,
        path: "/comics/test.cbz".into(),
        read_progress: None,
        read_history: vec![],
    };

    let delta = compute_delta(&comic, &media).unwrap();
    assert_eq!(delta.new_page, Some(5));
    assert!(!delta.should_mark_complete);
}

#[test]
fn test_compute_bidirectional_yac_ahead() {
    let comic = make_comic(1, "test.cbz", 15, false);
    let media = make_stump_media("sm-1", "/comics/test.cbz", 5, false);

    let delta = compute_bidirectional_delta(&comic, &media, "/tmp/test.ydb", None);
    let push = delta.push.expect("expected a push");
    assert_eq!(push.page, Some(15));
    assert!(!push.mark_complete);
    assert!(delta.pull.is_none());
}

#[test]
fn test_compute_bidirectional_stump_ahead() {
    let comic = make_comic(1, "test.cbz", 5, false);
    let media = make_stump_media("sm-1", "/comics/test.cbz", 15, false);

    let delta = compute_bidirectional_delta(&comic, &media, "/tmp/test.ydb", None);
    let pull = delta.pull.expect("expected a pull");
    assert_eq!(pull.page, Some(15));
    assert!(!pull.set_read);
    assert!(delta.push.is_none());
}

#[test]
fn test_compute_bidirectional_equal() {
    let comic = make_comic(1, "test.cbz", 10, false);
    let media = make_stump_media("sm-1", "/comics/test.cbz", 10, false);

    let delta = compute_bidirectional_delta(&comic, &media, "/tmp/test.ydb", None);
    assert!(delta.push.is_none());
    assert!(delta.pull.is_none());
}

#[test]
fn test_compute_bidirectional_yac_complete_stump_not() {
    let comic = make_comic(1, "test.cbz", 20, true);
    let media = make_stump_media("sm-1", "/comics/test.cbz", 20, false);

    let delta = compute_bidirectional_delta(&comic, &media, "/tmp/test.ydb", None);
    let push = delta.push.expect("expected a push");
    assert!(push.mark_complete);
    assert!(push.page.is_none());
    // YACReader has it as read, so there is nothing to pull.
    assert!(delta.pull.is_none());
}

#[test]
fn test_compute_bidirectional_stump_complete_yac_not() {
    let comic = make_comic(1, "test.cbz", 20, false);
    let media = make_stump_media("sm-1", "/comics/test.cbz", 20, true);

    let delta = compute_bidirectional_delta(&comic, &media, "/tmp/test.ydb", None);
    let pull = delta.pull.expect("expected a pull");
    assert!(pull.set_read);
    assert!(pull.page.is_none());
    // Stump is complete, so there is nothing to push.
    assert!(delta.push.is_none());
}

#[test]
fn test_compute_bidirectional_both_complete() {
    let comic = make_comic(1, "test.cbz", 20, true);
    let media = make_stump_media("sm-1", "/comics/test.cbz", 20, true);

    let delta = compute_bidirectional_delta(&comic, &media, "/tmp/test.ydb", None);
    assert!(delta.push.is_none());
    assert!(delta.pull.is_none());
}

#[test]
fn test_compute_bidirectional_yac_ahead_and_complete() {
    let comic = make_comic(1, "test.cbz", 20, true);
    let media = make_stump_media("sm-1", "/comics/test.cbz", 10, false);

    let delta = compute_bidirectional_delta(&comic, &media, "/tmp/test.ydb", None);
    let push = delta.push.expect("expected a push");
    assert_eq!(push.page, Some(20));
    assert!(push.mark_complete);
    assert!(delta.pull.is_none());
}

#[test]
fn test_compute_bidirectional_stump_ahead_and_complete() {
    let comic = make_comic(1, "test.cbz", 5, false);
    let media = make_stump_media("sm-1", "/comics/test.cbz", 18, true);

    let delta = compute_bidirectional_delta(&comic, &media, "/tmp/test.ydb", None);
    let pull = delta.pull.expect("expected a pull");
    assert_eq!(pull.page, Some(18));
    assert!(pull.set_read);
    assert!(delta.push.is_none());
}

/// YACReader is ahead on the page while Stump holds the completion: the page
/// is pushed and the completion is pulled.
#[test]
fn test_compute_bidirectional_independent_page_and_completion() {
    let comic = make_comic(1, "test.cbz", 18, false);
    let media = make_stump_media("sm-1", "/comics/test.cbz", 10, true);

    let delta = compute_bidirectional_delta(&comic, &media, "/tmp/test.ydb", None);

    let push = delta.push.expect("expected a push (page to Stump)");
    assert_eq!(push.page, Some(18));
    assert!(!push.mark_complete, "Stump is already complete");

    let pull = delta.pull.expect("expected a pull (completion to YACReader)");
    assert!(pull.set_read, "Stump's completion must propagate to YACReader");
    assert!(pull.page.is_none(), "YACReader is already page-ahead");
}

#[test]
fn test_write_yac_progress() {
    let before = decode_row(Some(0), Some(0), Some(0), None, Some(20));
    let after = written(before, 15, 20, false, false, Some(1700000000));
    assert_eq!(after.current_page, 15);
    assert!(!after.read);
    assert!(after.has_been_opened);
    assert_eq!(after.last_time_opened, Some(1700000000));
}

#[test]
fn test_write_yac_progress_auto_complete() {
    let before = decode_row(Some(0), Some(0), Some(0), None, Some(20));
    let after = written(before, 20, 20, false, false, None);
    assert!(after.read, "should auto-set read when page >= num_pages");
}

#[test]
fn test_write_yac_progress_not_found() {
    let result = write_yac_progress(None, "/t.ydb", 999, 5, 20, false, false, None);
    assert!(result.is_err());
    assert_eq!(
        result.unwrap_err().to_string(),
        "database error: comic_info_id 999 not found in /t.ydb"
    );
}

/// Pulling a page of a comic that is not complete on Stump must not clear a
/// set `read`.
#[test]
fn test_no_read_flag_wipe_on_pull() {
    let after = written(row(5, 20, 1, 1), 10, 20, false, false, None);
    assert_eq!(after.current_page, 10, "page should advance to Stump's page");
    assert!(after.read, "existing read flag must be preserved");
}

/// Completion converges both ways, whichever side is ahead on the page.
#[test]
fn test_completion_converges_both_ways() {
    // Stump is complete but behind on the page.
    let comic = make_comic(1, "test.cbz", 20, false);
    let media = make_stump_media("sm-1", "/comics/test.cbz", 10, true);
    let delta = compute_bidirectional_delta(&comic, &media, "/tmp/test.ydb", None);
    let pull = delta.pull.expect("expected a pull");
    assert!(pull.set_read, "YACReader must become read");
    let push = delta.push.expect("expected a page push");
    assert_eq!(push.page, Some(20), "Stump page catches up");
    assert!(!push.mark_complete, "Stump already complete");

    // YACReader is complete but behind on the page.
    let comic = make_comic(1, "test.cbz", 5, true);
    let media = make_stump_media("sm-1", "/comics/test.cbz", 10, false);
    let delta = compute_bidirectional_delta(&comic, &media, "/tmp/test.ydb", None);
    let push = delta.push.expect("expected a push");
    assert!(push.mark_complete, "Stump must be marked complete");
    let pull = delta.pull.expect("expected a page pull");
    assert_eq!(pull.page, Some(10), "YACReader page catches up");
    assert!(!pull.set_read, "YACReader already read");

    // The flag survives the write and the page advances.
    let page = pull.page.unwrap_or(comic.current_page);
    let after = written(
        row(5, 20, 1, 1),
        page,
        comic.num_pages,
        pull.set_read,
        pull.allow_regression,
        pull.last_opened,
    );
    assert_eq!(after.current_page, 10);
    assert!(after.read, "read flag preserved");
}

/// YACReader went back with a newer time while Stump stayed: the lower page is
/// pushed.
#[test]
fn test_reread_propagates_with_newer_same_side_ts() {
    let prev = make_sync_state(15, false, Some("1700000000"), Some("2026-05-20T10:00:00Z"));
    let yac = comic_with_ts(3, false, Some(1700000999));
    let stump = stump_with_ts(15, false, Some("2026-05-20T10:00:00Z"));

    let delta = compute_bidirectional_delta(&yac, &stump, "/tmp/test.ydb", Some(&prev));

    assert_eq!(delta.final_page, 3, "the validated re-read wins the page");
    let push = delta.push.expect("Stump must be brought down to the re-read page");
    assert_eq!(push.page, Some(3));
    assert!(!push.mark_complete);
    assert!(delta.pull.is_none(), "YACReader already holds the re-read page; nothing to pull");
}

/// The same lower page with an older time is stale data, not a re-read.
#[test]
fn test_stale_lower_page_does_not_regress() {
    let prev = make_sync_state(15, false, Some("1700001000"), Some("2026-05-20T10:00:00Z"));
    let yac = comic_with_ts(3, false, Some(1700000000));
    let stump = stump_with_ts(15, false, Some("2026-05-20T10:00:00Z"));

    let delta = compute_bidirectional_delta(&yac, &stump, "/tmp/test.ydb", Some(&prev));

    assert_eq!(delta.final_page, 15, "stale lower page must not regress; the greater page wins");
    assert!(delta.push.is_none(), "Stump is at the converged page; nothing pushed");
    let pull = delta.pull.expect("YACReader is raised back up to the converged page");
    assert_eq!(pull.page, Some(15));
    assert!(!pull.allow_regression, "stale data never takes the regression write path");
}

/// Without a baseline nothing can move back.
#[test]
fn test_first_sync_no_regression() {
    let yac = comic_with_ts(3, false, Some(1700000000));
    let stump = stump_with_ts(15, false, Some("2026-05-20T10:00:00Z"));

    let delta = compute_bidirectional_delta(&yac, &stump, "/tmp/test.ydb", None);

    assert_eq!(delta.final_page, 15, "no baseline => the greater page");
    let pull = delta.pull.expect("YACReader is raised to the higher page");
    assert_eq!(pull.page, Some(15));
    assert!(!pull.allow_regression, "no baseline => no regression possible");
    assert!(delta.push.is_none());
}

/// Stump dropped its completion with a newer time while YACReader stayed read:
/// the pull clears `read`, and the write does.
#[test]
fn test_stump_unread_regression_clears_yac_read() {
    let prev = make_sync_state(20, true, Some("1700000000"), Some("2026-05-20T10:00:00Z"));
    let yac = comic_with_ts(20, true, Some(1700000000));
    let stump = stump_with_ts(20, false, Some("2026-05-21T10:00:00Z"));

    let delta = compute_bidirectional_delta(&yac, &stump, "/tmp/test.ydb", Some(&prev));

    assert!(!delta.final_complete, "a newer un-completion on Stump clears the converged read");
    let pull = delta.pull.clone().expect("read must be cleared via a regression pull");
    assert!(pull.allow_regression, "clearing read requires the regression write path");
    assert!(!pull.set_read, "exact converged read value is false (cleared)");
    assert!(delta.push.is_none(), "Stump cannot be (un)completed by a push");

    let page = pull.page.unwrap_or(yac.current_page);
    let after = written(
        row(20, 20, 1, 1),
        page,
        yac.num_pages,
        pull.set_read,
        pull.allow_regression,
        pull.last_opened,
    );
    assert!(!after.read, "validated un-completion clears read");
}

#[test]
fn test_write_yac_progress_allow_regression_lowers_page() {
    let after = written(row(15, 20, 0, 1), 3, 20, false, true, Some(1700000500));
    assert_eq!(after.current_page, 3, "allow_regression lets currentPage drop");
    assert!(!after.read);

    let after = written(row(15, 20, 0, 1), 3, 20, false, false, Some(1700000500));
    assert_eq!(after.current_page, 15, "default monotonic write keeps the higher page");
}

#[test]
fn stump_reread_is_pulled_down() {
    let prev = make_sync_state(15, false, Some("1700000000"), Some("2026-05-20T10:00:00Z"));
    let yac = comic_with_ts(15, false, Some(1700000000));
    let stump = stump_with_ts(4, false, Some("2026-05-20T10:00:01Z"));
    let delta = reconcile_at(&yac, &stump, "/t.ydb", Some(&prev), 7);
    assert_eq!(delta.final_page, 4);
    assert_eq!(delta.push, None);
    assert_eq!(
        delta.pull,
        Some(PullAction {
            page: Some(4),
            set_read: false,
            allow_regression: true,
            last_opened: None,
        })
    );
    assert_eq!(delta.comic_info_id, 1);
    assert_eq!(delta.stump_media_id, "sm-1");
    assert_eq!(delta.ydb_path, "/t.ydb");
    assert_eq!(delta.num_pages, 20);
}

#[test]
fn both_back_keeps_the_greater_page() {
    let prev = make_sync_state(15, false, Some("1700000000"), Some("2026-05-20T10:00:00Z"));
    let yac = comic_with_ts(3, false, Some(1700000001));
    let stump = stump_with_ts(4, false, Some("2026-05-20T10:00:01Z"));
    let delta = reconcile_at(&yac, &stump, "/t.ydb", Some(&prev), 7);
    assert_eq!(delta.final_page, 4);
    assert!(!delta.pull.unwrap().allow_regression);
}

#[test]
fn equal_or_missing_times_vouch_for_nothing() {
    assert!(yac_ts_newer(Some(6), Some("5")));
    assert!(!yac_ts_newer(Some(5), Some("5")));
    assert!(!yac_ts_newer(Some(6), Some("soon")));
    assert!(!yac_ts_newer(None, Some("5")));
    assert!(!yac_ts_newer(Some(6), None));
    assert!(stump_ts_newer(Some("2026-05-21"), Some("2026-05-20")));
    assert!(!stump_ts_newer(Some("2026-05-20"), Some("2026-05-20")));
    assert!(!stump_ts_newer(None, Some("2026-05-20")));
    assert!(!stump_ts_newer(Some("2026-05-20"), None));

    let prev = make_sync_state(15, true, None, None);
    let yac = comic_with_ts(3, false, Some(1700000001));
    let stump = stump_with_ts(4, true, Some("2026-05-20T10:00:01Z"));
    let delta = reconcile_at(&yac, &stump, "/t.ydb", Some(&prev), 7);
    assert_eq!(delta.final_page, 4);
    assert!(delta.final_complete);
}

/// A completion dropped in YACReader is not pulled back in the same cycle, and
/// comes back from Stump in the next one.
#[test]
fn yac_unread_is_honored_for_one_cycle() {
    let prev = make_sync_state(20, true, Some("1700000000"), Some("t"));
    let yac = comic_with_ts(20, false, Some(1700000001));
    let stump = stump_with_ts(20, true, Some("t"));
    let delta = reconcile_at(&yac, &stump, "/t.ydb", Some(&prev), 7);
    assert!(!delta.final_complete);
    assert_eq!(delta.push, None);
    assert_eq!(delta.pull, None);

    let recorded = make_sync_state(20, false, Some("1700000001"), Some("t"));
    let next = reconcile_at(&yac, &stump, "/t.ydb", Some(&recorded), 7);
    assert!(next.final_complete);
    assert_eq!(
        next.pull,
        Some(PullAction {
            page: None,
            set_read: true,
            allow_regression: false,
            last_opened: Some(7),
        })
    );
}

#[test]
fn unread_without_a_recorded_completion_is_no_regression() {
    let prev = make_sync_state(20, false, Some("1700000000"), Some("t"));
    let yac = comic_with_ts(20, true, Some(1700000000));
    let stump = stump_with_ts(20, false, Some("u"));
    let delta = reconcile_at(&yac, &stump, "/t.ydb", Some(&prev), 7);
    assert!(delta.final_complete);
    assert_eq!(delta.push, Some(PushAction { page: None, mark_complete: true }));
}

#[test]
fn undated_completion_records_no_time() {
    let yac = comic_with_ts(20, false, None);
    let mut stump = stump_with_ts(20, true, None);
    stump.read_history[0].completed_at = None;
    let delta = reconcile_at(&yac, &stump, "/t.ydb", None, 7);
    assert_eq!(delta.pull.unwrap().last_opened, None);
}

#[test]
fn agreement_needs_nothing() {
    for (page, read) in [(0, false), (7, false), (20, true)] {
        let yac = comic_with_ts(page, read, Some(1800000000));
        let stump = stump_with_ts(page, read, Some("2027"));
        for prev in [None, Some(make_sync_state(20, true, Some("0"), Some("2026")))] {
            let delta = reconcile_at(&yac, &stump, "/t.ydb", prev.as_ref(), 7);
            assert_eq!((delta.push, delta.pull), (None, None));
            assert_eq!((delta.final_page, delta.final_complete), (page, read));
        }
        assert!(compute_delta(&yac, &stump).is_none());
    }
}

#[test]
fn first_push_equals_the_one_way_delta() {
    for (yac_page, yac_read, stump_page, complete) in
        [(9, true, 3, false), (3, true, 9, false), (9, false, 3, true), (3, false, 9, true)]
    {
        let yac = comic_with_ts(yac_page, yac_read, None);
        let stump = stump_with_ts(stump_page, complete, None);
        let push = reconcile_at(&yac, &stump, "/t.ydb", None, 7).push;
        let one_way = compute_delta(&yac, &stump)
            .map(|d| PushAction { page: d.new_page, mark_complete: d.should_mark_complete });
        assert_eq!(push, one_way);
    }
}

#[test]
fn repeated_write_changes_nothing() {
    let first = plan_write(Some(row(5, 20, 0, 0)), "/t", 1, 9, 20, false, false, None, 100);
    let new = first.unwrap().unwrap();
    assert_eq!(
        new,
        YdbRow {
            current_page: 9,
            read: false,
            has_been_opened: true,
            last_time_opened: Some(100),
            num_pages: 20,
        }
    );
    let again = plan_write(Some(new), "/t", 1, 9, 20, false, false, None, 200);
    assert_eq!(again.unwrap(), None);
}

#[test]
fn time_only_advances() {
    let mut before = row(5, 20, 0, 1);
    before.last_time_opened = Some(500);
    let older = plan_write(Some(before), "/t", 1, 5, 20, false, false, Some(400), 1);
    assert_eq!(older.unwrap(), None);
    let newer = plan_write(Some(before), "/t", 1, 5, 20, false, false, Some(600), 1).unwrap();
    assert_eq!(newer.unwrap().last_time_opened, Some(600));
    let lowered = plan_write(Some(before), "/t", 1, 2, 20, false, true, None, 1).unwrap().unwrap();
    assert_eq!((lowered.current_page, lowered.last_time_opened), (2, Some(500)));
}

#[test]
fn number_of_pages_comes_from_the_row_first() {
    let own = plan_write(Some(row(0, 30, 0, 0)), "/t", 1, 20, 20, false, false, None, 1);
    assert!(!own.unwrap().unwrap().read);
    let fallback = plan_write(Some(row(0, 0, 0, 0)), "/t", 1, 20, 20, false, false, None, 1);
    assert!(fallback.unwrap().unwrap().read);
    let unknown = plan_write(Some(row(0, 0, 0, 0)), "/t", 1, 20, 0, false, false, None, 1);
    assert!(!unknown.unwrap().unwrap().read);
}

#[test]
fn regression_does_not_complete_and_keeps_opened() {
    let after = written(row(5, 20, 1, 1), 20, 20, false, true, None);
    assert!(!after.read);
    let after = written(row(5, 20, 0, 1), 0, 20, false, true, None);
    assert_eq!(after.current_page, 0);
    assert!(after.has_been_opened);
}

#[test]
fn null_columns_become_zero() {
    let r = decode_row(None, None, None, None, None);
    assert_eq!(r, row(0, 0, 0, 0));
    assert!(decode_row(None, Some(2), Some(-1), None, None).read);

    let comic = comic_from_columns(ComicColumns {
        comic_info_id: 3,
        comic_id: 4,
        current_page: None,
        num_pages: Some(9),
        read: Some(1),
        has_been_opened: None,
        last_time_opened: Some(11),
        hash: None,
        path: Some("DC".into()),
        file_name: Some("x.cbz".into()),
    });
    assert_eq!((comic.comic_info_id, comic.comic_id), (3, 4));
    assert_eq!((comic.current_page, comic.num_pages), (0, 9));
    assert!(comic.read);
    assert!(!comic.has_been_opened);
    assert_eq!(comic.last_time_opened, Some(11));
    assert_eq!(comic.hash, None);
    assert_eq!(comic.relative_path, "DC/x.cbz");
}

#[test]
fn time_of_the_call_is_only_recorded() {
    let yac = comic_with_ts(5, false, None);
    let stump = stump_with_ts(9, true, None);
    let a = reconcile_at(&yac, &stump, "/t.ydb", None, 1);
    let b = reconcile_at(&yac, &stump, "/t.ydb", None, 2);
    assert_eq!(a.pull.unwrap().last_opened, Some(1));
    assert_eq!(b.pull.unwrap().last_opened, Some(2));
    assert_eq!((a.push, a.final_page, a.final_complete), (b.push, b.final_page, b.final_complete));
}
