//! Records, their derived progress, and the texts of errors.

use stump_sync::types::{
    ActiveReadingSession, FinishedReadingSession, StumpMedia, SyncError, SyncReport,
};

fn media(page: Option<Option<i32>>, updated: Option<&str>, history: Vec<Option<&str>>) -> StumpMedia {
    StumpMedia {
        id: "id1".into(),
        name: "test".into(),
        pages: 20,
        path: "/comics/test.cbz".into(),
        read_progress: page.map(|page| ActiveReadingSession {
            page,
            updated_at: updated.map(str::to_string),
        }),
        read_history: history
            .into_iter()
            .map(|at| FinishedReadingSession { completed_at: at.map(str::to_string) })
            .collect(),
    }
}

#[test]
fn test_sync_error_display() {
    let err = SyncError::Database("table not found".into());
    assert_eq!(err.to_string(), "database error: table not found");

    let err = SyncError::Http("timeout".into());
    assert_eq!(err.to_string(), "HTTP error: timeout");

    let err = SyncError::GraphQL("invalid query".into());
    assert_eq!(err.to_string(), "GraphQL error: invalid query");

    let err = SyncError::Config("missing url".into());
    assert_eq!(err.to_string(), "config error: missing url");

    let err = SyncError::NotInitialized;
    assert_eq!(err.to_string(), "sync engine not initialized");
}

#[test]
fn test_sync_report_default() {
    let report = SyncReport::new();
    assert_eq!(report.libraries_processed, 0);
    assert_eq!(report.comics_matched, 0);
    assert_eq!(report.pages_pushed, 0);
    assert_eq!(report.completions_pushed, 0);
    assert_eq!(report.pages_pulled, 0);
    assert_eq!(report.completions_pulled, 0);
    assert!(report.errors.is_empty());
}

#[test]
fn default_report_is_the_new_one() {
    let report = SyncReport::default();
    assert_eq!(report.libraries_processed, 0);
    assert_eq!(report.pages_pulled, 0);
    assert!(report.errors.is_empty());
}

/// Untouched: no active session, no history.
#[test]
fn test_stump_media_current_page_empty() {
    let media = StumpMedia {
        id: "id1".into(),
        name: "test".into(),
        pages: 20,
        path: "/comics/test.cbz".into(),
        read_progress: None,
        read_history: vec![],
    };
    assert_eq!(media.current_page(), 0);
    assert!(!media.is_complete());
}

/// In progress: an active session with a page, no history.
#[test]
fn test_stump_media_current_page_with_progress() {
    let media = StumpMedia {
        id: "id1".into(),
        name: "test".into(),
        pages: 20,
        path: "/comics/test.cbz".into(),
        read_progress: Some(ActiveReadingSession {
            page: Some(10),
            updated_at: Some("2026-05-20T14:32:10Z".into()),
        }),
        read_history: vec![],
    };
    assert_eq!(media.current_page(), 10);
    assert!(!media.is_complete());
}

/// Read again: an active session and a finished one.
#[test]
fn test_stump_media_is_complete() {
    let media = StumpMedia {
        id: "id1".into(),
        name: "test".into(),
        pages: 20,
        path: "/comics/test.cbz".into(),
        read_progress: Some(ActiveReadingSession { page: Some(8), updated_at: None }),
        read_history: vec![FinishedReadingSession { completed_at: Some("2024-01-01".into()) }],
    };
    assert_eq!(media.current_page(), 8);
    assert!(media.is_complete());
}

/// Completed without an active session: the last page, not 0.
#[test]
fn test_current_page_completed_no_active() {
    let media = StumpMedia {
        id: "id1".into(),
        name: "test".into(),
        pages: 20,
        path: "/comics/test.cbz".into(),
        read_progress: None,
        read_history: vec![FinishedReadingSession {
            completed_at: Some("2026-05-19T09:01:00Z".into()),
        }],
    };
    assert_eq!(media.current_page(), 20);
    assert!(media.is_complete());
}

#[test]
fn epub_session_has_no_page() {
    assert_eq!(media(Some(Some(-1)), None, vec![]).current_page(), 0);
    assert_eq!(media(Some(Some(-1)), None, vec![None]).current_page(), 20);
    assert_eq!(media(Some(None), None, vec![None]).current_page(), 20);
    assert_eq!(media(Some(Some(0)), None, vec![None]).current_page(), 0);
}

#[test]
fn timestamp_prefers_the_active_session() {
    let both = media(Some(Some(3)), Some("b"), vec![Some("a")]);
    assert_eq!(both.stump_timestamp(), Some("b"));
    let undated = media(Some(Some(3)), None, vec![Some("a"), Some("z")]);
    assert_eq!(undated.stump_timestamp(), Some("a"));
    let finished = media(None, None, vec![Some("a")]);
    assert_eq!(finished.stump_timestamp(), Some("a"));
    let first_undated = media(None, None, vec![None, Some("a")]);
    assert_eq!(first_undated.stump_timestamp(), None);
    assert_eq!(media(None, None, vec![]).stump_timestamp(), None);
}

#[test]
fn outside_errors_become_own_errors() {
    let e = SyncError::from(rusqlite::Error::QueryReturnedNoRows);
    assert_eq!(e.to_string(), "database error: Query returned no rows");

    let bad = reqwest::Client::new().get("http://[").build().unwrap_err();
    let text = bad.to_string();
    match SyncError::from(bad) {
        SyncError::Http(m) => assert_eq!(m, text),
        other => panic!("expected an HTTP error, got {}", other.to_string()),
    }
}
