//! The host application's side, the background task's status, and the layout
//! of the mapping database.

use stump_sync::ffi::{
    command_answer, config_from_ffi, library_configs_from_ffi, make_err, make_ok, status_answer,
    Handed, LibraryEntry, StatusFound, SyncConfig,
};
use stump_sync::mapping_db::{
    flag_column, is_legacy_schema, state_from_columns, version_statement, StateColumns,
};
use stump_sync::runtime::{task_for, SyncCommand, SyncStatusInfo, Task, TaskOutcome};
use stump_sync::sync_engine::model::Mode;
use stump_sync::types::{SyncError, SyncReport};

fn entries() -> Vec<LibraryEntry> {
    vec![
        LibraryEntry {
            yac_library_id: 7,
            ydb_path: "/a/.yacreaderlibrary/library.ydb".into(),
            library_root: "/a".into(),
            stump_library_id: "stump-a".into(),
            stump_library_path: "/srv/a".into(),
        },
        LibraryEntry {
            yac_library_id: 8,
            ydb_path: "/b/.yacreaderlibrary/library.ydb".into(),
            library_root: "/b".into(),
            stump_library_id: String::new(),
            stump_library_path: String::new(),
        },
    ]
}

#[test]
fn test_library_configs_from_ffi_per_entry() {
    let configs = library_configs_from_ffi(&entries());
    assert_eq!(configs.len(), 2);

    assert_eq!(configs[0].yac_library_id, 7);
    assert_eq!(configs[0].ydb_path, "/a/.yacreaderlibrary/library.ydb");
    assert_eq!(configs[0].stump_library_id, "stump-a");
    assert_eq!(configs[0].stump_library_path, "/srv/a");

    assert_eq!(configs[1].yac_library_id, 8);
    assert!(
        configs[1].stump_library_id.is_empty(),
        "empty stump id marks this entry for auto-discovery"
    );
}

#[test]
fn settings_are_taken_over() {
    let config = config_from_ffi(&SyncConfig {
        stump_url: "http://stump".into(),
        api_key: "k".into(),
        user_id: "u".into(),
        mapping_db_path: "/m.db".into(),
        sync_interval_secs: 60,
        libraries: entries(),
    });
    assert_eq!(config.stump_url, "http://stump");
    assert_eq!(config.api_key, "k");
    assert_eq!(config.user_id, "u");
    assert_eq!(config.mapping_db_path, "/m.db");
    assert_eq!(config.sync_interval_secs, 60);
    assert_eq!(config.libraries.len(), 2);
    assert_eq!(config.libraries[1].library_root, "/b");
}

#[test]
fn answers_say_what_became_of_a_command() {
    let ok = make_ok();
    assert!(ok.success);
    assert_eq!(ok.error_message, "");
    let err = make_err("no".into());
    assert!(!err.success);
    assert_eq!(err.error_message, "no");

    assert!(command_answer(Handed::Outcome(Ok(()))).success);
    let cases = [
        (Handed::Poisoned("gone".into()), "lock poisoned: gone"),
        (Handed::NotStarted, "sync engine not initialized"),
        (Handed::Outcome(Err(SyncError::Config("c".into()))), "config error: c"),
    ];
    for (handed, text) in cases {
        let answer = command_answer(handed);
        assert!(!answer.success);
        assert_eq!(answer.error_message, text);
    }
}

#[test]
fn status_is_passed_on() {
    let poisoned = status_answer(StatusFound::Poisoned);
    assert_eq!(poisoned.last_error, "lock poisoned");
    assert!(!poisoned.is_running);
    let none = status_answer(StatusFound::NotStarted);
    assert_eq!((none.is_running, none.last_error.as_str(), none.synced_count), (false, "", 0));
    let known = status_answer(StatusFound::Known(SyncStatusInfo {
        is_running: true,
        last_error: "e".into(),
        synced_count: 3,
    }));
    assert_eq!((known.is_running, known.last_error.as_str(), known.synced_count), (true, "e", 3));
}

#[test]
fn commands_become_tasks() {
    assert!(matches!(
        task_for(SyncCommand::PushProgress { library_id: 1, comic_id: 2 }),
        Task::PushSingle { library_id: 1, comic_id: 2 }
    ));
    assert!(matches!(task_for(SyncCommand::PushAll), Task::Run(Mode::Push)));
    assert!(matches!(task_for(SyncCommand::PullAll), Task::Run(Mode::Pull)));
    assert!(matches!(task_for(SyncCommand::SyncAll), Task::Run(Mode::Sync)));
    assert!(matches!(task_for(SyncCommand::Shutdown), Task::Stop));
}

#[test]
fn status_counts_and_keeps_the_last_error() {
    let idle = SyncStatusInfo::default();
    assert_eq!((idle.is_running, idle.last_error.as_str(), idle.synced_count), (false, "", 0));

    let mut status = SyncStatusInfo::started();
    assert!(status.is_running);
    status.record(&TaskOutcome::PushSingle(Ok(())));
    assert_eq!(status.synced_count, 1);
    status.record(&TaskOutcome::PushSingle(Err(SyncError::Http("down".into()))));
    assert_eq!((status.synced_count, status.last_error.as_str()), (1, "HTTP error: down"));

    let mut report = SyncReport::new();
    report.pages_pushed = 2;
    report.completions_pushed = 3;
    report.pages_pulled = 4;
    report.completions_pulled = 5;
    status.record(&TaskOutcome::Run(Mode::Push, Ok(report.clone())));
    assert_eq!(status.synced_count, 6);
    status.record(&TaskOutcome::Run(Mode::Sync, Ok(report.clone())));
    assert_eq!(status.synced_count, 20);
    assert_eq!(status.last_error, "HTTP error: down");
    status.record(&TaskOutcome::Run(Mode::Pull, Err(SyncError::NotInitialized)));
    assert_eq!(status.last_error, "sync engine not initialized");
    assert!(status.is_running);
    status.record(&TaskOutcome::Stopped);
    assert!(!status.is_running);

    status.synced_count = u32::MAX - 5;
    assert!(status.has_room(&TaskOutcome::Run(Mode::Push, Ok(report.clone()))));
    assert!(!status.has_room(&TaskOutcome::Run(Mode::Pull, Ok(report))));
    assert!(status.has_room(&TaskOutcome::Stopped));
}

#[test]
fn legacy_layout_is_recognised() {
    let legacy = "CREATE TABLE media_mapping (
        UNIQUE(library_mapping_id, yac_comic_info_id, stump_media_id)
    )";
    let current = "CREATE TABLE media_mapping (
        -- one row per comic, whatever its stump_media_id
        UNIQUE(library_mapping_id, yac_comic_info_id)
    )";
    assert!(is_legacy_schema(Some(legacy)));
    assert!(!is_legacy_schema(Some(current)));
    assert!(!is_legacy_schema(None));
    assert_eq!(version_statement(), "PRAGMA user_version = 2;");
}

#[test]
fn state_columns_become_a_state() {
    let state = state_from_columns(StateColumns {
        id: 1,
        media_mapping_id: 2,
        yac_current_page: 3,
        stump_current_page: 4,
        yac_read: 0,
        stump_complete: 2,
        yac_last_modified: Some("a".into()),
        stump_last_modified: None,
        last_synced_at: "now".into(),
    });
    assert_eq!((state.id, state.media_mapping_id), (1, 2));
    assert_eq!((state.yac_current_page, state.stump_current_page), (3, 4));
    assert!(!state.yac_read);
    assert!(state.stump_complete);
    assert_eq!(state.yac_last_modified.as_deref(), Some("a"));
    assert_eq!(state.stump_last_modified, None);
    assert_eq!(state.last_synced_at, "now");
    assert_eq!((flag_column(true), flag_column(false)), (1, 0));
}
