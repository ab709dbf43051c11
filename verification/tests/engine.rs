//! Whole runs, against a world kept in memory.

use stump_sync::config::LibraryConfig;
use stump_sync::stump_client::StumpClient;
use stump_sync::sync_engine::ydb::{comic_from_columns, decode_row, ComicColumns};
use stump_sync::sync_engine::{write_yac_progress, Action, Reply, Run, SyncEngine};
use stump_sync::types::{
    ActiveReadingSession, ComicProgress, FinishedReadingSession, MediaMapping, StumpMedia,
    SyncError, SyncReport, SyncState,
};

/// One comic in a `.ydb`.
#[derive(Clone)]
struct ComicRow {
    info_id: i64,
    comic_id: i64,
    filename: String,
    dir: String,
    current_page: i32,
    num_pages: i32,
    read: bool,
    has_been_opened: bool,
    last_time_opened: Option<i64>,
}

struct World {
    client: StumpClient,
    comics: Vec<ComicRow>,
    /// What Stump lists, by fetch; the last one stays.
    fetches: Vec<Vec<StumpMedia>>,
    fetched: usize,
    libraries: Vec<(String, String)>,
    mappings: Vec<MediaMapping>,
    states: Vec<SyncState>,
    bodies: Vec<String>,
    /// The kinds of actions that fail.
    failing: Vec<&'static str>,
    now: i64,
}

fn kind(action: &Action) -> &'static str {
    match action {
        Action::EnsureLibrary { .. } => "ensure",
        Action::ReadComics { .. } => "read",
        Action::FetchMedia { .. } => "fetch",
        Action::InsertMapping { .. } => "insert",
        Action::FindStumpId { .. } => "find",
        Action::ListMappings { .. } => "list",
        Action::LoadState { .. } => "load",
        Action::UpdateProgress { .. } => "page",
        Action::MarkComplete { .. } => "mark",
        Action::WriteProgress { .. } => "write",
        Action::SaveState { .. } => "save",
        Action::Finish => "finish",
    }
}

impl World {
    fn new(comics: Vec<ComicRow>, fetches: Vec<Vec<StumpMedia>>) -> World {
        let client =
            match StumpClient::new("http://s".into(), "test-key".into(), "test-user".into()) {
                Ok(client) => client,
                Err(e) => panic!("{}", e.to_string()),
            };
        World {
            client,
            comics,
            fetches,
            fetched: 0,
            libraries: vec![],
            mappings: vec![],
            states: vec![],
            bodies: vec![],
            failing: vec![],
            now: 1800000000,
        }
    }

    fn perform(&mut self, action: Action) -> Reply {
        let k = kind(&action);
        if self.failing.contains(&k) {
            return Reply::Failed(SyncError::Http(format!("{k} failed")));
        }
        match action {
            Action::EnsureLibrary { ydb_path, stump_library_id, .. } => {
                let key = (ydb_path, stump_library_id);
                let at = match self.libraries.iter().position(|l| *l == key) {
                    Some(at) => at,
                    None => {
                        self.libraries.push(key);
                        self.libraries.len() - 1
                    }
                };
                Reply::LibraryId(at as i64 + 1)
            }
            Action::ReadComics { opened_only, .. } => {
                let rows = self.comics.iter().filter(|c| !opened_only || c.has_been_opened);
                Reply::Comics(rows.map(comic_of).collect())
            }
            Action::FetchMedia { stump_library_id } => {
                self.bodies.push(self.client.get_library_media(&stump_library_id).body);
                let at = self.fetched.min(self.fetches.len() - 1);
                self.fetched += 1;
                Reply::Media(self.fetches[at].clone())
            }
            Action::InsertMapping { library_mapping_id, row } => {
                let same = |m: &&mut MediaMapping| {
                    m.library_mapping_id == library_mapping_id
                        && m.yac_comic_info_id == row.yac_comic_info_id
                };
                match self.mappings.iter_mut().find(same) {
                    Some(m) => m.stump_media_id = row.stump_media_id.clone(),
                    None => self.mappings.push(MediaMapping {
                        id: self.mappings.len() as i64 + 1,
                        library_mapping_id,
                        yac_comic_info_id: row.yac_comic_info_id,
                        yac_comic_id: row.yac_comic_id,
                        stump_media_id: row.stump_media_id.clone(),
                        relative_path: row.relative_path.clone(),
                        filename: row.filename.clone(),
                        matched_via: row.matched_via.clone(),
                    }),
                }
                Reply::Done
            }
            Action::FindStumpId { comic_info_id } => Reply::StumpId(
                self.mappings
                    .iter()
                    .rev()
                    .find(|m| m.yac_comic_info_id == comic_info_id)
                    .map(|m| m.stump_media_id.clone()),
            ),
            Action::ListMappings { library_mapping_id } => Reply::Mappings(
                self.mappings
                    .iter()
                    .filter(|m| m.library_mapping_id == library_mapping_id)
                    .cloned()
                    .collect(),
            ),
            Action::LoadState { mapping } => Reply::State(
                mapping.and_then(|id| {
                    self.states.iter().find(|s| s.media_mapping_id == id).cloned()
                }),
                self.now,
            ),
            Action::UpdateProgress { media_id, page } => {
                self.bodies.push(self.client.update_progress(&media_id, page).body);
                Reply::Done
            }
            Action::MarkComplete { media_id } => {
                self.bodies.push(self.client.mark_complete(&media_id).body);
                Reply::Done
            }
            Action::WriteProgress {
                ydb_path,
                comic_info_id,
                page,
                num_pages,
                read,
                allow_regression,
                last_opened,
            } => {
                let found = self.comics.iter_mut().find(|c| c.info_id == comic_info_id);
                let existing = found.as_ref().map(|c| {
                    decode_row(
                        Some(c.current_page),
                        Some(c.read as i32),
                        Some(c.has_been_opened as i32),
                        c.last_time_opened,
                        Some(c.num_pages),
                    )
                });
                let outcome = write_yac_progress(
                    existing,
                    &ydb_path,
                    comic_info_id,
                    page,
                    num_pages,
                    read,
                    allow_regression,
                    last_opened,
                );
                match (outcome, found) {
                    (Ok(Some(new)), Some(c)) => {
                        c.current_page = new.current_page;
                        c.read = new.read;
                        c.has_been_opened = new.has_been_opened;
                        c.last_time_opened = new.last_time_opened;
                        Reply::Done
                    }
                    (Ok(_), _) => Reply::Done,
                    (Err(e), _) => Reply::Failed(e),
                }
            }
            Action::SaveState { mapping_id, page, complete, yac_modified, stump_modified } => {
                self.states.retain(|s| s.media_mapping_id != mapping_id);
                self.states.push(SyncState {
                    id: mapping_id,
                    media_mapping_id: mapping_id,
                    yac_current_page: page,
                    stump_current_page: page,
                    yac_read: complete,
                    stump_complete: complete,
                    yac_last_modified: yac_modified,
                    stump_last_modified: stump_modified,
                    last_synced_at: "now".into(),
                });
                Reply::Done
            }
            Action::Finish => panic!("nothing to perform"),
        }
    }

    fn run(&mut self, mut run: Run) -> Result<SyncReport, SyncError> {
        let mut steps = 0;
        loop {
            let action = run.action();
            if matches!(action, Action::Finish) {
                return run.into_result().unwrap();
            }
            let reply = self.perform(action);
            assert!(run.has_room(&reply));
            run = run.feed(reply);
            steps += 1;
            assert!(steps < 1000, "the run does not end");
        }
    }

    fn push_single(
        &mut self,
        engine: &SyncEngine,
        library_id: i64,
        comic_id: i64,
    ) -> Result<(), SyncError> {
        let mut push = engine.push_single(library_id, comic_id)?;
        loop {
            let action = push.action();
            if matches!(action, Action::Finish) {
                return push.into_result().unwrap();
            }
            let reply = self.perform(action);
            push = push.feed(reply);
        }
    }

    fn requests_containing(&self, needle: &str) -> Vec<String> {
        self.bodies.iter().filter(|b| b.contains(needle)).cloned().collect()
    }

    fn comic(&self, info_id: i64) -> &ComicRow {
        self.comics.iter().find(|c| c.info_id == info_id).unwrap()
    }
}

fn comic_of(c: &ComicRow) -> ComicProgress {
    comic_from_columns(ComicColumns {
        comic_info_id: c.info_id,
        comic_id: c.comic_id,
        current_page: Some(c.current_page),
        num_pages: Some(c.num_pages),
        read: Some(c.read as i32),
        has_been_opened: Some(c.has_been_opened as i32),
        last_time_opened: c.last_time_opened,
        hash: None,
        path: Some(c.dir.clone()),
        file_name: Some(c.filename.clone()),
    })
}

fn comic(
    info_id: i64,
    filename: &str,
    dir: &str,
    current_page: i32,
    num_pages: i32,
    read: bool,
) -> ComicRow {
    ComicRow {
        info_id,
        comic_id: info_id,
        filename: filename.into(),
        dir: dir.into(),
        current_page,
        num_pages,
        read,
        has_been_opened: current_page > 1 || read,
        last_time_opened: Some(1700000000),
    }
}

fn media(id: &str, path: &str, pages: i32, page: Option<i32>, complete: bool) -> StumpMedia {
    StumpMedia {
        id: id.into(),
        name: path.rsplit('/').next().unwrap_or(path).into(),
        pages,
        path: path.into(),
        read_progress: page.map(|page| ActiveReadingSession {
            page: Some(page),
            updated_at: Some("2026-05-20T14:32:10Z".into()),
        }),
        read_history: if complete {
            vec![FinishedReadingSession { completed_at: Some("2026-05-19T09:01:00Z".into()) }]
        } else {
            vec![]
        },
    }
}

fn library(yac_library_id: i64) -> LibraryConfig {
    LibraryConfig {
        yac_library_id,
        ydb_path: format!("/lib{yac_library_id}/library.ydb"),
        library_root: format!("/lib{yac_library_id}"),
        stump_library_id: format!("lib-{yac_library_id}"),
        stump_library_path: "/srv/comics".into(),
    }
}

fn engine() -> SyncEngine {
    SyncEngine::new(vec![library(1)])
}

#[test]
fn test_pull_when_stump_ahead() {
    let mut world = World::new(
        vec![comic(1, "001.cbz", "Marvel", 5, 20, false)],
        vec![vec![media("media-1", "/srv/comics/Marvel/001.cbz", 20, Some(20), false)]],
    );
    let report = world.run(engine().sync_all()).unwrap();

    assert_eq!(world.comic(1).current_page, 20);
    let updates = world.requests_containing("UpdateProgress");
    assert!(updates.is_empty(), "expected no UpdateProgress mutations");
    assert_eq!(report.pages_pulled, 1);
    assert_eq!(report.pages_pushed, 0);
    assert!(report.errors.is_empty());
}

#[test]
fn test_bidirectional_mixed() {
    let mut world = World::new(
        vec![
            // A: page 15 of 20, Stump at 5: pushed
            comic(1, "001.cbz", "Marvel", 15, 20, false),
            // B: page 3 of 30, Stump at 20: pulled
            comic(2, "001.cbz", "DC", 3, 30, false),
            // C: page 10 of 20, Stump at 10: left alone
            comic(3, "001.cbz", "Manga", 10, 20, false),
        ],
        vec![vec![
            media("media-a", "/srv/comics/Marvel/001.cbz", 20, Some(5), false),
            media("media-b", "/srv/comics/DC/001.cbz", 30, Some(20), false),
            media("media-c", "/srv/comics/Manga/001.cbz", 20, Some(10), false),
        ]],
    );
    let report = world.run(engine().sync_all()).unwrap();

    let updates = world.requests_containing("UpdateProgress");
    assert_eq!(updates.len(), 1);
    assert!(updates[0].contains("media-a"));
    assert!(updates[0].contains("\"page\":15"));

    assert_eq!(world.comic(2).current_page, 20);
    assert_eq!(world.comic(3).current_page, 10);
    assert!(updates.iter().all(|b| !b.contains("media-c")));

    assert_eq!(report.pages_pushed, 1);
    assert_eq!(report.pages_pulled, 1);
    assert!(report.errors.is_empty());
}

#[test]
fn test_conflict_resolution_max_page() {
    let mut world = World::new(
        vec![comic(1, "001.cbz", "Comics", 10, 20, false)],
        vec![vec![media("media-1", "/srv/comics/Comics/001.cbz", 20, Some(15), false)]],
    );
    let report = world.run(engine().sync_all()).unwrap();

    assert_eq!(world.comic(1).current_page, 15);
    assert!(world.requests_containing("UpdateProgress").is_empty());
    assert!(world.requests_containing("MarkComplete").is_empty());
    assert_eq!(report.pages_pulled, 1);
    assert_eq!(report.pages_pushed, 0);
}

#[test]
fn test_completion_stump_to_yac() {
    let mut world = World::new(
        vec![comic(1, "001.cbz", "Comics", 20, 20, false)],
        vec![vec![media("media-1", "/srv/comics/Comics/001.cbz", 20, Some(20), true)]],
    );
    let report = world.run(engine().sync_all()).unwrap();

    assert!(world.comic(1).read, "expected .ydb read=true after pulling completion");
    assert_eq!(world.comic(1).current_page, 20);
    assert_eq!(report.completions_pulled, 1);
    assert_eq!(report.pages_pulled, 0);
    assert!(report.errors.is_empty());
}

#[test]
fn test_sync_state_tracking() {
    let mut world = World::new(
        vec![comic(1, "001.cbz", "Comics", 5, 20, false)],
        vec![vec![media("media-1", "/srv/comics/Comics/001.cbz", 20, Some(10), false)]],
    );
    let report = world.run(engine().sync_all()).unwrap();
    assert!(report.errors.is_empty());

    assert_eq!(world.mappings.len(), 1);
    let id = world.mappings[0].id;
    let state = world
        .states
        .iter()
        .find(|s| s.media_mapping_id == id)
        .expect("sync_state should exist after sync_all");
    assert_eq!(state.yac_current_page, 10);
    assert_eq!(state.stump_current_page, 10);
    assert!(!state.yac_read);
    assert!(!state.stump_complete);
    assert_eq!(state.yac_last_modified.as_deref(), Some("1700000000"));
    assert_eq!(state.stump_last_modified.as_deref(), Some("2026-05-20T14:32:10Z"));
}

#[test]
fn test_push_still_works() {
    let mut world = World::new(
        vec![comic(1, "001.cbz", "Comics", 15, 20, false)],
        vec![vec![media("media-1", "/srv/comics/Comics/001.cbz", 20, Some(5), false)]],
    );
    let report = world.run(engine().push_all()).unwrap();

    let updates = world.requests_containing("UpdateProgress");
    assert_eq!(updates.len(), 1);
    assert!(updates[0].contains("\"page\":15"));
    // A push does not touch the .ydb.
    assert_eq!(world.comic(1).current_page, 15);
    assert_eq!(report.pages_pushed, 1);
    assert_eq!(report.pages_pulled, 0);
    assert!(report.errors.is_empty());
}

/// Complete on Stump without an active session: read and the last page are
/// pulled, and nothing is sent back.
#[test]
fn test_completed_on_stump_pulls_read() {
    let mut world = World::new(
        vec![comic(1, "001.cbz", "Comics", 5, 20, false)],
        vec![vec![media("media-1", "/srv/comics/Comics/001.cbz", 20, None, true)]],
    );
    let report = world.run(engine().sync_all()).unwrap();

    assert!(world.comic(1).read, "Stump completion must pull read=1");
    assert_eq!(world.comic(1).current_page, 20);
    assert!(
        world.requests_containing("MarkComplete").is_empty(),
        "must not re-complete an already-complete Stump comic"
    );
    assert!(
        world.requests_containing("UpdateProgress").is_empty(),
        "no page push expected (Stump is at the final page)"
    );
    assert_eq!(report.completions_pulled, 1);
    assert_eq!(report.pages_pulled, 1);
    assert!(report.errors.is_empty());
}

/// A completion that was pushed is not pushed again once Stump reports it.
#[test]
fn test_complete_pushed_once_not_repeated() {
    let path = "/srv/comics/Comics/001.cbz";
    let mut world = World::new(
        vec![comic(1, "001.cbz", "Comics", 20, 20, true)],
        vec![
            vec![media("media-1", path, 20, Some(10), false)],
            vec![media("media-1", path, 20, None, true)],
        ],
    );
    world.run(engine().sync_all()).unwrap();
    world.run(engine().sync_all()).unwrap();

    let completions = world.requests_containing("MarkComplete");
    assert_eq!(
        completions.len(),
        1,
        "markMediaAsComplete must be sent exactly once across both syncs"
    );
    assert!(completions[0].contains("media-1"));
}

#[test]
fn test_push_single_comic_progress() {
    let mut world = World::new(
        vec![comic(1, "001.cbz", "Batman", 15, 30, false)],
        vec![vec![media("stump-media-1", "/srv/comics/Batman/001.cbz", 30, Some(5), false)]],
    );
    world.push_single(&engine(), 1, 1).unwrap();

    let updates = world.requests_containing("UpdateProgress");
    assert_eq!(updates.len(), 1);
    assert!(updates[0].contains("\"page\":15"));
    assert!(updates[0].contains("stump-media-1"));
}

#[test]
fn test_push_all_multiple_comics() {
    let mut world = World::new(
        vec![
            // A: page 10 of 20, Stump at 5: the page is pushed
            comic(1, "001.cbz", "Marvel/Spider-Man", 10, 20, false),
            // B: read, Stump at 10 and not complete: page and completion are pushed
            comic(2, "Annual 1.cbz", "DC/Batman", 20, 20, true),
            // C: page 3 of 30, Stump at 15: nothing is pushed
            comic(3, "Chapter 1.cbz", "Manga/One Piece", 3, 30, false),
        ],
        vec![vec![
            media("media-a", "/srv/comics/Marvel/Spider-Man/001.cbz", 20, Some(5), false),
            media("media-b", "/srv/comics/DC/Batman/Annual 1.cbz", 20, Some(10), false),
            media("media-c", "/srv/comics/Manga/One Piece/Chapter 1.cbz", 30, Some(15), false),
        ]],
    );
    let report = world.run(engine().push_all()).unwrap();

    assert_eq!(report.libraries_processed, 1);
    assert_eq!(report.comics_matched, 3);
    assert_eq!(report.pages_pushed, 2);
    assert_eq!(report.completions_pushed, 1);
    assert!(report.errors.is_empty());

    let updates = world.requests_containing("UpdateProgress");
    assert_eq!(updates.len(), 2);
    assert!(updates.iter().any(|b| b.contains("media-a") && b.contains("\"page\":10")));
    assert!(updates.iter().any(|b| b.contains("media-b") && b.contains("\"page\":20")));

    let completions = world.requests_containing("MarkComplete");
    assert_eq!(completions.len(), 1);
    assert!(completions[0].contains("media-b"));

    assert!(updates.iter().all(|b| !b.contains("media-c")));
    assert!(completions.iter().all(|b| !b.contains("media-c")));
}

#[test]
fn test_no_sync_when_stump_ahead() {
    let mut world = World::new(
        vec![comic(1, "001.cbz", "Comics", 5, 30, false)],
        vec![vec![media("media-1", "/srv/comics/Comics/001.cbz", 30, Some(15), false)]],
    );
    let report = world.run(engine().push_all()).unwrap();

    assert_eq!(report.pages_pushed, 0);
    assert_eq!(report.completions_pushed, 0);
    assert!(world.requests_containing("UpdateProgress").is_empty());
    assert!(world.requests_containing("MarkComplete").is_empty());
}

#[test]
fn test_path_matching_across_systems() {
    let mut world = World::new(
        vec![
            comic(1, "001.cbz", "Marvel/Spider-Man", 5, 20, false),
            comic(2, "Annual 1.cbz", "DC/Batman", 3, 20, false),
            comic(3, "Chapter 1.cbz", "Manga/One Piece", 10, 50, false),
        ],
        vec![vec![
            media("sm-1", "/srv/comics/Marvel/Spider-Man/001.cbz", 20, Some(1), false),
            media("sm-2", "/srv/comics/DC/Batman/Annual 1.cbz", 20, Some(1), false),
            media("sm-3", "/srv/comics/Manga/One Piece/Chapter 1.cbz", 50, Some(1), false),
        ]],
    );
    let report = world.run(engine().push_all()).unwrap();

    assert_eq!(report.comics_matched, 3);
    assert_eq!(report.pages_pushed, 3);
    assert!(report.errors.is_empty());

    let updates = world.requests_containing("UpdateProgress");
    assert_eq!(updates.len(), 3);
    assert!(updates.iter().any(|b| b.contains("sm-1")));
    assert!(updates.iter().any(|b| b.contains("sm-2")));
    assert!(updates.iter().any(|b| b.contains("sm-3")));
}

#[test]
fn test_unmatched_comics_skipped() {
    let mut world = World::new(
        vec![
            comic(1, "001.cbz", "Marvel", 10, 20, false),
            comic(2, "002.cbz", "Indie/Obscure", 8, 20, false),
        ],
        vec![vec![media("media-matched", "/srv/comics/Marvel/001.cbz", 20, Some(3), false)]],
    );
    let report = world.run(engine().push_all()).unwrap();

    assert_eq!(report.comics_matched, 1);
    assert_eq!(report.pages_pushed, 1);
    assert!(report.errors.is_empty());

    let updates = world.requests_containing("UpdateProgress");
    assert_eq!(updates.len(), 1);
    assert!(updates[0].contains("media-matched"));
    assert!(updates[0].contains("\"page\":10"));
}

/// YACReader ahead on the page, Stump ahead on completion.
fn crossed_world() -> World {
    World::new(
        vec![comic(1, "a.cbz", "", 18, 20, false)],
        vec![vec![media("m", "/srv/comics/a.cbz", 20, Some(10), true)]],
    )
}

#[test]
fn pull_run_sends_nothing() {
    let mut world = crossed_world();
    let report = world.run(engine().pull_all()).unwrap();
    assert_eq!(world.bodies.len(), 1, "only the fetch");
    assert!(world.comic(1).read);
    assert_eq!((report.completions_pulled, report.pages_pushed), (1, 0));
    assert_eq!(world.states[0].yac_current_page, 18);
}

#[test]
fn two_way_run_moves_both_dimensions() {
    let mut world = crossed_world();
    let report = world.run(engine().sync_all()).unwrap();
    assert!(world.requests_containing("UpdateProgress")[0].contains("\"page\":18"));
    assert!(world.comic(1).read);
    assert_eq!((report.completions_pulled, report.pages_pushed), (1, 1));
}

#[test]
fn one_cycle_settles_a_comic() {
    let mut world = crossed_world();
    world.run(engine().sync_all()).unwrap();
    world.fetches = vec![vec![media("m", "/srv/comics/a.cbz", 20, Some(18), true)]];
    world.bodies.clear();
    let report = world.run(engine().sync_all()).unwrap();
    assert_eq!(world.bodies.len(), 1);
    assert_eq!((report.pages_pulled, report.completions_pulled), (0, 0));
    assert_eq!(world.comic(1).current_page, 18);
}

#[test]
fn failed_page_skips_completion_but_not_the_pull() {
    let mut world = World::new(
        vec![comic(1, "a.cbz", "", 18, 20, true), comic(2, "b.cbz", "", 2, 20, true)],
        vec![vec![
            media("m1", "/srv/comics/a.cbz", 20, Some(10), false),
            media("m2", "/srv/comics/b.cbz", 20, Some(10), false),
        ]],
    );
    world.failing = vec!["page"];
    let report = world.run(engine().sync_all()).unwrap();
    assert_eq!(report.errors, vec!["m1: HTTP error: page failed"]);
    let completions = world.requests_containing("MarkComplete");
    assert_eq!(completions.len(), 1);
    assert!(completions[0].contains("m2"));
    assert_eq!(world.comic(2).current_page, 10);
    assert_eq!(world.states.len(), 2, "the state is recorded nonetheless");
    assert_eq!((report.completions_pushed, report.pages_pulled), (1, 1));
}

#[test]
fn failed_completion_in_a_push_run_counts_nothing() {
    let mut world = World::new(
        vec![comic(1, "a.cbz", "", 18, 20, true)],
        vec![vec![media("m1", "/srv/comics/a.cbz", 20, Some(10), false)]],
    );
    world.failing = vec!["mark"];
    let report = world.run(engine().push_all()).unwrap();
    assert_eq!(report.errors, vec!["m1: HTTP error: mark failed"]);
    assert_eq!((report.pages_pushed, report.completions_pushed), (0, 0));
}

#[test]
fn failed_write_is_reported_under_the_comic() {
    let mut world = crossed_world();
    world.failing = vec!["write"];
    let report = world.run(engine().pull_all()).unwrap();
    assert_eq!(report.errors, vec!["yac:1: HTTP error: write failed"]);
    assert_eq!(report.completions_pulled, 0);
    assert_eq!(world.states.len(), 1);
}

#[test]
fn failed_record_of_the_state_is_not_reported() {
    let mut world = crossed_world();
    world.failing = vec!["save"];
    let report = world.run(engine().pull_all()).unwrap();
    assert!(report.errors.is_empty());
}

#[test]
fn library_failures_do_not_stop_the_run() {
    for (step, matched) in
        [("read", 0), ("fetch", 0), ("insert", 0), ("find", 1), ("list", 1), ("load", 1)]
    {
        for push in [true, false] {
            let engine = SyncEngine::new(vec![library(1), library(2)]);
            let mut world = crossed_world();
            world.failing = vec![step];
            let run = if push { engine.push_all() } else { engine.sync_all() };
            let report = world.run(run).unwrap();
            assert_eq!(report.libraries_processed, 2);
            let used = match step {
                "find" => push,
                "list" | "load" => !push,
                _ => true,
            };
            if used {
                assert_eq!(
                    report.errors,
                    vec![
                        format!("/lib1/library.ydb: HTTP error: {step} failed"),
                        format!("/lib2/library.ydb: HTTP error: {step} failed"),
                    ]
                );
                assert_eq!(report.comics_matched, 2 * matched);
            } else {
                assert!(report.errors.is_empty());
            }
        }
    }
}

#[test]
fn missing_library_record_stops_the_run() {
    let mut world = crossed_world();
    world.failing = vec!["ensure"];
    for run in [engine().push_all(), engine().sync_all(), engine().pull_all()] {
        assert_eq!(world.run(run).unwrap_err().to_string(), "HTTP error: ensure failed");
    }
}

#[test]
fn run_without_libraries_ends_at_once() {
    let engine = SyncEngine::new(vec![]);
    let mut world = crossed_world();
    let report = world.run(engine.sync_all()).unwrap();
    assert_eq!(report.libraries_processed, 0);
    assert!(world.bodies.is_empty());
}

#[test]
fn unopened_comics_are_only_left_out_of_a_push() {
    let unopened = ComicRow { has_been_opened: false, ..comic(1, "a.cbz", "", 0, 20, false) };
    let mut world = World::new(
        vec![unopened],
        vec![vec![media("m", "/srv/comics/a.cbz", 20, Some(10), false)]],
    );
    assert_eq!(world.run(engine().push_all()).unwrap().comics_matched, 0);
    let report = world.run(engine().sync_all()).unwrap();
    assert_eq!((report.comics_matched, report.pages_pulled), (1, 1));
    assert!(world.comic(1).has_been_opened);
}

#[test]
fn reply_out_of_turn_is_ignored() {
    let run = engine().push_all();
    assert!(run.has_room(&Reply::Done));
    let run = run.feed(Reply::Done);
    assert!(matches!(run.action(), Action::EnsureLibrary { .. }));
    assert!(run.into_result().is_none());
}

#[test]
fn stump_reread_lowers_the_ydb_once_validated() {
    let path = "/srv/comics/a.cbz";
    let mut world = World::new(
        vec![comic(1, "a.cbz", "", 15, 20, false)],
        vec![vec![media("m", path, 20, Some(15), false)]],
    );
    world.run(engine().sync_all()).unwrap();
    let mut back = media("m", path, 20, Some(4), false);
    back.read_progress.as_mut().unwrap().updated_at = Some("2026-05-21T00:00:00Z".into());
    world.fetches = vec![vec![back.clone()]];
    world.run(engine().sync_all()).unwrap();
    assert_eq!(world.comic(1).current_page, 4);

    // The same media with the recorded time is no re-read.
    let mut world = World::new(
        vec![comic(1, "a.cbz", "", 15, 20, false)],
        vec![vec![back.clone()]],
    );
    world.run(engine().sync_all()).unwrap();
    back.read_progress.as_mut().unwrap().page = Some(2);
    world.fetches = vec![vec![back]];
    world.run(engine().sync_all()).unwrap();
    assert_eq!(world.comic(1).current_page, 15);
}

#[test]
fn single_push_reports_what_is_missing() {
    let path = "/srv/comics/a.cbz";
    let rows = vec![comic(1, "a.cbz", "", 18, 20, true)];
    let listed = vec![vec![media("m", path, 20, Some(10), false)]];

    let mut world = World::new(rows.clone(), listed.clone());
    let e = world.push_single(&engine(), 9, 1).unwrap_err();
    assert_eq!(e.to_string(), "config error: no library config for yac_library_id 9");

    let e = world.push_single(&engine(), 1, 5).unwrap_err();
    assert_eq!(e.to_string(), "database error: comic 5 not found in ydb");

    let mut world = World::new(rows.clone(), vec![vec![]]);
    let e = world.push_single(&engine(), 1, 1).unwrap_err();
    assert_eq!(e.to_string(), "config error: no Stump match for comic_info_id 1");

    // The comic was matched before, but its media is gone.
    let mut world = World::new(rows.clone(), listed.clone());
    world.push_single(&engine(), 1, 1).unwrap();
    assert_eq!(world.requests_containing("UpdateProgress").len(), 1);
    assert_eq!(world.requests_containing("MarkComplete").len(), 1);
    world.fetches = vec![vec![media("other", path, 20, Some(10), false)]];
    let e = world.push_single(&engine(), 1, 1).unwrap_err();
    assert_eq!(e.to_string(), "config error: Stump media m not found");

    for step in ["ensure", "read", "fetch", "find", "insert", "page", "mark"] {
        let mut world = World::new(rows.clone(), listed.clone());
        world.failing = vec![step];
        let e = world.push_single(&engine(), 1, 1).unwrap_err();
        assert_eq!(e.to_string(), format!("HTTP error: {step} failed"));
    }
}

#[test]
fn single_push_without_news_sends_nothing() {
    let mut world = World::new(
        vec![comic(1, "a.cbz", "", 5, 20, false)],
        vec![vec![media("m", "/srv/comics/a.cbz", 20, Some(10), false)]],
    );
    world.push_single(&engine(), 1, 1).unwrap();
    assert_eq!(world.bodies.len(), 1);
}

/// A pull that reaches the last page completes the comic in the `.ydb`; the
/// next run marks it complete on Stump.
#[test]
fn completion_by_page_is_pushed_by_the_next_run() {
    let path = "/srv/comics/a.cbz";
    let mut world = World::new(
        vec![comic(1, "a.cbz", "", 5, 20, false)],
        vec![vec![media("m", path, 20, Some(20), false)]],
    );
    world.run(engine().sync_all()).unwrap();
    assert!(world.comic(1).read);
    assert!(world.requests_containing("MarkComplete").is_empty());
    let report = world.run(engine().sync_all()).unwrap();
    assert_eq!(world.requests_containing("MarkComplete").len(), 1);
    assert_eq!(report.completions_pushed, 1);
}

#[test]
fn each_library_is_fetched_once_per_run() {
    let engine = SyncEngine::new(vec![library(1), library(2)]);
    let mut world = crossed_world();
    world.run(engine.sync_all()).unwrap();
    let fetches = world.requests_containing("GetLibraryMedia");
    assert_eq!(fetches.len(), 2);
    assert!(fetches[0].contains("lib-1"));
    assert!(fetches[1].contains("lib-2"));
}

#[test]
fn directory_with_outer_slashes_is_matched() {
    let mut world = World::new(
        vec![comic(1, "001.cbz", "/Marvel/", 15, 20, false)],
        vec![vec![media("m", "/srv/comics/Marvel/001.cbz", 20, Some(5), false)]],
    );
    let report = world.run(engine().push_all()).unwrap();
    assert_eq!((report.comics_matched, report.pages_pushed), (1, 1));
    assert_eq!(world.mappings[0].relative_path, "Marvel/001.cbz");
}
