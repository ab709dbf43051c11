//! Which comics and which libraries belong together.

use stump_sync::config::LibraryConfig;
use stump_sync::sync_engine::{
    match_comics, match_stump_library, needs_discovery, normalize_path, resolve_library_configs,
    SyncEngine,
};
use stump_sync::types::{
    ActiveReadingSession, ComicProgress, FinishedReadingSession, StumpLibrary, StumpMedia,
};

fn make_comic(id: i64, path: &str, page: i32, read: bool) -> ComicProgress {
    ComicProgress {
        comic_info_id: id,
        comic_id: id + 1000,
        current_page: page,
        num_pages: 20,
        read,
        has_been_opened: true,
        last_time_opened: Some(1700000000),
        hash: Some("abc123".into()),
        relative_path: path.to_string(),
    }
}

fn make_stump_media(id: &str, path: &str, page: i32, complete: bool) -> StumpMedia {
    StumpMedia {
        id: id.to_string(),
        name: "test".into(),
        pages: 20,
        path: path.to_string(),
        read_progress: Some(ActiveReadingSession { page: Some(page), updated_at: None }),
        read_history: if complete {
            vec![FinishedReadingSession { completed_at: Some("2024-01-01".into()) }]
        } else {
            vec![]
        },
    }
}

fn make_lib_config(yac_library_id: i64, library_root: &str) -> LibraryConfig {
    LibraryConfig {
        yac_library_id,
        ydb_path: format!("{library_root}/.yacreaderlibrary/library.ydb"),
        library_root: library_root.to_string(),
        stump_library_id: String::new(),
        stump_library_path: String::new(),
    }
}

fn make_stump_library(id: &str, name: &str, path: &str) -> StumpLibrary {
    StumpLibrary { id: id.to_string(), name: name.to_string(), path: path.to_string() }
}

#[test]
fn test_match_comics_exact_path() {
    let yac = vec![make_comic(1, "Marvel/Spider-Man/001.cbz", 5, false)];
    let stump = vec![make_stump_media(
        "sm-1",
        "/srv/comics/Marvel/Spider-Man/001.cbz",
        3,
        false,
    )];

    let matches = match_comics(&yac, &stump, "/srv/comics");
    assert_eq!(matches.len(), 1);
    assert_eq!(matches[0].0.comic_info_id, 1);
    assert_eq!(matches[0].1.id, "sm-1");
}

#[test]
fn test_match_comics_no_match() {
    let yac = vec![make_comic(1, "Marvel/001.cbz", 5, false)];
    let stump = vec![make_stump_media("sm-1", "/srv/comics/DC/001.cbz", 3, false)];

    let matches = match_comics(&yac, &stump, "/srv/comics");
    assert!(matches.is_empty());
}

#[test]
fn test_match_comics_multiple() {
    let yac = vec![
        make_comic(1, "Marvel/001.cbz", 5, false),
        make_comic(2, "Marvel/002.cbz", 10, true),
        make_comic(3, "DC/001.cbz", 1, false),
    ];
    let stump = vec![
        make_stump_media("sm-1", "/srv/comics/Marvel/001.cbz", 3, false),
        make_stump_media("sm-2", "/srv/comics/Marvel/002.cbz", 5, false),
    ];

    let matches = match_comics(&yac, &stump, "/srv/comics");
    assert_eq!(matches.len(), 2);
}

#[test]
fn test_match_comics_trailing_slash_in_library_path() {
    let yac = vec![make_comic(1, "Marvel/001.cbz", 5, false)];
    let stump = vec![make_stump_media("sm-1", "/srv/comics/Marvel/001.cbz", 3, false)];

    let matches = match_comics(&yac, &stump, "/srv/comics/");
    assert_eq!(matches.len(), 1);
}

/// A sibling whose name starts like the library's must not be swallowed.
#[test]
fn test_library_prefix_boundary() {
    let yac = vec![make_comic(1, "x.cbz", 5, false)];

    let sibling = vec![make_stump_media("sm-1", "/srv/comics-extra/x.cbz", 3, false)];
    let matches = match_comics(&yac, &sibling, "/srv/comics");
    assert!(
        matches.is_empty(),
        "a sibling dir sharing a name prefix must not match across the boundary"
    );

    // The genuine child still matches.
    let child = vec![make_stump_media("sm-2", "/srv/comics/x.cbz", 3, false)];
    let matches = match_comics(&yac, &child, "/srv/comics");
    assert_eq!(matches.len(), 1);
    assert_eq!(matches[0].1.id, "sm-2");
}

/// Redundant slashes in either path do not keep a comic from its media.
#[test]
fn test_match_comics_collapses_double_slash() {
    let yac = vec![make_comic(1, "Marvel/001.cbz", 5, false)];
    let stump = vec![make_stump_media("sm-1", "/srv/comics//Marvel/001.cbz", 3, false)];
    let matches = match_comics(&yac, &stump, "/srv//comics/");
    assert_eq!(matches.len(), 1);
    assert_eq!(matches[0].1.id, "sm-1");
}

#[test]
fn last_media_at_a_path_counts_and_order_is_kept() {
    let yac = vec![
        make_comic(2, "b.cbz", 0, false),
        make_comic(9, "none.cbz", 0, false),
        make_comic(1, "a.cbz", 0, false),
    ];
    let stump = vec![
        make_stump_media("first", "/c/a.cbz", 0, false),
        make_stump_media("b", "/c/b.cbz", 0, false),
        make_stump_media("second", "/c//a.cbz", 0, false),
        make_stump_media("elsewhere", "/d/a.cbz", 0, false),
    ];
    let matches = match_comics(&yac, &stump, "/c");
    let ids: Vec<(i64, &str)> =
        matches.iter().map(|(c, m)| (c.comic_info_id, m.id.as_str())).collect();
    assert_eq!(ids, vec![(2, "b"), (1, "second")]);
}

/// The ids of the media that the comics at these paths are paired with.
fn paired(comics: &[&str], media: &[&str], library: &str) -> Vec<(i64, String)> {
    let yac: Vec<ComicProgress> =
        comics.iter().enumerate().map(|(i, p)| make_comic(i as i64, p, 0, false)).collect();
    let stump: Vec<StumpMedia> =
        media.iter().map(|p| make_stump_media(p, p, 0, false)).collect();
    match_comics(&yac, &stump, library)
        .iter()
        .map(|(c, m)| (c.comic_info_id, m.id.clone()))
        .collect()
}

#[test]
fn name_with_a_backslash_is_matched_as_it_is() {
    assert_eq!(paired(&["A\\B/x"], &["/s/A\\B/x"], "/s"), vec![(0, "/s/A\\B/x".to_string())]);
    for dir in ["A\\B", "\\A", "A\\", "A\\\\B", "\\"] {
        let rel = normalize_path(dir, "x");
        let path = format!("/s/{dir}/x");
        assert_eq!(paired(&[&rel], &[&path], "/s"), vec![(0, path.clone())]);
    }
}

#[test]
fn own_media_wins_over_one_with_other_separators() {
    let media = ["/s/A/B/x", "/s/A\\B/x"];
    let comics = ["A/B/x", "A\\B/x"];
    assert_eq!(
        paired(&comics, &media, "/s"),
        vec![(0, media[0].to_string()), (1, media[1].to_string())]
    );
}

#[test]
fn separators_are_made_alike_on_both_sides() {
    let slashes = "/s/A/B/x".to_string();
    for dir in ["A\\B", "\\A\\B", "A\\B\\", "A/\\B"] {
        let rel = normalize_path(dir, "x");
        assert_eq!(paired(&[&rel], &["/s/A/B/x"], "/s"), vec![(0, slashes.clone())], "{dir}");
    }
    let backslashes = "C:\\comics\\A\\B\\x".to_string();
    assert_eq!(
        paired(&["A/B/x"], &["C:\\comics\\A\\B\\x"], "C:\\comics"),
        vec![(0, backslashes)]
    );
    assert!(paired(&["x"], &["/s\\extra/x"], "/s-").is_empty());
}

#[test]
fn mapping_rows_describe_the_pairs() {
    let yac = vec![make_comic(7, "Marvel/001.cbz", 5, false), make_comic(8, "top.cbz", 5, false)];
    let stump = vec![
        make_stump_media("sm-1", "/srv/comics/Marvel/001.cbz", 3, false),
        make_stump_media("sm-2", "/srv/comics/top.cbz", 3, false),
    ];
    let mut library = make_lib_config(1, "/srv/comics");
    library.stump_library_path = "/srv/comics".into();
    let engine = SyncEngine::new(vec![]);
    let rows = engine.build_mappings(&library, &yac, &stump);
    assert_eq!(rows.len(), 2);
    assert_eq!(rows[0].yac_comic_info_id, 7);
    assert_eq!(rows[0].yac_comic_id, 1007);
    assert_eq!(rows[0].stump_media_id, "sm-1");
    assert_eq!(rows[0].relative_path, "Marvel/001.cbz");
    assert_eq!(rows[0].filename, "001.cbz");
    assert_eq!(rows[0].matched_via, "path");
    assert_eq!(rows[1].filename, "top.cbz");
}

#[test]
fn test_match_stump_library_by_path() {
    let yac = make_lib_config(1, "/srv/comics/"); // trailing slash differs
    let libs = vec![
        make_stump_library("lib-1", "Comics", "/srv/comics"),
        make_stump_library("lib-2", "Manga", "/srv/manga"),
    ];
    let found = match_stump_library(&yac, &libs).expect("expected a path match");
    assert_eq!(found.id, "lib-1");
}

#[test]
fn test_match_stump_library_by_name_fallback() {
    // Paths differ across machines; fall back to the folder name.
    let yac = make_lib_config(1, "/Users/me/Comics");
    let libs = vec![
        make_stump_library("lib-1", "Manga", "/srv/manga"),
        make_stump_library("lib-2", "Comics", "/srv/data/Comics"),
    ];
    let found = match_stump_library(&yac, &libs).expect("expected a name fallback match");
    assert_eq!(found.id, "lib-2");
}

#[test]
fn test_match_stump_library_none() {
    let yac = make_lib_config(1, "/Users/me/Nope");
    let libs = vec![make_stump_library("lib-1", "Comics", "/srv/comics")];
    assert!(match_stump_library(&yac, &libs).is_none());
}

#[test]
fn path_match_wins_over_an_earlier_name_match() {
    let yac = make_lib_config(1, "/srv/Comics");
    let libs = vec![
        make_stump_library("by-name", "Comics", "/elsewhere"),
        make_stump_library("by-folder", "x", "/data/Comics/"),
        make_stump_library("by-path", "y", "/srv//Comics"),
    ];
    assert_eq!(match_stump_library(&yac, &libs).unwrap().id, "by-path");
    assert_eq!(match_stump_library(&yac, &libs[..2]).unwrap().id, "by-name");
    assert_eq!(match_stump_library(&yac, &libs[1..2]).unwrap().id, "by-folder");
}

#[test]
fn root_library_has_no_name_to_match() {
    let yac = make_lib_config(1, "/");
    let libs = vec![make_stump_library("empty", "", "/srv/comics")];
    assert!(match_stump_library(&yac, &libs).is_none());
}

fn three_libraries() -> Vec<LibraryConfig> {
    vec![
        // (1) to be discovered by its path
        make_lib_config(1, "/srv/comics"),
        // (2) an explicit choice is honored verbatim
        LibraryConfig {
            yac_library_id: 2,
            ydb_path: "/b/.ydb".into(),
            library_root: "/whatever".into(),
            stump_library_id: "manual-id".into(),
            stump_library_path: "/manual/path".into(),
        },
        // (3) to be discovered, but nothing matches
        make_lib_config(3, "/no/match/here"),
    ]
}

#[test]
fn test_resolve_library_configs_auto_and_override() {
    let listing = vec![
        make_stump_library("stump-comics", "Comics", "/srv/comics"),
        make_stump_library("stump-manga", "Manga", "/srv/manga"),
    ];
    assert!(needs_discovery(&three_libraries()));

    let resolved = resolve_library_configs(three_libraries(), Some(listing));
    assert_eq!(resolved.len(), 2, "unmatched auto-discover library is dropped");

    let lib1 = resolved.iter().find(|l| l.yac_library_id == 1).unwrap();
    assert_eq!(lib1.stump_library_id, "stump-comics");
    assert_eq!(lib1.stump_library_path, "/srv/comics");

    let lib2 = resolved.iter().find(|l| l.yac_library_id == 2).unwrap();
    assert_eq!(lib2.stump_library_id, "manual-id", "override preserved");
    assert_eq!(lib2.stump_library_path, "/manual/path");

    assert!(resolved.iter().all(|l| l.yac_library_id != 3));
}

#[test]
fn test_resolve_library_configs_skips_network_when_all_explicit() {
    let libraries = vec![LibraryConfig {
        yac_library_id: 1,
        ydb_path: "/a/.ydb".into(),
        library_root: "/srv/comics".into(),
        stump_library_id: "explicit".into(),
        stump_library_path: "/srv/comics".into(),
    }];
    // No library needs discovery, so no listing is asked for.
    assert!(!needs_discovery(&libraries));
    let resolved = resolve_library_configs(libraries, None);
    assert_eq!(resolved.len(), 1);
    assert_eq!(resolved[0].stump_library_id, "explicit");
}

#[test]
fn failed_listing_keeps_explicit_libraries() {
    let resolved = resolve_library_configs(three_libraries(), None);
    assert_eq!(resolved.len(), 1);
    assert_eq!(resolved[0].yac_library_id, 2);
    assert_eq!(resolved[0].stump_library_path, "/manual/path");
}

#[test]
fn library_is_found_by_its_id() {
    let mut twin = make_lib_config(2, "/twin");
    twin.stump_library_id = "t".into();
    let engine = SyncEngine::new(vec![
        make_lib_config(1, "/one"),
        make_lib_config(2, "/two"),
        twin,
    ]);
    assert_eq!(engine.get_library_config_by_id(2).unwrap().library_root, "/two");
    assert!(engine.get_library_config_by_id(5).is_none());
}
