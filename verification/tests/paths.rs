//! Paths of comics and libraries.

use stump_sync::sync_engine::paths::{inside, with_slashes};
use stump_sync::sync_engine::{normalize_fs_path, normalize_path, relative_under};

#[test]
fn test_normalize_path_with_dir() {
    assert_eq!(
        normalize_path("Marvel/Spider-Man", "001.cbz"),
        "Marvel/Spider-Man/001.cbz"
    );
}

#[test]
fn test_normalize_path_empty_dir() {
    assert_eq!(normalize_path("", "001.cbz"), "001.cbz");
}

#[test]
fn test_normalize_path_nested() {
    assert_eq!(
        normalize_path("DC/Batman/Year One", "chapter1.cbz"),
        "DC/Batman/Year One/chapter1.cbz"
    );
}

#[test]
fn slashes_of_the_directory_are_normalised() {
    assert_eq!(normalize_path("/Marvel/", "001.cbz"), "Marvel/001.cbz");
    assert_eq!(normalize_path("/Marvel", "001.cbz"), "Marvel/001.cbz");
    assert_eq!(normalize_path("Marvel//", "001.cbz"), "Marvel/001.cbz");
    assert_eq!(normalize_path("//Marvel///Spider-Man/", "001.cbz"), "Marvel/Spider-Man/001.cbz");
    assert_eq!(normalize_path("/", "001.cbz"), "001.cbz");
    // A backslash may be part of a name.
    assert_eq!(normalize_path("A\\B", "001.cbz"), "A\\B/001.cbz");
    assert_eq!(normalize_path("\\A/", "001.cbz"), "\\A/001.cbz");
}

#[test]
fn paths_of_comics_are_found_below_any_library() {
    for lib in ["/srv/comics", "/srv//comics/", "/", "//", "lib", ""] {
        for dir in ["", "/", "Marvel", "/Marvel/", "A//B\\C/"] {
            let rel = normalize_path(dir, "x.cbz");
            assert_eq!(relative_under(lib, &format!("{lib}/{rel}")).as_ref(), Some(&rel));
            assert_eq!(relative_under(lib, &format!("{lib}/{dir}/x.cbz")), Some(rel));
        }
    }
}

#[test]
fn test_normalize_fs_path() {
    assert_eq!(normalize_fs_path("/srv/comics/"), "/srv/comics");
    assert_eq!(normalize_fs_path("/srv/comics"), "/srv/comics");
    assert_eq!(normalize_fs_path("/srv/comics///"), "/srv/comics");
    assert_eq!(normalize_fs_path("/"), "/");
    assert_eq!(normalize_fs_path(""), "");
    // Runs of '/' anywhere collapse to a single separator.
    assert_eq!(normalize_fs_path("/srv//comics"), "/srv/comics");
    assert_eq!(normalize_fs_path("/srv///comics//"), "/srv/comics");
    assert_eq!(normalize_fs_path("//"), "/");
}

#[test]
fn normal_form_is_stable() {
    for p in ["", "/", "//", "a", "a/", "//a///b//", "/srv/comics", "é//ö/"] {
        let once = normalize_fs_path(p);
        assert_eq!(normalize_fs_path(&once), once);
        assert!(!once.contains("//"));
        if !p.is_empty() {
            assert_eq!(normalize_fs_path(&format!("{p}/")), once);
        }
    }
}

#[test]
fn relative_paths_need_a_component_boundary() {
    assert_eq!(relative_under("/srv/comics", "/srv/comics/x.cbz").as_deref(), Some("x.cbz"));
    assert_eq!(relative_under("/srv/comics/", "/srv//comics/a//x.cbz").as_deref(), Some("a/x.cbz"));
    assert_eq!(relative_under("/srv/comics", "/srv/comics-extra/x.cbz"), None);
    assert_eq!(relative_under("/srv/comics", "/srv/comics"), None);
    assert_eq!(relative_under("/srv/comics", "/srv/comics/"), None);
    assert_eq!(relative_under("/srv/comics", "/srv"), None);
    assert_eq!(relative_under("/srv/comics", ""), None);
}

#[test]
fn everything_lies_below_the_root() {
    assert_eq!(relative_under("/", "/a/b.cbz").as_deref(), Some("a/b.cbz"));
    assert_eq!(relative_under("//", "a/b.cbz").as_deref(), Some("a/b.cbz"));
    assert_eq!(relative_under("/", "/"), None);
    assert_eq!(relative_under("/", ""), None);
    assert_eq!(relative_under("", "/a").as_deref(), Some("a"));
    assert_eq!(relative_under("", "a"), None);
}

#[test]
fn placed_paths_are_found_again() {
    for lib in ["/srv/comics", "/srv//comics//", "/", "///", "lib", "lib/", ""] {
        for rel in ["x.cbz", "a/b/c.cbz"] {
            assert_eq!(relative_under(lib, &format!("{lib}/{rel}")).as_deref(), Some(rel));
        }
    }
}

#[test]
fn inner_paths_and_separators() {
    assert_eq!(inside("//a//b/"), "a/b");
    assert_eq!(inside("/"), "");
    assert_eq!(inside(""), "");
    assert_eq!(with_slashes("a\\b/c\\"), "a/b/c/");
}
