//! What the synchroniser is set up with.

use vstd::prelude::*;

verus! {

/// The connection to Stump and the libraries to keep in step with it.
#[derive(Debug, Clone)]
pub struct Config {
    pub stump_url: String,
    pub api_key: String,
    pub user_id: String,
    pub mapping_db_path: String,
    pub sync_interval_secs: u64,
    pub libraries: Vec<LibraryConfig>,
}

/// One YACReader library and the Stump library it belongs to.
#[derive(Debug)]
pub struct LibraryConfig {
    /// YACReader's numeric library id (the one used in `/v2/library/<id>/`
    /// URLs). It tells which library a push of a single comic belongs to.
    pub yac_library_id: i64,
    pub ydb_path: String,
    pub library_root: String,
    /// Stump library id. Empty means "discover it at start-up".
    pub stump_library_id: String,
    /// Stump library path in the file system. Empty means "discover it at
    /// start-up".
    pub stump_library_path: String,
}

impl Clone for LibraryConfig {
    fn clone(&self) -> (r: Self)
        ensures
            r == *self,
    {
        LibraryConfig {
            yac_library_id: self.yac_library_id,
            ydb_path: self.ydb_path.clone(),
            library_root: self.library_root.clone(),
            stump_library_id: self.stump_library_id.clone(),
            stump_library_path: self.stump_library_path.clone(),
        }
    }
}

/// The contents of a [`LibraryConfig`].
pub struct LibraryConfigView {
    pub yac_library_id: i64,
    pub ydb_path: Seq<char>,
    pub library_root: Seq<char>,
    pub stump_library_id: Seq<char>,
    pub stump_library_path: Seq<char>,
}

impl View for LibraryConfig {
    type V = LibraryConfigView;

    open spec fn view(&self) -> LibraryConfigView {
        LibraryConfigView {
            yac_library_id: self.yac_library_id,
            ydb_path: self.ydb_path@,
            library_root: self.library_root@,
            stump_library_id: self.stump_library_id@,
            stump_library_path: self.stump_library_path@,
        }
    }
}

/// The contents of a list of library settings.
pub open spec fn library_views(list: Seq<LibraryConfig>) -> Seq<LibraryConfigView> {
    Seq::new(list.len(), |i: int| list[i]@)
}

/// The contents of the settings of a library are its fields, with texts in
/// place of strings, and those of a list are the contents of its members.
pub proof fn settings_show_what_they_hold(list: Seq<LibraryConfig>, i: int)
    requires
        0 <= i < list.len(),
    ensures
        library_views(list).len() == list.len(),
        library_views(list)[i].yac_library_id == list[i].yac_library_id,
        library_views(list)[i].ydb_path == list[i].ydb_path@,
        library_views(list)[i].library_root == list[i].library_root@,
        library_views(list)[i].stump_library_id == list[i].stump_library_id@,
        library_views(list)[i].stump_library_path == list[i].stump_library_path@,
        library_views(list)[i] == list[i]@,
{
}

} // verus!
