//! The engine: the configured libraries, and the runs over them.

use crate::config;
use crate::config::LibraryConfig;
use crate::decimal;
use crate::decimal::format_i64;
use crate::sync_engine::matching;
use crate::sync_engine::matching::{mapping_rows, match_comics, MappingRow};
use crate::sync_engine::model;
use crate::sync_engine::model::Mode;
use crate::sync_engine::run::Run;
use crate::sync_engine::single;
use crate::sync_engine::single::SinglePush;
use crate::text::concat2;
use crate::types;
use crate::types::{ComicProgress, StumpMedia, SyncError};
use vstd::prelude::*;
use vstd::string::*;

verus! {

/// The synchronisation of a set of libraries.
pub struct SyncEngine {
    libraries: Vec<LibraryConfig>,
}

impl View for SyncEngine {
    type V = Seq<config::LibraryConfigView>;

    closed spec fn view(&self) -> Seq<config::LibraryConfigView> {
        config::library_views(self.libraries@)
    }
}

/// The first place in `libraries`, from `from` on, of the one with this id.
pub open spec fn first_library(
    libraries: Seq<config::LibraryConfigView>,
    from: int,
    yac_library_id: i64,
) -> Option<int>
    decreases libraries.len() - from,
{
    if from >= libraries.len() {
        None
    } else if libraries[from].yac_library_id == yac_library_id {
        Some(from)
    } else {
        first_library(libraries, from + 1, yac_library_id)
    }
}

/// Copies of a list of library settings.
fn copied(libraries: &Vec<LibraryConfig>) -> (r: Vec<LibraryConfig>)
    ensures
        r@ == libraries@,
{
    let mut r: Vec<LibraryConfig> = Vec::new();
    let n: usize = libraries.len();
    for i in 0..n
        invariant
            n == libraries@.len(),
            r@ == libraries@.take(i as int),
    {
        r.push(libraries[i].clone());
        assert(libraries@.take(i + 1) =~= libraries@.take(i as int).push(libraries@[i as int]));
    }
    assert(libraries@.take(n as int) =~= libraries@);
    r
}

impl SyncEngine {
    /// An engine for these libraries.
    pub fn new(libraries: Vec<LibraryConfig>) -> (r: SyncEngine)
        ensures
            r@ == config::library_views(libraries@),
    {
        SyncEngine { libraries }
    }

    /// The first library with this YACReader id.
    pub fn get_library_config_by_id(&self, yac_library_id: i64) -> (r: Option<&LibraryConfig>)
        ensures
            match first_library(self@, 0, yac_library_id) {
                Some(i) => r matches Some(library) && library@ == self@[i],
                None => r is None,
            },
    {
        let n: usize = self.libraries.len();
        for i in 0..n
            invariant
                n == self.libraries@.len(),
                first_library(self@, 0, yac_library_id) == first_library(
                    self@,
                    i as int,
                    yac_library_id,
                ),
        {
            if self.libraries[i].yac_library_id == yac_library_id {
                return Some(&self.libraries[i]);
            }
        }
        None
    }

    /// Starts the push of a single comic. The library is found by its YACReader
    /// id; without such a library there is nothing to start.
    pub fn push_single(&self, library_id: i64, comic_id: i64) -> (r: Result<SinglePush, SyncError>)
        ensures
            match first_library(self@, 0, library_id) {
                Some(i) => r matches Ok(push) && push.inv() && push@ == single::single_started(
                    self@[i],
                    comic_id,
                ),
                None => r matches Err(e) && e@ == types::ErrorView::Config(
                    "no library config for yac_library_id "@ + decimal::decimal(library_id as int),
                ),
            },
    {
        match self.get_library_config_by_id(library_id) {
            Some(library) => Ok(SinglePush::new(library.clone(), comic_id)),
            None => {
                let id = format_i64(library_id);
                let message = concat2("no library config for yac_library_id ", id.as_str());
                Err(SyncError::Config(message))
            },
        }
    }

    /// Starts a push run over all libraries.
    pub fn push_all(&self) -> (r: Run)
        ensures
            r.inv(),
            r@ == model::started(Mode::Push, self@),
    {
        Run::new(Mode::Push, copied(&self.libraries))
    }

    /// Starts a two-way run over all libraries.
    pub fn sync_all(&self) -> (r: Run)
        ensures
            r.inv(),
            r@ == model::started(Mode::Sync, self@),
    {
        Run::new(Mode::Sync, copied(&self.libraries))
    }

    /// Starts a pull run over all libraries.
    pub fn pull_all(&self) -> (r: Run)
        ensures
            r.inv(),
            r@ == model::started(Mode::Pull, self@),
    {
        Run::new(Mode::Pull, copied(&self.libraries))
    }

    /// The records to store for a library, from comics and media that were
    /// already fetched: one for each matched pair, in order.
    pub fn build_mappings(
        &self,
        lib_config: &LibraryConfig,
        yac_comics: &[ComicProgress],
        stump_media: &[StumpMedia],
    ) -> (r: Vec<MappingRow>)
        ensures
            ({
                let pairs = matching::matched(
                    yac_comics@,
                    stump_media@,
                    lib_config.stump_library_path@,
                );
                &&& r@.len() == pairs.len()
                &&& forall|i: int|
                    0 <= i < pairs.len() ==> (#[trigger] r@[i])@ == matching::mapping_of(
                        yac_comics@[pairs[i].0],
                        stump_media@[pairs[i].1],
                    )
            }),
    {
        mapping_rows(yac_comics, stump_media, lib_config.stump_library_path.as_str())
    }
}

/// Each kind of run works on all libraries of the engine, in its own direction,
/// and starts with the first of them.
pub proof fn runs_cover_all_libraries(
    engine: &SyncEngine,
    push: Run,
    sync: Run,
    pull: Run,
)
    requires
        call_ensures(SyncEngine::push_all, (engine,), push),
        call_ensures(SyncEngine::sync_all, (engine,), sync),
        call_ensures(SyncEngine::pull_all, (engine,), pull),
    ensures
        push@.mode == Mode::Push,
        sync@.mode == Mode::Sync,
        pull@.mode == Mode::Pull,
        push@.libraries == engine@,
        sync@.libraries == engine@,
        pull@.libraries == engine@,
        push@.at == 0 && sync@.at == 0 && pull@.at == 0,
{
}

/// The push of a comic starts exactly where a library has the id that it names,
/// and then with the first such library and that comic.
pub proof fn single_push_needs_its_library(
    engine: &SyncEngine,
    library_id: i64,
    comic_id: i64,
    r: Result<SinglePush, SyncError>,
    i: int,
)
    requires
        call_ensures(SyncEngine::push_single, (engine, library_id, comic_id), r),
    ensures
        0 <= i < engine@.len() && engine@[i].yac_library_id == library_id && (forall|k: int|
            0 <= k < i ==> (#[trigger] engine@[k]).yac_library_id != library_id) ==> (
        r matches Ok(push) && push@.library == engine@[i] && push@.comic_id == comic_id),
        (forall|k: int|
            0 <= k < engine@.len() ==> (#[trigger] engine@[k]).yac_library_id != library_id) ==> (
        r matches Err(e) && e@ == types::ErrorView::Config(
            "no library config for yac_library_id "@ + decimal::decimal(library_id as int),
        )),
{
    library_is_found_by_its_id(engine@, 0, library_id);
    if let Some(k) = first_library(engine@, 0, library_id) {
        if 0 <= i < engine@.len() && engine@[i].yac_library_id == library_id && (forall|j: int|
            0 <= j < i ==> (#[trigger] engine@[j]).yac_library_id != library_id) {
            if k < i {
                assert(engine@[k].yac_library_id != library_id);
            } else if i < k {
                assert(engine@[i].yac_library_id != library_id);
            }
        }
    }
}

/// A library is found by its YACReader id: the first one that has it, and none
/// only where no library has it.
pub proof fn library_is_found_by_its_id(
    libraries: Seq<config::LibraryConfigView>,
    from: int,
    yac_library_id: i64,
)
    requires
        0 <= from,
    ensures
        match first_library(libraries, from, yac_library_id) {
            Some(i) => {
                &&& from <= i < libraries.len()
                &&& libraries[i].yac_library_id == yac_library_id
                &&& forall|k: int|
                    from <= k < i ==> (#[trigger] libraries[k]).yac_library_id != yac_library_id
            },
            None => forall|k: int|
                from <= k < libraries.len() ==> (#[trigger] libraries[k]).yac_library_id
                    != yac_library_id,
        },
    decreases libraries.len() - from,
{
    if from < libraries.len() && libraries[from].yac_library_id != yac_library_id {
        library_is_found_by_its_id(libraries, from + 1, yac_library_id);
    }
}

/// One record is stored for each pair that is matched, in order, and it ties
/// the two sides of that pair together.
pub proof fn each_matched_pair_is_stored<'a>(
    engine: &SyncEngine,
    library: &LibraryConfig,
    comics: &'a [ComicProgress],
    media: &'a [StumpMedia],
    path: &str,
    pairs: Vec<(&'a ComicProgress, &'a StumpMedia)>,
    rows: Vec<MappingRow>,
    i: int,
)
    requires
        path@ == library.stump_library_path@,
        call_ensures(match_comics, (comics, media, path), pairs),
        call_ensures(SyncEngine::build_mappings, (engine, library, comics, media), rows),
        0 <= i < pairs@.len(),
    ensures
        rows@.len() == pairs@.len(),
        rows@[i].yac_comic_info_id == pairs@[i].0.comic_info_id,
        rows@[i].yac_comic_id == pairs@[i].0.comic_id,
        rows@[i].stump_media_id@ == pairs@[i].1.id@,
        rows@[i].relative_path@ == pairs@[i].0.relative_path@,
        rows@[i].matched_via@ == "path"@,
{
    let at = matching::matched(comics@, media@, path@);
    assert(*pairs@[i].0 == comics@[at[i].0] && *pairs@[i].1 == media@[at[i].1]);
    assert(rows@[i]@ == matching::mapping_of(comics@[at[i].0], media@[at[i].1]));
}

} // verus!
