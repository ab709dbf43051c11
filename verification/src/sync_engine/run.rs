//! A run over all libraries.
//!
//! A run does nothing on its own. It names the next action, takes the reply,
//! and moves on, until there is nothing left to do. A failure that belongs to
//! one library or one comic is recorded and the run goes on with the next.

use crate::config;
use crate::config::LibraryConfig;
use crate::decimal::format_i64;
use crate::sync_engine::matching;
use crate::sync_engine::matching::{mapping_row, match_places};
use crate::sync_engine::messages;
use crate::sync_engine::messages::{Action, Reply};
use crate::sync_engine::model;
use crate::sync_engine::model::{Mode, Stage};
use crate::sync_engine::reconcile;
use crate::sync_engine::reconcile::{compute_delta, reconcile_at};
use crate::text;
use crate::text::concat3;
use crate::types::{
    BidirectionalDelta, ComicProgress, MediaMapping, StumpMedia, SyncDelta, SyncError, SyncReport,
    SyncState,
};
use std::collections::HashMap;
use vstd::hash_map::StringHashMap;
use vstd::prelude::*;
use vstd::string::*;

verus! {

broadcast use vstd::std_specs::hash::group_hash_axioms;

/// Where a run stands.
#[derive(Debug, Clone, Copy)]
enum Phase {
    Ensure,
    Read,
    Fetch,
    Insert(usize),
    Find(usize),
    SendPage(usize, usize),
    SendMark(usize, usize),
    List,
    Load(usize),
    Comic(usize, Stage),
    Finished,
    Aborted,
}

impl View for Phase {
    type V = model::PhaseView;

    closed spec fn view(&self) -> model::PhaseView {
        match *self {
            Phase::Ensure => model::PhaseView::Ensure,
            Phase::Read => model::PhaseView::Read,
            Phase::Fetch => model::PhaseView::Fetch,
            Phase::Insert(n) => model::PhaseView::Insert(n as int),
            Phase::Find(n) => model::PhaseView::Find(n as int),
            Phase::SendPage(n, m) => model::PhaseView::SendPage(n as int, m as int),
            Phase::SendMark(n, m) => model::PhaseView::SendMark(n as int, m as int),
            Phase::List => model::PhaseView::List,
            Phase::Load(n) => model::PhaseView::Load(n as int),
            Phase::Comic(n, stage) => model::PhaseView::Comic(n as int, stage),
            Phase::Finished => model::PhaseView::Finished,
            Phase::Aborted => model::PhaseView::Aborted,
        }
    }
}

/// What a run knows of the current library.
struct Work {
    library_id: i64,
    comics: Vec<ComicProgress>,
    media: Vec<StumpMedia>,
    /// The matched pairs, as places in `comics` and `media`.
    pairs: Vec<(usize, usize)>,
    mappings: Vec<MediaMapping>,
    prev: Option<SyncState>,
    now: i64,
    /// The places of the media by their ids.
    media_ids: StringHashMap<usize>,
    /// The ids of the mappings by their comics.
    mapping_ids: HashMap<i64, i64>,
}

/// `index` knows where the media with this id is.
spec fn knows_media(index: Map<Seq<char>, usize>, media: Seq<StumpMedia>, id: Seq<char>) -> bool {
    match model::media_with_id(media, id) {
        Some(m) => index.contains_key(id) && index[id] == m && 0 <= m < media.len(),
        None => !index.contains_key(id),
    }
}

/// `index` knows where all the media are.
spec fn knows_all_media(index: Map<Seq<char>, usize>, media: Seq<StumpMedia>) -> bool {
    forall|id: Seq<char>| #[trigger] knows_media(index, media, id)
}

/// `index` knows the mapping of this comic.
spec fn knows_mapping(index: Map<i64, i64>, mappings: Seq<MediaMapping>, comic: i64) -> bool {
    match model::mapping_id_of(mappings, comic) {
        Some(id) => index.contains_key(comic) && index[comic] == id,
        None => !index.contains_key(comic),
    }
}

/// `index` knows all the mappings.
spec fn knows_all_mappings(index: Map<i64, i64>, mappings: Seq<MediaMapping>) -> bool {
    forall|comic: i64| #[trigger] knows_mapping(index, mappings, comic)
}

impl View for Work {
    type V = model::WorkView;

    closed spec fn view(&self) -> model::WorkView {
        model::WorkView {
            library_id: self.library_id,
            comics: self.comics@,
            media: self.media@,
            pairs: matching::places(self.pairs@),
            mappings: self.mappings@,
            prev: self.prev,
            now: self.now,
        }
    }
}

impl Work {
    /// The indexes agree with the lists.
    spec fn indexed(self) -> bool {
        &&& knows_all_media(self.media_ids@, self.media@)
        &&& knows_all_mappings(self.mapping_ids@, self.mappings@)
    }

    /// Nothing is known of the library yet.
    fn new() -> (r: Work)
        ensures
            r@ == model::no_work(),
            r.indexed(),
    {
        let r = Work {
            library_id: 0,
            comics: Vec::new(),
            media: Vec::new(),
            pairs: Vec::new(),
            mappings: Vec::new(),
            prev: None,
            now: 0,
            media_ids: StringHashMap::new(),
            mapping_ids: HashMap::new(),
        };
        assert(r@.pairs =~= Seq::<(int, int)>::empty());
        assert(r@.comics =~= Seq::<ComicProgress>::empty());
        assert(r@.media =~= Seq::<StumpMedia>::empty());
        assert(r@.mappings =~= Seq::<MediaMapping>::empty());
        r
    }
}

/// The places of the media by their ids; of several with one id the last.
fn index_media(media: &Vec<StumpMedia>) -> (r: StringHashMap<usize>)
    ensures
        knows_all_media(r@, media@),
{
    let mut index: StringHashMap<usize> = StringHashMap::new();
    let n: usize = media.len();
    assert(media@.take(0) =~= Seq::<StumpMedia>::empty());
    for i in 0..n
        invariant
            n == media@.len(),
            knows_all_media(index@, media@.take(i as int)),
    {
        let ghost before = index@;
        index.insert(media[i].id.clone(), i);
        proof {
            let done = media@.take(i + 1);
            let earlier = media@.take(i as int);
            assert(done.drop_last() =~= earlier);
            assert(done.last() == media@[i as int]);
            assert forall|id: Seq<char>| #[trigger] knows_media(index@, done, id) by {
                assert(knows_media(before, earlier, id));
            }
        }
    }
    assert(media@.take(n as int) =~= media@);
    index
}

/// The ids of the mappings by their comics; of several of one comic the last.
fn index_mappings(mappings: &Vec<MediaMapping>) -> (r: HashMap<i64, i64>)
    ensures
        knows_all_mappings(r@, mappings@),
{
    let mut index: HashMap<i64, i64> = HashMap::new();
    let n: usize = mappings.len();
    assert(mappings@.take(0) =~= Seq::<MediaMapping>::empty());
    for i in 0..n
        invariant
            n == mappings@.len(),
            knows_all_mappings(index@, mappings@.take(i as int)),
    {
        let ghost before = index@;
        index.insert(mappings[i].yac_comic_info_id, mappings[i].id);
        proof {
            let done = mappings@.take(i + 1);
            let earlier = mappings@.take(i as int);
            assert(done.drop_last() =~= earlier);
            assert(done.last() == mappings@[i as int]);
            assert forall|comic: i64| #[trigger] knows_mapping(index@, done, comic) by {
                assert(knows_mapping(before, earlier, comic));
            }
        }
    }
    assert(mappings@.take(n as int) =~= mappings@);
    index
}

/// A run over all libraries.
pub struct Run {
    mode: Mode,
    libraries: Vec<LibraryConfig>,
    at: usize,
    report: SyncReport,
    work: Work,
    phase: Phase,
    error: Option<SyncError>,
}

impl View for Run {
    type V = model::RunView;

    closed spec fn view(&self) -> model::RunView {
        model::RunView {
            mode: self.mode,
            libraries: config::library_views(self.libraries@),
            at: self.at as int,
            report: self.report@,
            work: self.work@,
            phase: self.phase@,
            error: match self.error {
                Some(e) => Some(e@),
                None => None,
            },
        }
    }
}

impl Run {
    /// The run is in a possible state.
    pub closed spec fn inv(self) -> bool {
        self@.wf() && self.work.indexed()
    }

    /// The run is inside its current library.
    spec fn mid(self) -> bool {
        self@.inside() && self.work.indexed()
    }

    /// Starts a run over `libraries`.
    pub fn new(mode: Mode, libraries: Vec<LibraryConfig>) -> (r: Run)
        ensures
            r.inv(),
            r@ == model::started(mode, config::library_views(libraries@)),
    {
        let phase = if libraries.len() > 0 {
            Phase::Ensure
        } else {
            Phase::Finished
        };
        Run {
            mode,
            libraries,
            at: 0,
            report: SyncReport::new(),
            work: Work::new(),
            phase,
            error: None,
        }
    }

    /// The same run with one more error in its report.
    fn with_error(self, message: String) -> (r: Run)
        ensures
            r@ == self@.with_error(message@),
            r.work == self.work,
    {
        let mut r = self;
        r.report.errors.push(message);
        assert(r.report@.errors =~= self.report@.errors.push(message@));
        r
    }

    /// On to the next library, or to the end.
    fn next_library(self) -> (r: Run)
        requires
            0 <= self@.at < self@.libraries.len(),
            self@.report.libraries_processed == self@.at + 1,
            self@.error is None,
        ensures
            r@ == self@.next_library(),
            r.inv(),
    {
        let mut r = self;
        r.at = r.at + 1;
        r.work = Work::new();
        r.phase = if r.at < r.libraries.len() {
            Phase::Ensure
        } else {
            Phase::Finished
        };
        r
    }

    /// The library failed: the error is recorded under its path.
    fn library_failed(self, e: SyncError) -> (r: Run)
        requires
            0 <= self@.at < self@.libraries.len(),
            self@.report.libraries_processed == self@.at + 1,
            self@.error is None,
        ensures
            r@ == self@.library_failed(e@),
            r.inv(),
    {
        let cause = e.to_string();
        let message = concat3(self.libraries[self.at].ydb_path.as_str(), ": ", cause.as_str());
        self.with_error(message).next_library()
    }

    /// On to the comic at `n`, in a push run.
    fn find_from(self, n: usize) -> (r: Run)
        requires
            self.mid(),
            self@.mode == Mode::Push,
        ensures
            r@ == self@.find_from(n as int),
            r.inv(),
    {
        if n < self.work.comics.len() {
            let mut r = self;
            r.phase = Phase::Find(n);
            r
        } else {
            self.next_library()
        }
    }

    /// On to recording the pair at `n`.
    fn insert_from(self, n: usize) -> (r: Run)
        requires
            self.mid(),
            model::counters_fit(self@.insert_from(n as int).report),
        ensures
            r@ == self@.insert_from(n as int),
            r.inv(),
    {
        let mut r = self;
        let count: usize = r.work.pairs.len();
        if n < count {
            r.phase = Phase::Insert(n);
            return r;
        }
        r.report.comics_matched = r.report.comics_matched + count as u32;
        match r.mode {
            Mode::Push => r.find_from(0),
            _ => {
                r.phase = Phase::List;
                r
            },
        }
    }

    /// On to the pair at `n`, in a two-way run.
    fn load_from(self, n: usize) -> (r: Run)
        requires
            self.mid(),
            self@.mode != Mode::Push,
        ensures
            r@ == self@.load_from(n as int),
            r.inv(),
    {
        if n < self.work.pairs.len() {
            let mut r = self;
            r.phase = Phase::Load(n);
            r
        } else {
            self.next_library()
        }
    }

    /// What is to be pushed for a comic and its media.
    fn one_way(&self, n: usize, m: usize) -> (r: Option<SyncDelta>)
        requires
            n < self@.work.comics.len(),
            m < self@.work.media.len(),
        ensures
            reconcile::opt_delta(r) == reconcile::one_way(
                self@.work.comics[n as int],
                self@.work.media[m as int],
            ),
    {
        compute_delta(&self.work.comics[n], &self.work.media[m])
    }

    /// The comic at `n` is mapped to `id`.
    fn found(self, n: usize, id: Option<String>) -> (r: Run)
        requires
            self.mid(),
            self@.mode == Mode::Push,
            n < self@.work.comics.len(),
        ensures
            r@ == self@.found(n as int, text::opt_text(id)),
            r.inv(),
    {
        assert(n < self.work.comics.len());
        let id = match id {
            Some(id) => id,
            None => return self.find_from(n + 1),
        };
        assert(knows_media(self.work.media_ids@, self.work.media@, id@));
        let m: usize = match self.work.media_ids.get(id.as_str()) {
            Some(m) => *m,
            None => return self.find_from(n + 1),
        };
        match self.one_way(n, m) {
            Some(d) => {
                let mut r = self;
                r.phase = match d.new_page {
                    Some(_) => Phase::SendPage(n, m),
                    None => Phase::SendMark(n, m),
                };
                r
            },
            None => self.find_from(n + 1),
        }
    }

    /// All that was to be pushed for a comic has been pushed.
    fn sent(self, n: usize, m: usize) -> (r: Run)
        requires
            self.mid(),
            self@.mode == Mode::Push,
            n < self@.work.comics.len(),
            m < self@.work.media.len(),
            reconcile::one_way(self@.work.comics[n as int], self@.work.media[m as int]) is Some,
            model::counters_fit(self@.sent(n as int, m as int).report),
        ensures
            r@ == self@.sent(n as int, m as int),
            r.inv(),
    {
        assert(n < self.work.comics.len());
        let mut r = self;
        if let Some(d) = r.one_way(n, m) {
            if d.new_page.is_some() {
                r.report.pages_pushed = r.report.pages_pushed + 1;
            }
            if d.should_mark_complete {
                r.report.completions_pushed = r.report.completions_pushed + 1;
            }
        }
        r.find_from(n + 1)
    }

    /// The push to a media failed.
    fn media_error(self, m: usize, e: SyncError) -> (r: Run)
        requires
            m < self@.work.media.len(),
        ensures
            r@ == self@.media_error(self@.work.media[m as int].id@, e@),
            r.work == self.work,
    {
        let cause = e.to_string();
        let message = concat3(self.work.media[m].id.as_str(), ": ", cause.as_str());
        self.with_error(message)
    }

    /// The places of the comic and the media of a pair.
    fn pair(&self, n: usize) -> (r: (usize, usize))
        requires
            self@.inside(),
            n < self@.work.pairs.len(),
        ensures
            r.0 == self@.work.pairs[n as int].0,
            r.1 == self@.work.pairs[n as int].1,
            r.0 < self@.work.comics.len(),
            r.1 < self@.work.media.len(),
    {
        proof {
            matching::matches_are_real_and_ordered(
                self@.work.comics,
                self@.work.media,
                self@.library().stump_library_path,
            );
        }
        self.work.pairs[n]
    }

    /// What reconciling a pair comes to.
    fn delta(&self, n: usize) -> (r: BidirectionalDelta)
        requires
            self@.inside(),
            n < self@.work.pairs.len(),
        ensures
            r@ == self@.delta(n as int),
    {
        let (c, m): (usize, usize) = self.pair(n);
        proof {
            reveal(model::pair_delta);
        }
        reconcile_at(
            &self.work.comics[c],
            &self.work.media[m],
            self.libraries[self.at].ydb_path.as_str(),
            self.work.prev.as_ref(),
            self.work.now,
        )
    }

    /// The id of the record of a pair.
    fn mapping(&self, n: usize) -> (r: Option<i64>)
        requires
            self.mid(),
            n < self@.work.pairs.len(),
        ensures
            r == self@.mapping(n as int),
    {
        let (c, _m): (usize, usize) = self.pair(n);
        let comic: i64 = self.work.comics[c].comic_info_id;
        assert(knows_mapping(self.work.mapping_ids@, self.work.mappings@, comic));
        match self.work.mapping_ids.get(&comic) {
            Some(id) => Some(*id),
            None => None,
        }
    }

    /// Whether a step is to be done for a pair.
    fn due(&self, n: usize, stage: Stage) -> (r: bool)
        requires
            self.mid(),
            n < self@.work.pairs.len(),
        ensures
            r == self@.due(n as int, stage),
    {
        match stage {
            Stage::Page => match (self.mode, self.delta(n).push) {
                (Mode::Sync, Some(push)) => push.page.is_some(),
                _ => false,
            },
            Stage::Mark => match (self.mode, self.delta(n).push) {
                (Mode::Sync, Some(push)) => push.mark_complete,
                _ => false,
            },
            Stage::Write => self.delta(n).pull.is_some(),
            Stage::Save => self.mapping(n).is_some(),
        }
    }

    /// On to recording the converged state, where the pair has a record.
    fn to_save(self, n: usize) -> (r: Run)
        requires
            self.mid(),
            self@.mode != Mode::Push,
            n < self@.work.pairs.len(),
        ensures
            r@ == self@.to_save(n as int),
            r.inv(),
    {
        assert(n < self.work.pairs.len());
        if self.due(n, Stage::Save) {
            let mut r = self;
            r.phase = Phase::Comic(n, Stage::Save);
            r
        } else {
            self.load_from(n + 1)
        }
    }

    /// On to the pull, where there is one.
    fn to_write(self, n: usize) -> (r: Run)
        requires
            self.mid(),
            self@.mode != Mode::Push,
            n < self@.work.pairs.len(),
        ensures
            r@ == self@.to_write(n as int),
            r.inv(),
    {
        if self.due(n, Stage::Write) {
            let mut r = self;
            r.phase = Phase::Comic(n, Stage::Write);
            r
        } else {
            self.to_save(n)
        }
    }

    /// On to the completion, where it is to be pushed.
    fn to_mark(self, n: usize) -> (r: Run)
        requires
            self.mid(),
            self@.mode != Mode::Push,
            n < self@.work.pairs.len(),
        ensures
            r@ == self@.to_mark(n as int),
            r.inv(),
    {
        if self.due(n, Stage::Mark) {
            let mut r = self;
            r.phase = Phase::Comic(n, Stage::Mark);
            r
        } else {
            self.to_write(n)
        }
    }

    /// On to the page, where it is to be pushed.
    fn to_page(self, n: usize) -> (r: Run)
        requires
            self.mid(),
            self@.mode != Mode::Push,
            n < self@.work.pairs.len(),
        ensures
            r@ == self@.to_page(n as int),
            r.inv(),
    {
        if self.due(n, Stage::Page) {
            let mut r = self;
            r.phase = Phase::Comic(n, Stage::Page);
            r
        } else {
            self.to_mark(n)
        }
    }

    /// The next action.
    pub fn action(&self) -> (r: Action)
        requires
            self.inv(),
        ensures
            r@ == self@.action(),
    {
        match self.phase {
            Phase::Ensure => {
                let library = &self.libraries[self.at];
                Action::EnsureLibrary {
                    ydb_path: library.ydb_path.clone(),
                    stump_library_id: library.stump_library_id.clone(),
                    stump_library_path: library.stump_library_path.clone(),
                }
            },
            Phase::Read => Action::ReadComics {
                ydb_path: self.libraries[self.at].ydb_path.clone(),
                opened_only: match self.mode {
                    Mode::Push => true,
                    _ => false,
                },
            },
            Phase::Fetch => Action::FetchMedia {
                stump_library_id: self.libraries[self.at].stump_library_id.clone(),
            },
            Phase::Insert(n) => {
                let (c, m): (usize, usize) = self.pair(n);
                Action::InsertMapping {
                    library_mapping_id: self.work.library_id,
                    row: mapping_row(&self.work.comics[c], &self.work.media[m]),
                }
            },
            Phase::Find(n) => Action::FindStumpId {
                comic_info_id: self.work.comics[n].comic_info_id,
            },
            Phase::SendPage(n, m) => Action::UpdateProgress {
                media_id: self.work.media[m].id.clone(),
                page: self.work.comics[n].current_page,
            },
            Phase::SendMark(_, m) => Action::MarkComplete {
                media_id: self.work.media[m].id.clone(),
            },
            Phase::List => Action::ListMappings { library_mapping_id: self.work.library_id },
            Phase::Load(n) => Action::LoadState { mapping: self.mapping(n) },
            Phase::Comic(n, stage) => self.comic_action(n, stage),
            Phase::Finished => Action::Finish,
            Phase::Aborted => Action::Finish,
        }
    }

    /// The action of a step for a pair.
    fn comic_action(&self, n: usize, stage: Stage) -> (r: Action)
        requires
            self.inv(),
            self@.phase == model::PhaseView::Comic(n as int, stage),
        ensures
            r@ == self@.action(),
    {
        let (c, m): (usize, usize) = self.pair(n);
        let comic = &self.work.comics[c];
        let media = &self.work.media[m];
        let delta = self.delta(n);
        match stage {
            Stage::Page => Action::UpdateProgress {
                media_id: media.id.clone(),
                page: delta.final_page,
            },
            Stage::Mark => Action::MarkComplete { media_id: media.id.clone() },
            Stage::Write => {
                let (page, read, allow_regression, last_opened): (
                    Option<i32>,
                    bool,
                    bool,
                    Option<i64>,
                ) = match delta.pull {
                    Some(pull) => (
                        pull.page,
                        pull.set_read,
                        pull.allow_regression,
                        pull.last_opened,
                    ),
                    None => (None, false, false, None),
                };
                Action::WriteProgress {
                    ydb_path: self.libraries[self.at].ydb_path.clone(),
                    comic_info_id: comic.comic_info_id,
                    page: match page {
                        Some(page) => page,
                        None => comic.current_page,
                    },
                    num_pages: comic.num_pages,
                    read,
                    allow_regression,
                    last_opened,
                }
            },
            Stage::Save => {
                let mapping_id: i64 = match self.mapping(n) {
                    Some(id) => id,
                    None => 0,
                };
                Action::SaveState {
                    mapping_id,
                    page: delta.final_page,
                    complete: delta.final_complete,
                    yac_modified: match comic.last_time_opened {
                        Some(t) => Some(format_i64(t)),
                        None => None,
                    },
                    stump_modified: match media.stump_timestamp() {
                        Some(t) => Some(t.to_owned()),
                        None => None,
                    },
                }
            },
        }
    }

    /// Whether the counters of the report still fit their type after `reply`.
    pub fn has_room(&self, reply: &Reply) -> (r: bool)
        requires
            self.inv(),
        ensures
            r == model::counters_fit(self@.step(reply@).report),
    {
        let full: u32 = u32::MAX;
        match (self.phase, reply) {
            (Phase::Ensure, Reply::LibraryId(_)) => self.report.libraries_processed < full,
            (Phase::Insert(n), Reply::Done) => {
                assert(n < self.work.pairs.len());
                let count: usize = self.work.pairs.len();
                n + 1 < count || count <= (full - self.report.comics_matched) as usize
            },
            (Phase::SendPage(n, m), Reply::Done) => match self.one_way(n, m) {
                Some(d) => d.should_mark_complete || self.report.pages_pushed < full,
                None => true,
            },
            (Phase::SendMark(n, m), Reply::Done) => match self.one_way(n, m) {
                Some(d) => (d.new_page.is_none() || self.report.pages_pushed < full)
                    && self.report.completions_pushed < full,
                None => true,
            },
            (Phase::Comic(n, stage), Reply::Done) => self.comic_has_room(n, stage),
            _ => {
                proof {
                    if !(reply@ is LibraryId) && !(reply@ is Done) {
                        model::only_progress_is_counted(self@, reply@);
                    }
                }
                true
            },
        }
    }

    /// Whether the counters still fit their type after a step for a pair.
    fn comic_has_room(&self, n: usize, stage: Stage) -> (r: bool)
        requires
            self.inv(),
            self@.phase == model::PhaseView::Comic(n as int, stage),
        ensures
            r == model::counters_fit(
                self@.step(messages::ReplyView::Done).report,
            ),
    {
        let full: u32 = u32::MAX;
        match stage {
            Stage::Page => {
                proof {
                    model::moving_on_keeps_the_report(self@.count_page_push(), n as int);
                }
                self.report.pages_pushed < full
            },
            Stage::Mark => {
                proof {
                    model::moving_on_keeps_the_report(self@.count_mark(), n as int);
                }
                self.report.completions_pushed < full
            },
            Stage::Write => {
                proof {
                    model::moving_on_keeps_the_report(self@.count_pull(n as int), n as int);
                }
                match self.delta(n).pull {
                    Some(pull) => (pull.page.is_none() || self.report.pages_pulled < full) && (
                    !pull.set_read || self.report.completions_pulled < full),
                    None => true,
                }
            },
            Stage::Save => true,
        }
    }

    /// Takes the reply to the current action and moves on. A reply that does
    /// not answer the current action changes nothing.
    pub fn feed(self, reply: Reply) -> (r: Run)
        requires
            self.inv(),
            model::counters_fit(self@.step(reply@).report),
        ensures
            r.inv(),
            r@ == self@.step(reply@),
    {
        let mut r = self;
        match (r.phase, reply) {
            (Phase::Ensure, Reply::LibraryId(id)) => {
                r.work.library_id = id;
                r.report.libraries_processed = r.report.libraries_processed + 1;
                r.phase = Phase::Read;
                r
            },
            (Phase::Ensure, Reply::Failed(e)) => {
                r.error = Some(e);
                r.phase = Phase::Aborted;
                r
            },
            (Phase::Read, Reply::Comics(comics)) => {
                r.work.comics = comics;
                r.phase = Phase::Fetch;
                r
            },
            (Phase::Fetch, Reply::Media(media)) => {
                r.work.pairs = match_places(
                    r.work.comics.as_slice(),
                    media.as_slice(),
                    r.libraries[r.at].stump_library_path.as_str(),
                );
                r.work.media_ids = index_media(&media);
                r.work.media = media;
                r.insert_from(0)
            },
            (Phase::Insert(n), Reply::Done) => {
                assert(n < self.work.pairs.len());
                r.insert_from(n + 1)
            },
            (Phase::Find(n), Reply::StumpId(id)) => r.found(n, id),
            (Phase::SendPage(n, m), Reply::Done) => {
                let mark = match r.one_way(n, m) {
                    Some(d) => d.should_mark_complete,
                    None => false,
                };
                if mark {
                    r.phase = Phase::SendMark(n, m);
                    r
                } else {
                    r.sent(n, m)
                }
            },
            (Phase::SendMark(n, m), Reply::Done) => r.sent(n, m),
            (Phase::SendPage(n, m), Reply::Failed(e)) => {
                assert(n < self.work.comics.len());
                r.media_error(m, e).find_from(n + 1)
            },
            (Phase::SendMark(n, m), Reply::Failed(e)) => {
                assert(n < self.work.comics.len());
                r.media_error(m, e).find_from(n + 1)
            },
            (Phase::List, Reply::Mappings(mappings)) => {
                r.work.mapping_ids = index_mappings(&mappings);
                r.work.mappings = mappings;
                r.load_from(0)
            },
            (Phase::Load(n), Reply::State(prev, now)) => {
                r.work.prev = prev;
                r.work.now = now;
                r.to_page(n)
            },
            (Phase::Comic(n, stage), Reply::Done) => r.comic_done(n, stage),
            (Phase::Comic(n, stage), Reply::Failed(e)) => r.comic_failed(n, stage, e),
            (Phase::Read, Reply::Failed(e)) => r.library_failed(e),
            (Phase::Fetch, Reply::Failed(e)) => r.library_failed(e),
            (Phase::Insert(_), Reply::Failed(e)) => r.library_failed(e),
            (Phase::Find(_), Reply::Failed(e)) => r.library_failed(e),
            (Phase::List, Reply::Failed(e)) => r.library_failed(e),
            (Phase::Load(_), Reply::Failed(e)) => r.library_failed(e),
            _ => r,
        }
    }

    /// A step for a pair was carried out.
    fn comic_done(self, n: usize, stage: Stage) -> (r: Run)
        requires
            self.inv(),
            self@.phase == model::PhaseView::Comic(n as int, stage),
            model::counters_fit(self@.step(messages::ReplyView::Done).report),
        ensures
            r.inv(),
            r@ == self@.step(messages::ReplyView::Done),
    {
        let mut r = self;
        match stage {
            Stage::Page => {
                r.report.pages_pushed = r.report.pages_pushed + 1;
                r.to_mark(n)
            },
            Stage::Mark => {
                r.report.completions_pushed = r.report.completions_pushed + 1;
                r.to_write(n)
            },
            Stage::Write => {
                if let Some(pull) = r.delta(n).pull {
                    if pull.page.is_some() {
                        r.report.pages_pulled = r.report.pages_pulled + 1;
                    }
                    if pull.set_read {
                        r.report.completions_pulled = r.report.completions_pulled + 1;
                    }
                }
                r.to_save(n)
            },
            Stage::Save => {
                assert(n < self.work.pairs.len());
                r.load_from(n + 1)
            },
        }
    }

    /// A step for a pair failed. That the state could not be recorded is not
    /// reported.
    fn comic_failed(self, n: usize, stage: Stage, e: SyncError) -> (r: Run)
        requires
            self.inv(),
            self@.phase == model::PhaseView::Comic(n as int, stage),
        ensures
            r.inv(),
            r@ == self@.step(messages::ReplyView::Failed(e@)),
    {
        let (c, m): (usize, usize) = self.pair(n);
        match stage {
            Stage::Page => self.media_error(m, e).to_write(n),
            Stage::Mark => self.media_error(m, e).to_write(n),
            Stage::Write => {
                let id = format_i64(self.work.comics[c].comic_info_id);
                let cause = e.to_string();
                let mut message = concat3("yac:", id.as_str(), ": ");
                message.append(cause.as_str());
                self.with_error(message).to_save(n)
            },
            Stage::Save => {
                assert(n < self.work.pairs.len());
                self.load_from(n + 1)
            },
        }
    }

    /// What came of the run: `None` while it is not over, the report at its
    /// end, or the error that made it stop.
    pub fn into_result(self) -> (r: Option<Result<SyncReport, SyncError>>)
        requires
            self.inv(),
        ensures
            match self@.phase {
                model::PhaseView::Finished => r matches Some(Ok(report)) && report@
                    == self@.report,
                model::PhaseView::Aborted => r matches Some(Err(e)) && self@.error == Some(e@),
                _ => r is None,
            },
    {
        match (self.phase, self.error) {
            (Phase::Finished, _) => Some(Ok(self.report)),
            (Phase::Aborted, Some(e)) => Some(Err(e)),
            _ => None,
        }
    }
}

/// A run is what its state says: the action that it names is the one of its
/// state, a reply takes it to the state that follows, and once it is over it
/// gives its report, or the error that made it stop.
pub proof fn run_follows_its_state(
    run: Run,
    action: Action,
    reply: Reply,
    next: Run,
    result: Option<Result<SyncReport, SyncError>>,
)
    requires
        call_ensures(Run::action, (&run,), action),
        call_ensures(Run::feed, (run, reply), next),
        call_ensures(Run::into_result, (run,), result),
    ensures
        action@ == run@.action(),
        next@ == run@.step(reply@),
        next.inv(),
        run@.phase is Finished ==> (result matches Some(Ok(report)) && report@ == run@.report),
        run@.phase is Aborted ==> (result matches Some(Err(e)) && run@.error == Some(e@)),
        !(run@.phase is Finished) && !(run@.phase is Aborted) ==> result is None,
{
}

/// A reply that a run has room for can be handed to it.
pub proof fn reply_with_room_can_be_taken(run: Run, reply: Reply, room: bool)
    requires
        run.inv(),
        call_ensures(Run::has_room, (&run, &reply), room),
    ensures
        room ==> call_requires(Run::feed, (run, reply)),
        room <==> model::counters_fit(run@.step(reply@).report),
{
}

} // verus!
