//! The push of a single comic.
//!
//! It works like a run: it names the next action, takes the reply, and moves
//! on. It differs in that the first failure ends it.

use crate::config;
use crate::config::LibraryConfig;
use crate::decimal;
use crate::decimal::format_i64;
use crate::sync_engine::matching;
use crate::sync_engine::matching::{mapping_row, match_places};
use crate::sync_engine::messages;
use crate::sync_engine::messages::{Action, Reply};
use crate::sync_engine::reconcile;
use crate::sync_engine::reconcile::compute_delta;
use crate::text::{concat2, concat3, same_text};
use crate::types;
use crate::types::{ComicProgress, StumpMedia, SyncDelta, SyncError};
use vstd::prelude::*;
use vstd::string::*;

verus! {

/// Where the push of a comic stands; the numbers are places in the lists it
/// works on.
pub enum SinglePhaseView {
    Ensure,
    Read,
    Fetch,
    /// Look up the mapping of the comic.
    Find,
    /// Record the matched pair at this place, as the comic has no mapping.
    Insert(int),
    /// Look up the mapping again.
    FindAgain,
    /// Send the page to the media at this place.
    SendPage(int),
    /// Mark the media at this place complete.
    SendMark(int),
    Over,
}

/// The state of the push of a comic.
pub struct SingleView {
    pub library: config::LibraryConfigView,
    pub comic_id: i64,
    pub library_id: i64,
    pub comics: Seq<ComicProgress>,
    /// The place of the comic in `comics`.
    pub comic: int,
    pub media: Seq<StumpMedia>,
    pub pairs: Seq<(int, int)>,
    pub phase: SinglePhaseView,
    /// What made the push fail.
    pub error: Option<types::ErrorView>,
}

/// The first place in `comics`, from `from` on, of the comic with this id.
pub open spec fn first_comic(comics: Seq<ComicProgress>, from: int, comic_id: i64) -> Option<int>
    decreases comics.len() - from,
{
    if from >= comics.len() {
        None
    } else if comics[from].comic_id == comic_id {
        Some(from)
    } else {
        first_comic(comics, from + 1, comic_id)
    }
}

/// The first place in `media`, from `from` on, of the one with this id.
pub open spec fn first_media(media: Seq<StumpMedia>, from: int, id: Seq<char>) -> Option<int>
    decreases media.len() - from,
{
    if from >= media.len() {
        None
    } else if media[from].id@ == id {
        Some(from)
    } else {
        first_media(media, from + 1, id)
    }
}

/// The state at the start of the push of a comic.
pub open spec fn single_started(library: config::LibraryConfigView, comic_id: i64) -> SingleView {
    SingleView {
        library,
        comic_id,
        library_id: 0,
        comics: Seq::empty(),
        comic: 0,
        media: Seq::empty(),
        pairs: Seq::empty(),
        phase: SinglePhaseView::Ensure,
        error: None,
    }
}

impl SingleView {
    /// The push is over, well or with an error.
    pub open spec fn ended(self, error: Option<types::ErrorView>) -> SingleView {
        SingleView { phase: SinglePhaseView::Over, error, ..self }
    }

    /// What is to be pushed to the media at `m`.
    pub open spec fn delta(self, m: int) -> Option<types::SyncDeltaView> {
        reconcile::one_way(self.comics[self.comic], self.media[m])
    }

    /// The comic is mapped to the media `id`.
    pub open spec fn mapped_to(self, id: Seq<char>) -> SingleView {
        match first_media(self.media, 0, id) {
            Some(m) => match self.delta(m) {
                Some(d) => if d.new_page is Some {
                    SingleView { phase: SinglePhaseView::SendPage(m), ..self }
                } else {
                    SingleView { phase: SinglePhaseView::SendMark(m), ..self }
                },
                None => self.ended(None),
            },
            None => self.ended(
                Some(types::ErrorView::Config("Stump media "@ + id + " not found"@)),
            ),
        }
    }

    /// On to recording the pair at `n`, and behind the last one to the second
    /// look at the mapping.
    pub open spec fn insert_from(self, n: int) -> SingleView {
        if n < self.pairs.len() {
            SingleView { phase: SinglePhaseView::Insert(n), ..self }
        } else {
            SingleView { phase: SinglePhaseView::FindAgain, ..self }
        }
    }

    /// The next action.
    pub open spec fn action(self) -> messages::ActionView {
        match self.phase {
            SinglePhaseView::Ensure => messages::ActionView::EnsureLibrary {
                ydb_path: self.library.ydb_path,
                stump_library_id: self.library.stump_library_id,
                stump_library_path: self.library.stump_library_path,
            },
            SinglePhaseView::Read => messages::ActionView::ReadComics {
                ydb_path: self.library.ydb_path,
                opened_only: true,
            },
            SinglePhaseView::Fetch => messages::ActionView::FetchMedia {
                stump_library_id: self.library.stump_library_id,
            },
            SinglePhaseView::Find => messages::ActionView::FindStumpId {
                comic_info_id: self.comics[self.comic].comic_info_id,
            },
            SinglePhaseView::Insert(n) => messages::ActionView::InsertMapping {
                library_mapping_id: self.library_id,
                row: matching::mapping_of(
                    self.comics[self.pairs[n].0],
                    self.media[self.pairs[n].1],
                ),
            },
            SinglePhaseView::FindAgain => messages::ActionView::FindStumpId {
                comic_info_id: self.comics[self.comic].comic_info_id,
            },
            SinglePhaseView::SendPage(m) => messages::ActionView::UpdateProgress {
                media_id: self.media[m].id@,
                page: self.comics[self.comic].current_page,
            },
            SinglePhaseView::SendMark(m) => messages::ActionView::MarkComplete {
                media_id: self.media[m].id@,
            },
            SinglePhaseView::Over => messages::ActionView::Finish,
        }
    }

    /// The push after a reply. A reply that does not answer the current action
    /// changes nothing.
    pub open spec fn step(self, reply: messages::ReplyView) -> SingleView {
        match (self.phase, reply) {
            (SinglePhaseView::Over, _) => self,
            (_, messages::ReplyView::Failed(e)) => self.ended(Some(e)),
            (SinglePhaseView::Ensure, messages::ReplyView::LibraryId(id)) => SingleView {
                library_id: id,
                phase: SinglePhaseView::Read,
                ..self
            },
            (SinglePhaseView::Read, messages::ReplyView::Comics(comics)) => match first_comic(
                comics,
                0,
                self.comic_id,
            ) {
                Some(comic) => SingleView { comics, comic, phase: SinglePhaseView::Fetch, ..self },
                None => self.ended(
                    Some(
                        types::ErrorView::Database(
                            "comic "@ + decimal::decimal(self.comic_id as int)
                                + " not found in ydb"@,
                        ),
                    ),
                ),
            },
            (SinglePhaseView::Fetch, messages::ReplyView::Media(media)) => SingleView {
                media,
                phase: SinglePhaseView::Find,
                ..self
            },
            (SinglePhaseView::Find, messages::ReplyView::StumpId(Some(id))) => self.mapped_to(id),
            (SinglePhaseView::Find, messages::ReplyView::StumpId(None)) => SingleView {
                pairs: matching::matched(
                    self.comics,
                    self.media,
                    self.library.stump_library_path,
                ),
                ..self
            }.insert_from(0),
            (SinglePhaseView::Insert(n), messages::ReplyView::Done) => self.insert_from(n + 1),
            (SinglePhaseView::FindAgain, messages::ReplyView::StumpId(Some(id))) => self.mapped_to(id),
            (SinglePhaseView::FindAgain, messages::ReplyView::StumpId(None)) => self.ended(
                Some(
                    types::ErrorView::Config(
                        "no Stump match for comic_info_id "@ + decimal::decimal(
                            self.comics[self.comic].comic_info_id as int,
                        ),
                    ),
                ),
            ),
            (SinglePhaseView::SendPage(m), messages::ReplyView::Done) => if self.delta(
                m,
            )->0.should_mark_complete {
                SingleView { phase: SinglePhaseView::SendMark(m), ..self }
            } else {
                self.ended(None)
            },
            (SinglePhaseView::SendMark(_), messages::ReplyView::Done) => self.ended(None),
            _ => self,
        }
    }

    /// The comic is known.
    pub open spec fn comic_known(self) -> bool {
        &&& 0 <= self.comic < self.comics.len()
        &&& self.comics[self.comic].comic_id == self.comic_id
    }

    /// The state is one that the push of a comic can be in.
    pub open spec fn wf(self) -> bool {
        &&& !(self.phase is Over) ==> self.error is None
        &&& match self.phase {
            SinglePhaseView::Fetch => self.comic_known(),
            SinglePhaseView::Find => self.comic_known(),
            SinglePhaseView::Insert(n) => {
                &&& self.comic_known()
                &&& 0 <= n < self.pairs.len()
                &&& self.pairs == matching::matched(
                    self.comics,
                    self.media,
                    self.library.stump_library_path,
                )
            },
            SinglePhaseView::FindAgain => self.comic_known(),
            SinglePhaseView::SendPage(m) => {
                &&& self.comic_known()
                &&& 0 <= m < self.media.len()
                &&& self.delta(m) matches Some(d)
                &&& d.new_page is Some
            },
            SinglePhaseView::SendMark(m) => {
                &&& self.comic_known()
                &&& 0 <= m < self.media.len()
                &&& self.delta(m) matches Some(d)
                &&& d.should_mark_complete
            },
            _ => true,
        }
    }
}

/// Where the push of a comic stands.
#[derive(Debug, Clone, Copy)]
enum SinglePhase {
    Ensure,
    Read,
    Fetch,
    Find,
    Insert(usize),
    FindAgain,
    SendPage(usize),
    SendMark(usize),
    Over,
}

impl View for SinglePhase {
    type V = SinglePhaseView;

    closed spec fn view(&self) -> SinglePhaseView {
        match *self {
            SinglePhase::Ensure => SinglePhaseView::Ensure,
            SinglePhase::Read => SinglePhaseView::Read,
            SinglePhase::Fetch => SinglePhaseView::Fetch,
            SinglePhase::Find => SinglePhaseView::Find,
            SinglePhase::Insert(n) => SinglePhaseView::Insert(n as int),
            SinglePhase::FindAgain => SinglePhaseView::FindAgain,
            SinglePhase::SendPage(m) => SinglePhaseView::SendPage(m as int),
            SinglePhase::SendMark(m) => SinglePhaseView::SendMark(m as int),
            SinglePhase::Over => SinglePhaseView::Over,
        }
    }
}

/// The push of a single comic.
pub struct SinglePush {
    library: LibraryConfig,
    comic_id: i64,
    library_id: i64,
    comics: Vec<ComicProgress>,
    comic: usize,
    media: Vec<StumpMedia>,
    pairs: Vec<(usize, usize)>,
    phase: SinglePhase,
    error: Option<SyncError>,
}

impl View for SinglePush {
    type V = SingleView;

    closed spec fn view(&self) -> SingleView {
        SingleView {
            library: self.library@,
            comic_id: self.comic_id,
            library_id: self.library_id,
            comics: self.comics@,
            comic: self.comic as int,
            media: self.media@,
            pairs: matching::places(self.pairs@),
            phase: self.phase@,
            error: match self.error {
                Some(e) => Some(e@),
                None => None,
            },
        }
    }
}

/// The first place that `first_comic` gives is in range and holds the comic.
pub proof fn first_comic_is_found(comics: Seq<ComicProgress>, from: int, comic_id: i64)
    requires
        0 <= from,
    ensures
        match first_comic(comics, from, comic_id) {
            Some(i) => from <= i < comics.len() && comics[i].comic_id == comic_id,
            None => forall|k: int|
                from <= k < comics.len() ==> (#[trigger] comics[k]).comic_id != comic_id,
        },
    decreases comics.len() - from,
{
    if from < comics.len() && comics[from].comic_id != comic_id {
        first_comic_is_found(comics, from + 1, comic_id);
    }
}

/// The first place that `first_media` gives is in range and holds the media.
pub proof fn first_media_is_found(media: Seq<StumpMedia>, from: int, id: Seq<char>)
    requires
        0 <= from,
    ensures
        match first_media(media, from, id) {
            Some(i) => from <= i < media.len() && media[i].id@ == id,
            None => forall|k: int| from <= k < media.len() ==> (#[trigger] media[k]).id@ != id,
        },
    decreases media.len() - from,
{
    if from < media.len() && media[from].id@ != id {
        first_media_is_found(media, from + 1, id);
    }
}

/// The place of the first comic with this id.
fn find_comic(comics: &Vec<ComicProgress>, comic_id: i64) -> (r: Option<usize>)
    ensures
        match first_comic(comics@, 0, comic_id) {
            Some(i) => r matches Some(k) && k == i && k < comics@.len(),
            None => r is None,
        },
{
    let n: usize = comics.len();
    proof {
        first_comic_is_found(comics@, 0, comic_id);
    }
    for i in 0..n
        invariant
            n == comics@.len(),
            first_comic(comics@, 0, comic_id) == first_comic(comics@, i as int, comic_id),
    {
        if comics[i].comic_id == comic_id {
            return Some(i);
        }
    }
    None
}

/// The place of the first media with this id.
fn find_media(media: &Vec<StumpMedia>, id: &str) -> (r: Option<usize>)
    ensures
        match first_media(media@, 0, id@) {
            Some(i) => r matches Some(k) && k == i && k < media@.len(),
            None => r is None,
        },
{
    let n: usize = media.len();
    proof {
        first_media_is_found(media@, 0, id@);
    }
    for i in 0..n
        invariant
            n == media@.len(),
            first_media(media@, 0, id@) == first_media(media@, i as int, id@),
    {
        if same_text(media[i].id.as_str(), id) {
            return Some(i);
        }
    }
    None
}

impl SinglePush {
    /// The push is in a possible state.
    pub closed spec fn inv(self) -> bool {
        self@.wf()
    }

    /// Starts the push of the comic `comic_id` of a library.
    pub fn new(library: LibraryConfig, comic_id: i64) -> (r: SinglePush)
        ensures
            r.inv(),
            r@ == single_started(library@, comic_id),
    {
        let r = SinglePush {
            library,
            comic_id,
            library_id: 0,
            comics: Vec::new(),
            comic: 0,
            media: Vec::new(),
            pairs: Vec::new(),
            phase: SinglePhase::Ensure,
            error: None,
        };
        assert(r@.pairs =~= Seq::<(int, int)>::empty());
        assert(r@.comics =~= Seq::<ComicProgress>::empty());
        assert(r@.media =~= Seq::<StumpMedia>::empty());
        r
    }

    /// The push failed.
    fn failed(self, e: SyncError) -> (r: SinglePush)
        ensures
            r.inv(),
            r@ == self@.ended(Some(e@)),
    {
        let mut r = self;
        r.error = Some(e);
        r.phase = SinglePhase::Over;
        r
    }

    /// The push went well.
    fn done(self) -> (r: SinglePush)
        ensures
            r.inv(),
            r@ == self@.ended(None),
    {
        let mut r = self;
        r.error = None;
        r.phase = SinglePhase::Over;
        r
    }

    /// What is to be pushed to the media at `m`.
    fn delta(&self, m: usize) -> (r: Option<SyncDelta>)
        requires
            self@.comic_known(),
            m < self@.media.len(),
        ensures
            reconcile::opt_delta(r) == self@.delta(m as int),
    {
        compute_delta(&self.comics[self.comic], &self.media[m])
    }

    /// The comic is mapped to the media `id`.
    fn mapped_to(self, id: String) -> (r: SinglePush)
        requires
            self@.comic_known(),
            self@.error is None,
        ensures
            r.inv(),
            r@ == self@.mapped_to(id@),
    {
        let m: usize = match find_media(&self.media, id.as_str()) {
            Some(m) => m,
            None => {
                let message = concat3("Stump media ", id.as_str(), " not found");
                return self.failed(SyncError::Config(message));
            },
        };
        match self.delta(m) {
            Some(d) => {
                let mut r = self;
                r.phase = match d.new_page {
                    Some(_) => SinglePhase::SendPage(m),
                    None => SinglePhase::SendMark(m),
                };
                r
            },
            None => self.done(),
        }
    }

    /// On to recording the pair at `n`.
    fn insert_from(self, n: usize) -> (r: SinglePush)
        requires
            self@.comic_known(),
            self@.error is None,
            self@.pairs == matching::matched(
                self@.comics,
                self@.media,
                self@.library.stump_library_path,
            ),
        ensures
            r.inv(),
            r@ == self@.insert_from(n as int),
    {
        let mut r = self;
        r.phase = if n < r.pairs.len() {
            SinglePhase::Insert(n)
        } else {
            SinglePhase::FindAgain
        };
        r
    }

    /// The next action.
    pub fn action(&self) -> (r: Action)
        requires
            self.inv(),
        ensures
            r@ == self@.action(),
    {
        match self.phase {
            SinglePhase::Ensure => Action::EnsureLibrary {
                ydb_path: self.library.ydb_path.clone(),
                stump_library_id: self.library.stump_library_id.clone(),
                stump_library_path: self.library.stump_library_path.clone(),
            },
            SinglePhase::Read => Action::ReadComics {
                ydb_path: self.library.ydb_path.clone(),
                opened_only: true,
            },
            SinglePhase::Fetch => Action::FetchMedia {
                stump_library_id: self.library.stump_library_id.clone(),
            },
            SinglePhase::Find => Action::FindStumpId {
                comic_info_id: self.comics[self.comic].comic_info_id,
            },
            SinglePhase::Insert(n) => {
                proof {
                    matching::matches_are_real_and_ordered(
                        self@.comics,
                        self@.media,
                        self@.library.stump_library_path,
                    );
                    assert(self@.pairs[n as int].0 == self.pairs@[n as int].0);
                }
                let (c, m): (usize, usize) = self.pairs[n];
                Action::InsertMapping {
                    library_mapping_id: self.library_id,
                    row: mapping_row(&self.comics[c], &self.media[m]),
                }
            },
            SinglePhase::FindAgain => Action::FindStumpId {
                comic_info_id: self.comics[self.comic].comic_info_id,
            },
            SinglePhase::SendPage(m) => Action::UpdateProgress {
                media_id: self.media[m].id.clone(),
                page: self.comics[self.comic].current_page,
            },
            SinglePhase::SendMark(m) => Action::MarkComplete { media_id: self.media[m].id.clone() },
            SinglePhase::Over => Action::Finish,
        }
    }

    /// Takes the reply to the current action and moves on. A reply that does
    /// not answer the current action changes nothing.
    pub fn feed(self, reply: Reply) -> (r: SinglePush)
        requires
            self.inv(),
        ensures
            r.inv(),
            r@ == self@.step(reply@),
    {
        let mut r = self;
        match (r.phase, reply) {
            (SinglePhase::Over, _) => r,
            (_, Reply::Failed(e)) => r.failed(e),
            (SinglePhase::Ensure, Reply::LibraryId(id)) => {
                r.library_id = id;
                r.phase = SinglePhase::Read;
                r
            },
            (SinglePhase::Read, Reply::Comics(comics)) => match find_comic(&comics, r.comic_id) {
                Some(comic) => {
                    proof {
                        first_comic_is_found(comics@, 0, r.comic_id);
                    }
                    r.comics = comics;
                    r.comic = comic;
                    r.phase = SinglePhase::Fetch;
                    r
                },
                None => {
                    let id = format_i64(r.comic_id);
                    let message = concat3("comic ", id.as_str(), " not found in ydb");
                    r.failed(SyncError::Database(message))
                },
            },
            (SinglePhase::Fetch, Reply::Media(media)) => {
                r.media = media;
                r.phase = SinglePhase::Find;
                r
            },
            (SinglePhase::Find, Reply::StumpId(Some(id))) => r.mapped_to(id),
            (SinglePhase::Find, Reply::StumpId(None)) => {
                r.pairs = match_places(
                    r.comics.as_slice(),
                    r.media.as_slice(),
                    r.library.stump_library_path.as_str(),
                );
                r.insert_from(0)
            },
            (SinglePhase::Insert(n), Reply::Done) => {
                assert(n < r.pairs.len());
                r.insert_from(n + 1)
            },
            (SinglePhase::FindAgain, Reply::StumpId(Some(id))) => r.mapped_to(id),
            (SinglePhase::FindAgain, Reply::StumpId(None)) => {
                let id = format_i64(r.comics[r.comic].comic_info_id);
                let message = concat2("no Stump match for comic_info_id ", id.as_str());
                r.failed(SyncError::Config(message))
            },
            (SinglePhase::SendPage(m), Reply::Done) => {
                let mark = match r.delta(m) {
                    Some(d) => d.should_mark_complete,
                    None => false,
                };
                if mark {
                    r.phase = SinglePhase::SendMark(m);
                    r
                } else {
                    r.done()
                }
            },
            (SinglePhase::SendMark(_), Reply::Done) => r.done(),
            _ => r,
        }
    }

    /// What came of the push: `None` while it is not over.
    pub fn into_result(self) -> (r: Option<Result<(), SyncError>>)
        requires
            self.inv(),
        ensures
            match (self@.phase, self@.error) {
                (SinglePhaseView::Over, None) => r matches Some(Ok(_)),
                (SinglePhaseView::Over, Some(cause)) => r matches Some(Err(e)) && e@ == cause,
                _ => r is None,
            },
    {
        match (self.phase, self.error) {
            (SinglePhase::Over, None) => Some(Ok(())),
            (SinglePhase::Over, Some(e)) => Some(Err(e)),
            _ => None,
        }
    }
}

/// A reply takes a possible state to a possible one.
pub proof fn single_step_keeps_states_possible(push: SingleView, reply: messages::ReplyView)
    requires
        push.wf(),
    ensures
        push.step(reply).wf(),
{
    if let messages::ReplyView::Comics(comics) = reply {
        first_comic_is_found(comics, 0, push.comic_id);
    }
    if let messages::ReplyView::StumpId(Some(id)) = reply {
        first_media_is_found(push.media, 0, id);
    }
    matching::matches_are_real_and_ordered(
        push.comics,
        push.media,
        push.library.stump_library_path,
    );
}

/// Only the comic that was asked for is pushed, with its own page, and it is
/// marked complete only where it is read and Stump does not hold it as
/// complete.
pub proof fn single_pushes_only_its_comic(push: SingleView)
    requires
        push.wf(),
    ensures
        push.action().changes_stump() ==> push.comics[push.comic].comic_id == push.comic_id,
        push.action() matches messages::ActionView::UpdateProgress { page, .. } ==> page
            == push.comics[push.comic].current_page,
        push.action() matches messages::ActionView::MarkComplete { media_id } ==> push.comics[
            push.comic].read && exists|m: int|
            0 <= m < push.media.len() && (#[trigger] push.media[m]).id@ == media_id
                && !push.media[m].completed(),
        !push.action().changes_ydb(),
        !push.action().changes_state(),
{
    if let SinglePhaseView::SendMark(m) = push.phase {
        assert(!push.media[m].completed());
    }
}

/// The first failure ends the push, with the error that it came with.
pub proof fn single_ends_at_first_failure(push: SingleView, e: types::ErrorView)
    requires
        !(push.phase is Over),
    ensures
        push.step(messages::ReplyView::Failed(e)).phase is Over,
        push.step(messages::ReplyView::Failed(e)).error == Some(e),
{
}

/// Mappings are recorded only after a first look found none for the comic.
pub proof fn single_records_only_on_a_miss(push: SingleView, reply: messages::ReplyView)
    requires
        push.wf(),
        !(push.action() is InsertMapping),
        push.step(reply).action() is InsertMapping,
    ensures
        push.phase is Find,
        reply == messages::ReplyView::StumpId(None),
{
}

/// How far the push of a comic is from its end: the kind of step, and the
/// pairs left to record. Compared in this order.
pub open spec fn single_distance(push: SingleView) -> (int, int) {
    match push.phase {
        SinglePhaseView::Ensure => (8, 0),
        SinglePhaseView::Read => (7, 0),
        SinglePhaseView::Fetch => (6, 0),
        SinglePhaseView::Find => (5, 0),
        SinglePhaseView::Insert(n) => (4, push.pairs.len() - n),
        SinglePhaseView::FindAgain => (3, 0),
        SinglePhaseView::SendPage(_) => (2, 0),
        SinglePhaseView::SendMark(_) => (1, 0),
        SinglePhaseView::Over => (0, 0),
    }
}

/// Every reply that answers the current action brings the push nearer to its
/// end. As no part of a distance is negative, it ends.
pub proof fn single_always_ends(push: SingleView, reply: messages::ReplyView)
    requires
        push.wf(),
        messages::answers(reply, push.action()),
    ensures
        ({
            let before = single_distance(push);
            let after = single_distance(push.step(reply));
            after.0 < before.0 || after.0 == before.0 && after.1 < before.1
        }),
        single_distance(push).0 >= 0,
        single_distance(push).1 >= 0,
{
    matching::matches_are_real_and_ordered(
        push.comics,
        push.media,
        push.library.stump_library_path,
    );
}

/// The push of a comic is what its state says: the action that it names is the
/// one of its state, a reply takes it to the state that follows, and once it is
/// over it gives its error or ends well.
pub proof fn push_follows_its_state(
    push: SinglePush,
    action: Action,
    reply: Reply,
    next: SinglePush,
    result: Option<Result<(), SyncError>>,
)
    requires
        call_ensures(SinglePush::action, (&push,), action),
        call_ensures(SinglePush::feed, (push, reply), next),
        call_ensures(SinglePush::into_result, (push,), result),
    ensures
        action@ == push@.action(),
        next@ == push@.step(reply@),
        next.inv(),
        push@.phase is Over && push@.error is None ==> (result matches Some(Ok(_))),
        push@.phase is Over ==> (push@.error matches Some(cause) ==> (result matches Some(Err(e))
            && e@ == cause)),
        !(push@.phase is Over) ==> result is None,
{
}

} // verus!
