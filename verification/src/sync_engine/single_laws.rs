//! What each reply makes the push of a single comic ask for next, from its
//! first action to its last.

use crate::config;
use crate::decimal;
use crate::sync_engine::matching;
use crate::sync_engine::messages;
use crate::sync_engine::single;
use crate::types;
use crate::types::{ComicProgress, StumpMedia};
use vstd::prelude::*;

verus! {

/// The push of a comic starts with the record of its library.
pub proof fn single_push_starts_with_the_library(
    library: config::LibraryConfigView,
    comic_id: i64,
)
    ensures
        ({
            let push = single::single_started(library, comic_id);
            &&& push.phase is Ensure
            &&& push.error is None
            &&& push.library == library
            &&& push.comic_id == comic_id
            &&& push.action() == messages::ActionView::EnsureLibrary {
                ydb_path: library.ydb_path,
                stump_library_id: library.stump_library_id,
                stump_library_path: library.stump_library_path,
            }
        }),
{
}

/// Once the library has its record its opened comics are read.
pub proof fn single_push_reads_the_opened_comics(push: single::SingleView, id: i64)
    requires
        push.phase is Ensure,
    ensures
        ({
            let next = push.step(messages::ReplyView::LibraryId(id));
            &&& next == (single::SingleView { library_id: id, phase: next.phase, ..push })
            &&& next.phase is Read
            &&& next.action() == messages::ActionView::ReadComics {
                ydb_path: push.library.ydb_path,
                opened_only: true,
            }
        }),
{
}

/// `first_comic` gives the first comic with an id.
proof fn first_comic_is_the_first(
    comics: Seq<ComicProgress>,
    from: int,
    comic_id: i64,
    c: int,
)
    requires
        0 <= from <= c < comics.len(),
        comics[c].comic_id == comic_id,
        forall|k: int| from <= k < c ==> (#[trigger] comics[k]).comic_id != comic_id,
    ensures
        single::first_comic(comics, from, comic_id) == Some(c),
    decreases comics.len() - from,
{
    if from < c {
        assert(comics[from].comic_id != comic_id);
        first_comic_is_the_first(comics, from + 1, comic_id, c);
    }
}

/// `first_media` gives the first media with an id.
proof fn first_media_is_the_first(media: Seq<StumpMedia>, from: int, id: Seq<char>, m: int)
    requires
        0 <= from <= m < media.len(),
        media[m].id@ == id,
        forall|k: int| from <= k < m ==> (#[trigger] media[k]).id@ != id,
    ensures
        single::first_media(media, from, id) == Some(m),
    decreases media.len() - from,
{
    if from < m {
        assert(media[from].id@ != id);
        first_media_is_the_first(media, from + 1, id, m);
    }
}

/// Once the comics are read, the first one with the id that was asked for is
/// taken, and the media of the library are fetched.
pub proof fn single_push_takes_the_comic_it_was_asked_for(
    push: single::SingleView,
    comics: Seq<ComicProgress>,
    c: int,
)
    requires
        push.phase is Read,
        0 <= c < comics.len(),
        comics[c].comic_id == push.comic_id,
        forall|k: int| 0 <= k < c ==> (#[trigger] comics[k]).comic_id != push.comic_id,
    ensures
        ({
            let next = push.step(messages::ReplyView::Comics(comics));
            &&& next == (single::SingleView { comics, comic: c, phase: next.phase, ..push })
            &&& next.phase is Fetch
            &&& next.action() == messages::ActionView::FetchMedia {
                stump_library_id: push.library.stump_library_id,
            }
        }),
{
    first_comic_is_the_first(comics, 0, push.comic_id, c);
}

/// A comic that was never opened, or is not there, cannot be pushed: the push
/// ends with an error that names it.
pub proof fn single_push_needs_its_comic(push: single::SingleView, comics: Seq<ComicProgress>)
    requires
        push.phase is Read,
        forall|k: int|
            0 <= k < comics.len() ==> (#[trigger] comics[k]).comic_id != push.comic_id,
    ensures
        ({
            let next = push.step(messages::ReplyView::Comics(comics));
            &&& next.phase is Over
            &&& next.action() is Finish
            &&& next.error == Some(
                types::ErrorView::Database(
                    "comic "@ + decimal::decimal(push.comic_id as int) + " not found in ydb"@,
                ),
            )
        }),
{
    single::first_comic_is_found(comics, 0, push.comic_id);
}

/// Once the media are fetched the mapping of the comic is looked up.
pub proof fn single_push_looks_up_the_mapping(push: single::SingleView, media: Seq<StumpMedia>)
    requires
        push.phase is Fetch,
    ensures
        ({
            let next = push.step(messages::ReplyView::Media(media));
            &&& next == (single::SingleView { media, phase: next.phase, ..push })
            &&& next.phase is Find
            &&& next.action() == messages::ActionView::FindStumpId {
                comic_info_id: push.comics[push.comic].comic_info_id,
            }
        }),
{
}

/// The push does not end before it has sent what is ahead. Where either look-up
/// answers with the id of a media of the library, the comic's page is sent
/// where it lies above Stump's, and without one the mark is sent where
/// YACReader alone holds the comic as complete. The push ends well without
/// sending anything only where YACReader is ahead in neither. Of several media
/// with one id the first one counts.
pub proof fn mapped_comic_is_pushed_before_the_end(
    push: single::SingleView,
    id: Seq<char>,
    m: int,
)
    requires
        push.phase is Find || push.phase is FindAgain,
        0 <= m < push.media.len(),
        push.media[m].id@ == id,
        forall|k: int| 0 <= k < m ==> (#[trigger] push.media[k]).id@ != id,
    ensures
        ({
            let next = push.step(messages::ReplyView::StumpId(Some(id)));
            let comic = push.comics[push.comic];
            let media = push.media[m];
            let ahead = comic.current_page > media.page_now();
            let unmarked = comic.read && media.read_history@.len() == 0;
            &&& ahead ==> {
                &&& next == (single::SingleView { phase: next.phase, ..push })
                &&& next.phase == single::SinglePhaseView::SendPage(m)
                &&& next.action() == messages::ActionView::UpdateProgress {
                    media_id: id,
                    page: comic.current_page,
                }
            }
            &&& !ahead && unmarked ==> {
                &&& next == (single::SingleView { phase: next.phase, ..push })
                &&& next.phase == single::SinglePhaseView::SendMark(m)
                &&& next.action() == messages::ActionView::MarkComplete { media_id: id }
            }
            &&& !ahead && !unmarked ==> {
                &&& next.phase is Over
                &&& next.action() is Finish
                &&& next.error is None
            }
        }),
{
    first_media_is_the_first(push.media, 0, id, m);
}

/// A mapping to a media that is not in the library ends the push with an error
/// that names the media.
pub proof fn single_push_needs_its_media(push: single::SingleView, id: Seq<char>)
    requires
        push.phase is Find || push.phase is FindAgain,
        forall|k: int| 0 <= k < push.media.len() ==> (#[trigger] push.media[k]).id@ != id,
    ensures
        ({
            let next = push.step(messages::ReplyView::StumpId(Some(id)));
            &&& next.phase is Over
            &&& next.action() is Finish
            &&& next.error == Some(
                types::ErrorView::Config("Stump media "@ + id + " not found"@),
            )
        }),
{
    single::first_media_is_found(push.media, 0, id);
}

/// Where the first look-up finds no mapping, all matched pairs of the library
/// are recorded, the first one first; without any pair the look-up is repeated
/// at once.
pub proof fn missing_mapping_records_the_pairs(push: single::SingleView)
    requires
        push.phase is Find,
    ensures
        ({
            let next = push.step(messages::ReplyView::StumpId(None));
            let pairs = matching::matched(
                push.comics,
                push.media,
                push.library.stump_library_path,
            );
            &&& next == (single::SingleView { pairs, phase: next.phase, ..push })
            &&& pairs.len() > 0 ==> {
                &&& next.phase == single::SinglePhaseView::Insert(0)
                &&& next.action() == messages::ActionView::InsertMapping {
                    library_mapping_id: push.library_id,
                    row: matching::mapping_of(push.comics[pairs[0].0], push.media[pairs[0].1]),
                }
            }
            &&& pairs.len() == 0 ==> {
                &&& next.phase is FindAgain
                &&& next.action() == messages::ActionView::FindStumpId {
                    comic_info_id: push.comics[push.comic].comic_info_id,
                }
            }
        }),
{
}

/// The pairs are recorded one behind the other, and behind the last one the
/// look-up is repeated.
pub proof fn single_push_records_in_order(push: single::SingleView, n: int)
    requires
        push.phase == single::SinglePhaseView::Insert(n),
        0 <= n < push.pairs.len(),
    ensures
        ({
            let next = push.step(messages::ReplyView::Done);
            let pairs = push.pairs;
            &&& next == (single::SingleView { phase: next.phase, ..push })
            &&& n + 1 < pairs.len() ==> {
                &&& next.phase == single::SinglePhaseView::Insert(n + 1)
                &&& next.action() == messages::ActionView::InsertMapping {
                    library_mapping_id: push.library_id,
                    row: matching::mapping_of(
                        push.comics[pairs[n + 1].0],
                        push.media[pairs[n + 1].1],
                    ),
                }
            }
            &&& n + 1 == pairs.len() ==> {
                &&& next.phase is FindAgain
                &&& next.action() == messages::ActionView::FindStumpId {
                    comic_info_id: push.comics[push.comic].comic_info_id,
                }
            }
        }),
{
}

/// A comic that has no mapping even then ends the push with an error that
/// names the comic.
pub proof fn single_push_needs_a_mapping(push: single::SingleView)
    requires
        push.phase is FindAgain,
    ensures
        ({
            let next = push.step(messages::ReplyView::StumpId(None));
            &&& next.phase is Over
            &&& next.action() is Finish
            &&& next.error == Some(
                types::ErrorView::Config(
                    "no Stump match for comic_info_id "@ + decimal::decimal(
                        push.comics[push.comic].comic_info_id as int,
                    ),
                ),
            )
        }),
{
}

/// Behind the page comes the mark where YACReader alone holds the comic as
/// complete; otherwise, and behind the mark, the push ends well.
pub proof fn sent_page_is_followed_by_the_mark(push: single::SingleView, m: int)
    requires
        0 <= m < push.media.len(),
        push.phase == single::SinglePhaseView::SendPage(m) ==> push.comics[push.comic].current_page
            > push.media[m].page_now(),
    ensures
        ({
            let next = push.step(messages::ReplyView::Done);
            let unmarked = push.comics[push.comic].read && push.media[m].read_history@.len() == 0;
            &&& push.phase == single::SinglePhaseView::SendPage(m) && unmarked ==> {
                &&& next == (single::SingleView { phase: next.phase, ..push })
                &&& next.phase == single::SinglePhaseView::SendMark(m)
                &&& next.action() == messages::ActionView::MarkComplete {
                    media_id: push.media[m].id@,
                }
            }
            &&& push.phase == single::SinglePhaseView::SendPage(m) && !unmarked || push.phase
                == single::SinglePhaseView::SendMark(m) ==> {
                &&& next.phase is Over
                &&& next.action() is Finish
                &&& next.error is None
            }
        }),
{
}

/// A push that is over stays as it is.
pub proof fn ended_push_stays_ended(push: single::SingleView, reply: messages::ReplyView)
    requires
        push.phase is Over,
    ensures
        push.action() is Finish,
        push.step(reply) == push,
{
}

/// A reply that does not answer the current action changes nothing.
pub proof fn single_push_ignores_unrelated_replies(
    push: single::SingleView,
    reply: messages::ReplyView,
)
    requires
        !messages::answers(reply, push.action()),
    ensures
        push.step(reply) == push,
{
}

} // verus!
