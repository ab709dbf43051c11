//! Which comic of YACReader is which comic of Stump.

use crate::sync_engine::paths;
use crate::sync_engine::paths::{inside, relative_under, with_slashes};
use crate::text;
use crate::text::base_name;
use crate::types::{ComicProgress, StumpMedia};
use vstd::hash_map::StringHashMap;
use vstd::prelude::*;
use vstd::string::*;

verus! {

/// Where a media lies below the library, if it does. Read loosely, backslashes
/// separate as slashes do.
pub open spec fn place_of(library: Seq<char>, path: Seq<char>, loose: bool) -> Option<Seq<char>> {
    if loose {
        paths::relative(paths::slashed(library), paths::slashed(path))
    } else {
        paths::relative(library, path)
    }
}

/// The path of a comic in the form in which it is looked for. Read loosely,
/// backslashes separate as slashes do, and slashes are tidied up.
pub open spec fn sought(rel: Seq<char>, loose: bool) -> Seq<char> {
    if loose {
        paths::inner_path(paths::slashed(rel))
    } else {
        rel
    }
}

/// The place in `media` of the last one that lies at `place` below the
/// library.
pub open spec fn media_at(
    media: Seq<StumpMedia>,
    library: Seq<char>,
    place: Seq<char>,
    loose: bool,
) -> Option<int>
    decreases media.len(),
{
    if media.len() == 0 {
        None
    } else if place_of(library, media.last().path@, loose) == Some(place) {
        Some(media.len() - 1)
    } else {
        media_at(media.drop_last(), library, place, loose)
    }
}

/// The place in `media` of the one that belongs to the comic at `rel`: the last
/// one that lies at that very path; where there is none, the last one that
/// lies there once separators are made alike on both sides.
pub open spec fn media_for(media: Seq<StumpMedia>, library: Seq<char>, rel: Seq<char>) -> Option<
    int,
> {
    match media_at(media, library, sought(rel, false), false) {
        Some(m) => Some(m),
        None => media_at(media, library, sought(rel, true), true),
    }
}

/// The matched pairs, as places in `comics` and `media`: each comic that some
/// media lies at the path of, in the order of the comics.
pub open spec fn matched(
    comics: Seq<ComicProgress>,
    media: Seq<StumpMedia>,
    library: Seq<char>,
) -> Seq<(int, int)>
    decreases comics.len(),
{
    if comics.len() == 0 {
        Seq::empty()
    } else {
        let before = matched(comics.drop_last(), media, library);
        match media_for(media, library, comics.last().relative_path@) {
            Some(m) => before.push((comics.len() - 1, m)),
            None => before,
        }
    }
}

/// The places as mathematical numbers.
pub open spec fn places(pairs: Seq<(usize, usize)>) -> Seq<(int, int)> {
    Seq::new(pairs.len(), |i: int| (pairs[i].0 as int, pairs[i].1 as int))
}

/// `index` says of `place` which media lies there.
pub open spec fn indexed_at(
    index: Map<Seq<char>, usize>,
    media: Seq<StumpMedia>,
    library: Seq<char>,
    loose: bool,
    place: Seq<char>,
) -> bool {
    match media_at(media, library, place, loose) {
        Some(i) => index.contains_key(place) && index[place] == i,
        None => !index.contains_key(place),
    }
}

/// `index` says of every place below the library which media lies there.
pub open spec fn indexes(
    index: Map<Seq<char>, usize>,
    media: Seq<StumpMedia>,
    library: Seq<char>,
    loose: bool,
) -> bool {
    forall|place: Seq<char>| #[trigger] indexed_at(index, media, library, loose, place)
}

/// Where a media lies below the library, if it does.
fn place_below(library_path: &str, media_path: &str, loose: bool) -> (r: Option<String>)
    ensures
        text::opt_text(r) == place_of(library_path@, media_path@, loose),
{
    if loose {
        relative_under(with_slashes(library_path).as_str(), with_slashes(media_path).as_str())
    } else {
        relative_under(library_path, media_path)
    }
}

/// The media by their places below the library.
fn index_by_place(media: &[StumpMedia], library_path: &str, loose: bool) -> (r: StringHashMap<
    usize,
>)
    ensures
        indexes(r@, media@, library_path@, loose),
{
    let mut index: StringHashMap<usize> = StringHashMap::new();
    let n: usize = media.len();
    assert(media@.take(0) =~= Seq::<StumpMedia>::empty());
    for i in 0..n
        invariant
            n == media@.len(),
            indexes(index@, media@.take(i as int), library_path@, loose),
    {
        let ghost before = index@;
        if let Some(place) = place_below(library_path, media[i].path.as_str(), loose) {
            index.insert(place, i);
        }
        proof {
            let done = media@.take(i + 1);
            let earlier = media@.take(i as int);
            assert(done.drop_last() =~= earlier);
            assert(done.last() == media@[i as int]);
            assert forall|place: Seq<char>| #[trigger]
                indexed_at(index@, done, library_path@, loose, place) by {
                assert(indexed_at(before, earlier, library_path@, loose, place));
            }
        }
    }
    assert(media@.take(n as int) =~= media@);
    index
}

/// The place of the media that belongs to the comic at `rel`.
fn find_media(
    exact: &StringHashMap<usize>,
    loose: &StringHashMap<usize>,
    media: Ghost<Seq<StumpMedia>>,
    library: Ghost<Seq<char>>,
    rel: &str,
) -> (r: Option<usize>)
    requires
        indexes(exact@, media@, library@, false),
        indexes(loose@, media@, library@, true),
    ensures
        match media_for(media@, library@, rel@) {
            Some(m) => r matches Some(k) && k == m && 0 <= m < media@.len(),
            None => r is None,
        },
{
    proof {
        media_at_is_the_last(media@, library@, sought(rel@, false), false);
        media_at_is_the_last(media@, library@, sought(rel@, true), true);
        assert(indexed_at(exact@, media@, library@, false, sought(rel@, false)));
        assert(indexed_at(loose@, media@, library@, true, sought(rel@, true)));
    }
    if let Some(m) = exact.get(rel) {
        return Some(*m);
    }
    let alike = inside(with_slashes(rel).as_str());
    match loose.get(alike.as_str()) {
        Some(m) => Some(*m),
        None => None,
    }
}

/// The matched pairs, as places in the two lists.
pub fn match_places(
    yac_comics: &[ComicProgress],
    stump_media: &[StumpMedia],
    stump_library_path: &str,
) -> (r: Vec<(usize, usize)>)
    ensures
        places(r@) == matched(yac_comics@, stump_media@, stump_library_path@),
        forall|i: int|
            0 <= i < r@.len() ==> (#[trigger] r@[i]).0 < yac_comics@.len() && r@[i].1
                < stump_media@.len(),
{
    let exact = index_by_place(stump_media, stump_library_path, false);
    let loose = index_by_place(stump_media, stump_library_path, true);
    let mut pairs: Vec<(usize, usize)> = Vec::new();
    let n: usize = yac_comics.len();
    assert(yac_comics@.take(0) =~= Seq::<ComicProgress>::empty());
    assert(places(pairs@) =~= Seq::<(int, int)>::empty());
    for i in 0..n
        invariant
            n == yac_comics@.len(),
            places(pairs@) == matched(
                yac_comics@.take(i as int),
                stump_media@,
                stump_library_path@,
            ),
            forall|k: int|
                0 <= k < pairs@.len() ==> (#[trigger] pairs@[k]).0 < yac_comics@.len()
                    && pairs@[k].1 < stump_media@.len(),
            indexes(exact@, stump_media@, stump_library_path@, false),
            indexes(loose@, stump_media@, stump_library_path@, true),
    {
        let ghost before = pairs@;
        proof {
            let done = yac_comics@.take(i + 1);
            assert(done.drop_last() =~= yac_comics@.take(i as int));
            assert(done.last() == yac_comics@[i as int]);
        }
        let found = find_media(
            &exact,
            &loose,
            Ghost(stump_media@),
            Ghost(stump_library_path@),
            yac_comics[i].relative_path.as_str(),
        );
        if let Some(m) = found {
            pairs.push((i, m));
            assert(places(pairs@) =~= places(before).push((i as int, m as int)));
        }
    }
    assert(yac_comics@.take(n as int) =~= yac_comics@);
    pairs
}

/// Pairs each comic with the media that lies at the comic's path below the
/// Stump library. Where several media lie there, the last one counts. Only
/// where none does are separators made alike on both sides, so that a name with
/// a backslash in it is not taken for a directory while its own media is there.
pub fn match_comics<'a>(
    yac_comics: &'a [ComicProgress],
    stump_media: &'a [StumpMedia],
    stump_library_path: &str,
) -> (r: Vec<(&'a ComicProgress, &'a StumpMedia)>)
    ensures
        ({
            let pairs = matched(yac_comics@, stump_media@, stump_library_path@);
            &&& r@.len() == pairs.len()
            &&& forall|i: int|
                0 <= i < pairs.len() ==> *(#[trigger] r@[i]).0 == yac_comics@[pairs[i].0]
                    && *r@[i].1 == stump_media@[pairs[i].1]
        }),
{
    let pairs = match_places(yac_comics, stump_media, stump_library_path);
    let mut r: Vec<(&'a ComicProgress, &'a StumpMedia)> = Vec::new();
    let n: usize = pairs.len();
    for i in 0..n
        invariant
            n == pairs@.len(),
            r@.len() == i,
            places(pairs@) == matched(yac_comics@, stump_media@, stump_library_path@),
            forall|k: int|
                0 <= k < pairs@.len() ==> (#[trigger] pairs@[k]).0 < yac_comics@.len()
                    && pairs@[k].1 < stump_media@.len(),
            forall|k: int|
                0 <= k < i ==> *(#[trigger] r@[k]).0 == yac_comics@[places(pairs@)[k].0]
                    && *r@[k].1 == stump_media@[places(pairs@)[k].1],
    {
        let (c, m): (usize, usize) = pairs[i];
        r.push((&yac_comics[c], &stump_media[m]));
    }
    r
}

/// A record of a matched pair, to be stored for the library.
#[derive(Debug, Clone)]
pub struct MappingRow {
    pub yac_comic_info_id: i64,
    pub yac_comic_id: i64,
    pub stump_media_id: String,
    pub relative_path: String,
    pub filename: String,
    pub matched_via: String,
}

/// The contents of a [`MappingRow`].
pub struct MappingRowView {
    pub yac_comic_info_id: i64,
    pub yac_comic_id: i64,
    pub stump_media_id: Seq<char>,
    pub relative_path: Seq<char>,
    pub filename: Seq<char>,
    pub matched_via: Seq<char>,
}

impl View for MappingRow {
    type V = MappingRowView;

    open spec fn view(&self) -> MappingRowView {
        MappingRowView {
            yac_comic_info_id: self.yac_comic_info_id,
            yac_comic_id: self.yac_comic_id,
            stump_media_id: self.stump_media_id@,
            relative_path: self.relative_path@,
            filename: self.filename@,
            matched_via: self.matched_via@,
        }
    }
}

/// The record of a matched pair.
pub open spec fn mapping_of(comic: ComicProgress, media: StumpMedia) -> MappingRowView {
    MappingRowView {
        yac_comic_info_id: comic.comic_info_id,
        yac_comic_id: comic.comic_id,
        stump_media_id: media.id@,
        relative_path: comic.relative_path@,
        filename: text::last_component(comic.relative_path@),
        matched_via: "path"@,
    }
}

/// The record of a matched pair.
pub fn mapping_row(comic: &ComicProgress, media: &StumpMedia) -> (r: MappingRow)
    ensures
        r@ == mapping_of(*comic, *media),
{
    MappingRow {
        yac_comic_info_id: comic.comic_info_id,
        yac_comic_id: comic.comic_id,
        stump_media_id: media.id.clone(),
        relative_path: comic.relative_path.clone(),
        filename: base_name(comic.relative_path.as_str()),
        matched_via: "path".to_owned(),
    }
}

/// The records to store for a library: one for each matched pair, in order.
pub fn mapping_rows(
    yac_comics: &[ComicProgress],
    stump_media: &[StumpMedia],
    stump_library_path: &str,
) -> (r: Vec<MappingRow>)
    ensures
        ({
            let pairs = matched(yac_comics@, stump_media@, stump_library_path@);
            &&& r@.len() == pairs.len()
            &&& forall|i: int|
                0 <= i < pairs.len() ==> (#[trigger] r@[i])@ == mapping_of(
                    yac_comics@[pairs[i].0],
                    stump_media@[pairs[i].1],
                )
        }),
{
    let pairs = match_comics(yac_comics, stump_media, stump_library_path);
    let ghost at = matched(yac_comics@, stump_media@, stump_library_path@);
    let mut r: Vec<MappingRow> = Vec::new();
    let n: usize = pairs.len();
    for i in 0..n
        invariant
            n == pairs@.len(),
            n == at.len(),
            r@.len() == i,
            forall|k: int|
                0 <= k < n ==> *(#[trigger] pairs@[k]).0 == yac_comics@[at[k].0] && *pairs@[k].1
                    == stump_media@[at[k].1],
            forall|k: int|
                0 <= k < i ==> (#[trigger] r@[k])@ == mapping_of(
                    yac_comics@[at[k].0],
                    stump_media@[at[k].1],
                ),
    {
        let (comic, media) = pairs[i];
        r.push(mapping_row(comic, media));
    }
    r
}

/// The place that `media_at` gives is the last one there, and it gives none
/// only where there is none.
pub proof fn media_at_is_the_last(
    media: Seq<StumpMedia>,
    library: Seq<char>,
    place: Seq<char>,
    loose: bool,
)
    ensures
        match media_at(media, library, place, loose) {
            Some(i) => {
                &&& 0 <= i < media.len()
                &&& place_of(library, media[i].path@, loose) == Some(place)
                &&& forall|k: int|
                    i < k < media.len() ==> place_of(library, (#[trigger] media[k]).path@, loose)
                        != Some(place)
            },
            None => forall|k: int|
                0 <= k < media.len() ==> place_of(library, (#[trigger] media[k]).path@, loose)
                    != Some(place),
        },
    decreases media.len(),
{
    if media.len() > 0 && place_of(library, media.last().path@, loose) != Some(place) {
        let rest = media.drop_last();
        media_at_is_the_last(rest, library, place, loose);
        assert forall|k: int| 0 <= k < rest.len() implies #[trigger] media[k] == rest[k] by {}
    }
}

/// The media lies at the comic's very path below the library.
pub open spec fn exactly_there(comic: ComicProgress, media: StumpMedia, library: Seq<char>) -> bool {
    place_of(library, media.path@, false) == Some(sought(comic.relative_path@, false))
}

/// The media lies at the comic's path below the library once separators are
/// made alike on both sides.
pub open spec fn loosely_there(comic: ComicProgress, media: StumpMedia, library: Seq<char>) -> bool {
    place_of(library, media.path@, true) == Some(sought(comic.relative_path@, true))
}

/// Every pair is a real match: the media lies at the comic's path below the
/// library, and at that very path as soon as any media does. The pairs follow
/// the order of the comics, and no comic stands in two of them.
pub proof fn matches_are_real_and_ordered(
    comics: Seq<ComicProgress>,
    media: Seq<StumpMedia>,
    library: Seq<char>,
)
    ensures
        ({
            let pairs = matched(comics, media, library);
            &&& pairs.len() <= comics.len()
            &&& forall|i: int|
                0 <= i < pairs.len() ==> {
                    &&& 0 <= (#[trigger] pairs[i]).0 < comics.len()
                    &&& 0 <= pairs[i].1 < media.len()
                    &&& exactly_there(comics[pairs[i].0], media[pairs[i].1], library)
                        || loosely_there(comics[pairs[i].0], media[pairs[i].1], library)
                }
            &&& forall|i: int, m: int|
                0 <= i < pairs.len() && 0 <= m < media.len() && exactly_there(
                    comics[(#[trigger] pairs[i]).0],
                    #[trigger] media[m],
                    library,
                ) ==> exactly_there(comics[pairs[i].0], media[pairs[i].1], library)
            &&& forall|i: int, j: int|
                0 <= i < j < pairs.len() ==> (#[trigger] pairs[i]).0 < (#[trigger] pairs[j]).0
        }),
    decreases comics.len(),
{
    if comics.len() > 0 {
        let rest = comics.drop_last();
        let rel = comics.last().relative_path@;
        matches_are_real_and_ordered(rest, media, library);
        media_at_is_the_last(media, library, sought(rel, false), false);
        media_at_is_the_last(media, library, sought(rel, true), true);
        let before = matched(rest, media, library);
        assert forall|i: int| 0 <= i < before.len() implies #[trigger] comics[before[i].0]
            == rest[before[i].0] by {}
        assert forall|i: int, m: int|
            0 <= i < matched(comics, media, library).len() && 0 <= m < media.len()
                && exactly_there(
                comics[(#[trigger] matched(comics, media, library)[i]).0],
                #[trigger] media[m],
                library,
            ) implies exactly_there(
            comics[matched(comics, media, library)[i].0],
            media[matched(comics, media, library)[i].1],
            library,
        ) by {
            let pairs = matched(comics, media, library);
            if i < before.len() {
                assert(pairs[i] == before[i]);
                assert(exactly_there(rest[before[i].0], media[m], library));
            }
        }
    }
}

/// No match is missed: a comic stands in a pair as soon as some media lies at
/// its path below the library, with separators as they are or made alike.
pub proof fn no_match_is_missed(
    comics: Seq<ComicProgress>,
    media: Seq<StumpMedia>,
    library: Seq<char>,
    c: int,
    m: int,
)
    requires
        0 <= c < comics.len(),
        0 <= m < media.len(),
        exactly_there(comics[c], media[m], library) || loosely_there(comics[c], media[m], library),
    ensures
        exists|i: int|
            0 <= i < matched(comics, media, library).len() && (#[trigger] matched(
                comics,
                media,
                library,
            )[i]).0 == c,
    decreases comics.len(),
{
    let rest = comics.drop_last();
    let before = matched(rest, media, library);
    let all = matched(comics, media, library);
    if c == comics.len() - 1 {
        let rel = comics[c].relative_path@;
        media_at_is_the_last(media, library, sought(rel, false), false);
        media_at_is_the_last(media, library, sought(rel, true), true);
        assert(all[all.len() - 1].0 == c);
    } else {
        assert(rest[c] == comics[c]);
        no_match_is_missed(rest, media, library, c, m);
        let i = choose|i: int| 0 <= i < before.len() && (#[trigger] before[i]).0 == c;
        assert(all[i] == before[i]);
    }
}

/// A comic is paired as soon as Stump has its file: a media that stands below
/// the library in the comic's directory, as YACReader stores it, and under its
/// file name. It may also be written with other separators, where the file
/// name holds none.
pub proof fn stored_comic_is_paired(
    comics: Seq<ComicProgress>,
    media: Seq<StumpMedia>,
    library: Seq<char>,
    c: int,
    m: int,
    directory: Seq<char>,
    filename: Seq<char>,
)
    requires
        0 <= c < comics.len(),
        0 <= m < media.len(),
        filename.len() > 0,
        forall|i: int| 0 <= i < filename.len() ==> #[trigger] filename[i] != '/',
        comics[c].relative_path@ == paths::placed_under(directory, filename),
        media[m].path@ == library.push('/') + directory.push('/') + filename || (paths::slashed(
            media[m].path@,
        ) == paths::slashed(library.push('/') + directory.push('/') + filename) && forall|i: int|
            0 <= i < filename.len() ==> #[trigger] filename[i] != '\\'),
    ensures
        exists|i: int|
            0 <= i < matched(comics, media, library).len() && (#[trigger] matched(
                comics,
                media,
                library,
            )[i]).0 == c,
{
    if media[m].path@ == library.push('/') + directory.push('/') + filename {
        paths::comic_path_is_found(library, directory, filename);
    } else {
        paths::separators_make_no_difference(library, media[m].path@, directory, filename);
    }
    no_match_is_missed(comics, media, library, c, m);
}

/// Where no backslash occurs, and the path of the comic is in normal form and
/// starts with no slash, only a media at that very path belongs to it.
pub proof fn plain_paths_match_exactly(
    media: Seq<StumpMedia>,
    library: Seq<char>,
    rel: Seq<char>,
)
    requires
        paths::slashed(library) == library,
        forall|k: int|
            0 <= k < media.len() ==> paths::slashed((#[trigger] media[k]).path@) == media[k].path@,
        paths::slashed(rel) == rel,
        paths::is_normal(rel),
        rel.len() > 0 ==> rel[0] != '/',
    ensures
        media_for(media, library, rel) == media_at(media, library, rel, false),
{
    paths::plain_path_is_kept(rel);
    media_at_is_the_last(media, library, rel, false);
    media_at_is_the_last(media, library, rel, true);
}

/// A trailing slash on the library's path makes no difference to the matches.
pub proof fn library_slash_is_ignored(
    comics: Seq<ComicProgress>,
    media: Seq<StumpMedia>,
    library: Seq<char>,
)
    requires
        library.len() > 0,
    ensures
        matched(comics, media, library.push('/')) == matched(comics, media, library),
    decreases comics.len(),
{
    if comics.len() > 0 {
        let rel = comics.last().relative_path@;
        library_slash_is_ignored(comics.drop_last(), media, library);
        media_at_ignores_slash(media, library, sought(rel, false), false);
        media_at_ignores_slash(media, library, sought(rel, true), true);
    }
}

/// A trailing slash on the library's path makes no difference to what lies at
/// a place below it.
proof fn media_at_ignores_slash(
    media: Seq<StumpMedia>,
    library: Seq<char>,
    place: Seq<char>,
    loose: bool,
)
    requires
        library.len() > 0,
    ensures
        media_at(media, library.push('/'), place, loose) == media_at(
            media,
            library,
            place,
            loose,
        ),
    decreases media.len(),
{
    paths::trailing_slash_is_ignored(library);
    paths::trailing_slash_is_ignored(paths::slashed(library));
    assert(paths::slashed(library.push('/')) =~= paths::slashed(library).push('/'));
    if media.len() > 0 {
        media_at_ignores_slash(media.drop_last(), library, place, loose);
    }
}

/// A comic stands in a pair exactly with the media that belongs to it.
proof fn matched_pairs_each_comic(
    comics: Seq<ComicProgress>,
    media: Seq<StumpMedia>,
    library: Seq<char>,
    c: int,
)
    requires
        0 <= c < comics.len(),
    ensures
        match media_for(media, library, comics[c].relative_path@) {
            Some(m) => matched(comics, media, library).contains((c, m)),
            None => forall|i: int|
                0 <= i < matched(comics, media, library).len() ==> (#[trigger] matched(
                    comics,
                    media,
                    library,
                )[i]).0 != c,
        },
    decreases comics.len(),
{
    let rest = comics.drop_last();
    let before = matched(rest, media, library);
    let all = matched(comics, media, library);
    matches_are_real_and_ordered(rest, media, library);
    if c == comics.len() - 1 {
        if let Some(m) = media_for(media, library, comics[c].relative_path@) {
            assert(all[all.len() - 1] == (c, m));
        }
    } else {
        assert(rest[c] == comics[c]);
        matched_pairs_each_comic(rest, media, library, c);
        if let Some(m) = media_for(media, library, comics[c].relative_path@) {
            let i = choose|i: int| 0 <= i < before.len() && before[i] == (c, m);
            assert(all[i] == (c, m));
        } else {
            assert forall|i: int| 0 <= i < all.len() implies (#[trigger] all[i]).0 != c by {
                if i < before.len() {
                    assert(all[i] == before[i]);
                }
            }
        }
    }
}

/// A comic is paired with the media that lies at its very path below the
/// library, with the last one where several do.
pub proof fn comic_is_paired_with_the_media_at_its_path(
    comics: Seq<ComicProgress>,
    media: Seq<StumpMedia>,
    library: Seq<char>,
    c: int,
    m: int,
)
    requires
        0 <= c < comics.len(),
        0 <= m < media.len(),
        paths::relative(library, media[m].path@) == Some(comics[c].relative_path@),
        forall|k: int|
            m < k < media.len() ==> paths::relative(library, (#[trigger] media[k]).path@) != Some(
                comics[c].relative_path@,
            ),
    ensures
        matched(comics, media, library).contains((c, m)),
{
    media_at_is_the_last(media, library, comics[c].relative_path@, false);
    matched_pairs_each_comic(comics, media, library, c);
}

/// Where no media lies at the comic's very path, it is paired with the last one
/// that lies there once backslashes count as slashes on both sides.
pub proof fn comic_is_paired_across_separators(
    comics: Seq<ComicProgress>,
    media: Seq<StumpMedia>,
    library: Seq<char>,
    c: int,
    m: int,
)
    requires
        0 <= c < comics.len(),
        0 <= m < media.len(),
        forall|k: int|
            0 <= k < media.len() ==> paths::relative(library, (#[trigger] media[k]).path@) != Some(
                comics[c].relative_path@,
            ),
        paths::relative(paths::slashed(library), paths::slashed(media[m].path@)) == Some(
            paths::inner_path(paths::slashed(comics[c].relative_path@)),
        ),
        forall|k: int|
            m < k < media.len() ==> paths::relative(
                paths::slashed(library),
                paths::slashed((#[trigger] media[k]).path@),
            ) != Some(paths::inner_path(paths::slashed(comics[c].relative_path@))),
    ensures
        matched(comics, media, library).contains((c, m)),
{
    let rel = comics[c].relative_path@;
    media_at_is_the_last(media, library, rel, false);
    media_at_is_the_last(media, library, paths::inner_path(paths::slashed(rel)), true);
    matched_pairs_each_comic(comics, media, library, c);
}

/// A comic stands in no pair where no media lies at its path below the library,
/// neither as the separators are nor once backslashes count as slashes.
pub proof fn comic_without_media_is_left_out(
    comics: Seq<ComicProgress>,
    media: Seq<StumpMedia>,
    library: Seq<char>,
    c: int,
)
    requires
        0 <= c < comics.len(),
        forall|k: int|
            0 <= k < media.len() ==> paths::relative(library, (#[trigger] media[k]).path@) != Some(
                comics[c].relative_path@,
            ),
        forall|k: int|
            0 <= k < media.len() ==> paths::relative(
                paths::slashed(library),
                paths::slashed((#[trigger] media[k]).path@),
            ) != Some(paths::inner_path(paths::slashed(comics[c].relative_path@))),
    ensures
        forall|i: int|
            0 <= i < matched(comics, media, library).len() ==> (#[trigger] matched(
                comics,
                media,
                library,
            )[i]).0 != c,
{
    let rel = comics[c].relative_path@;
    media_at_is_the_last(media, library, rel, false);
    media_at_is_the_last(media, library, paths::inner_path(paths::slashed(rel)), true);
    matched_pairs_each_comic(comics, media, library, c);
}

/// The record of a pair ties the comic's two ids to the media's id, and keeps
/// the comic's path and, as the file name, what stands behind its last slash.
pub proof fn record_ties_the_comic_to_its_media(comic: ComicProgress, media: StumpMedia)
    ensures
        ({
            let row = mapping_of(comic, media);
            let path = comic.relative_path@;
            let start = path.len() - row.filename.len();
            &&& row.yac_comic_info_id == comic.comic_info_id
            &&& row.yac_comic_id == comic.comic_id
            &&& row.stump_media_id == media.id@
            &&& row.relative_path == path
            &&& row.matched_via == "path"@
            &&& 0 <= start
            &&& path.skip(start) == row.filename
            &&& forall|i: int| 0 <= i < row.filename.len() ==> #[trigger] row.filename[i] != '/'
            &&& start > 0 ==> path[start - 1] == '/'
        }),
{
    text::last_component_is_behind_the_last_slash(comic.relative_path@);
}

/// The contents of a record are its fields, with texts in place of strings, and
/// places are the same numbers.
pub proof fn records_show_what_they_hold(row: MappingRow, pairs: Seq<(usize, usize)>, i: int)
    requires
        0 <= i < pairs.len(),
    ensures
        row@.yac_comic_info_id == row.yac_comic_info_id,
        row@.yac_comic_id == row.yac_comic_id,
        row@.stump_media_id == row.stump_media_id@,
        row@.relative_path == row.relative_path@,
        row@.filename == row.filename@,
        row@.matched_via == row.matched_via@,
        places(pairs).len() == pairs.len(),
        places(pairs)[i].0 == pairs[i].0,
        places(pairs)[i].1 == pairs[i].1,
{
}

/// Every pair that is handed out is a real one: the media lies at the comic's
/// path below the library, as the separators are or once backslashes count as
/// slashes, and no pair is left out.
pub proof fn handed_out_pairs_are_real<'a>(
    comics: &'a [ComicProgress],
    media: &'a [StumpMedia],
    library: &str,
    r: Vec<(&'a ComicProgress, &'a StumpMedia)>,
    i: int,
)
    requires
        call_ensures(match_comics, (comics, media, library), r),
        0 <= i < r@.len(),
    ensures
        r@.len() == matched(comics@, media@, library@).len(),
        comics@.contains(*r@[i].0),
        media@.contains(*r@[i].1),
        paths::relative(library@, r@[i].1.path@) == Some(r@[i].0.relative_path@)
            || paths::relative(
            paths::slashed(library@),
            paths::slashed(r@[i].1.path@),
        ) == Some(paths::inner_path(paths::slashed(r@[i].0.relative_path@))),
{
    matches_are_real_and_ordered(comics@, media@, library@);
    let pairs = matched(comics@, media@, library@);
    assert(*r@[i].0 == comics@[pairs[i].0] && *r@[i].1 == media@[pairs[i].1]);
    assert(exactly_there(comics@[pairs[i].0], media@[pairs[i].1], library@) || loosely_there(
        comics@[pairs[i].0],
        media@[pairs[i].1],
        library@,
    ));
}

} // verus!
