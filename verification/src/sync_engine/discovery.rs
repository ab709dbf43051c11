//! Which Stump library a YACReader library belongs to.

use crate::config;
use crate::config::LibraryConfig;
use crate::sync_engine::paths;
use crate::sync_engine::paths::normalize_fs_path;
use crate::text;
use crate::text::{base_name, same_text};
use crate::types::StumpLibrary;
use vstd::prelude::*;
use vstd::string::*;

verus! {

/// The Stump library stands at the path `root`, which is in normal form.
pub open spec fn at_path(library: StumpLibrary, root: Seq<char>) -> bool {
    paths::normal_path(library.path@) == root
}

/// The Stump library, or the folder it stands at, is called `name`.
pub open spec fn is_called(library: StumpLibrary, name: Seq<char>) -> bool {
    library.name@ == name || text::last_component(paths::normal_path(library.path@)) == name
}

/// The first place in `libraries`, from `from` on, of one that satisfies `p`.
pub open spec fn first_where(
    libraries: Seq<StumpLibrary>,
    from: int,
    p: spec_fn(StumpLibrary) -> bool,
) -> Option<int>
    decreases libraries.len() - from,
{
    if from >= libraries.len() {
        None
    } else if p(libraries[from]) {
        Some(from)
    } else {
        first_where(libraries, from + 1, p)
    }
}

/// The place of the Stump library that a YACReader library at `library_root`
/// belongs to: the first at the same path; failing that, the first that is
/// called like the folder of the library, where the folder has a name.
pub open spec fn library_match(library_root: Seq<char>, libraries: Seq<StumpLibrary>) -> Option<
    int,
> {
    let root = paths::normal_path(library_root);
    let name = text::last_component(root);
    match first_where(libraries, 0, |s: StumpLibrary| at_path(s, root)) {
        Some(i) => Some(i),
        None => if name.len() > 0 {
            first_where(libraries, 0, |s: StumpLibrary| is_called(s, name))
        } else {
            None
        },
    }
}

/// The first place that satisfies `p` is given where there is one, and it is
/// the first.
pub proof fn first_where_is_first(
    libraries: Seq<StumpLibrary>,
    from: int,
    p: spec_fn(StumpLibrary) -> bool,
)
    requires
        0 <= from,
    ensures
        match first_where(libraries, from, p) {
            Some(i) => {
                &&& from <= i < libraries.len()
                &&& p(libraries[i])
                &&& forall|k: int| from <= k < i ==> !p(#[trigger] libraries[k])
            },
            None => forall|k: int| from <= k < libraries.len() ==> !p(#[trigger] libraries[k]),
        },
    decreases libraries.len() - from,
{
    if from < libraries.len() && !p(libraries[from]) {
        first_where_is_first(libraries, from + 1, p);
    }
}

/// The Stump library that a YACReader library belongs to, by path and failing
/// that by name.
pub fn match_stump_library<'a>(
    yac: &LibraryConfig,
    stump_libs: &'a [StumpLibrary],
) -> (r: Option<&'a StumpLibrary>)
    ensures
        match library_match(yac.library_root@, stump_libs@) {
            Some(i) => 0 <= i < stump_libs@.len() && r == Some(&stump_libs@[i]),
            None => r is None,
        },
{
    let root = normalize_fs_path(yac.library_root.as_str());
    let ghost by_path = |s: StumpLibrary| at_path(s, root@);
    proof {
        first_where_is_first(stump_libs@, 0, by_path);
    }
    let n: usize = stump_libs.len();
    for i in 0..n
        invariant
            n == stump_libs@.len(),
            root@ == paths::normal_path(yac.library_root@),
            by_path == (|s: StumpLibrary| at_path(s, root@)),
            first_where(stump_libs@, 0, by_path) == first_where(stump_libs@, i as int, by_path),
    {
        let path = normalize_fs_path(stump_libs[i].path.as_str());
        if same_text(path.as_str(), root.as_str()) {
            assert(by_path(stump_libs@[i as int]));
            return Some(&stump_libs[i]);
        }
        assert(!by_path(stump_libs@[i as int]));
    }

    let name = base_name(root.as_str());
    if name.as_str().is_empty() {
        return None;
    }
    let ghost by_name = |s: StumpLibrary| is_called(s, name@);
    proof {
        first_where_is_first(stump_libs@, 0, by_name);
    }
    for i in 0..n
        invariant
            n == stump_libs@.len(),
            root@ == paths::normal_path(yac.library_root@),
            name@ == text::last_component(root@),
            name@.len() > 0,
            by_path == (|s: StumpLibrary| at_path(s, root@)),
            first_where(stump_libs@, 0, by_path) is None,
            by_name == (|s: StumpLibrary| is_called(s, name@)),
            first_where(stump_libs@, 0, by_name) == first_where(stump_libs@, i as int, by_name),
    {
        let folder = base_name(normalize_fs_path(stump_libs[i].path.as_str()).as_str());
        if same_text(stump_libs[i].name.as_str(), name.as_str()) || same_text(
            folder.as_str(),
            name.as_str(),
        ) {
            assert(by_name(stump_libs@[i as int]));
            return Some(&stump_libs[i]);
        }
        assert(!by_name(stump_libs@[i as int]));
    }
    None
}

/// The library is to be discovered: it names no Stump library.
pub open spec fn undecided(library: config::LibraryConfigView) -> bool {
    library.stump_library_id.len() == 0
}

/// The library with its Stump library filled in. One that names its Stump
/// library stays as it is; one that does not is dropped where there is no
/// listing or nothing in the listing matches.
pub open spec fn resolved_one(
    library: config::LibraryConfigView,
    listing: Option<Seq<StumpLibrary>>,
) -> Option<config::LibraryConfigView> {
    if !undecided(library) {
        Some(library)
    } else {
        match listing {
            Some(stump) => match library_match(library.library_root, stump) {
                Some(i) => Some(
                    config::LibraryConfigView {
                        stump_library_id: stump[i].id@,
                        stump_library_path: stump[i].path@,
                        ..library
                    },
                ),
                None => None,
            },
            None => None,
        }
    }
}

/// The libraries that can be synchronised, in order.
pub open spec fn resolved(
    libraries: Seq<config::LibraryConfigView>,
    listing: Option<Seq<StumpLibrary>>,
) -> Seq<config::LibraryConfigView>
    decreases libraries.len(),
{
    if libraries.len() == 0 {
        Seq::empty()
    } else {
        let before = resolved(libraries.drop_last(), listing);
        match resolved_one(libraries.last(), listing) {
            Some(library) => before.push(library),
            None => before,
        }
    }
}

/// The contents of a listing of Stump libraries.
pub open spec fn listed(listing: Option<Vec<StumpLibrary>>) -> Option<Seq<StumpLibrary>> {
    match listing {
        Some(v) => Some(v@),
        None => None,
    }
}

/// Whether some library names no Stump library, so that Stump must be asked
/// for a listing.
pub fn needs_discovery(libraries: &[LibraryConfig]) -> (r: bool)
    ensures
        r == exists|i: int| 0 <= i < libraries@.len() && undecided((#[trigger] libraries@[i])@),
{
    let n: usize = libraries.len();
    for i in 0..n
        invariant
            n == libraries@.len(),
            forall|k: int| 0 <= k < i ==> !undecided((#[trigger] libraries@[k])@),
    {
        if libraries[i].stump_library_id.as_str().is_empty() {
            assert(undecided(libraries@[i as int]@));
            return true;
        }
    }
    false
}

/// The library with its Stump library filled in, if it can be.
fn resolve_one(library: &LibraryConfig, listing: &Option<Vec<StumpLibrary>>) -> (r: Option<
    LibraryConfig,
>)
    ensures
        (match r {
            Some(l) => Some(l@),
            None => None,
        }) == resolved_one(library@, listed(*listing)),
{
    if !library.stump_library_id.as_str().is_empty() {
        return Some(library.clone());
    }
    match listing {
        Some(stump) => match match_stump_library(library, stump.as_slice()) {
            Some(found) => {
                let mut l = library.clone();
                l.stump_library_id = found.id.clone();
                l.stump_library_path = found.path.clone();
                Some(l)
            },
            None => None,
        },
        None => None,
    }
}

/// Fills in the Stump library of every library that names none. `listing` is
/// what Stump lists, `None` where it could not be had. A library that cannot
/// be matched is dropped, so that it does not stop the others.
pub fn resolve_library_configs(
    libraries: Vec<LibraryConfig>,
    listing: Option<Vec<StumpLibrary>>,
) -> (r: Vec<LibraryConfig>)
    ensures
        config::library_views(r@) == resolved(
            config::library_views(libraries@),
            listed(listing),
        ),
{
    let mut r: Vec<LibraryConfig> = Vec::new();
    let n: usize = libraries.len();
    let ghost all = config::library_views(libraries@);
    assert(all.take(0) =~= Seq::<config::LibraryConfigView>::empty());
    assert(config::library_views(r@) =~= Seq::<config::LibraryConfigView>::empty());
    for i in 0..n
        invariant
            n == libraries@.len(),
            all == config::library_views(libraries@),
            config::library_views(r@) == resolved(all.take(i as int), listed(listing)),
    {
        let ghost before = r@;
        assert(all.take(i + 1).drop_last() =~= all.take(i as int));
        if let Some(l) = resolve_one(&libraries[i], &listing) {
            r.push(l);
            assert(config::library_views(r@) =~= config::library_views(before).push(l@));
        }
    }
    assert(all.take(n as int) =~= all);
    r
}

/// Where every library names its Stump library, nothing changes, whatever the
/// listing is: it need not be asked for.
pub proof fn explicit_libraries_are_kept(
    libraries: Seq<config::LibraryConfigView>,
    listing: Option<Seq<StumpLibrary>>,
)
    requires
        forall|i: int| 0 <= i < libraries.len() ==> !undecided(#[trigger] libraries[i]),
    ensures
        resolved(libraries, listing) == libraries,
    decreases libraries.len(),
{
    if libraries.len() > 0 {
        let rest = libraries.drop_last();
        assert forall|i: int| 0 <= i < rest.len() implies !undecided(#[trigger] rest[i]) by {
            assert(rest[i] == libraries[i]);
        }
        explicit_libraries_are_kept(rest, listing);
        assert(rest.push(libraries.last()) =~= libraries);
    }
}

/// Without a listing exactly the libraries that name their Stump library are
/// left.
pub proof fn failed_listing_keeps_the_explicit(libraries: Seq<config::LibraryConfigView>)
    ensures
        resolved(libraries, None) == libraries.filter(
            |l: config::LibraryConfigView| !undecided(l),
        ),
    decreases libraries.len(),
{
    reveal(Seq::filter);
    if libraries.len() > 0 {
        failed_listing_keeps_the_explicit(libraries.drop_last());
    }
}

/// A library that names its Stump library survives any outcome of the
/// discovery, unchanged.
pub proof fn override_always_survives(
    libraries: Seq<config::LibraryConfigView>,
    listing: Option<Seq<StumpLibrary>>,
    i: int,
)
    requires
        0 <= i < libraries.len(),
        !undecided(libraries[i]),
    ensures
        resolved(libraries, listing).contains(libraries[i]),
    decreases libraries.len(),
{
    let rest = libraries.drop_last();
    let before = resolved(rest, listing);
    let all = resolved(libraries, listing);
    if i == libraries.len() - 1 {
        assert(all[all.len() - 1] == libraries[i]);
    } else {
        assert(rest[i] == libraries[i]);
        override_always_survives(rest, listing, i);
        let k = choose|k: int| 0 <= k < before.len() && before[k] == libraries[i];
        assert(all[k] == libraries[i]);
    }
}

/// An exact match of the path wins over any match of the name.
pub proof fn path_wins_over_name(
    library_root: Seq<char>,
    libraries: Seq<StumpLibrary>,
    i: int,
)
    requires
        0 <= i < libraries.len(),
        at_path(libraries[i], paths::normal_path(library_root)),
    ensures
        library_match(library_root, libraries) matches Some(k) && 0 <= k <= i && at_path(
            libraries[k],
            paths::normal_path(library_root),
        ),
{
    let root = paths::normal_path(library_root);
    first_where_is_first(libraries, 0, |s: StumpLibrary| at_path(s, root));
}

/// A match is always justified by the path or by the name of the folder.
pub proof fn library_match_is_justified(library_root: Seq<char>, libraries: Seq<StumpLibrary>)
    ensures
        library_match(library_root, libraries) matches Some(k) ==> {
            let root = paths::normal_path(library_root);
            let name = text::last_component(root);
            &&& 0 <= k < libraries.len()
            &&& at_path(libraries[k], root) || (name.len() > 0 && is_called(libraries[k], name))
        },
        library_match(library_root, libraries) is None ==> forall|k: int|
            0 <= k < libraries.len() ==> {
                let root = paths::normal_path(library_root);
                let name = text::last_component(root);
                &&& !at_path(#[trigger] libraries[k], root)
                &&& name.len() > 0 ==> !is_called(libraries[k], name)
            },
{
    let root = paths::normal_path(library_root);
    let name = text::last_component(root);
    first_where_is_first(libraries, 0, |s: StumpLibrary| at_path(s, root));
    first_where_is_first(libraries, 0, |s: StumpLibrary| is_called(s, name));
}

/// `first_where` gives the first place that satisfies `p`.
proof fn first_where_is_found(
    libraries: Seq<StumpLibrary>,
    p: spec_fn(StumpLibrary) -> bool,
    i: int,
)
    requires
        0 <= i < libraries.len(),
        p(libraries[i]),
        forall|k: int| 0 <= k < i ==> !p(#[trigger] libraries[k]),
    ensures
        first_where(libraries, 0, p) == Some(i),
{
    first_where_is_first(libraries, 0, p);
    if let Some(k) = first_where(libraries, 0, p) {
        if k < i {
            assert(!p(libraries[k]));
        } else if i < k {
            assert(!p(libraries[i]));
        }
    }
}

/// The first Stump library at the same place as the YACReader library is taken,
/// however slashes stand in either path.
pub proof fn library_at_the_same_path_is_taken(
    library_root: Seq<char>,
    libraries: Seq<StumpLibrary>,
    i: int,
)
    requires
        0 <= i < libraries.len(),
        paths::normal_path(libraries[i].path@) == paths::normal_path(library_root),
        forall|k: int|
            0 <= k < i ==> paths::normal_path((#[trigger] libraries[k]).path@)
                != paths::normal_path(library_root),
    ensures
        library_match(library_root, libraries) == Some(i),
{
    let root = paths::normal_path(library_root);
    let by_path = |s: StumpLibrary| at_path(s, root);
    assert forall|k: int| 0 <= k < i implies !by_path(#[trigger] libraries[k]) by {
        assert(paths::normal_path(libraries[k].path@) != root);
    }
    first_where_is_found(libraries, by_path, i);
}

/// Where no Stump library stands at the same place, the first one is taken that
/// is called like the folder of the YACReader library, by its own name or by
/// the name of its folder. The root of a file system has no name to go by.
pub proof fn library_of_the_same_name_is_taken(
    library_root: Seq<char>,
    libraries: Seq<StumpLibrary>,
    name: Seq<char>,
    i: int,
)
    requires
        forall|k: int|
            0 <= k < libraries.len() ==> paths::normal_path((#[trigger] libraries[k]).path@)
                != paths::normal_path(library_root),
        name == text::last_component(paths::normal_path(library_root)),
        name.len() > 0,
        0 <= i < libraries.len(),
        libraries[i].name@ == name || text::last_component(
            paths::normal_path(libraries[i].path@),
        ) == name,
        forall|k: int|
            0 <= k < i ==> (#[trigger] libraries[k]).name@ != name && text::last_component(
                paths::normal_path(libraries[k].path@),
            ) != name,
    ensures
        library_match(library_root, libraries) == Some(i),
{
    let root = paths::normal_path(library_root);
    let by_path = |s: StumpLibrary| at_path(s, root);
    let by_name = |s: StumpLibrary| is_called(s, name);
    first_where_is_first(libraries, 0, by_path);
    if let Some(k) = first_where(libraries, 0, by_path) {
        assert(by_path(libraries[k]));
        assert(paths::normal_path(libraries[k].path@) != root);
    }
    assert forall|k: int| 0 <= k < i implies !by_name(#[trigger] libraries[k]) by {
        assert(libraries[k].name@ != name);
    }
    first_where_is_found(libraries, by_name, i);
}

/// Where no Stump library stands at the same place and none is called like the
/// folder, there is no match.
pub proof fn stranger_has_no_library(library_root: Seq<char>, libraries: Seq<StumpLibrary>)
    requires
        forall|k: int|
            0 <= k < libraries.len() ==> paths::normal_path((#[trigger] libraries[k]).path@)
                != paths::normal_path(library_root),
        ({
            let name = text::last_component(paths::normal_path(library_root));
            name.len() == 0 || forall|k: int|
                0 <= k < libraries.len() ==> (#[trigger] libraries[k]).name@ != name
                    && text::last_component(paths::normal_path(libraries[k].path@)) != name
        }),
    ensures
        library_match(library_root, libraries) is None,
{
    library_match_is_justified(library_root, libraries);
    if let Some(k) = library_match(library_root, libraries) {
        assert(paths::normal_path(libraries[k].path@) != paths::normal_path(library_root));
        assert(libraries[k].name@ == libraries[k].name@);
    }
}

/// Libraries are resolved one by one: what comes of a list is what comes of its
/// parts, in order.
pub proof fn libraries_are_resolved_one_by_one(
    a: Seq<config::LibraryConfigView>,
    b: Seq<config::LibraryConfigView>,
    listing: Option<Seq<StumpLibrary>>,
)
    ensures
        resolved(a + b, listing) == resolved(a, listing) + resolved(b, listing),
    decreases b.len(),
{
    if b.len() == 0 {
        assert(a + b =~= a);
        assert(resolved(a, listing) + resolved(b, listing) =~= resolved(a, listing));
    } else {
        let rest = b.drop_last();
        libraries_are_resolved_one_by_one(a, rest, listing);
        assert((a + b).drop_last() =~= a + rest);
        assert((a + b).last() == b.last());
        if let Some(l) = resolved_one(b.last(), listing) {
            assert((resolved(a, listing) + resolved(rest, listing)).push(l) =~= resolved(
                a,
                listing,
            ) + resolved(rest, listing).push(l));
        }
    }
}

/// A library that names its Stump library stays as it is. One that names none
/// takes over the id and the path of the Stump library that it matches and
/// keeps everything else; without a match, or without a listing, it is dropped.
pub proof fn discovered_library_is_filled_in(
    library: config::LibraryConfigView,
    listing: Option<Seq<StumpLibrary>>,
)
    ensures
        ({
            let left = resolved(seq![library], listing);
            let named = library.stump_library_id.len() > 0;
            &&& named ==> left == seq![library]
            &&& !named && listing is None ==> left.len() == 0
            &&& !named ==> (listing matches Some(stump) ==> match library_match(
                library.library_root,
                stump,
            ) {
                Some(i) => left == seq![
                    config::LibraryConfigView {
                        yac_library_id: library.yac_library_id,
                        ydb_path: library.ydb_path,
                        library_root: library.library_root,
                        stump_library_id: stump[i].id@,
                        stump_library_path: stump[i].path@,
                    },
                ],
                None => left.len() == 0,
            })
        }),
{
    let one = seq![library];
    assert(one.drop_last() =~= Seq::<config::LibraryConfigView>::empty());
    assert(one.last() == library);
    assert(resolved(one.drop_last(), listing) =~= Seq::<config::LibraryConfigView>::empty());
}

/// A library is to be discovered exactly where it names no Stump library.
pub proof fn unnamed_library_is_to_be_discovered(library: config::LibraryConfigView)
    ensures
        undecided(library) <==> library.stump_library_id.len() == 0,
{
}

/// A listing holds what was listed, and a failed one holds nothing.
pub proof fn listing_is_what_was_listed(stump: Vec<StumpLibrary>)
    ensures
        listed(Some(stump)) == Some(stump@),
        listed(None) is None,
{
}

/// A library that names its Stump library is handed out unchanged, whatever is
/// listed.
pub proof fn named_library_is_handed_out(
    libraries: Vec<LibraryConfig>,
    listing: Option<Vec<StumpLibrary>>,
    r: Vec<LibraryConfig>,
    i: int,
)
    requires
        call_ensures(resolve_library_configs, (libraries, listing), r),
        0 <= i < libraries@.len(),
        libraries@[i].stump_library_id@.len() > 0,
    ensures
        exists|k: int| 0 <= k < r@.len() && (#[trigger] r@[k])@ == libraries@[i]@,
{
    let all = config::library_views(libraries@);
    assert(all[i] == libraries@[i]@);
    override_always_survives(all, listed(listing), i);
    let left = config::library_views(r@);
    let k = choose|k: int| 0 <= k < left.len() && left[k] == all[i];
    assert(r@[k]@ == libraries@[i]@);
}

} // verus!
