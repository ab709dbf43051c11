//! Paths of comics and libraries.

use crate::text;
use crate::text::{
    chars_of, concat2, concat3, same_text, string_of, trimmed_end_slashes, trimmed_start_slashes,
};
use vstd::prelude::*;
use vstd::string::*;

verus! {

/// `s` with every backslash written as a slash.
pub open spec fn slashed(s: Seq<char>) -> Seq<char> {
    Seq::new(
        s.len(),
        |i: int|
            if s[i] == '\\' {
                '/'
            } else {
                s[i]
            },
    )
}

/// A path as it stands inside another: no two slashes in a row, and none at
/// either end. The root is empty.
pub open spec fn inner_path(path: Seq<char>) -> Seq<char> {
    text::trim_start_slashes(normal_path(path))
}

/// A file placed under a directory; with no directory it stands alone.
pub open spec fn placed_under(path: Seq<char>, filename: Seq<char>) -> Seq<char> {
    let dir = inner_path(path);
    if dir.len() == 0 {
        filename
    } else {
        dir + "/"@ + filename
    }
}

/// The text with every backslash written as a slash.
pub fn with_slashes(s: &str) -> (r: String)
    ensures
        r@ == slashed(s@),
{
    let chars = chars_of(s);
    let n: usize = chars.len();
    let mut r: String = String::new();
    assert(r@ =~= slashed(s@).take(0));
    for i in 0..n
        invariant
            n == chars@.len(),
            chars@ == s@,
            r@ == slashed(s@).take(i as int),
    {
        if chars[i] == '\\' {
            r.push('/');
        } else {
            r.push(chars[i]);
        }
        assert(slashed(s@).take(i + 1) =~= slashed(s@).take(i as int).push(
            slashed(s@)[i as int],
        ));
    }
    assert(slashed(s@).take(n as int) =~= slashed(s@));
    r
}

/// The path without slash runs and without slashes at either end.
pub fn inside(path: &str) -> (r: String)
    ensures
        r@ == inner_path(path@),
{
    trimmed_start_slashes(normalize_fs_path(path).as_str())
}

/// The path of a comic relative to its library, from its directory and its
/// file name. The directory is brought to the form that a Stump path has below
/// its library: no slash doubled, none at either end. A backslash is kept, as
/// it may be part of a name; whether it separates is left to the comparison.
pub fn normalize_path(path: &str, filename: &str) -> (r: String)
    ensures
        r@ == placed_under(path@, filename@),
{
    let dir = inside(path);
    if dir.as_str().is_empty() {
        filename.to_owned()
    } else {
        concat3(dir.as_str(), "/", filename)
    }
}

/// `s` with every run of slashes collapsed into one.
pub open spec fn collapsed(s: Seq<char>) -> Seq<char>
    decreases s.len(),
{
    if s.len() == 0 {
        s
    } else if s.len() >= 2 && s.last() == '/' && s[s.len() - 2] == '/' {
        collapsed(s.drop_last())
    } else {
        collapsed(s.drop_last()).push(s.last())
    }
}

/// The normal form of a path in the file system: runs of slashes collapsed and
/// a trailing slash dropped, but the root stays `/`. Neither letter case nor
/// Unicode forms are folded.
pub open spec fn normal_path(s: Seq<char>) -> Seq<char> {
    let trimmed = text::trim_end_slashes(collapsed(s));
    if trimmed.len() == 0 && s.len() > 0 {
        seq!['/']
    } else {
        trimmed
    }
}

/// No two slashes stand in a row.
pub open spec fn no_slash_runs(s: Seq<char>) -> bool {
    forall|i: int, j: int|
        0 <= i && j == i + 1 && j < s.len() && #[trigger] s[i] == '/' ==> #[trigger] s[j] != '/'
}

/// A path in normal form: no two slashes in a row, and none at the end unless
/// it is the root.
pub open spec fn is_normal(s: Seq<char>) -> bool {
    no_slash_runs(s) && (s.len() > 1 ==> s.last() != '/')
}

/// The part of the path `media` below the library `lib`, if it lies below it.
/// Both are brought to normal form first. Below the root lies whatever is left
/// of a path without its leading slash; below any other library lies what
/// follows the library and a slash.
pub open spec fn relative(lib: Seq<char>, media: Seq<char>) -> Option<Seq<char>> {
    let l = normal_path(lib);
    let m = normal_path(media);
    if l == seq!['/'] {
        non_empty(text::trim_start_slashes(m))
    } else if l.push('/').is_prefix_of(m) {
        non_empty(m.skip(l.len() as int + 1))
    } else {
        None
    }
}

/// `s`, unless it is empty.
pub open spec fn non_empty(s: Seq<char>) -> Option<Seq<char>> {
    if s.len() > 0 {
        Some(s)
    } else {
        None
    }
}

/// The normal form of a path: runs of `/` collapsed into one, a trailing `/`
/// trimmed, a bare `/` kept.
pub fn normalize_fs_path(path: &str) -> (r: String)
    ensures
        r@ == normal_path(path@),
{
    let chars = chars_of(path);
    let n: usize = chars.len();
    let mut short: String = String::new();
    let mut prev_slash = false;
    assert(chars@.take(0) =~= Seq::<char>::empty());
    assert(short@ =~= collapsed(chars@.take(0)));
    for i in 0..n
        invariant
            n == chars@.len(),
            short@ == collapsed(chars@.take(i as int)),
            prev_slash == (i > 0 && chars@[i - 1] == '/'),
    {
        let ghost done = chars@.take(i + 1);
        assert(done.drop_last() =~= chars@.take(i as int));
        if chars[i] == '/' {
            if !prev_slash {
                short.push('/');
            }
            prev_slash = true;
        } else {
            short.push(chars[i]);
            prev_slash = false;
        }
    }
    assert(chars@.take(n as int) =~= path@);
    let trimmed = trimmed_end_slashes(short.as_str());
    if trimmed.as_str().is_empty() && n > 0 {
        let mut root: String = String::new();
        root.push('/');
        assert(root@ =~= seq!['/']);
        root
    } else {
        trimmed
    }
}

/// `media_path` relative to `library_path`, or `None` where the media does not
/// lie below the library. The library must end at a component of the path:
/// `/srv/comics` holds `/srv/comics/x.cbz` but not `/srv/comics-extra/x.cbz`.
pub fn relative_under(library_path: &str, media_path: &str) -> (r: Option<String>)
    ensures
        text::opt_text(r) == relative(library_path@, media_path@),
{
    let lib = normalize_fs_path(library_path);
    let media = normalize_fs_path(media_path);
    proof {
        reveal_strlit("/");
        assert("/"@ =~= seq!['/']);
    }
    if same_text(lib.as_str(), "/") {
        let rel = trimmed_start_slashes(media.as_str());
        return if rel.as_str().is_empty() {
            None
        } else {
            Some(rel)
        };
    }
    let prefix = chars_of(concat2(lib.as_str(), "/").as_str());
    let chars = chars_of(media.as_str());
    assert(prefix@ =~= lib@.push('/'));
    let k: usize = prefix.len();
    let n: usize = chars.len();
    if k > n {
        return None;
    }
    for i in 0..k
        invariant
            k == prefix@.len(),
            n == chars@.len(),
            k <= n,
            prefix@ == normal_path(library_path@).push('/'),
            chars@ == normal_path(media_path@),
            normal_path(library_path@) != seq!['/'],
            forall|j: int| 0 <= j < i ==> prefix@[j] == chars@[j],
    {
        if prefix[i] != chars[i] {
            return None;
        }
    }
    assert(prefix@.is_prefix_of(chars@));
    if k == n {
        return None;
    }
    assert(chars@.subrange(k as int, n as int) =~= chars@.skip(k as int));
    Some(string_of(&chars, k, n))
}

/// Collapsing leaves no two slashes in a row, and keeps the last character.
proof fn collapsed_shape(s: Seq<char>)
    ensures
        no_slash_runs(collapsed(s)),
        collapsed(s).len() <= s.len(),
        s.len() > 0 ==> collapsed(s).len() > 0 && collapsed(s).last() == s.last(),
    decreases s.len(),
{
    if s.len() > 0 {
        collapsed_shape(s.drop_last());
    }
}

/// A text without slash runs is its own collapsed form.
proof fn collapsed_fixed(s: Seq<char>)
    requires
        no_slash_runs(s),
    ensures
        collapsed(s) == s,
    decreases s.len(),
{
    if s.len() > 0 {
        assert(no_slash_runs(s.drop_last()));
        collapsed_fixed(s.drop_last());
        if s.len() >= 2 {
            assert(s[s.len() - 2] == '/' ==> s[s.len() - 1] != '/');
        }
        assert(s.drop_last().push(s.last()) =~= s);
    }
}

/// Without slash runs at most one trailing slash is trimmed.
proof fn trim_end_of_collapsed(s: Seq<char>)
    requires
        no_slash_runs(s),
    ensures
        text::trim_end_slashes(s) == (if s.len() > 0 && s.last() == '/' {
            s.drop_last()
        } else {
            s
        }),
{
    if s.len() > 0 && s.last() == '/' {
        let t = s.drop_last();
        if t.len() > 0 {
            assert(s[s.len() - 2] == '/' ==> s[s.len() - 1] != '/');
            assert(t.last() != '/');
        }
        assert(text::trim_end_slashes(t) == t);
    }
}

/// The normal form is normal: no two slashes in a row, no trailing slash but
/// for the root. It is empty only for the empty path.
pub proof fn normal_form_is_normal(s: Seq<char>)
    ensures
        is_normal(normal_path(s)),
        normal_path(s).len() == 0 <==> s.len() == 0,
{
    collapsed_shape(s);
    trim_end_of_collapsed(collapsed(s));
    let t = text::trim_end_slashes(collapsed(s));
    if t.len() > 0 && collapsed(s).last() == '/' {
        assert(collapsed(s)[t.len() - 1] == '/' ==> collapsed(s)[t.len() as int] != '/');
    }
}

/// A path in normal form is left alone, so normalising twice is normalising
/// once.
pub proof fn normal_path_is_fixed(s: Seq<char>)
    requires
        is_normal(s),
    ensures
        normal_path(s) == s,
{
    collapsed_fixed(s);
    trim_end_of_collapsed(s);
    if s.len() == 1 && s[0] == '/' {
        assert(s =~= seq!['/']);
    }
}

/// Normalising twice is normalising once.
pub proof fn normalising_is_idempotent(s: Seq<char>)
    ensures
        normal_path(normal_path(s)) == normal_path(s),
{
    normal_form_is_normal(s);
    normal_path_is_fixed(normal_path(s));
}

/// A trailing slash makes no difference to a path that is not empty.
pub proof fn trailing_slash_is_ignored(s: Seq<char>)
    requires
        s.len() > 0,
    ensures
        normal_path(s.push('/')) == normal_path(s),
{
    let t = s.push('/');
    assert(t.drop_last() =~= s);
    collapsed_shape(s);
    collapsed_shape(t);
    trim_end_of_collapsed(collapsed(s));
    trim_end_of_collapsed(collapsed(t));
    if s.last() == '/' {
        assert(t[t.len() - 2] == '/');
    } else {
        assert(collapsed(t).drop_last() =~= collapsed(s));
    }
}

/// Only the normal forms of the two paths matter.
pub proof fn relative_depends_on_normal_forms(lib: Seq<char>, media: Seq<char>)
    ensures
        relative(normal_path(lib), normal_path(media)) == relative(lib, media),
{
    normalising_is_idempotent(lib);
    normalising_is_idempotent(media);
}

/// What lies below a library, placed behind the library and a slash, is the
/// normal form of the media path. It is never empty.
pub proof fn relative_path_is_below(lib: Seq<char>, media: Seq<char>)
    requires
        relative(lib, media) is Some,
    ensures
        ({
            let rel = relative(lib, media)->0;
            &&& rel.len() > 0
            &&& normal_path(lib) != seq!['/'] ==> normal_path(media) == normal_path(lib).push('/')
                + rel
            &&& normal_path(lib) == seq!['/'] ==> normal_path(media) == rel || normal_path(media)
                == seq!['/'] + rel
        }),
{
    let l = normal_path(lib);
    let m = normal_path(media);
    if l != seq!['/'] {
        assert(m =~= l.push('/') + m.skip(l.len() as int + 1));
    } else {
        normal_form_is_normal(media);
        if m[0] == '/' {
            let t = m.drop_first();
            if t.len() > 0 {
                assert(m[0] == '/' ==> m[1] != '/');
                assert(t[0] != '/');
            }
            assert(text::trim_start_slashes(t) == t);
            assert(m =~= seq!['/'] + t);
        }
    }
}

/// Collapsing a text goes on unchanged over a second one that has no slash
/// runs and does not start with a slash.
proof fn collapsed_over(a: Seq<char>, b: Seq<char>)
    requires
        no_slash_runs(b),
        b.len() > 0 ==> b[0] != '/',
    ensures
        collapsed(a + b) == collapsed(a) + b,
    decreases b.len(),
{
    let s = a + b;
    if b.len() == 0 {
        assert(s =~= a);
        assert(collapsed(a) + b =~= collapsed(a));
    } else {
        let rest = b.drop_last();
        assert(no_slash_runs(rest));
        collapsed_over(a, rest);
        assert(s.drop_last() =~= a + rest);
        if rest.len() > 0 {
            assert(b[b.len() - 2] == '/' ==> b[b.len() - 1] != '/');
            assert(s[s.len() - 2] == b[b.len() - 2]);
        }
        assert((collapsed(a) + rest).push(b.last()) =~= collapsed(a) + b);
    }
}

/// A path with a slash behind it collapses to its normal form with a slash
/// behind it; the root to itself.
proof fn collapsed_with_slash(s: Seq<char>)
    ensures
        collapsed(s.push('/')) == (if normal_path(s) == seq!['/'] {
            seq!['/']
        } else {
            normal_path(s).push('/')
        }),
{
    let t = s.push('/');
    let c = collapsed(t);
    collapsed_shape(t);
    trim_end_of_collapsed(c);
    assert(c.drop_last().push('/') =~= c);
    if s.len() > 0 {
        trailing_slash_is_ignored(s);
        if c.drop_last().len() == 0 {
            assert(c =~= seq!['/']);
        } else if normal_path(s) == seq!['/'] {
            assert(c[0] == '/' ==> c[1] != '/');
        }
    } else {
        assert(t =~= seq!['/']);
        assert(no_slash_runs(t));
        collapsed_fixed(t);
        assert(normal_path(s) =~= Seq::<char>::empty());
        assert(normal_path(s).push('/') =~= t);
    }
}

/// A media path that was put together from a library, a slash and a relative
/// path is found again as that relative path, however the library is written.
pub proof fn placed_path_is_found(lib: Seq<char>, rel: Seq<char>)
    requires
        is_normal(rel),
        rel.len() > 0,
        rel[0] != '/',
    ensures
        relative(lib, lib.push('/') + rel) == Some(rel),
{
    let media = lib.push('/') + rel;
    let l = normal_path(lib);
    collapsed_over(lib.push('/'), rel);
    collapsed_with_slash(lib);
    let m = collapsed(media);
    collapsed_shape(media);
    assert(m.last() == rel.last());
    trim_end_of_collapsed(m);
    assert(normal_path(media) == m);
    if l == seq!['/'] {
        assert(m =~= seq!['/'] + rel);
        assert(m.drop_first() =~= rel);
        assert(text::trim_start_slashes(rel) == rel);
    } else {
        assert(m =~= l.push('/') + rel);
        assert(l.push('/').is_prefix_of(m));
        assert(m.skip(l.len() as int + 1) =~= rel);
    }
}

/// A path that starts with no slash and is in normal form is kept as it is.
pub proof fn plain_path_is_kept(path: Seq<char>)
    requires
        is_normal(path),
        path.len() > 0 ==> path[0] != '/',
    ensures
        inner_path(path) == path,
{
    normal_path_is_fixed(path);
    assert(text::trim_start_slashes(path) == path);
}

/// Slashes at the ends of a path make no difference.
pub proof fn outer_slashes_are_ignored(path: Seq<char>)
    ensures
        inner_path(path.push('/')) == inner_path(path),
        inner_path(seq!['/'] + path) == inner_path(path),
{
    if path.len() > 0 {
        trailing_slash_is_ignored(path);
        leading_slash_is_ignored(path);
    } else {
        assert(path.push('/') =~= seq!['/']);
        assert(seq!['/'] + path =~= seq!['/']);
        assert(path =~= Seq::<char>::empty());
        root_is_empty_inside();
    }
}

/// The root is empty inside another path.
proof fn root_is_empty_inside()
    ensures
        text::trim_start_slashes(normal_path(seq!['/'])) == Seq::<char>::empty(),
        text::trim_start_slashes(normal_path(Seq::<char>::empty())) == Seq::<char>::empty(),
{
    let root = seq!['/'];
    normal_path_is_fixed(root);
    normal_path_is_fixed(Seq::<char>::empty());
    assert(root.drop_first() =~= Seq::<char>::empty());
    assert(text::trim_start_slashes(root.drop_first()) =~= Seq::<char>::empty());
}

/// A leading slash is trimmed again behind the normal form.
proof fn leading_slash_is_ignored(p: Seq<char>)
    requires
        p.len() > 0,
    ensures
        text::trim_start_slashes(normal_path(seq!['/'] + p)) == text::trim_start_slashes(
            normal_path(p),
        ),
{
    collapsed_behind_slash(p);
    collapsed_shape(p);
    let q = seq!['/'] + p;
    let c = collapsed(p);
    collapsed_shape(q);
    trim_end_of_collapsed(c);
    trim_end_of_collapsed(collapsed(q));
    if p[0] != '/' {
        let d = seq!['/'] + c;
        assert(d.drop_last() =~= seq!['/'] + c.drop_last());
        let n = normal_path(p);
        assert(normal_path(q) =~= seq!['/'] + n);
        assert((seq!['/'] + n).drop_first() =~= n);
    }
}

/// Collapsing keeps the first character, and in front of a path a slash is
/// kept unless the path starts with one.
proof fn collapsed_behind_slash(p: Seq<char>)
    requires
        p.len() > 0,
    ensures
        collapsed(p).len() > 0,
        collapsed(p)[0] == p[0],
        collapsed(seq!['/'] + p) == (if p[0] == '/' {
            collapsed(p)
        } else {
            seq!['/'] + collapsed(p)
        }),
    decreases p.len(),
{
    let q = seq!['/'] + p;
    let rest = p.drop_last();
    assert(q.drop_last() =~= seq!['/'] + rest);
    reveal_with_fuel(collapsed, 3);
    if p.len() == 1 {
        assert(rest =~= Seq::<char>::empty());
        assert(q.drop_last() =~= seq!['/']);
        assert(q.drop_last().drop_last() =~= Seq::<char>::empty());
        assert(collapsed(q.drop_last()) =~= seq!['/']);
        assert(collapsed(p) =~= p);
        assert(seq!['/'].push(p[0]) =~= seq!['/'] + p);
        assert(p[0] == '/' ==> p =~= seq!['/']);
    } else {
        collapsed_behind_slash(rest);
        assert(q[q.len() - 2] == p[p.len() - 2]);
        assert((seq!['/'] + collapsed(rest)).push(p.last()) =~= seq!['/'] + collapsed(rest).push(
            p.last(),
        ));
    }
}

/// A path inside another is normal, and no slash stands at either end.
pub proof fn inner_path_shape(path: Seq<char>)
    ensures
        is_normal(inner_path(path)),
        inner_path(path).len() > 0 ==> inner_path(path)[0] != '/' && inner_path(path).last()
            != '/',
{
    let n = normal_path(path);
    normal_form_is_normal(path);
    if n.len() > 0 && n[0] == '/' {
        let t = n.drop_first();
        if t.len() > 0 {
            assert(n[0] == '/' ==> n[1] != '/');
            assert(t[0] != '/');
            assert(t.last() == n.last());
        }
        assert(text::trim_start_slashes(t) == t);
        assert forall|i: int, j: int|
            0 <= i && j == i + 1 && j < t.len() && #[trigger] t[i] == '/' implies #[trigger] t[j]
            != '/' by {
            assert(n[i + 1] == '/' ==> n[j + 1] != '/');
        }
    }
}

/// Behind a slash, collapsing goes on over a second text but for the slashes
/// that it starts with.
proof fn collapsed_over_any(a: Seq<char>, b: Seq<char>)
    ensures
        collapsed(a.push('/') + b) == collapsed(a.push('/')) + text::trim_start_slashes(
            collapsed(b),
        ),
    decreases b.len(),
{
    let t = a.push('/');
    let s = t + b;
    let c = collapsed(b);
    if b.len() == 0 {
        assert(s =~= t);
        assert(c =~= Seq::<char>::empty());
        assert(collapsed(t) + text::trim_start_slashes(c) =~= collapsed(t));
    } else {
        let rest = b.drop_last();
        let r = collapsed(rest);
        collapsed_over_any(a, rest);
        collapsed_shape(rest);
        collapsed_shape(b);
        assert(s.drop_last() =~= t + rest);
        if rest.len() == 0 {
            assert(rest =~= Seq::<char>::empty());
            assert(r =~= Seq::<char>::empty());
            assert(c =~= b);
            assert(s.drop_last() =~= t);
            assert(s[s.len() - 2] == '/');
            assert(b.drop_first() =~= Seq::<char>::empty());
            reveal_with_fuel(text::trim_start_slashes, 2);
            if b[0] == '/' {
                assert(collapsed(t) + text::trim_start_slashes(c) =~= collapsed(t));
            } else {
                assert(collapsed(t).push(b[0]) =~= collapsed(t) + c);
            }
        } else {
            assert(s[s.len() - 2] == b[b.len() - 2]);
            if !(b.last() == '/' && b[b.len() - 2] == '/') {
                assert(c == r.push(b.last()));
                trim_start_of_push(r, b.last());
                if text::trim_start_slashes(r).len() == 0 {
                    // Then nothing but one slash comes before the last character.
                    if r.len() > 1 {
                        assert(r[0] == '/' ==> r[1] != '/');
                        assert(r.drop_first()[0] == r[1]);
                        assert(text::trim_start_slashes(r.drop_first()) == r.drop_first());
                    }
                    assert(rest.last() == '/');
                }
                assert((collapsed(t) + text::trim_start_slashes(r)).push(b.last())
                    =~= collapsed(t) + text::trim_start_slashes(r).push(b.last()));
            }
        }
    }
}

/// Trimming in front goes on over one more character, unless nothing is left
/// and that character is a slash.
proof fn trim_start_of_push(s: Seq<char>, c: char)
    ensures
        text::trim_start_slashes(s.push(c)) == (if text::trim_start_slashes(s).len() == 0 && c
            == '/' {
            Seq::empty()
        } else {
            text::trim_start_slashes(s).push(c)
        }),
    decreases s.len(),
{
    let t = s.push(c);
    if s.len() == 0 {
        assert(t.drop_first() =~= Seq::<char>::empty());
        reveal_with_fuel(text::trim_start_slashes, 2);
        assert(t =~= text::trim_start_slashes(s).push(c));
    } else if s[0] == '/' {
        assert(t.drop_first() =~= s.drop_first().push(c));
        trim_start_of_push(s.drop_first(), c);
    }
}

/// Trimming in front goes on over a second text that does not start with a
/// slash.
proof fn trim_start_over(a: Seq<char>, b: Seq<char>)
    requires
        b.len() > 0,
        b[0] != '/',
    ensures
        text::trim_start_slashes(a + b) == text::trim_start_slashes(a) + b,
    decreases a.len(),
{
    if a.len() == 0 {
        assert(a + b =~= b);
        assert(text::trim_start_slashes(a) + b =~= b);
    } else if a[0] == '/' {
        assert((a + b).drop_first() =~= a.drop_first() + b);
        trim_start_over(a.drop_first(), b);
    }
}

/// A directory, a slash and a file name collapse to what the file placed under
/// the directory is, but for slashes in front.
proof fn joined_collapses_to_placed(path: Seq<char>, filename: Seq<char>)
    requires
        filename.len() > 0,
        forall|i: int| 0 <= i < filename.len() ==> #[trigger] filename[i] != '/',
    ensures
        text::trim_start_slashes(collapsed(path.push('/') + filename)) == placed_under(
            path,
            filename,
        ),
{
    reveal_strlit("/");
    assert(no_slash_runs(filename));
    collapsed_over(path.push('/'), filename);
    collapsed_with_slash(path);
    let front = collapsed(path.push('/'));
    trim_start_over(front, filename);
    let n = normal_path(path);
    trim_start_of_push(n, '/');
    inner_path_shape(path);
    if n == seq!['/'] {
        assert(front.drop_first() =~= Seq::<char>::empty());
        reveal_with_fuel(text::trim_start_slashes, 2);
        assert(text::trim_start_slashes(front) =~= Seq::<char>::empty());
    }
    let dir = inner_path(path);
    if dir.len() == 0 {
        assert(text::trim_start_slashes(front) =~= Seq::<char>::empty());
        assert(Seq::<char>::empty() + filename =~= filename);
    } else {
        assert(dir.push('/') + filename =~= dir + "/"@ + filename);
    }
}

/// The path of a comic is in the form of a relative path.
proof fn placed_shape(path: Seq<char>, filename: Seq<char>)
    requires
        filename.len() > 0,
        forall|i: int| 0 <= i < filename.len() ==> #[trigger] filename[i] != '/',
    ensures
        is_normal(placed_under(path, filename)),
        placed_under(path, filename).len() > 0,
        placed_under(path, filename)[0] != '/',
{
    reveal_strlit("/");
    let dir = inner_path(path);
    let rel = placed_under(path, filename);
    inner_path_shape(path);
    assert(rel.last() == filename.last());
    assert forall|i: int, j: int|
        0 <= i && j == i + 1 && j < rel.len() && #[trigger] rel[i] == '/' implies #[trigger] rel[j]
        != '/' by {
        if dir.len() > 0 {
            if j < dir.len() {
                assert(dir[i] == '/' ==> dir[j] != '/');
            } else if j == dir.len() {
                assert(rel[i] == dir.last());
            } else {
                assert(rel[j] == filename[j - dir.len() - 1]);
            }
        } else {
            assert(rel[j] == filename[j]);
        }
    }
    if dir.len() > 0 {
        assert(rel[0] == dir[0]);
    } else {
        assert(rel[0] == filename[0]);
    }
}

/// A media that lies in a comic's directory, under the comic's file name and
/// below any library, is found at exactly the path of the comic, however
/// slashes stand in the directory. A file name holds no slash.
pub proof fn comic_path_is_found(lib: Seq<char>, path: Seq<char>, filename: Seq<char>)
    requires
        filename.len() > 0,
        forall|i: int| 0 <= i < filename.len() ==> #[trigger] filename[i] != '/',
    ensures
        relative(lib, lib.push('/') + path.push('/') + filename) == Some(
            placed_under(path, filename),
        ),
{
    let rel = placed_under(path, filename);
    let b = path.push('/') + filename;
    let raw = lib.push('/') + b;
    let tidy = lib.push('/') + rel;
    assert(lib.push('/') + path.push('/') + filename =~= raw);
    placed_shape(path, filename);
    joined_collapses_to_placed(path, filename);
    collapsed_over_any(lib, b);
    collapsed_over(lib.push('/'), rel);
    assert(normal_path(raw) == normal_path(tidy));
    placed_path_is_found(lib, rel);
}

/// Collapsing before the separators are made alike changes nothing in what
/// collapsing gives after it.
proof fn slashed_after_collapsing(s: Seq<char>)
    ensures
        collapsed(slashed(collapsed(s))) == collapsed(slashed(s)),
    decreases s.len(),
{
    let c = collapsed(s);
    collapsed_shape(s);
    if s.len() == 0 {
        assert(slashed(c) =~= slashed(s));
    } else {
        let rest = s.drop_last();
        let r = collapsed(rest);
        slashed_after_collapsing(rest);
        collapsed_shape(rest);
        assert(slashed(s).drop_last() =~= slashed(rest));
        if s.len() >= 2 && s.last() == '/' && s[s.len() - 2] == '/' {
            assert(slashed(s).last() == '/');
            assert(slashed(s)[s.len() - 2] == '/');
        } else {
            assert(c == r.push(s.last()));
            assert(slashed(c).drop_last() =~= slashed(r));
            assert(slashed(c).last() == slashed(s).last());
            if rest.len() > 0 {
                assert(slashed(c)[c.len() - 2] == slashed(s)[s.len() - 2]);
            } else {
                assert(rest =~= Seq::<char>::empty());
                assert(r =~= Seq::<char>::empty());
            }
        }
    }
}

/// Two texts that collapse alike are the same path inside another.
proof fn same_collapsed_same_inside(a: Seq<char>, b: Seq<char>)
    requires
        collapsed(a) == collapsed(b),
    ensures
        inner_path(a) == inner_path(b),
{
    collapsed_shape(a);
    collapsed_shape(b);
}

/// Bringing a path to its inner form before the separators are made alike
/// changes nothing in the inner form that it has after it.
proof fn slashed_after_inner(path: Seq<char>)
    ensures
        inner_path(slashed(inner_path(path))) == inner_path(slashed(path)),
{
    let c = collapsed(path);
    let n = normal_path(path);
    let i = inner_path(path);
    collapsed_shape(path);
    trim_end_of_collapsed(c);
    slashed_after_collapsing(path);
    same_collapsed_same_inside(slashed(c), slashed(path));
    // The trailing slash.
    if c.len() > 0 && c.last() == '/' {
        let t = c.drop_last();
        assert(slashed(c) =~= slashed(t).push('/'));
        outer_slashes_are_ignored(slashed(t));
        if t.len() == 0 {
            assert(c =~= seq!['/']);
            assert(slashed(n) =~= slashed(c));
        }
    }
    assert(inner_path(slashed(n)) == inner_path(slashed(path)));
    // The leading slash.
    normal_form_is_normal(path);
    if n.len() > 0 && n[0] == '/' {
        let t = n.drop_first();
        if t.len() > 0 {
            assert(n[0] == '/' ==> n[1] != '/');
            assert(t[0] != '/');
        }
        assert(text::trim_start_slashes(t) == t);
        assert(slashed(n) =~= seq!['/'] + slashed(t));
        outer_slashes_are_ignored(slashed(t));
    }
}

/// Making the separators alike commutes with placing a file: it makes no
/// difference whether the directory or the whole path of the comic is taken.
pub proof fn placing_keeps_separators_alike(path: Seq<char>, filename: Seq<char>)
    requires
        filename.len() > 0,
        forall|i: int|
            0 <= i < filename.len() ==> #[trigger] filename[i] != '/' && filename[i] != '\\',
    ensures
        inner_path(slashed(placed_under(path, filename))) == placed_under(
            slashed(path),
            filename,
        ),
{
    reveal_strlit("/");
    let dir = inner_path(path);
    let d = slashed(dir);
    let f = filename;
    let rel = placed_under(path, f);
    slashed_after_inner(path);
    placed_shape(slashed(path), f);
    if dir.len() == 0 {
        assert(d =~= Seq::<char>::empty());
        root_is_empty_inside();
        assert(slashed(rel) =~= f);
        assert(no_slash_runs(f));
        plain_path_is_kept(f);
    } else {
        assert(slashed(rel) =~= d.push('/') + f);
        joined_collapses_to_placed(d, f);
        let j = d.push('/') + f;
        collapsed_shape(j);
        trim_end_of_collapsed(collapsed(j));
        assert(inner_path(j) == placed_under(d, f));
    }
}

/// With the separators made alike on both sides, a media that lies in a
/// comic's directory, under the comic's file name and below the library, is
/// found at the path of the comic, whichever separators either side is written
/// with. A file name holds no separator.
pub proof fn separators_make_no_difference(
    lib: Seq<char>,
    media: Seq<char>,
    path: Seq<char>,
    filename: Seq<char>,
)
    requires
        slashed(media) == slashed(lib.push('/') + path.push('/') + filename),
        filename.len() > 0,
        forall|i: int|
            0 <= i < filename.len() ==> #[trigger] filename[i] != '/' && filename[i] != '\\',
    ensures
        relative(slashed(lib), slashed(media)) == Some(
            inner_path(slashed(placed_under(path, filename))),
        ),
{
    assert(slashed(media) =~= slashed(lib).push('/') + slashed(path).push('/') + filename);
    comic_path_is_found(slashed(lib), slashed(path), filename);
    placing_keeps_separators_alike(path, filename);
}

/// A sibling whose name merely starts like the library is not below it: behind
/// the library there must be a slash. Both may be written in any form.
pub proof fn sibling_is_not_below(lib: Seq<char>, media: Seq<char>, c: char, rest: Seq<char>)
    requires
        normal_path(lib) != seq!['/'],
        c != '/',
        normal_path(media) == normal_path(lib).push(c) + rest,
    ensures
        relative(lib, media) is None,
{
    let l = normal_path(lib);
    let m = normal_path(media);
    if l.push('/').is_prefix_of(m) {
        assert(l.push('/')[l.len() as int] == m[l.len() as int]);
    }
}

/// Nothing lies below a library at the library's own place.
pub proof fn library_is_not_below_itself(lib: Seq<char>)
    ensures
        relative(lib, lib) is None,
{
    normal_form_is_normal(lib);
    let l = normal_path(lib);
    if l == seq!['/'] {
        assert(l.drop_first() =~= Seq::<char>::empty());
        assert(text::trim_start_slashes(l.drop_first()).len() == 0);
    }
}

/// Making separators alike turns every backslash into a slash and leaves every
/// other character where it is.
pub proof fn only_backslashes_become_slashes(s: Seq<char>)
    ensures
        slashed(s).len() == s.len(),
        forall|i: int|
            0 <= i < s.len() ==> {
                &&& s[i] == '\\' ==> #[trigger] slashed(s)[i] == '/'
                &&& s[i] != '\\' ==> slashed(s)[i] == s[i]
            },
{
}

/// A doubled slash collapses like a single one, wherever it stands.
proof fn collapsed_double_slash(a: Seq<char>, b: Seq<char>)
    ensures
        collapsed(a + seq!['/', '/'] + b) == collapsed(a + seq!['/'] + b),
    decreases b.len(),
{
    let two = a + seq!['/', '/'] + b;
    let one = a + seq!['/'] + b;
    if b.len() == 0 {
        assert(two.drop_last() =~= one);
        assert(two[two.len() - 2] == '/');
    } else {
        let rest = b.drop_last();
        collapsed_double_slash(a, rest);
        assert(two.drop_last() =~= a + seq!['/', '/'] + rest);
        assert(one.drop_last() =~= a + seq!['/'] + rest);
        assert(two[two.len() - 2] == one[one.len() - 2]) by {
            if rest.len() > 0 {
                assert(two[two.len() - 2] == rest.last());
                assert(one[one.len() - 2] == rest.last());
            }
        }
    }
}

/// A doubled slash counts as a single one, wherever it stands in a path.
pub proof fn doubled_slash_counts_as_one(a: Seq<char>, b: Seq<char>)
    ensures
        normal_path(a + seq!['/', '/'] + b) == normal_path(a + seq!['/'] + b),
        inner_path(a + seq!['/', '/'] + b) == inner_path(a + seq!['/'] + b),
{
    collapsed_double_slash(a, b);
}

/// Below the root every path is found as it is, with or without a slash in
/// front.
pub proof fn everything_lies_below_the_root(rel: Seq<char>)
    requires
        is_normal(rel),
        rel.len() > 0,
        rel[0] != '/',
    ensures
        relative(seq!['/'], rel) == Some(rel),
        relative(seq!['/'], seq!['/'] + rel) == Some(rel),
{
    let root = seq!['/'];
    normal_path_is_fixed(root);
    normal_path_is_fixed(rel);
    assert(text::trim_start_slashes(rel) == rel);
    let full = root + rel;
    assert(is_normal(full)) by {
        assert forall|i: int, j: int|
            0 <= i && j == i + 1 && j < full.len() && #[trigger] full[i] == '/' implies
            #[trigger] full[j] != '/' by {
            if i > 0 {
                assert(rel[i - 1] == '/' ==> rel[j - 1] != '/');
            }
        }
        assert(full.last() == rel.last());
    }
    normal_path_is_fixed(full);
    assert(full.drop_first() =~= rel);
}

/// A file stands behind its directory and a slash, and without a directory
/// alone; the file name is kept as it is.
pub proof fn file_stands_behind_its_directory(path: Seq<char>, filename: Seq<char>)
    ensures
        inner_path(path).len() == 0 ==> placed_under(path, filename) == filename,
        inner_path(path).len() > 0 ==> placed_under(path, filename) == inner_path(path).push('/')
            + filename,
{
    reveal_strlit("/");
    assert(inner_path(path) + "/"@ + filename =~= inner_path(path).push('/') + filename);
}

/// A comic that was read from a directory and a file name is found again below
/// any library that holds that file: the path that was made for it is the path
/// that its media is given below the library.
pub proof fn made_path_is_found_again(
    directory: &str,
    filename: &str,
    made: String,
    library: &str,
    media: &str,
    found: Option<String>,
)
    requires
        filename@.len() > 0,
        forall|i: int| 0 <= i < filename@.len() ==> #[trigger] filename@[i] != '/',
        call_ensures(normalize_path, (directory, filename), made),
        media@ == library@.push('/') + directory@.push('/') + filename@,
        call_ensures(relative_under, (library, media), found),
    ensures
        found matches Some(rel) && rel@ == made@,
{
    comic_path_is_found(library@, directory@, filename@);
}

/// A path that was brought to normal form has no doubled slash and no slash at
/// its end but for the root, and a path that has none is given back as it is.
pub proof fn normalised_path_is_normal(path: &str, made: String)
    requires
        call_ensures(normalize_fs_path, (path,), made),
    ensures
        is_normal(made@),
        is_normal(path@) ==> made@ == path@,
{
    normal_form_is_normal(path@);
    if is_normal(path@) {
        normal_path_is_fixed(path@);
    }
}

} // verus!
