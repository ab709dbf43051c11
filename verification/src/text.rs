//! Text as sequences of characters: slicing, searching, joining and ordering.

use vstd::prelude::*;
use vstd::string::*;

verus! {

/// `String::push` of the standard library: appends one character to the end
/// of the string.
pub assume_specification[ String::push ](s: &mut String, c: char)
    ensures
        final(s)@ == old(s)@.push(c),
;

/// The text of an optional string.
pub open spec fn opt_text(s: Option<String>) -> Option<Seq<char>> {
    match s {
        Some(t) => Some(t@),
        None => None,
    }
}

/// The text of an optional string slice.
pub open spec fn opt_str(s: Option<&str>) -> Option<Seq<char>> {
    match s {
        Some(t) => Some(t@),
        None => None,
    }
}

/// `s` without its trailing slashes.
pub open spec fn trim_end_slashes(s: Seq<char>) -> Seq<char>
    decreases s.len(),
{
    if s.len() > 0 && s.last() == '/' {
        trim_end_slashes(s.drop_last())
    } else {
        s
    }
}

/// `s` without its leading slashes.
pub open spec fn trim_start_slashes(s: Seq<char>) -> Seq<char>
    decreases s.len(),
{
    if s.len() > 0 && s[0] == '/' {
        trim_start_slashes(s.drop_first())
    } else {
        s
    }
}

/// The part of `s` behind its last slash, or all of `s` where it has none.
pub open spec fn last_component(s: Seq<char>) -> Seq<char>
    decreases s.len(),
{
    if s.len() == 0 || s.last() == '/' {
        Seq::empty()
    } else {
        last_component(s.drop_last()).push(s.last())
    }
}

/// `needle` stands somewhere in `hay` as a contiguous run.
pub open spec fn occurs_in(needle: Seq<char>, hay: Seq<char>) -> bool {
    exists|i: int| #[trigger] occurs_at(needle, hay, i)
}

/// `needle` stands in `hay` at position `i`.
pub open spec fn occurs_at(needle: Seq<char>, hay: Seq<char>, i: int) -> bool {
    0 <= i <= hay.len() - needle.len() && hay.subrange(i, i + needle.len()) == needle
}

/// `a` comes strictly before `b` in lexical order: behind their common prefix
/// of length `k`, `a` ends or has the smaller character.
pub open spec fn precedes(a: Seq<char>, b: Seq<char>) -> bool {
    exists|k: int| #[trigger] precedes_at(a, b, k)
}

/// `a` and `b` agree on their first `k` characters and `a` is smaller there.
pub open spec fn precedes_at(a: Seq<char>, b: Seq<char>, k: int) -> bool {
    &&& 0 <= k <= a.len()
    &&& k < b.len()
    &&& a.take(k) == b.take(k)
    &&& (k == a.len() || a[k] < b[k])
}

/// The pieces in order, with `sep` between each two neighbours.
pub open spec fn joined(pieces: Seq<Seq<char>>, sep: Seq<char>) -> Seq<char>
    decreases pieces.len(),
{
    if pieces.len() == 0 {
        Seq::empty()
    } else if pieces.len() == 1 {
        pieces[0]
    } else {
        joined(pieces.drop_last(), sep) + sep + pieces.last()
    }
}

/// The texts of a list of strings.
pub open spec fn texts(list: Seq<String>) -> Seq<Seq<char>> {
    Seq::new(list.len(), |i: int| list[i]@)
}

/// The characters of a string slice.
pub fn chars_of(s: &str) -> (r: Vec<char>)
    ensures
        r@ == s@,
{
    let mut r: Vec<char> = Vec::new();
    for c in it: s.chars()
        invariant
            r@ == it.seq().take(it.index() as int),
            it.seq() == s@,
    {
        r.push(c);
        assert(it.seq().take(it.index() + 1) =~= it.seq().take(it.index() as int).push(c));
    }
    r
}

/// The string made of `chars[from..to]`.
pub fn string_of(chars: &Vec<char>, from: usize, to: usize) -> (r: String)
    requires
        from <= to <= chars@.len(),
    ensures
        r@ == chars@.subrange(from as int, to as int),
{
    let mut r: String = String::new();
    for i in from..to
        invariant
            from <= to <= chars@.len(),
            r@ == chars@.subrange(from as int, i as int),
    {
        r.push(chars[i]);
    }
    r
}

/// Whether two texts are the same.
pub fn same_text(a: &str, b: &str) -> (r: bool)
    ensures
        r == (a@ == b@),
{
    a.to_owned() == b.to_owned()
}

/// The two texts one behind the other.
pub fn concat2(a: &str, b: &str) -> (r: String)
    ensures
        r@ == a@ + b@,
{
    let mut r: String = a.to_owned();
    r.append(b);
    r
}

/// The three texts one behind the other.
pub fn concat3(a: &str, b: &str, c: &str) -> (r: String)
    ensures
        r@ == a@ + b@ + c@,
{
    let mut r: String = concat2(a, b);
    r.append(c);
    r
}

/// The text of `s` without its trailing slashes.
pub fn trimmed_end_slashes(s: &str) -> (r: String)
    ensures
        r@ == trim_end_slashes(s@),
{
    let chars = chars_of(s);
    let mut end: usize = chars.len();
    assert(chars@.take(end as int) =~= s@);
    while end > 0 && chars[end - 1] == '/'
        invariant
            end <= chars@.len(),
            chars@ == s@,
            trim_end_slashes(chars@.take(end as int)) == trim_end_slashes(s@),
        decreases end,
    {
        assert(chars@.take(end as int).drop_last() =~= chars@.take(end - 1));
        end = end - 1;
    }
    assert(chars@.take(end as int) =~= chars@.subrange(0, end as int));
    string_of(&chars, 0, end)
}

/// The text of `s` without its leading slashes.
pub fn trimmed_start_slashes(s: &str) -> (r: String)
    ensures
        r@ == trim_start_slashes(s@),
{
    let chars = chars_of(s);
    let n: usize = chars.len();
    let mut start: usize = 0;
    assert(chars@.skip(0) =~= s@);
    while start < n && chars[start] == '/'
        invariant
            start <= n,
            n == chars@.len(),
            chars@ == s@,
            trim_start_slashes(chars@.skip(start as int)) == trim_start_slashes(s@),
        decreases n - start,
    {
        assert(chars@.skip(start as int).drop_first() =~= chars@.skip(start + 1));
        start = start + 1;
    }
    assert(chars@.skip(start as int) =~= chars@.subrange(start as int, n as int));
    string_of(&chars, start, n)
}

/// The part of `s` behind its last slash.
pub fn base_name(s: &str) -> (r: String)
    ensures
        r@ == last_component(s@),
{
    let chars = chars_of(s);
    let n: usize = chars.len();
    let mut start: usize = n;
    assert(last_component(chars@.take(start as int)) + chars@.subrange(start as int, n as int)
        =~= last_component(s@)) by {
        assert(chars@.take(n as int) =~= s@);
    }
    while start > 0 && chars[start - 1] != '/'
        invariant
            start <= n,
            n == chars@.len(),
            last_component(chars@.take(start as int)) + chars@.subrange(start as int, n as int)
                == last_component(s@),
        decreases start,
    {
        assert(chars@.take(start as int).drop_last() =~= chars@.take(start - 1));
        assert(last_component(chars@.take(start - 1)).push(chars@[start - 1]) + chars@.subrange(
            start as int,
            n as int,
        ) =~= last_component(chars@.take(start - 1)) + chars@.subrange(start - 1, n as int));
        start = start - 1;
    }
    assert(last_component(chars@.take(start as int)) =~= Seq::<char>::empty());
    assert(Seq::<char>::empty() + chars@.subrange(start as int, n as int) =~= chars@.subrange(
        start as int,
        n as int,
    ));
    string_of(&chars, start, n)
}

/// Whether `needle` stands in `hay` at position `at`.
fn found_at(needle: &Vec<char>, hay: &Vec<char>, at: usize) -> (r: bool)
    requires
        at + needle@.len() <= hay@.len(),
    ensures
        r == occurs_at(needle@, hay@, at as int),
{
    let n: usize = needle.len();
    let end: usize = hay.len();
    for j in 0..n
        invariant
            n == needle@.len(),
            end == hay@.len(),
            at + n <= end,
            forall|k: int| 0 <= k < j ==> hay@[at + k] == needle@[k],
    {
        if hay[at + j] != needle[j] {
            assert(hay@.subrange(at as int, at + n)[j as int] != needle@[j as int]);
            return false;
        }
    }
    assert(hay@.subrange(at as int, at + n) =~= needle@);
    true
}

/// Whether `needle` stands somewhere in `hay`.
pub fn contains_text(hay: &str, needle: &str) -> (r: bool)
    ensures
        r == occurs_in(needle@, hay@),
{
    let h = chars_of(hay);
    let p = chars_of(needle);
    if p.len() > h.len() {
        return false;
    }
    let last: usize = h.len() - p.len();
    let mut i: usize = 0;
    while i <= last
        invariant
            h@ == hay@,
            p@ == needle@,
            p@.len() <= h@.len(),
            last == h@.len() - p@.len(),
            i <= last + 1,
            forall|k: int| 0 <= k < i ==> !occurs_at(p@, h@, k),
        decreases last + 1 - i,
    {
        if found_at(&p, &h, i) {
            return true;
        }
        if i == last {
            return false;
        }
        i = i + 1;
    }
    false
}

/// Whether `a` comes strictly before `b` in lexical order.
pub fn text_precedes(a: &str, b: &str) -> (r: bool)
    ensures
        r == precedes(a@, b@),
{
    let x = chars_of(a);
    let y = chars_of(b);
    let mut k: usize = 0;
    while k < x.len() && k < y.len() && x[k] == y[k]
        invariant
            x@ == a@,
            y@ == b@,
            k <= x@.len(),
            k <= y@.len(),
            forall|i: int| 0 <= i < k ==> x@[i] == y@[i],
        decreases x@.len() - k,
    {
        k = k + 1;
    }
    assert(x@.take(k as int) =~= y@.take(k as int));
    let less: bool = k < y.len() && (k == x.len() || x[k] < y[k]);
    proof {
        if less {
            assert(precedes_at(a@, b@, k as int));
        } else {
            assert forall|m: int| !precedes_at(a@, b@, m) by {
                if precedes_at(a@, b@, m) {
                    if m < k {
                        assert(x@[m] == y@[m]);
                    } else if m > k {
                        assert(a@.take(m)[k as int] == b@.take(m)[k as int]);
                    }
                }
            }
        }
    }
    less
}

/// The pieces in order, with `sep` between each two neighbours.
pub fn join_texts(pieces: &Vec<String>, sep: &str) -> (r: String)
    ensures
        r@ == joined(texts(pieces@), sep@),
{
    let mut r: String = String::new();
    let n: usize = pieces.len();
    for i in 0..n
        invariant
            n == pieces@.len(),
            r@ == joined(texts(pieces@).take(i as int), sep@),
    {
        let ghost all = texts(pieces@);
        assert(all.take(i + 1).drop_last() =~= all.take(i as int));
        if i > 0 {
            r.append(sep);
        } else {
            assert(Seq::<char>::empty() + all[0] =~= all[0]);
        }
        r.append(pieces[i].as_str());
    }
    assert(texts(pieces@).take(n as int) =~= texts(pieces@));
    r
}

/// Lexical order is strict: no text comes before itself, and of two texts at
/// most one comes before the other.
pub proof fn precedes_is_strict(a: Seq<char>, b: Seq<char>)
    ensures
        !precedes(a, a),
        !(precedes(a, b) && precedes(b, a)),
{
    if precedes(a, b) && precedes(b, a) {
        let j = choose|j: int| #[trigger] precedes_at(a, b, j);
        let k = choose|k: int| #[trigger] precedes_at(b, a, k);
        if j < k {
            assert(b.take(k)[j] == a.take(k)[j]);
        } else if k < j {
            assert(a.take(j)[k] == b.take(j)[k]);
        }
    }
}

/// Of two different texts one comes before the other.
pub proof fn precedes_is_total(a: Seq<char>, b: Seq<char>)
    requires
        a != b,
    ensures
        precedes(a, b) || precedes(b, a),
    decreases a.len(),
{
    if a.len() == 0 {
        assert(b.len() > 0) by {
            if b.len() == 0 {
                assert(a =~= b);
            }
        }
        assert(a.take(0) =~= b.take(0));
        assert(precedes_at(a, b, 0));
    } else if b.len() == 0 {
        assert(a.take(0) =~= b.take(0));
        assert(precedes_at(b, a, 0));
    } else if a[0] != b[0] {
        assert(a.take(0) =~= b.take(0));
        if a[0] < b[0] {
            assert(precedes_at(a, b, 0));
        } else {
            assert(precedes_at(b, a, 0));
        }
    } else {
        let a1 = a.drop_first();
        let b1 = b.drop_first();
        if a1 == b1 {
            assert(a =~= seq![a[0]] + a1);
            assert(b =~= seq![b[0]] + b1);
        }
        precedes_is_total(a1, b1);
        if precedes(a1, b1) {
            let k = choose|k: int| #[trigger] precedes_at(a1, b1, k);
            lemma_precedes_behind_first(a, b, k);
        } else {
            let k = choose|k: int| #[trigger] precedes_at(b1, a1, k);
            lemma_precedes_behind_first(b, a, k);
        }
    }
}

/// A place of difference behind equal first characters.
proof fn lemma_precedes_behind_first(a: Seq<char>, b: Seq<char>, k: int)
    requires
        a.len() > 0,
        b.len() > 0,
        a[0] == b[0],
        precedes_at(a.drop_first(), b.drop_first(), k),
    ensures
        precedes_at(a, b, k + 1),
{
    assert forall|i: int| 0 <= i < k + 1 implies a[i] == b[i] by {
        if i > 0 {
            assert(a.drop_first().take(k)[i - 1] == b.drop_first().take(k)[i - 1]);
        }
    }
    assert(a.take(k + 1) =~= b.take(k + 1));
}

/// The last component of a path is its end, holds no slash, and begins behind
/// one unless it is all of the path.
pub proof fn last_component_is_behind_the_last_slash(s: Seq<char>)
    ensures
        ({
            let name = last_component(s);
            let start = s.len() - name.len();
            &&& 0 <= start
            &&& s.skip(start) == name
            &&& forall|i: int| 0 <= i < name.len() ==> #[trigger] name[i] != '/'
            &&& start > 0 ==> s[start - 1] == '/'
        }),
    decreases s.len(),
{
    let name = last_component(s);
    if s.len() > 0 && s.last() != '/' {
        let rest = s.drop_last();
        last_component_is_behind_the_last_slash(rest);
        let start = s.len() - name.len();
        assert(s.skip(start) =~= rest.skip(start).push(s.last()));
    } else {
        assert(s.skip(s.len() as int) =~= name);
    }
}

/// Trimming the end takes away slashes only, and all of them.
pub proof fn trimmed_end_holds_no_slash(s: Seq<char>)
    ensures
        ({
            let t = trim_end_slashes(s);
            &&& t.is_prefix_of(s)
            &&& forall|i: int| t.len() <= i < s.len() ==> #[trigger] s[i] == '/'
            &&& t.len() > 0 ==> t.last() != '/'
        }),
    decreases s.len(),
{
    if s.len() > 0 && s.last() == '/' {
        let rest = s.drop_last();
        let t = trim_end_slashes(s);
        trimmed_end_holds_no_slash(rest);
        assert(t.is_prefix_of(s));
        assert forall|i: int| t.len() <= i < s.len() implies #[trigger] s[i] == '/' by {
            if i < rest.len() {
                assert(rest[i] == '/');
            }
        }
    }
}

/// Trimming the start takes away slashes only, and all of them.
pub proof fn trimmed_start_holds_no_slash(s: Seq<char>)
    ensures
        ({
            let t = trim_start_slashes(s);
            let start = s.len() - t.len();
            &&& 0 <= start
            &&& s.skip(start) == t
            &&& forall|i: int| 0 <= i < start ==> #[trigger] s[i] == '/'
            &&& t.len() > 0 ==> t[0] != '/'
        }),
    decreases s.len(),
{
    if s.len() > 0 && s[0] == '/' {
        let rest = s.drop_first();
        let t = trim_start_slashes(s);
        trimmed_start_holds_no_slash(rest);
        let start = s.len() - t.len();
        assert(s.skip(start) =~= rest.skip(start - 1));
        assert forall|i: int| 0 <= i < start implies #[trigger] s[i] == '/' by {
            if i > 0 {
                assert(rest[i - 1] == '/');
            }
        }
    } else {
        assert(s.skip(0) =~= s);
    }
}

/// A text occurs in another exactly where the other is made of something, the
/// text, and something.
pub proof fn occurrence_is_a_middle_part(needle: Seq<char>, hay: Seq<char>)
    ensures
        occurs_in(needle, hay) <==> exists|before: Seq<char>, after: Seq<char>|
            hay == #[trigger] (before + needle + after),
{
    if occurs_in(needle, hay) {
        let i = choose|i: int| #[trigger] occurs_at(needle, hay, i);
        assert(hay =~= hay.take(i) + needle + hay.skip(i + needle.len())) by {
            assert forall|k: int| 0 <= k < needle.len() implies #[trigger] hay[i + k]
                == needle[k] by {
                assert(hay.subrange(i, i + needle.len())[k] == needle[k]);
            }
            assert forall|k: int| i <= k < i + needle.len() implies #[trigger] hay[k] == needle[k
                - i] by {
                assert(hay[i + (k - i)] == needle[k - i]);
            }
        }
    }
    if exists|before: Seq<char>, after: Seq<char>|
        hay == #[trigger] (before + needle + after) {
        let (before, after) = choose|before: Seq<char>, after: Seq<char>|
            hay == #[trigger] (before + needle + after);
        let i = before.len() as int;
        assert(hay.subrange(i, i + needle.len()) =~= needle);
        assert(occurs_at(needle, hay, i));
    }
}

/// The first difference decides the lexical order, and a text comes before
/// every longer one that it begins.
pub proof fn first_difference_decides_the_order(
    common: Seq<char>,
    x: char,
    y: char,
    a: Seq<char>,
    b: Seq<char>,
)
    ensures
        x < y ==> precedes(common.push(x) + a, common.push(y) + b),
        precedes(common, common.push(x) + a),
{
    let k = common.len() as int;
    let p = common.push(x) + a;
    let q = common.push(y) + b;
    assert(p.take(k) =~= common);
    assert(q.take(k) =~= common);
    assert(common.take(k) =~= common);
    if x < y {
        assert(precedes_at(p, q, k));
    }
    assert(precedes_at(common, p, k));
}

/// Joining puts the separator between each two neighbours and nowhere else.
pub proof fn separator_stands_between_neighbours(
    pieces: Seq<Seq<char>>,
    piece: Seq<char>,
    sep: Seq<char>,
)
    ensures
        joined(Seq::empty(), sep).len() == 0,
        joined(seq![piece], sep) == piece,
        pieces.len() > 0 ==> joined(pieces.push(piece), sep) == joined(pieces, sep) + sep + piece,
{
    assert(pieces.push(piece).drop_last() =~= pieces);
}

/// The text of an optional string is the text of the string that is there.
pub proof fn optional_text_is_the_text_that_is_there(s: String, t: &str)
    ensures
        opt_text(Some(s)) == Some(s@),
        opt_text(None) is None,
        opt_str(Some(t)) == Some(t@),
        opt_str(None) is None,
{
}

} // verus!
