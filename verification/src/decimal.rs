//! Signed 64-bit integers in decimal notation.

use crate::text::chars_of;
use vstd::prelude::*;

verus! {

/// The character for the digit `d`.
pub open spec fn digit_char(d: int) -> char {
    (48 + d) as char
}

/// Whether `c` is one of `0` to `9`.
pub open spec fn is_digit(c: char) -> bool {
    '0' <= c <= '9'
}

/// What the digit `c` stands for.
pub open spec fn digit_value(c: char) -> int {
    c as int - 48
}

/// `n` in decimal digits, without leading zeros.
pub open spec fn digits(n: nat) -> Seq<char>
    decreases n,
{
    if n < 10 {
        seq![digit_char(n as int)]
    } else {
        digits(n / 10).push(digit_char((n % 10) as int))
    }
}

/// `i` in decimal notation, a minus sign in front where it is negative.
pub open spec fn decimal(i: int) -> Seq<char> {
    if i < 0 {
        seq!['-'] + digits((-i) as nat)
    } else {
        digits(i as nat)
    }
}

/// The number that a run of digits stands for.
pub open spec fn digits_value(s: Seq<char>) -> int
    decreases s.len(),
{
    if s.len() == 0 {
        0
    } else {
        10 * digits_value(s.drop_last()) + digit_value(s.last())
    }
}

/// `s` holds digits only, and at least one.
pub open spec fn all_digits(s: Seq<char>) -> bool {
    s.len() > 0 && forall|i: int| 0 <= i < s.len() ==> is_digit(#[trigger] s[i])
}

/// `s` begins with a sign.
pub open spec fn signed(s: Seq<char>) -> bool {
    s.len() > 0 && (s[0] == '-' || s[0] == '+')
}

/// `s` behind its sign, where it has one.
pub open spec fn magnitude(s: Seq<char>) -> Seq<char> {
    if signed(s) {
        s.drop_first()
    } else {
        s
    }
}

/// The 64-bit number that `s` denotes: an optional sign and then only digits,
/// within range. Anything else denotes nothing.
pub open spec fn parsed(s: Seq<char>) -> Option<i64> {
    if !all_digits(magnitude(s)) {
        None
    } else {
        let m = digits_value(magnitude(s));
        let v = if s[0] == '-' {
            -m
        } else {
            m
        };
        if i64::MIN <= v <= i64::MAX {
            Some(v as i64)
        } else {
            None
        }
    }
}

/// Appends the decimal digits of `n`.
fn push_digits(s: &mut String, n: u64)
    ensures
        final(s)@ == old(s)@ + digits(n as nat),
    decreases n,
{
    if n >= 10 {
        push_digits(s, n / 10);
    }
    let d: u8 = (n % 10) as u8;
    s.push((48 + d) as char);
}

/// `i` in decimal notation.
pub fn format_i64(i: i64) -> (r: String)
    ensures
        r@ == decimal(i as int),
{
    let mut r: String = String::new();
    if i < 0 {
        r.push('-');
        let m: u64 = (0 - i as i128) as u64;
        push_digits(&mut r, m);
    } else {
        push_digits(&mut r, i as u64);
    }
    r
}

/// The 64-bit number that `s` denotes, if it denotes one.
pub fn parse_i64(s: &str) -> (r: Option<i64>)
    ensures
        r == parsed(s@),
{
    let chars = chars_of(s);
    let n: usize = chars.len();
    if n == 0 {
        return None;
    }
    let negative: bool = chars[0] == '-';
    let from: usize = if negative || chars[0] == '+' {
        1
    } else {
        0
    };
    let ghost m = magnitude(s@);
    assert(m =~= chars@.skip(from as int));
    if from == n {
        return None;
    }
    let mut value: i128 = 0;
    let mut i: usize = from;
    assert(m.take(0) =~= Seq::<char>::empty());
    while i < n
        invariant
            n == chars@.len(),
            chars@ == s@,
            from <= i <= n,
            m == chars@.skip(from as int),
            m == magnitude(s@),
            negative == (s@[0] == '-'),
            0 <= value <= 0x8000_0000_0000_0000,
            value == digits_value(m.take(i - from)),
            forall|k: int| 0 <= k < i - from ==> is_digit(#[trigger] m[k]),
        decreases n - i,
    {
        let c = chars[i];
        assert(c == m[i - from]);
        if c < '0' || c > '9' {
            return None;
        }
        let ghost before = m.take(i - from);
        assert(m.take(i - from + 1).drop_last() =~= before);
        value = 10 * value + (c as i128 - 48);
        i = i + 1;
        if value > 0x8000_0000_0000_0000 {
            proof {
                if all_digits(m) {
                    lemma_longer_is_larger(m, i - from);
                }
            }
            return None;
        }
    }
    assert(m.take(n - from) =~= m);
    let v: i128 = if negative {
        0 - value
    } else {
        value
    };
    if v > 0x7fff_ffff_ffff_ffff {
        None
    } else {
        Some(v as i64)
    }
}

/// Further digits never make the number smaller.
proof fn lemma_longer_is_larger(s: Seq<char>, k: int)
    requires
        all_digits(s),
        0 <= k <= s.len(),
    ensures
        0 <= digits_value(s.take(k)) <= digits_value(s),
    decreases s.len(),
{
    if k == s.len() {
        assert(s.take(k) =~= s);
        if k > 1 {
            lemma_longer_is_larger(s.drop_last(), k - 1);
        }
        assert(is_digit(s[s.len() - 1]));
        reveal_with_fuel(digits_value, 2);
    } else if s.len() > 1 {
        lemma_longer_is_larger(s.drop_last(), k);
        assert(s.drop_last().take(k) =~= s.take(k));
        assert(is_digit(s[s.len() - 1]));
    } else {
        assert(s.take(k) =~= Seq::<char>::empty());
        assert(is_digit(s[s.len() - 1]));
        reveal_with_fuel(digits_value, 2);
    }
}

/// The digits of `n` are digits and stand for `n`.
proof fn lemma_digits_stand_for_number(n: nat)
    ensures
        all_digits(digits(n)),
        digits_value(digits(n)) == n,
    decreases n,
{
    reveal_with_fuel(digits_value, 2);
    if n >= 10 {
        lemma_digits_stand_for_number(n / 10);
        assert(digits(n).drop_last() =~= digits(n / 10));
    } else {
        assert(digits(n).drop_last() =~= Seq::<char>::empty());
    }
}

/// A number written in decimal notation is read back as the same number.
pub proof fn decimal_round_trip(i: i64)
    ensures
        parsed(decimal(i as int)) == Some(i),
{
    if i < 0 {
        lemma_digits_stand_for_number((-i) as nat);
        assert(magnitude(decimal(i as int)) =~= digits((-i) as nat));
    } else {
        lemma_digits_stand_for_number(i as nat);
        assert(is_digit(digits(i as nat)[0]));
        assert(magnitude(decimal(i as int)) =~= digits(i as nat));
    }
}

/// A number is written with digits only, behind a minus sign exactly where it
/// is negative, and without leading zeros; the digits stand for its magnitude.
pub proof fn decimal_notation_is_plain(i: int, m: Seq<char>)
    requires
        i < 0 ==> m == decimal(i).drop_first(),
        i >= 0 ==> m == decimal(i),
    ensures
        decimal(i).len() > 0,
        i < 0 <==> decimal(i)[0] == '-',
        m.len() > 0,
        forall|k: int| 0 <= k < m.len() ==> '0' <= #[trigger] m[k] <= '9',
        m.len() > 1 ==> m[0] != '0',
        digits_value(m) == (if i < 0 {
            -i
        } else {
            i
        }),
{
    let n = (if i < 0 {
        -i
    } else {
        i
    }) as nat;
    lemma_digits_stand_for_number(n);
    lemma_no_leading_zero(n);
    if i < 0 {
        assert(decimal(i).drop_first() =~= digits(n));
    } else {
        assert(is_digit(digits(n)[0]));
    }
    assert forall|k: int| 0 <= k < m.len() implies '0' <= #[trigger] m[k] <= '9' by {
        assert(is_digit(m[k]));
    }
}

/// Only 0 begins with the digit 0.
proof fn lemma_no_leading_zero(n: nat)
    ensures
        digits(n).len() > 0,
        n > 0 ==> digits(n)[0] != '0',
        n == 0 ==> digits(n).len() == 1,
    decreases n,
{
    if n >= 10 {
        lemma_no_leading_zero(n / 10);
    }
}

/// Each further digit makes the number ten times as large and adds the digit.
pub proof fn digits_count_in_tens(s: Seq<char>, c: char)
    ensures
        digits_value(Seq::empty()) == 0,
        digits_value(s.push(c)) == 10 * digits_value(s) + (c as int - '0' as int),
{
    assert(s.push(c).drop_last() =~= s);
}

/// A text denotes a number exactly where it is an optional sign and then digits
/// only, at least one, and the number fits; it is then the number that the
/// digits stand for, negative behind a minus sign.
pub proof fn only_signed_digits_denote_a_number(s: Seq<char>, m: Seq<char>)
    requires
        s.len() > 0 && (s[0] == '-' || s[0] == '+') ==> m == s.drop_first(),
        s.len() == 0 || (s[0] != '-' && s[0] != '+') ==> m == s,
    ensures
        ({
            let value = if s.len() > 0 && s[0] == '-' {
                -digits_value(m)
            } else {
                digits_value(m)
            };
            &&& parsed(s) is Some <==> m.len() > 0 && (forall|k: int|
                0 <= k < m.len() ==> '0' <= #[trigger] m[k] <= '9') && i64::MIN <= value
                <= i64::MAX
            &&& parsed(s) matches Some(v) ==> v == value
        }),
{
    assert(m == magnitude(s));
    if all_digits(m) {
        assert forall|k: int| 0 <= k < m.len() implies '0' <= #[trigger] m[k] <= '9' by {
            assert(is_digit(m[k]));
        }
    }
    if m.len() > 0 && (forall|k: int| 0 <= k < m.len() ==> '0' <= #[trigger] m[k] <= '9') {
        assert forall|k: int| 0 <= k < m.len() implies is_digit(#[trigger] m[k]) by {
            assert('0' <= m[k] <= '9');
        }
    }
}

/// A number that was formatted is parsed as the same number.
pub proof fn formatted_number_is_parsed_back(i: i64, text: String, s: &str, r: Option<i64>)
    requires
        call_ensures(format_i64, (i,), text),
        s@ == text@,
        call_ensures(parse_i64, (s,), r),
    ensures
        r == Some(i),
{
    decimal_round_trip(i);
}

} // verus!
