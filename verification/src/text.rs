//! Character-level helpers: hexadecimal rendering and substring search.

use vstd::prelude::*;

verus! {

/// `String::push` from std: appends one character.
#[verifier::external_body]
pub(crate) fn push_char(s: &mut String, c: char)
    ensures
        final(s)@ == old(s)@.push(c),
{
    s.push(c);
}

/// The characters of `s`, in order.
pub fn chars_of(s: &str) -> (v: Vec<char>)
    ensures
        v@ == s@,
{
    let mut v: Vec<char> = Vec::new();
    for c in it: s.chars()
        invariant
            v@ == it.seq().take(it.index() as int),
            it.seq() == s@,
    {
        v.push(c);
    }
    v
}

/// Upper-case hexadecimal digit for `d < 16`.
pub open spec fn hex_digit(d: nat) -> char {
    if d < 10 {
        (48 + d) as char
    } else {
        (55 + d) as char
    }
}

/// Upper-case hexadecimal rendering without leading zeros (as `{:X}` prints it).
pub open spec fn hex_upper(x: nat) -> Seq<char>
    decreases x,
{
    if x < 16 {
        seq![hex_digit(x)]
    } else {
        hex_upper(x / 16).push(hex_digit(x % 16))
    }
}

/// Numeric value of a hexadecimal digit character.
pub open spec fn hex_digit_value(c: char) -> int {
    if (c as int) < 65 {
        (c as int) - 48
    } else {
        (c as int) - 55
    }
}

/// Numeric value of a string of hexadecimal digits.
pub open spec fn hex_value(s: Seq<char>) -> int
    decreases s.len(),
{
    if s.len() == 0 {
        0
    } else {
        hex_value(s.drop_last()) * 16 + hex_digit_value(s.last())
    }
}

fn hex_digit_char(d: u64) -> (c: char)
    requires
        d < 16,
    ensures
        c == hex_digit(d as nat),
{
    if d < 10 {
        let b: u8 = (48 + d) as u8;
        b as char
    } else {
        let b: u8 = (55 + d) as u8;
        b as char
    }
}

/// Appends the upper-case hexadecimal rendering of `x` to `s`.
pub fn push_hex(s: &mut String, x: u64)
    ensures
        final(s)@ == old(s)@ + hex_upper(x as nat),
    decreases x,
{
    let ghost start = s@;
    if x >= 16 {
        push_hex(s, x / 16);
    }
    let d: char = hex_digit_char(x % 16);
    push_char(s, d);
    proof {
        if x >= 16 {
            assert(start + hex_upper(x as nat) =~= (start + hex_upper((x / 16) as nat)).push(d));
        } else {
            assert(start + hex_upper(x as nat) =~= start.push(d));
        }
    }
}

/// Decimal rendering of a natural number without leading zeros.
pub open spec fn dec_digits(n: nat) -> Seq<char>
    decreases n,
{
    if n < 10 {
        seq![hex_digit(n)]
    } else {
        dec_digits(n / 10).push(hex_digit(n % 10))
    }
}

/// Decimal rendering of an integer, as `{}` prints it: a minus sign before the
/// digits of a negative number.
pub open spec fn dec_int(x: int) -> Seq<char> {
    if x < 0 {
        seq!['-'] + dec_digits((-x) as nat)
    } else {
        dec_digits(x as nat)
    }
}

/// Appends the decimal rendering of `x` to `s`.
pub fn push_dec(s: &mut String, x: u64)
    ensures
        final(s)@ == old(s)@ + dec_digits(x as nat),
    decreases x,
{
    let ghost start = s@;
    if x >= 10 {
        push_dec(s, x / 10);
    }
    let d: char = hex_digit_char(x % 10);
    push_char(s, d);
    proof {
        if x >= 10 {
            assert(start + dec_digits(x as nat) =~= (start + dec_digits((x / 10) as nat)).push(d));
        } else {
            assert(start + dec_digits(x as nat) =~= start.push(d));
        }
    }
}

/// Appends the decimal rendering of the signed `x` to `s`.
pub fn push_i32(s: &mut String, x: i32)
    ensures
        final(s)@ == old(s)@ + dec_int(x as int),
{
    let wide: i64 = x as i64;
    if wide < 0 {
        let ghost start = s@;
        push_char(s, '-');
        let magnitude: u64 = (0 - wide) as u64;
        push_dec(s, magnitude);
        assert(start.push('-') + dec_digits(magnitude as nat) =~= start + dec_int(x as int));
    } else {
        push_dec(s, wide as u64);
    }
}

proof fn lemma_hex_digit_value(d: nat)
    requires
        d < 16,
    ensures
        hex_digit_value(hex_digit(d)) == d,
{
    if d < 10 {
        assert(((48 + d) as char) as int == 48 + d);
    } else {
        assert(((55 + d) as char) as int == 55 + d);
    }
}

/// Reading back the hexadecimal rendering gives the number: the rendering loses nothing.
pub proof fn lemma_hex_round_trip(x: nat)
    ensures
        hex_value(hex_upper(x)) == x,
        hex_upper(x).len() > 0,
    decreases x,
{
    lemma_hex_digit_value((x % 16) as nat);
    if x < 16 {
        assert(hex_upper(x).drop_last() =~= Seq::<char>::empty());
        assert(hex_value(Seq::<char>::empty()) == 0);
    } else {
        lemma_hex_round_trip(x / 16);
        assert(hex_upper(x).drop_last() =~= hex_upper(x / 16));
        assert(hex_upper(x).last() == hex_digit(x % 16));
        assert(hex_value(hex_upper(x)) == hex_value(hex_upper(x / 16)) * 16 + (x % 16) as int);
        assert((x / 16) * 16 + x % 16 == x);
    }
}

/// Two numbers have the same hexadecimal rendering only if they are equal.
pub proof fn lemma_hex_injective(x: nat, y: nat)
    requires
        hex_upper(x) == hex_upper(y),
    ensures
        x == y,
{
    lemma_hex_round_trip(x);
    lemma_hex_round_trip(y);
}

/// `p` occurs in `s` starting at position `i`.
pub open spec fn occurs_at(s: Seq<char>, p: Seq<char>, i: int) -> bool {
    0 <= i && i + p.len() <= s.len() && s.subrange(i, i + p.len()) == p
}

/// `p` occurs somewhere in `s` (the empty pattern occurs in every string).
pub open spec fn contains(s: Seq<char>, p: Seq<char>) -> bool {
    exists|i: int| occurs_at(s, p, i)
}

fn matches_at(s: &Vec<char>, p: &Vec<char>, i: usize) -> (r: bool)
    requires
        i + p.len() <= s.len(),
    ensures
        r == occurs_at(s@, p@, i as int),
{
    let mut j: usize = 0;
    while j < p.len()
        invariant
            i + p.len() <= s.len(),
            j <= p.len(),
            forall|k: int| 0 <= k < j ==> s@[i + k] == p@[k],
        decreases p.len() - j,
    {
        if s[i + j] != p[j] {
            assert(s@.subrange(i as int, i + p.len())[j as int] != p@[j as int]);
            return false;
        }
        j = j + 1;
    }
    assert(s@.subrange(i as int, i + p.len()) =~= p@);
    true
}

/// Whether `p` occurs in `s`.
pub fn seq_contains(s: &Vec<char>, p: &Vec<char>) -> (r: bool)
    ensures
        r == contains(s@, p@),
{
    if p.len() > s.len() {
        return false;
    }
    let last: usize = s.len() - p.len();
    let mut i: usize = 0;
    while i < last
        invariant
            last == s.len() - p.len(),
            p.len() <= s.len(),
            i <= last,
            forall|k: int| 0 <= k < i ==> !occurs_at(s@, p@, k),
        decreases last - i,
    {
        if matches_at(s, p, i) {
            return true;
        }
        i = i + 1;
    }
    if matches_at(s, p, last) {
        return true;
    }
    assert forall|k: int| !occurs_at(s@, p@, k) by {
        if 0 <= k && k + p.len() <= s.len() {
            assert(k <= last);
        }
    }
    false
}

/// Whether `pattern` occurs in `text`.
pub fn str_contains(text: &str, pattern: &str) -> (r: bool)
    ensures
        r == contains(text@, pattern@),
{
    let t = chars_of(text);
    let p = chars_of(pattern);
    seq_contains(&t, &p)
}

} // verus!
