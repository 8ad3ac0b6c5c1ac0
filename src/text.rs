//! Small verified string helpers: equality, prefixes and decimal formatting.
use vstd::prelude::*;

verus! {

/// The ASCII digit for a value below ten.
pub open spec fn digit_char(d: nat) -> char {
    if d == 0 { '0' }
    else if d == 1 { '1' }
    else if d == 2 { '2' }
    else if d == 3 { '3' }
    else if d == 4 { '4' }
    else if d == 5 { '5' }
    else if d == 6 { '6' }
    else if d == 7 { '7' }
    else if d == 8 { '8' }
    else { '9' }
}

/// Decimal notation of a natural number, without leading zeros.
pub open spec fn dec_seq(n: nat) -> Seq<char>
    decreases n,
{
    if n < 10 {
        seq![digit_char(n)]
    } else {
        dec_seq(n / 10) + seq![digit_char(n % 10)]
    }
}

/// A fixed-point value given in tenths, written with exactly one decimal.
pub open spec fn tenths_seq(t: nat) -> Seq<char> {
    dec_seq(t / 10) + seq!['.'] + seq![digit_char(t % 10)]
}

/// A value given in tenths, written as a float would display it:
/// no decimal when the fractional digit is zero.
pub open spec fn short_tenths_seq(t: nat) -> Seq<char> {
    if t % 10 == 0 { dec_seq(t / 10) } else { tenths_seq(t) }
}

/// A value given in hundredths, written with exactly two decimals.
pub open spec fn hundredths_seq(h: nat) -> Seq<char> {
    dec_seq(h / 100) + seq!['.'] + seq![digit_char((h % 100) / 10)] + seq![digit_char(h % 10)]
}

fn digit_str(d: u128) -> (r: &'static str)
    requires
        d < 10,
    ensures
        r@ == seq![digit_char(d as nat)],
{
    proof {
        reveal_strlit("0");
        reveal_strlit("1");
        reveal_strlit("2");
        reveal_strlit("3");
        reveal_strlit("4");
        reveal_strlit("5");
        reveal_strlit("6");
        reveal_strlit("7");
        reveal_strlit("8");
        reveal_strlit("9");
    }
    if d == 0 { "0" }
    else if d == 1 { "1" }
    else if d == 2 { "2" }
    else if d == 3 { "3" }
    else if d == 4 { "4" }
    else if d == 5 { "5" }
    else if d == 6 { "6" }
    else if d == 7 { "7" }
    else if d == 8 { "8" }
    else { "9" }
}

/// Decimal notation of `n`.
pub fn decimal_string(n: u128) -> (r: String)
    ensures
        r@ == dec_seq(n as nat),
    decreases n,
{
    if n < 10 {
        String::from_str(digit_str(n))
    } else {
        let mut s = decimal_string(n / 10);
        s.append(digit_str(n % 10));
        s
    }
}

/// `t` tenths written with one decimal (`123` gives `12.3`).
pub fn tenths_string(t: u64) -> (r: String)
    ensures
        r@ == tenths_seq(t as nat),
{
    let mut s = decimal_string((t / 10) as u128);
    proof { reveal_strlit("."); }
    s.append(".");
    s.append(digit_str((t % 10) as u128));
    s
}

/// `t` tenths written as a float displays it (`120` gives `12`, `125` gives `12.5`).
pub fn short_tenths_string(t: u64) -> (r: String)
    ensures
        r@ == short_tenths_seq(t as nat),
{
    if t % 10 == 0 {
        decimal_string((t / 10) as u128)
    } else {
        tenths_string(t)
    }
}

/// `h` hundredths written with two decimals (`205` gives `2.05`).
pub fn hundredths_string(h: u64) -> (r: String)
    ensures
        r@ == hundredths_seq(h as nat),
{
    let mut s = decimal_string((h / 100) as u128);
    proof { reveal_strlit("."); }
    s.append(".");
    s.append(digit_str(((h % 100) / 10) as u128));
    s.append(digit_str((h % 10) as u128));
    s
}

/// Character-wise equality of two strings.
pub fn str_eq(a: &str, b: &str) -> (r: bool)
    ensures
        r == (a@ == b@),
{
    let n = a.unicode_len();
    if n != b.unicode_len() {
        return false;
    }
    let mut i: usize = 0;
    while i < n
        invariant
            n == a@.len(),
            n == b@.len(),
            i <= n,
            forall|k: int| 0 <= k < i ==> a@[k] == b@[k],
        decreases n - i,
    {
        if a.get_char(i) != b.get_char(i) {
            return false;
        }
        i = i + 1;
    }
    assert(a@ =~= b@);
    true
}

/// Whether `s` begins with `p`.
pub fn starts_with(s: &str, p: &str) -> (r: bool)
    ensures
        r == (p@.len() <= s@.len() && s@.subrange(0, p@.len() as int) == p@),
{
    let n = p.unicode_len();
    if n > s.unicode_len() {
        return false;
    }
    let mut i: usize = 0;
    while i < n
        invariant
            n == p@.len(),
            n <= s@.len(),
            i <= n,
            forall|k: int| 0 <= k < i ==> s@[k] == p@[k],
        decreases n - i,
    {
        if s.get_char(i) != p.get_char(i) {
            assert(s@.subrange(0, n as int)[i as int] != p@[i as int]);
            return false;
        }
        i = i + 1;
    }
    assert(s@.subrange(0, n as int) =~= p@);
    true
}

pub open spec fn is_digit(c: char) -> bool {
    '0' <= c && c <= '9'
}

pub open spec fn all_digits(s: Seq<char>) -> bool {
    forall|i: int| 0 <= i < s.len() ==> is_digit(#[trigger] s[i])
}

/// The number a string of decimal digits denotes.
pub open spec fn digits_value(s: Seq<char>) -> nat
    decreases s.len(),
{
    if s.len() == 0 {
        0
    } else {
        digits_value(s.drop_last()) * 10 + ((s.last() as u32 - '0' as u32) as nat)
    }
}

/// What `str::parse::<u16>` accepts: an optional `+`, then one or more
/// digits whose value fits in sixteen bits.
pub open spec fn parse_u16_spec(s: Seq<char>) -> Option<u16> {
    let t = if s.len() > 0 && s[0] == '+' { s.skip(1) } else { s };
    if t.len() == 0 || !all_digits(t) || digits_value(t) > 65535 {
        None
    } else {
        Some(digits_value(t) as u16)
    }
}

proof fn lemma_digits_value_mono(s: Seq<char>, i: int, j: int)
    requires
        0 <= i <= j <= s.len(),
        all_digits(s),
    ensures
        digits_value(s.subrange(0, i)) <= digits_value(s.subrange(0, j)),
    decreases j - i,
{
    if i < j {
        lemma_digits_value_mono(s, i, j - 1);
        assert(s.subrange(0, j).drop_last() =~= s.subrange(0, j - 1));
    }
}

/// Parses a `u16` exactly as `str::parse` does.
pub fn parse_u16(s: &str) -> (r: Option<u16>)
    ensures
        r == parse_u16_spec(s@),
{
    let n = s.unicode_len();
    let start: usize = if n > 0 && s.get_char(0) == '+' { 1 } else { 0 };
    let ghost t = if s@.len() > 0 && s@[0] == '+' { s@.skip(1) } else { s@ };
    if start == n {
        return None;
    }
    let mut acc: u32 = 0;
    let mut i: usize = start;
    while i < n
        invariant
            n == s@.len(),
            start <= i <= n,
            start < n,
            t == s@.subrange(start as int, n as int),
            t == (if s@.len() > 0 && s@[0] == '+' { s@.skip(1) } else { s@ }),
            all_digits(t.subrange(0, i - start)),
            acc as nat == digits_value(t.subrange(0, i - start)),
            acc <= 65535,
        decreases n - i,
    {
        let c = s.get_char(i);
        if !('0' <= c && c <= '9') {
            assert(t[i - start] == c);
            assert(!all_digits(t));
            return None;
        }
        let next = acc * 10 + (c as u32 - '0' as u32);
        proof {
            assert(t.subrange(0, i - start + 1).drop_last() =~= t.subrange(0, i - start));
            assert(t.subrange(0, i - start + 1).last() == c);
            assert(all_digits(t.subrange(0, i - start + 1)));
        }
        if next > 65535 {
            proof {
                assert(digits_value(t.subrange(0, i - start + 1)) == next);
                if all_digits(t) {
                    lemma_digits_value_mono(t, i - start + 1, t.len() as int);
                    assert(t.subrange(0, t.len() as int) =~= t);
                    assert(digits_value(t) > 65535);
                }
            }
            return None;
        }
        acc = next;
        i = i + 1;
    }
    assert(t.subrange(0, n - start) =~= t);
    Some(acc as u16)
}

pub open spec fn occurs_at(s: Seq<char>, p: Seq<char>, i: int) -> bool {
    0 <= i && i + p.len() <= s.len() && s.subrange(i, i + p.len()) == p
}

pub open spec fn contains_seq(s: Seq<char>, p: Seq<char>) -> bool {
    exists|i: int| occurs_at(s, p, i)
}

fn matches_at(s: &str, p: &str, i: usize) -> (r: bool)
    requires
        i + p@.len() <= s@.len(),
    ensures
        r == occurs_at(s@, p@, i as int),
{
    let m = p.unicode_len();
    let n = s.unicode_len();
    let mut k: usize = 0;
    while k < m
        invariant
            m == p@.len(),
            n == s@.len(),
            i + m <= s@.len(),
            k <= m,
            forall|j: int| 0 <= j < k ==> s@[i + j] == p@[j],
        decreases m - k,
    {
        if s.get_char(i + k) != p.get_char(k) {
            assert(s@.subrange(i as int, i + m)[k as int] != p@[k as int]);
            return false;
        }
        k = k + 1;
    }
    assert(s@.subrange(i as int, i + m) =~= p@);
    true
}

/// Whether `p` occurs in `s`.
pub fn contains_str(s: &str, p: &str) -> (r: bool)
    ensures
        r == contains_seq(s@, p@),
{
    let n = s.unicode_len();
    let m = p.unicode_len();
    if m > n {
        return false;
    }
    if m == 0 {
        assert(s@.subrange(0, 0) =~= p@);
        assert(occurs_at(s@, p@, 0));
        return true;
    }
    let mut i: usize = 0;
    while i <= n - m
        invariant
            n == s@.len(),
            m == p@.len(),
            0 < m <= n,
            i <= n - m + 1,
            forall|j: int| 0 <= j < i ==> !occurs_at(s@, p@, j),
        decreases n - m + 1 - i,
    {
        if matches_at(s, p, i) {
            return true;
        }
        i = i + 1;
    }
    false
}

} // verus!
