//! Executable string utilities with exact contracts: character-wise
//! equality and prefix/suffix tests, and removal of leading characters.

use vstd::prelude::*;
use vstd::string::StrSliceExecFns;

use crate::digits::dec_rep;
use crate::digits::digit_char;
use crate::digits::strip_leading;
use crate::digits::strip_one;
use crate::digits::strip_trailing;

verus! {

/// True exactly when the two strings hold the same characters.
pub fn str_eq(a: &str, b: &str) -> (r: bool)
    ensures
        r == (a@ == b@),
{
    let an = a.unicode_len();
    let bn = b.unicode_len();
    if an != bn {
        return false;
    }
    let mut i: usize = 0;
    while i < an
        invariant
            an == a@.len(),
            bn == b@.len(),
            an == bn,
            i <= an,
            forall|j: int| 0 <= j < i ==> a@[j] == b@[j],
        decreases an - i,
    {
        if a.get_char(i) != b.get_char(i) {
            return false;
        }
        i = i + 1;
    }
    proof {
        assert(a@ =~= b@);
    }
    true
}

/// True exactly when `prefix` is a prefix of `s`.
pub fn str_starts_with(s: &str, prefix: &str) -> (r: bool)
    ensures
        r == prefix@.is_prefix_of(s@),
{
    let n = prefix.unicode_len();
    let m = s.unicode_len();
    if n > m {
        return false;
    }
    let mut i: usize = 0;
    while i < n
        invariant
            n == prefix@.len(),
            m == s@.len(),
            n <= m,
            i <= n,
            forall|j: int| 0 <= j < i ==> s@[j] == prefix@[j],
        decreases n - i,
    {
        if s.get_char(i) != prefix.get_char(i) {
            return false;
        }
        i = i + 1;
    }
    proof {
        assert(prefix@ =~= s@.subrange(0, n as int));
    }
    true
}

/// True exactly when `suffix` is a suffix of `s`.
pub fn str_ends_with(s: &str, suffix: &str) -> (r: bool)
    ensures
        r == suffix@.is_suffix_of(s@),
{
    let n = suffix.unicode_len();
    let m = s.unicode_len();
    if n > m {
        return false;
    }
    let off = m - n;
    let mut i: usize = 0;
    while i < n
        invariant
            n == suffix@.len(),
            m == s@.len(),
            n <= m,
            off == m - n,
            i <= n,
            forall|j: int| 0 <= j < i ==> s@[off + j] == suffix@[j],
        decreases n - i,
    {
        if s.get_char(off + i) != suffix.get_char(i) {
            return false;
        }
        i = i + 1;
    }
    proof {
        assert(suffix@ =~= s@.subrange((m - n) as int, m as int));
    }
    true
}

/// Removes leading occurrences of `character` from `string`: all of them
/// when `multiple` is set, at most one otherwise.
pub fn strip_lead_char<'a>(string: &'a str, character: char, multiple: bool) -> (r: &'a str)
    ensures
        multiple ==> r@ == strip_leading(string@, character),
        !multiple ==> r@ == strip_one(string@, character),
{
    let n = string.unicode_len();
    let mut i: usize = 0;
    while i < n && string.get_char(i) == character && (multiple || i == 0)
        invariant
            n == string@.len(),
            i <= n,
            forall|j: int| 0 <= j < i ==> string@[j] == character,
            !multiple ==> i <= 1,
        decreases n - i,
    {
        i = i + 1;
    }
    let r = string.substring_char(i, n);
    proof {
        if multiple {
            lemma_strip_lead_all(string@, character, i as int);
        } else {
            assert(r@ =~= strip_one(string@, character));
        }
    }
    r
}

/// Removes every trailing occurrence of `character` from `string`.
pub fn strip_trail_char<'a>(string: &'a str, character: char) -> (r: &'a str)
    ensures
        r@ == strip_trailing(string@, character),
{
    let n = string.unicode_len();
    let mut i: usize = n;
    while i > 0 && string.get_char(i - 1) == character
        invariant
            n == string@.len(),
            i <= n,
            forall|j: int| i <= j < n ==> string@[j] == character,
        decreases i,
    {
        i = i - 1;
    }
    let r = string.substring_char(0, i);
    proof {
        crate::digits::lemma_strip_trailing_take(string@, character, i as int);
        assert(r@ =~= string@.take(i as int));
    }
    r
}

/// Removes leading occurrences of `chr` from `s`: all of them when
/// `multiple` is set, at most one otherwise.
pub fn rm_lead_char<'a>(s: &'a str, chr: char, multiple: bool) -> (r: &'a str)
    ensures
        multiple ==> r@ == strip_leading(s@, chr),
        !multiple ==> r@ == strip_one(s@, chr),
{
    strip_lead_char(s, chr, multiple)
}

/// The decimal digits of `n`, most significant first.
fn dec_digit_chars(n: u64) -> (r: Vec<char>)
    ensures
        r@ == dec_rep(n as nat),
    decreases n,
{
    let d: char = ((n % 10) as u8 + 48) as char;
    proof {
        assert(d == digit_char((n % 10) as int));
    }
    if n < 10 {
        let mut v: Vec<char> = Vec::new();
        v.push(d);
        proof {
            assert(v@ =~= seq![digit_char(n as int)]);
        }
        v
    } else {
        let mut v = dec_digit_chars(n / 10);
        v.push(d);
        v
    }
}

/// The decimal representation of `n`.
pub fn u64_to_string(n: u64) -> (r: String)
    ensures
        r@ == dec_rep(n as nat),
{
    let digits = dec_digit_chars(n);
    chars_to_string(&digits)
}

/// Relies on `String`'s `FromIterator<char>` impl: collecting characters
/// yields the string of exactly those characters, in order.
#[verifier::external_body]
pub(crate) fn chars_to_string(chars: &Vec<char>) -> (r: String)
    ensures
        r@ == chars@,
{
    chars.iter().collect()
}

proof fn lemma_strip_lead_all(s: Seq<char>, c: char, i: int)
    requires
        0 <= i <= s.len(),
        forall|j: int| 0 <= j < i ==> s[j] == c,
        i == s.len() || s[i] != c,
    ensures
        strip_leading(s, c) == s.subrange(i, s.len() as int),
{
    crate::digits::lemma_strip_leading_skip(s, c, i);
    assert(s.skip(i) =~= s.subrange(i, s.len() as int));
}

} // verus!
