//! Specification-level vocabulary for digit strings: which characters are
//! digits, what is left of a character sequence after dropping non-digits
//! or leading occurrences of a character, and the decimal representation
//! of a number. The executable counterparts live in `util` and `msisdn`.

use vstd::prelude::*;

verus! {

/// An ASCII decimal digit.
pub open spec fn is_digit_char(c: char) -> bool {
    '0' <= c && c <= '9'
}

/// The digit characters of `s`, in order, with everything else dropped.
pub open spec fn digits_of(s: Seq<char>) -> Seq<char>
    decreases s.len(),
{
    if s.len() == 0 {
        Seq::empty()
    } else {
        let rest = digits_of(s.drop_last());
        if is_digit_char(s.last()) {
            rest.push(s.last())
        } else {
            rest
        }
    }
}

/// `s` with every leading occurrence of `c` removed.
pub open spec fn strip_leading(s: Seq<char>, c: char) -> Seq<char>
    decreases s.len(),
{
    if s.len() > 0 && s[0] == c {
        strip_leading(s.drop_first(), c)
    } else {
        s
    }
}

/// `s` with every trailing occurrence of `c` removed.
pub open spec fn strip_trailing(s: Seq<char>, c: char) -> Seq<char>
    decreases s.len(),
{
    if s.len() > 0 && s.last() == c {
        strip_trailing(s.drop_last(), c)
    } else {
        s
    }
}

/// `s` with a single leading occurrence of `c` removed, if present.
pub open spec fn strip_one(s: Seq<char>, c: char) -> Seq<char> {
    if s.len() > 0 && s[0] == c {
        s.drop_first()
    } else {
        s
    }
}

/// One left-to-right pass over `prefix`: for each of its characters in
/// turn, a single leading occurrence is removed from the sequence.
pub open spec fn strip_prefix_pass(s: Seq<char>, prefix: Seq<char>) -> Seq<char>
    decreases prefix.len(),
{
    if prefix.len() == 0 {
        s
    } else {
        strip_prefix_pass(strip_one(s, prefix[0]), prefix.drop_first())
    }
}

/// The character for the decimal digit `d`.
pub open spec fn digit_char(d: int) -> char {
    ((d + 48) as u8) as char
}

/// The decimal representation of `n`, most significant digit first.
pub open spec fn dec_rep(n: nat) -> Seq<char>
    decreases n,
{
    if n < 10 {
        seq![digit_char(n as int)]
    } else {
        dec_rep(n / 10).push(digit_char((n % 10) as int))
    }
}

/// Everything `digits_of` keeps is a digit, and a sequence of digits is
/// kept whole.
pub proof fn lemma_digits_of_digits(s: Seq<char>)
    ensures
        forall|i: int| 0 <= i < digits_of(s).len() ==> is_digit_char(#[trigger] digits_of(s)[i]),
        (forall|i: int| 0 <= i < s.len() ==> is_digit_char(#[trigger] s[i])) ==> digits_of(s) == s,
    decreases s.len(),
{
    if s.len() > 0 {
        let rest = digits_of(s.drop_last());
        lemma_digits_of_digits(s.drop_last());
        if is_digit_char(s.last()) {
            assert(digits_of(s) == rest.push(s.last()));
            assert forall|i: int| 0 <= i < digits_of(s).len() implies is_digit_char(
                #[trigger] digits_of(s)[i],
            ) by {
                if i < rest.len() {
                    assert(digits_of(s)[i] == rest[i]);
                } else {
                    assert(digits_of(s)[i] == s.last());
                }
            }
        } else {
            assert(digits_of(s) == rest);
        }
        if forall|i: int| 0 <= i < s.len() ==> is_digit_char(#[trigger] s[i]) {
            assert(forall|i: int| 0 <= i < s.drop_last().len() ==> is_digit_char(
                #[trigger] s.drop_last()[i],
            ));
            assert(digits_of(s) =~= s);
        }
    }
}

/// A sequence without digit characters contributes nothing to `digits_of`.
pub proof fn lemma_digits_of_none(s: Seq<char>)
    requires
        forall|i: int| 0 <= i < s.len() ==> !is_digit_char(#[trigger] s[i]),
    ensures
        digits_of(s) == Seq::<char>::empty(),
    decreases s.len(),
{
    if s.len() > 0 {
        lemma_digits_of_none(s.drop_last());
    }
}

/// Stripping leading characters keeps a digit sequence all digits.
pub proof fn lemma_strip_leading_keeps_digits(s: Seq<char>, c: char)
    requires
        forall|i: int| 0 <= i < s.len() ==> is_digit_char(#[trigger] s[i]),
    ensures
        forall|i: int| 0 <= i < strip_leading(s, c).len() ==> is_digit_char(
            #[trigger] strip_leading(s, c)[i],
        ),
    decreases s.len(),
{
    if s.len() > 0 && s[0] == c {
        assert(forall|i: int| 0 <= i < s.drop_first().len() ==> is_digit_char(
            #[trigger] s.drop_first()[i],
        ));
        lemma_strip_leading_keeps_digits(s.drop_first(), c);
        assert(strip_leading(s, c) == strip_leading(s.drop_first(), c));
    } else {
        assert(strip_leading(s, c) == s);
    }
}

/// A single pass over a prefix keeps a digit sequence all digits.
pub proof fn lemma_strip_prefix_pass_keeps_digits(s: Seq<char>, prefix: Seq<char>)
    requires
        forall|i: int| 0 <= i < s.len() ==> is_digit_char(#[trigger] s[i]),
    ensures
        forall|i: int| 0 <= i < strip_prefix_pass(s, prefix).len() ==> is_digit_char(
            #[trigger] strip_prefix_pass(s, prefix)[i],
        ),
    decreases prefix.len(),
{
    if prefix.len() > 0 {
        let s1 = strip_one(s, prefix[0]);
        assert(forall|i: int| 0 <= i < s1.len() ==> is_digit_char(#[trigger] s1[i]));
        lemma_strip_prefix_pass_keeps_digits(s1, prefix.drop_first());
        assert(strip_prefix_pass(s, prefix) == strip_prefix_pass(s1, prefix.drop_first()));
    } else {
        assert(strip_prefix_pass(s, prefix) == s);
    }
}

/// If the characters of `s` from `i` on all equal `c` and the one before
/// them (if any) does not, stripping trailing `c` keeps exactly the first
/// `i`.
pub proof fn lemma_strip_trailing_take(s: Seq<char>, c: char, i: int)
    requires
        0 <= i <= s.len(),
        forall|j: int| i <= j < s.len() ==> s[j] == c,
        i == 0 || s[i - 1] != c,
    ensures
        strip_trailing(s, c) == s.take(i),
    decreases s.len(),
{
    if i == s.len() {
        assert(s.take(i) =~= s);
    } else {
        assert(s.last() == c);
        lemma_strip_trailing_take(s.drop_last(), c, i);
        assert(s.drop_last().take(i) =~= s.take(i));
    }
}

/// Stripping leading characters never lengthens a sequence.
pub proof fn lemma_strip_leading_len(s: Seq<char>, c: char)
    ensures
        strip_leading(s, c).len() <= s.len(),
    decreases s.len(),
{
    if s.len() > 0 && s[0] == c {
        lemma_strip_leading_len(s.drop_first(), c);
    }
}

/// If the first `i` characters of `s` equal `c` and the one after them
/// (if any) does not, stripping leading `c` drops exactly those `i`.
pub proof fn lemma_strip_leading_skip(s: Seq<char>, c: char, i: int)
    requires
        0 <= i <= s.len(),
        forall|j: int| 0 <= j < i ==> s[j] == c,
        i == s.len() || s[i] != c,
    ensures
        strip_leading(s, c) == s.skip(i),
    decreases i,
{
    if i == 0 {
        assert(s.skip(0) =~= s);
    } else {
        lemma_strip_leading_skip(s.drop_first(), c, i - 1);
        assert(s.drop_first().skip(i - 1) =~= s.skip(i));
    }
}

/// Stripping leading `c` from an all-`c` run followed by a sequence that
/// does not start with `c` yields that sequence.
pub proof fn lemma_strip_leading_run(pad: Seq<char>, d: Seq<char>, c: char)
    requires
        forall|j: int| 0 <= j < pad.len() ==> pad[j] == c,
        d.len() == 0 || d[0] != c,
    ensures
        strip_leading(pad + d, c) == d,
{
    let s = pad + d;
    assert(forall|j: int| 0 <= j < pad.len() ==> s[j] == c);
    lemma_strip_leading_skip(s, c, pad.len() as int);
    assert(s.skip(pad.len() as int) =~= d);
}

} // verus!
