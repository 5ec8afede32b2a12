//! The mobile-number normalizer. A raw user-entered number plus a default
//! country (and optional alternate countries) is converted into the
//! gateway's canonical subscriber-number form: the country's dialing
//! prefix followed by exactly its count of subscriber digits.
//!
//! The algorithm, on the digit characters of the input:
//! 1. drop every non-digit character;
//! 2. drop all leading zeros (this covers both a local leading `0` and
//!    the international `00` prefix);
//! 3. if the remainder starts with an alternate country's prefix and has
//!    that country's exact total length, accept it verbatim — first match
//!    wins;
//! 4. otherwise treat it as a local number for the default country:
//!    fewer digits than the country's count fail; more digits first lose
//!    one leading occurrence of each prefix character in turn, then any
//!    leading zeros, and must then have exactly the country's count;
//! 5. the result is the default prefix followed by the remaining digits.

use vstd::prelude::*;
use vstd::string::StrSliceExecFns;

use crate::country::Country;
use crate::digits::digits_of;
use crate::digits::is_digit_char;
use crate::digits::lemma_digits_of_digits;
use crate::digits::lemma_digits_of_none;
use crate::digits::lemma_strip_leading_keeps_digits;
use crate::digits::lemma_strip_leading_len;
use crate::digits::lemma_strip_leading_run;
use crate::digits::lemma_strip_prefix_pass_keeps_digits;
use crate::digits::strip_leading;
use crate::digits::strip_one;
use crate::digits::strip_prefix_pass;
use crate::error::MomoError;
use crate::util::chars_to_string;
use crate::util::rm_lead_char;
use crate::util::str_starts_with;

verus! {

/// What normalization yields: a canonical digit sequence, or one of the
/// two validation failures.
pub enum NormResult {
    Accepted { msisdn: Seq<char> },
    TooFewDigits,
    WrongDigitCount,
}

/// Does the digit sequence `d` match country `c` as an alternate: it
/// starts with `c`'s prefix and has `c`'s exact total length.
pub open spec fn alt_matches(d: Seq<char>, c: Country) -> bool {
    c.prefix@.is_prefix_of(d) && d.len() == 3 + c.non_prefix_digits
}

/// The first country of `alts` that `d` matches, if any.
pub open spec fn first_alt_match(d: Seq<char>, alts: Seq<Country>) -> Option<Country>
    decreases alts.len(),
{
    if alts.len() == 0 {
        None
    } else if alt_matches(d, alts[0]) {
        Some(alts[0])
    } else {
        first_alt_match(d, alts.drop_first())
    }
}

/// The normalization algorithm on character sequences.
pub open spec fn normalize_spec(raw: Seq<char>, default: Country, alts: Seq<Country>) -> NormResult {
    let d = strip_leading(digits_of(raw), '0');
    if first_alt_match(d, alts) is Some {
        NormResult::Accepted { msisdn: d }
    } else if d.len() < default.non_prefix_digits {
        NormResult::TooFewDigits
    } else if d.len() == default.non_prefix_digits {
        NormResult::Accepted { msisdn: default.prefix@ + d }
    } else {
        let e = strip_leading(strip_prefix_pass(d, default.prefix@), '0');
        if e.len() == default.non_prefix_digits {
            NormResult::Accepted { msisdn: default.prefix@ + e }
        } else {
            NormResult::WrongDigitCount
        }
    }
}

/// The countries a sequence of borrowed registry entries denotes.
pub open spec fn countries_view(cs: Seq<&Country>) -> Seq<Country> {
    cs.map_values(|c: &Country| *c)
}

/// The countries an optional alternate list denotes; none means the empty
/// list.
pub open spec fn alternates_view(alts: Option<Vec<&Country>>) -> Seq<Country> {
    match alts {
        None => Seq::empty(),
        Some(v) => countries_view(v@),
    }
}

/// A canonical subscriber number. Its only constructors are the
/// normalizer's entry points, so no unchecked string can flow into a
/// payment request.
#[derive(Debug, PartialEq, Eq)]
pub struct Msisdn(String);

impl View for Msisdn {
    type V = Seq<char>;

    closed spec fn view(&self) -> Seq<char> {
        self.0@
    }
}

impl Clone for Msisdn {
    fn clone(&self) -> (r: Self)
        ensures
            r == *self,
    {
        Msisdn(self.0.clone())
    }
}

impl Msisdn {
    /// Normalizes `mobile_number` against `default_country`, trying each
    /// of `alternate_countries` first, in order. Succeeds exactly when the
    /// normalization algorithm accepts the input's digits; each validation
    /// failure reports the offending input and the default country.
    pub fn parse(
        mobile_number: &str,
        default_country: &Country,
        alternate_countries: Option<Vec<&Country>>,
    ) -> (r: Result<Msisdn, MomoError>)
        ensures
            ({
                let norm = normalize_spec(
                    mobile_number@,
                    *default_country,
                    alternates_view(alternate_countries),
                );
                match r {
                    Ok(m) => norm == (NormResult::Accepted { msisdn: m@ }),
                    Err(e) => match e {
                        MomoError::TooFewDigits { mobile_number: mn, country: c } => norm
                            == NormResult::TooFewDigits && mn@ == mobile_number@ && c
                            == *default_country,
                        MomoError::WrongDigitCount { mobile_number: mn, country: c } => norm
                            == NormResult::WrongDigitCount && mn@ == mobile_number@ && c
                            == *default_country,
                        _ => false,
                    },
                }
            }),
    {
        let ghost alts_seq = alternates_view(alternate_countries);
        let digit_chars = extract_digits(mobile_number);
        let digit_string = chars_to_string(&digit_chars);
        let mut rebase: &str = rm_lead_char(digit_string.as_str(), '0', true);
        let ghost d = strip_leading(digits_of(mobile_number@), '0');

        if let Some(countries) = &alternate_countries {
            let mut i: usize = 0;
            while i < countries.len()
                invariant
                    i <= countries.len(),
                    rebase@ == d,
                    d == strip_leading(digits_of(mobile_number@), '0'),
                    alts_seq == countries_view(countries@),
                    alts_seq == alternates_view(alternate_countries),
                    forall|j: int| 0 <= j < i ==> !alt_matches(d, alts_seq[j]),
                decreases countries.len() - i,
            {
                let country: &Country = countries[i];
                proof {
                    assert(alts_seq[i as int] == *countries@[i as int]);
                }
                if str_starts_with(rebase, country.prefix.as_str()) {
                    let rlen = rebase.unicode_len();
                    if rlen >= 3 && rlen - 3 == country.non_prefix_digits {
                        proof {
                            assert(alt_matches(d, alts_seq[i as int]));
                            lemma_first_alt_match_at(d, alts_seq, i as int);
                        }
                        return Ok(Msisdn(rebase.to_owned()));
                    }
                }
                i = i + 1;
            }
            proof {
                lemma_first_alt_match_none(d, alts_seq);
            }
        }
        assert(first_alt_match(d, alts_seq) is None);

        let rlen = rebase.unicode_len();
        if rlen < default_country.non_prefix_digits {
            return Err(MomoError::TooFewDigits {
                mobile_number: mobile_number.to_owned(),
                country: default_country.clone(),
            });
        } else if rlen > default_country.non_prefix_digits {
            let plen = default_country.prefix.unicode_len();
            let mut k: usize = 0;
            while k < plen
                invariant
                    k <= plen,
                    plen == default_country.prefix@.len(),
                    rebase@ == strip_prefix_pass(d, default_country.prefix@.take(k as int)),
                decreases plen - k,
            {
                let ch = default_country.prefix.get_char(k);
                rebase = rm_lead_char(rebase, ch, false);
                proof {
                    lemma_strip_prefix_pass_push(
                        d,
                        default_country.prefix@.take(k as int),
                        default_country.prefix@[k as int],
                    );
                    assert(default_country.prefix@.take(k + 1) =~= default_country.prefix@.take(
                        k as int,
                    ).push(default_country.prefix@[k as int]));
                }
                k = k + 1;
            }
            assert(default_country.prefix@.take(plen as int) =~= default_country.prefix@);

            rebase = rm_lead_char(rebase, '0', true);

            if rebase.unicode_len() != default_country.non_prefix_digits {
                return Err(MomoError::WrongDigitCount {
                    mobile_number: mobile_number.to_owned(),
                    country: default_country.clone(),
                });
            }
        }

        let mut canonical = default_country.prefix.clone();
        canonical.append(rebase);
        Ok(Msisdn(canonical))
    }

    /// Normalizes `mobile_number` against `default_country`, trying each
    /// of `supported_countries` first, in order.
    pub fn new(
        mobile_number: &str,
        default_country: &Country,
        supported_countries: Vec<&Country>,
    ) -> (r: Result<Msisdn, MomoError>)
        ensures
            ({
                let norm = normalize_spec(
                    mobile_number@,
                    *default_country,
                    countries_view(supported_countries@),
                );
                match r {
                    Ok(m) => norm == (NormResult::Accepted { msisdn: m@ }),
                    Err(e) => match e {
                        MomoError::TooFewDigits { mobile_number: mn, country: c } => norm
                            == NormResult::TooFewDigits && mn@ == mobile_number@ && c
                            == *default_country,
                        MomoError::WrongDigitCount { mobile_number: mn, country: c } => norm
                            == NormResult::WrongDigitCount && mn@ == mobile_number@ && c
                            == *default_country,
                        _ => false,
                    },
                }
            }),
    {
        Msisdn::parse(mobile_number, default_country, Some(supported_countries))
    }

    /// The canonical digits as a borrowed string.
    pub fn as_str(&self) -> (r: &str)
        ensures
            r@ == self@,
    {
        self.0.as_str()
    }

    /// The canonical digits as an owned string.
    pub fn to_string(&self) -> (r: String)
        ensures
            r@ == self@,
    {
        self.0.clone()
    }
}

/// The digit characters of `raw`, in order.
fn extract_digits(raw: &str) -> (r: Vec<char>)
    ensures
        r@ == digits_of(raw@),
{
    let n = raw.unicode_len();
    let mut out: Vec<char> = Vec::new();
    let mut i: usize = 0;
    while i < n
        invariant
            n == raw@.len(),
            i <= n,
            out@ == digits_of(raw@.take(i as int)),
        decreases n - i,
    {
        let c = raw.get_char(i);
        proof {
            assert(raw@.take(i + 1).drop_last() =~= raw@.take(i as int));
            assert(raw@.take(i + 1).last() == raw@[i as int]);
        }
        if '0' <= c && c <= '9' {
            out.push(c);
        }
        i = i + 1;
    }
    proof {
        assert(raw@.take(n as int) =~= raw@);
    }
    out
}

/// If `d` matches `alts[i]` and none before it, `alts[i]` is the first
/// match.
proof fn lemma_first_alt_match_at(d: Seq<char>, alts: Seq<Country>, i: int)
    requires
        0 <= i < alts.len(),
        alt_matches(d, alts[i]),
        forall|j: int| 0 <= j < i ==> !alt_matches(d, alts[j]),
    ensures
        first_alt_match(d, alts) == Some(alts[i]),
    decreases i,
{
    if i > 0 {
        lemma_first_alt_match_at(d, alts.drop_first(), i - 1);
    }
}

/// If `d` matches no country of `alts`, there is no first match.
proof fn lemma_first_alt_match_none(d: Seq<char>, alts: Seq<Country>)
    requires
        forall|j: int| 0 <= j < alts.len() ==> !alt_matches(d, alts[j]),
    ensures
        first_alt_match(d, alts) is None,
    decreases alts.len(),
{
    if alts.len() > 0 {
        lemma_first_alt_match_none(d, alts.drop_first());
    }
}

/// A single pass over one more prefix character strips one leading
/// occurrence of it from the result of the shorter pass.
proof fn lemma_strip_prefix_pass_push(s: Seq<char>, p: Seq<char>, c: char)
    ensures
        strip_prefix_pass(s, p.push(c)) == strip_one(strip_prefix_pass(s, p), c),
    decreases p.len(),
{
    if p.len() == 0 {
        assert(p.push(c)[0] == c);
        assert(p.push(c).drop_first() =~= Seq::<char>::empty());
        assert(strip_prefix_pass(strip_one(s, c), Seq::<char>::empty()) == strip_one(s, c));
        assert(strip_prefix_pass(s, p) == s);
    } else {
        assert(p.push(c)[0] == p[0]);
        assert(p.push(c).drop_first() =~= p.drop_first().push(c));
        lemma_strip_prefix_pass_push(strip_one(s, p[0]), p.drop_first(), c);
        assert(strip_prefix_pass(s, p.push(c)) == strip_prefix_pass(
            strip_one(s, p[0]),
            p.drop_first().push(c),
        ));
        assert(strip_prefix_pass(s, p) == strip_prefix_pass(strip_one(s, p[0]), p.drop_first()));
    }
}

/// No country matches the empty digit sequence: a match needs length
/// three beyond the subscriber digits.
proof fn lemma_no_alt_matches_empty(alts: Seq<Country>)
    ensures
        first_alt_match(Seq::<char>::empty(), alts) is None,
{
    assert forall|j: int| 0 <= j < alts.len() implies !alt_matches(
        Seq::<char>::empty(),
        alts[j],
    ) by {
        assert(Seq::<char>::empty().len() == 0);
    }
    lemma_first_alt_match_none(Seq::<char>::empty(), alts);
}

/// A first match is a member of the alternates and matches.
proof fn lemma_first_alt_match_is_match(d: Seq<char>, alts: Seq<Country>)
    ensures
        first_alt_match(d, alts) matches Some(c) ==> alts.contains(c) && alt_matches(d, c),
    decreases alts.len(),
{
    if alts.len() > 0 && !alt_matches(d, alts[0]) {
        lemma_first_alt_match_is_match(d, alts.drop_first());
        match first_alt_match(d, alts.drop_first()) {
            Some(c) => {
                assert(alts.drop_first().contains(c));
                let j = choose|j: int|
                    0 <= j < alts.drop_first().len() && alts.drop_first()[j] == c;
                assert(alts[j + 1] == c);
            },
            None => (),
        }
    }
}

/// The invariant of every accepted canonical number: it consists of ASCII
/// digits only, and it equals some involved country's prefix followed by
/// that country's count of subscriber digits — so it always begins with a
/// known country prefix and has total length three beyond that count.
pub proof fn lemma_accepted_msisdn_shape(raw: Seq<char>, default: Country, alts: Seq<Country>)
    requires
        default.wf(),
    ensures
        normalize_spec(raw, default, alts) matches NormResult::Accepted { msisdn } ==> {
            &&& forall|i: int| 0 <= i < msisdn.len() ==> is_digit_char(#[trigger] msisdn[i])
            &&& exists|c: Country|
                #![trigger c.prefix@.is_prefix_of(msisdn)]
                (c == default || alts.contains(c)) && c.prefix@.is_prefix_of(msisdn)
                    && msisdn.len() == 3 + c.non_prefix_digits
        },
{
    let d0 = digits_of(raw);
    let d = strip_leading(d0, '0');
    lemma_digits_of_digits(raw);
    lemma_strip_leading_keeps_digits(d0, '0');
    match normalize_spec(raw, default, alts) {
        NormResult::Accepted { msisdn } => {
            if first_alt_match(d, alts) is Some {
                lemma_first_alt_match_is_match(d, alts);
                let c = first_alt_match(d, alts)->Some_0;
                assert(c.prefix@.is_prefix_of(msisdn) && msisdn.len() == 3 + c.non_prefix_digits);
                assert(exists|cw: Country|
                    #![trigger cw.prefix@.is_prefix_of(msisdn)]
                    (cw == default || alts.contains(cw)) && cw.prefix@.is_prefix_of(msisdn)
                        && msisdn.len() == 3 + cw.non_prefix_digits);
            } else if d.len() == default.non_prefix_digits {
                assert(msisdn == default.prefix@ + d);
                assert(default.prefix@.is_prefix_of(msisdn)) by {
                    assert(default.prefix@ =~= msisdn.subrange(0, default.prefix@.len() as int));
                }
                assert forall|i: int| 0 <= i < msisdn.len() implies is_digit_char(
                    #[trigger] msisdn[i],
                ) by {
                    if i < default.prefix@.len() {
                        assert(msisdn[i] == default.prefix@[i]);
                    } else {
                        assert(msisdn[i] == d[i - default.prefix@.len()]);
                    }
                }
                assert(exists|cw: Country|
                    #![trigger cw.prefix@.is_prefix_of(msisdn)]
                    (cw == default || alts.contains(cw)) && cw.prefix@.is_prefix_of(msisdn)
                        && msisdn.len() == 3 + cw.non_prefix_digits);
            } else {
                let e = strip_leading(strip_prefix_pass(d, default.prefix@), '0');
                lemma_strip_prefix_pass_keeps_digits(d, default.prefix@);
                lemma_strip_leading_keeps_digits(strip_prefix_pass(d, default.prefix@), '0');
                assert(msisdn == default.prefix@ + e);
                assert(default.prefix@.is_prefix_of(msisdn)) by {
                    assert(default.prefix@ =~= msisdn.subrange(0, default.prefix@.len() as int));
                }
                assert forall|i: int| 0 <= i < msisdn.len() implies is_digit_char(
                    #[trigger] msisdn[i],
                ) by {
                    if i < default.prefix@.len() {
                        assert(msisdn[i] == default.prefix@[i]);
                    } else {
                        assert(msisdn[i] == e[i - default.prefix@.len()]);
                    }
                }
                assert(exists|cw: Country|
                    #![trigger cw.prefix@.is_prefix_of(msisdn)]
                    (cw == default || alts.contains(cw)) && cw.prefix@.is_prefix_of(msisdn)
                        && msisdn.len() == 3 + cw.non_prefix_digits);
            }
        },
        _ => (),
    }
}

/// For every raw input whose digits are a (possibly empty) run of zeros
/// followed by exactly the default country's count of digits, the first of
/// which is not zero, and which no alternate country matches, `normalize`
/// accepts and returns the default prefix followed by those digits
/// unchanged.
pub proof fn lemma_normalize_default_passthrough(
    raw: Seq<char>,
    pad: Seq<char>,
    d: Seq<char>,
    default: Country,
    alts: Seq<Country>,
)
    requires
        digits_of(raw) == pad + d,
        forall|j: int| 0 <= j < pad.len() ==> pad[j] == '0',
        d.len() == default.non_prefix_digits,
        d.len() > 0 ==> d[0] != '0',
        first_alt_match(d, alts) is None,
    ensures
        normalize_spec(raw, default, alts) == (NormResult::Accepted {
            msisdn: default.prefix@ + d,
        }),
{
    lemma_strip_leading_run(pad, d, '0');
}

/// For every raw input whose zero-stripped digits begin with an alternate
/// country's prefix and have that country's exact total length (taking the
/// first such country in the given order), `normalize` accepts those
/// digits verbatim, regardless of the default country.
pub proof fn lemma_normalize_alternate_verbatim(
    raw: Seq<char>,
    default: Country,
    alts: Seq<Country>,
)
    requires
        first_alt_match(strip_leading(digits_of(raw), '0'), alts) is Some,
    ensures
        normalize_spec(raw, default, alts) == (NormResult::Accepted {
            msisdn: strip_leading(digits_of(raw), '0'),
        }),
{
}

/// For every input with fewer digits than the default country's
/// subscriber-number length, and which no alternate country matches,
/// `normalize` fails with the too-few-digits error.
pub proof fn lemma_normalize_too_few(raw: Seq<char>, default: Country, alts: Seq<Country>)
    requires
        digits_of(raw).len() < default.non_prefix_digits,
        first_alt_match(strip_leading(digits_of(raw), '0'), alts) is None,
    ensures
        normalize_spec(raw, default, alts) == NormResult::TooFewDigits,
{
    lemma_strip_leading_len(digits_of(raw), '0');
}

/// For every input that holds no digit character at all — empty,
/// whitespace, or arbitrary unicode — `normalize` fails (with the
/// too-few-digits error), for any default country with at least one
/// subscriber digit and any alternates.
pub proof fn lemma_normalize_no_digits_fails(raw: Seq<char>, default: Country, alts: Seq<Country>)
    requires
        forall|i: int| 0 <= i < raw.len() ==> !is_digit_char(#[trigger] raw[i]),
        default.non_prefix_digits >= 1,
    ensures
        normalize_spec(raw, default, alts) == NormResult::TooFewDigits,
{
    lemma_digits_of_none(raw);
    lemma_no_alt_matches_empty(alts);
}

} // verus!
