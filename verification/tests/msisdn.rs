use mini_mtn_momo::Country;
use mini_mtn_momo::MomoError;
use mini_mtn_momo::Msisdn;
use mini_mtn_momo::util::rm_lead_char;
use mini_mtn_momo::util::strip_lead_char;
use mini_mtn_momo::util::u64_to_string;

fn ghana() -> Country {
    Country {
        code: String::from("GH"),
        prefix: String::from("233"),
        non_prefix_digits: 9usize,
    }
}

fn nigeria() -> Country {
    Country {
        code: String::from("NG"),
        prefix: String::from("234"),
        non_prefix_digits: 8usize,
    }
}

#[test]
fn normalizing_a_local_number_with_leading_zero() {
    let msisdn = Msisdn::parse("0542373722", &ghana(), None).expect("msisdn");

    assert_eq!(msisdn.to_string(), "233542373722");
}

#[test]
fn normalizing_an_international_number() {
    let msisdn = Msisdn::parse("+233542373722", &ghana(), None).expect("msisdn");

    assert_eq!(msisdn.to_string(), "233542373722");
}

#[test]
fn normalizing_a_number_with_separators() {
    let msisdn = Msisdn::parse("00233 54-237-3722", &ghana(), None).expect("msisdn");

    assert_eq!(msisdn.to_string(), "233542373722");
}

#[test]
fn normalizing_fails_on_too_few_digits() {
    match Msisdn::parse("12345", &ghana(), None) {
        Err(MomoError::TooFewDigits { mobile_number, country }) => {
            assert_eq!(mobile_number, "12345");
            assert_eq!(country, ghana());
        }
        other => panic!("expected a too-few-digits error, got {:?}", other),
    }
}

#[test]
fn normalizing_fails_on_too_many_digits() {
    match Msisdn::parse("2331234567890", &ghana(), None) {
        Err(MomoError::WrongDigitCount { mobile_number, country }) => {
            assert_eq!(mobile_number, "2331234567890");
            assert_eq!(country, ghana());
        }
        other => panic!("expected a wrong-digit-count error, got {:?}", other),
    }
}

#[test]
fn normalizing_fails_without_any_digit() {
    assert!(Msisdn::parse("", &ghana(), None).is_err());
    assert!(Msisdn::parse("   ", &ghana(), None).is_err());
    assert!(Msisdn::parse("call me maybe", &ghana(), None).is_err());
    assert!(Msisdn::parse("\u{260e}\u{fe0f} -- \u{265f}", &ghana(), None).is_err());
}

#[test]
fn normalizing_uses_an_alternate_country_verbatim() {
    let gh = ghana();
    let ng = nigeria();
    let msisdn =
        Msisdn::parse("+234 12 345 678", &gh, Some(vec![&ng])).expect("msisdn");

    assert_eq!(msisdn.to_string(), "23412345678");
}

#[test]
fn normalizing_prefers_the_default_country_when_no_alternate_matches() {
    let gh = ghana();
    let ng = nigeria();
    let msisdn = Msisdn::parse("0542373722", &gh, Some(vec![&ng])).expect("msisdn");

    assert_eq!(msisdn.to_string(), "233542373722");
}

#[test]
fn constructing_via_new_matches_parse() {
    let gh = ghana();
    let msisdn = Msisdn::new("0542373722", &gh, vec![&gh]).expect("msisdn");

    assert_eq!(msisdn.as_str(), "233542373722");
}

#[test]
fn stripping_all_leading_characters() {
    assert_eq!(strip_lead_char("000233", '0', true), "233");
    assert_eq!(strip_lead_char("233", '0', true), "233");
    assert_eq!(strip_lead_char("0000", '0', true), "");
    assert_eq!(strip_lead_char("", '0', true), "");
}

#[test]
fn stripping_a_single_leading_character() {
    assert_eq!(strip_lead_char("000233", '0', false), "00233");
    assert_eq!(rm_lead_char("233542", '2', false), "33542");
    assert_eq!(rm_lead_char("233542", '3', false), "233542");
}

#[test]
fn rendering_numbers_in_decimal() {
    assert_eq!(u64_to_string(0), "0");
    assert_eq!(u64_to_string(419), "419");
    assert_eq!(u64_to_string(10), "10");
    assert_eq!(u64_to_string(u64::MAX), "18446744073709551615");
}
