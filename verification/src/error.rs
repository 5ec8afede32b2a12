//! The failure taxonomy. Every operation of the library returns one of
//! these typed errors; nothing is logged and swallowed internally.

use vstd::prelude::*;

use crate::country::Country;

verus! {

/// Why an operation of the library failed.
#[derive(Debug)]
pub enum MomoError {
    /// The mobile number has fewer digits than the default country's
    /// subscriber-number length. Carries the offending input and the
    /// country it was judged against.
    TooFewDigits { mobile_number: String, country: Country },
    /// After prefix and leading-zero stripping the mobile number does not
    /// have exactly the default country's subscriber-number length.
    WrongDigitCount { mobile_number: String, country: Country },
    /// A custom callback host was configured, so every payment request
    /// needs an explicit callback URL, and none was given.
    MissingCallbackUrl,
    /// The token endpoint answered with a non-success status, or with a
    /// success body that holds no access token.
    Authorization { status: u16, body: String },
    /// A payment, status, or balance call answered with a status that is
    /// neither success nor a retryable authorization expiry.
    Operation { status: u16, reference_id: Option<String>, body: String },
    /// The status endpoint returned a status string outside the closed
    /// payment-status enumeration.
    UnknownStatus { got: String },
    /// A currency code outside the closed currency enumeration.
    UnknownCurrency { got: String },
    /// A success response whose body lacks the fields the call needs.
    MalformedResponse { body: String },
}

} // verus!
