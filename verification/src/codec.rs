//! Bidirectional codecs between the closed payment-status and currency
//! enumerations and the gateway's wire strings.

use vstd::prelude::*;

use crate::error::MomoError;
use crate::util::str_eq;

verus! {

/// The state of a payment request as the gateway reports it.
#[derive(Debug, Clone, Copy, PartialEq, Eq, Structural)]
pub enum PaymentStatus {
    Resolved,
    Rejected,
    Pending,
}

/// The wire string the gateway uses for a payment status.
pub open spec fn status_wire(s: PaymentStatus) -> Seq<char> {
    match s {
        PaymentStatus::Resolved => "SUCCESSFUL"@,
        PaymentStatus::Rejected => "FAILED"@,
        PaymentStatus::Pending => "PENDING"@,
    }
}

/// The payment status a wire string denotes, if any.
pub open spec fn status_decode(w: Seq<char>) -> Option<PaymentStatus> {
    if w == "SUCCESSFUL"@ {
        Some(PaymentStatus::Resolved)
    } else if w == "FAILED"@ {
        Some(PaymentStatus::Rejected)
    } else if w == "PENDING"@ {
        Some(PaymentStatus::Pending)
    } else {
        None
    }
}

impl PaymentStatus {
    /// Decodes a wire string; a string outside the closed enumeration is
    /// an `UnknownStatus` error, never silently coerced.
    pub fn from_str(status: &str) -> (r: Result<PaymentStatus, MomoError>)
        ensures
            r is Ok <==> status_decode(status@) is Some,
            r matches Ok(s) ==> status_decode(status@) == Some(s),
            r matches Err(e) ==> e matches MomoError::UnknownStatus { got } && got@ == status@,
    {
        if str_eq(status, "SUCCESSFUL") {
            Ok(PaymentStatus::Resolved)
        } else if str_eq(status, "FAILED") {
            Ok(PaymentStatus::Rejected)
        } else if str_eq(status, "PENDING") {
            Ok(PaymentStatus::Pending)
        } else {
            Err(MomoError::UnknownStatus { got: status.to_owned() })
        }
    }

    /// Encodes the status as its wire string.
    pub fn to_string(&self) -> (r: String)
        ensures
            r@ == status_wire(*self),
    {
        match self {
            PaymentStatus::Resolved => "SUCCESSFUL".to_owned(),
            PaymentStatus::Rejected => "FAILED".to_owned(),
            PaymentStatus::Pending => "PENDING".to_owned(),
        }
    }
}

/// Every payment status round-trips through the wire codec, and `from_str`'s
/// contract makes any string outside the three wire forms fail.
pub proof fn lemma_payment_status_roundtrip(s: PaymentStatus)
    ensures
        status_decode(status_wire(s)) == Some(s),
{
    reveal_strlit("SUCCESSFUL");
    reveal_strlit("FAILED");
    reveal_strlit("PENDING");
    assert("SUCCESSFUL"@.len() == 10);
    assert("FAILED"@.len() == 6);
    assert("PENDING"@.len() == 7);
}

/// The currencies the gateway supports.
#[derive(Debug, Clone, Copy, PartialEq, Eq, Structural)]
pub enum Currency {
    Cedi,
    Naira,
}

/// The wire code the gateway uses for a currency.
pub open spec fn currency_wire(c: Currency) -> Seq<char> {
    match c {
        Currency::Cedi => "GHS"@,
        Currency::Naira => "NGN"@,
    }
}

/// The currency a wire code denotes, if any.
pub open spec fn currency_decode(w: Seq<char>) -> Option<Currency> {
    if w == "GHS"@ {
        Some(Currency::Cedi)
    } else if w == "NGN"@ {
        Some(Currency::Naira)
    } else {
        None
    }
}

impl Currency {
    /// Decodes a wire code; anything outside the closed enumeration fails.
    pub fn from_str(currency_str: &str) -> (r: Result<Currency, MomoError>)
        ensures
            r is Ok <==> currency_decode(currency_str@) is Some,
            r matches Ok(c) ==> currency_decode(currency_str@) == Some(c),
            r matches Err(e) ==> e matches MomoError::UnknownCurrency { got } && got@
                == currency_str@,
    {
        if str_eq(currency_str, "GHS") {
            Ok(Currency::Cedi)
        } else if str_eq(currency_str, "NGN") {
            Ok(Currency::Naira)
        } else {
            Err(MomoError::UnknownCurrency { got: currency_str.to_owned() })
        }
    }

    /// Encodes the currency as its wire code.
    pub fn to_string(&self) -> (r: String)
        ensures
            r@ == currency_wire(*self),
    {
        match self {
            Currency::Cedi => "GHS".to_owned(),
            Currency::Naira => "NGN".to_owned(),
        }
    }
}

/// Every currency round-trips through the wire codec.
pub proof fn lemma_currency_roundtrip(c: Currency)
    ensures
        currency_decode(currency_wire(c)) == Some(c),
{
    reveal_strlit("GHS");
    reveal_strlit("NGN");
    assert("GHS"@[0] == 'G');
    assert("NGN"@[0] == 'N');
}

} // verus!
