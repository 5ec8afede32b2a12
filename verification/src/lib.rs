//! Client library for a mobile-money payment gateway's collections API.
//!
//! The verified core is the phone-number normalizer that turns raw
//! user-entered mobile numbers into the gateway's canonical MSISDN form,
//! the closed payment-status and currency codecs, and the authenticated
//! client state machine that manages a bearer token and replays a call
//! exactly once after an authorization-expiry response.
//!
//! All network traffic is performed by the embedding application: the
//! client hands out complete request descriptions and consumes the plain
//! status code and body of each response.

pub mod client;
pub mod codec;
pub mod common;
pub mod country;
pub mod digits;
pub mod error;
pub mod msisdn;
pub mod util;

pub use client::Balance;
pub use client::Client;
pub use client::Config;
pub use client::HttpCall;
pub use client::HttpMethod;
pub use client::OpOutcome;
pub use client::OpSession;
pub use client::Operation;
pub use client::Phase;
pub use client::Step;
pub use codec::Currency;
pub use codec::PaymentStatus;
pub use country::Country;
pub use error::MomoError;
pub use msisdn::Msisdn;
