//! The gateway's well-known endpoints and the sandbox fallbacks. Each is
//! a function so its exact character content is available to contracts.

use vstd::prelude::*;

verus! {

/// The production endpoint. It carries no trailing slash because it is
/// used only as a prefix test on a resolved base URL, never to build one.
pub fn production_base_url() -> (r: &'static str)
    ensures
        r@ == "https://momodeveloper.mtn.com"@,
{
    "https://momodeveloper.mtn.com"
}

/// The sandbox endpoint, used when no base URL is configured.
pub fn sandbox_base_url() -> (r: &'static str)
    ensures
        r@ == "https://sandbox.momodeveloper.mtn.com/"@,
{
    "https://sandbox.momodeveloper.mtn.com/"
}

/// The target-environment header value for the production gateway.
pub fn production() -> (r: &'static str)
    ensures
        r@ == "production"@,
{
    "production"
}

/// The target-environment header value for everything else.
pub fn sandbox() -> (r: &'static str)
    ensures
        r@ == "sandbox"@,
{
    "sandbox"
}

/// The sandbox placeholder callback host, used when none is configured.
pub fn fallback_callback_host() -> (r: &'static str)
    ensures
        r@ == "www.mocky.io"@,
{
    "www.mocky.io"
}

/// The mock callback URL substituted for payment requests that give none,
/// when the callback host is the sandbox placeholder.
pub fn fallback_callback_url() -> (r: &'static str)
    ensures
        r@ == "https://www.mocky.io/v2/5ec0fa1c2f000079004c86fb"@,
{
    "https://www.mocky.io/v2/5ec0fa1c2f000079004c86fb"
}

} // verus!
