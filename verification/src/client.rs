//! The authenticated client state machine.
//!
//! The client owns the credential triple, the resolved base URL and
//! target environment, the callback host, a mutable bearer token, and the
//! retry guard. It performs no I/O itself: every operation is a small
//! session. `begin_*` hands out a complete request description; the
//! embedding application sends it and feeds the response's status code
//! and body to `proceed`, which either finishes the operation, fails it,
//! or — on an authorization-expiry response, exactly once per operation —
//! asks for a re-authorization followed by one replay of the original
//! call.

use vstd::prelude::*;

use crate::codec::status_decode;
use crate::codec::Currency;
use crate::codec::currency_wire;
use crate::codec::PaymentStatus;
use crate::common::fallback_callback_host;
use crate::common::fallback_callback_url;
use crate::common::production;
use crate::common::production_base_url;
use crate::common::sandbox;
use crate::common::sandbox_base_url;
use crate::digits::dec_rep;
use crate::digits::strip_trailing;
use crate::error::MomoError;
use crate::msisdn::Msisdn;
use crate::util::str_ends_with;
use crate::util::str_starts_with;
use crate::util::strip_trail_char;
use crate::util::u64_to_string;

verus! {

/// Configuration for constructing a client. Missing optional entries fall
/// back to the sandbox endpoint and the sandbox placeholder callback host.
#[derive(Debug, PartialEq, Eq)]
pub struct Config {
    pub username: String,
    pub password: String,
    pub subscription_key: String,
    pub base_url: Option<String>,
    pub callback_host: Option<String>,
}

/// A snapshot of the wallet balance, exactly as the gateway reports it.
#[derive(Debug, PartialEq, Eq)]
pub struct Balance {
    pub amount: String,
    pub currency: String,
}

/// The client's state: immutable credentials and endpoints, plus the
/// bearer token and the retry guard, which is false only while an
/// authorization attempt is in flight.
#[derive(Debug)]
pub struct Client {
    pub target_environment: String,
    pub username: String,
    pub password: String,
    pub subscription_key: String,
    pub collections_access_token: String,
    pub base_url: String,
    pub callback_host: String,
    pub reauthorize: bool,
}

/// The HTTP method of a request description.
#[derive(Debug, Clone, Copy, PartialEq, Eq, Structural)]
pub enum HttpMethod {
    Get,
    Post,
}

/// A complete request description, ready to be sent by the embedding
/// application. Absent options mean the request carries no such part.
#[derive(Debug)]
pub struct HttpCall {
    pub method: HttpMethod,
    pub url: String,
    pub basic_username: Option<String>,
    pub basic_password: Option<String>,
    pub bearer_token: Option<String>,
    pub callback_url: Option<String>,
    pub reference_id: Option<String>,
    pub target_environment: Option<String>,
    pub subscription_key: String,
    pub body: Option<String>,
}

/// The operation a session is carrying out, with everything needed to
/// rebuild its request after a re-authorization. A payment keeps its
/// inputs, since a replay draws a fresh reference id and rebuilds the
/// body around it.
#[derive(Debug)]
pub enum Operation {
    Pay {
        amount: u64,
        currency: Currency,
        msisdn: String,
        reference_id: String,
        callback_url: String,
    },
    PayStatus { reference_id: String },
    GetBalance,
}

/// Where a session stands: awaiting the operation's own response (fresh
/// or already replayed once), or awaiting the token endpoint's response.
#[derive(Debug, Clone, Copy, PartialEq, Eq, Structural)]
pub enum Phase {
    AwaitingOperation { retried: bool },
    AwaitingToken,
}

/// One in-flight operation of the client.
#[derive(Debug)]
pub struct OpSession {
    pub op: Operation,
    pub phase: Phase,
}

/// What an operation yields when it completes.
#[derive(Debug)]
pub enum OpOutcome {
    Accepted { reference_id: String },
    Status { status: PaymentStatus },
    Funds { balance: Balance },
}

/// The client's answer to a response: send another request and feed its
/// response back, or the operation is finished.
#[derive(Debug)]
pub enum Step {
    Next { session: OpSession, call: HttpCall },
    Done { outcome: OpOutcome },
    Failed { error: MomoError },
}

/// The string value at `key` of the JSON object in `body`, if `body`
/// parses as a JSON object with a string there. A function of the text
/// alone, named so contracts can speak of it.
pub uninterp spec fn json_str_field(body: Seq<char>, key: Seq<char>) -> Option<Seq<char>>;

/// Relies on serde_json: `from_str` parses the body into a value, and
/// `Value::get` with `Value::as_str` reads the string at `key`, if the
/// body is an object holding a string there. The result depends on the
/// two texts alone.
#[verifier::external_body]
fn json_string_field(body: &str, key: &str) -> (r: Option<String>)
    ensures
        match r {
            Some(s) => json_str_field(body@, key@) == Some(s@),
            None => json_str_field(body@, key@) is None,
        },
{
    let value: serde_json::Value = match serde_json::from_str(body) {
        Ok(v) => v,
        Err(_) => return None,
    };
    match value.get(key) {
        Some(field) => field.as_str().map(|s| s.to_string()),
        None => None,
    }
}

/// Relies on `uuid::Uuid::new_v4` and its display form: a fresh random
/// version-4 identifier, rendered hyphenated as exactly 36 characters.
/// The value is random; nothing more is assumed of it.
#[verifier::external_body]
fn fresh_reference_id() -> (r: String)
    ensures
        r@.len() == 36,
{
    uuid::Uuid::new_v4().to_string()
}

/// The base URL a configuration resolves to: the configured one with its
/// trailing run of slashes normalized to exactly one, or the sandbox
/// endpoint.
pub open spec fn resolved_base_url(cfg_base: Option<String>) -> Seq<char> {
    match cfg_base {
        None => "https://sandbox.momodeveloper.mtn.com/"@,
        Some(u) => strip_trailing(u@, '/') + "/"@,
    }
}

/// The target environment a base URL is classified as: production exactly
/// when it starts with the production endpoint, sandbox otherwise.
pub open spec fn environment_of(base: Seq<char>) -> Seq<char> {
    if "https://momodeveloper.mtn.com"@.is_prefix_of(base) {
        "production"@
    } else {
        "sandbox"@
    }
}

/// The callback host a configuration resolves to.
pub open spec fn resolved_callback_host(cfg_host: Option<String>) -> Seq<char> {
    match cfg_host {
        None => "www.mocky.io"@,
        Some(h) => h@,
    }
}

/// The token endpoint under a base URL.
pub open spec fn token_url_view(base: Seq<char>) -> Seq<char> {
    base + "collection/token/"@
}

/// The payment-initiation endpoint under a base URL.
pub open spec fn pay_url_view(base: Seq<char>) -> Seq<char> {
    base + "collection/v1_0/requesttopay/"@
}

/// The status resource of a payment request under a base URL.
pub open spec fn status_url_view(base: Seq<char>, reference_id: Seq<char>) -> Seq<char> {
    base + "collection/v1_0/requesttopay/"@ + reference_id
}

/// The balance resource under a base URL.
pub open spec fn balance_url_view(base: Seq<char>) -> Seq<char> {
    base + "collection/v1_0/account/balance"@
}

/// The JSON body of a payment-initiation request.
pub open spec fn pay_body_view(
    amount: u64,
    currency: Currency,
    reference_id: Seq<char>,
    msisdn: Seq<char>,
) -> Seq<char> {
    "{\"amount\":"@ + dec_rep(amount as nat) + ",\"currency\":\""@ + currency_wire(currency)
        + "\",\"externalId\":\""@ + reference_id
        + "\",\"payer\":{\"partyIdType\":\"MSISDN\",\"partyId\":\""@ + msisdn
        + "\"},\"payerMessage\":\"it's time to pay :)\",\"payeeNote\":\"collections\"}"@
}

/// Is `r` the request that posts the client's credentials to the token
/// endpoint?
pub open spec fn is_token_call(c: Client, r: HttpCall) -> bool {
    &&& r.method is Post
    &&& r.url@ == token_url_view(c.base_url@)
    &&& r.basic_username matches Some(u) && u@ == c.username@
    &&& r.basic_password matches Some(p) && p@ == c.password@
    &&& r.bearer_token is None
    &&& r.callback_url is None
    &&& r.reference_id is None
    &&& r.target_environment is None
    &&& r.subscription_key@ == c.subscription_key@
    &&& r.body is None
}

/// Is `r` the request that carries out `op` for the client `c`, bearing
/// `c`'s current access token?
pub open spec fn call_matches_op(c: Client, op: Operation, r: HttpCall) -> bool {
    &&& r.basic_username is None
    &&& r.basic_password is None
    &&& r.bearer_token matches Some(t) && t@ == c.collections_access_token@
    &&& r.target_environment matches Some(e) && e@ == c.target_environment@
    &&& r.subscription_key@ == c.subscription_key@
    &&& match op {
        Operation::Pay { amount, currency, msisdn, reference_id, callback_url } => {
            &&& r.method is Post
            &&& r.url@ == pay_url_view(c.base_url@)
            &&& r.callback_url matches Some(u) && u@ == callback_url@
            &&& r.reference_id matches Some(i) && i@ == reference_id@
            &&& r.body matches Some(b) && b@ == pay_body_view(
                amount,
                currency,
                reference_id@,
                msisdn@,
            )
        },
        Operation::PayStatus { reference_id } => {
            &&& r.method is Get
            &&& r.url@ == status_url_view(c.base_url@, reference_id@)
            &&& r.callback_url is None
            &&& r.reference_id is None
            &&& r.body is None
        },
        Operation::GetBalance => {
            &&& r.method is Get
            &&& r.url@ == balance_url_view(c.base_url@)
            &&& r.callback_url is None
            &&& r.reference_id is None
            &&& r.body is None
        },
    }
}

/// The two clients agree on everything except possibly the access token
/// and the retry guard.
pub open spec fn same_but_auth(c0: Client, c1: Client) -> bool {
    &&& c1.target_environment == c0.target_environment
    &&& c1.username == c0.username
    &&& c1.password == c0.password
    &&& c1.subscription_key == c0.subscription_key
    &&& c1.base_url == c0.base_url
    &&& c1.callback_host == c0.callback_host
}

impl Client {
    /// Resolves a configuration into an unauthenticated client: base URL
    /// normalized to one trailing slash (sandbox endpoint when unset),
    /// target environment classified from the resolved base URL, callback
    /// host defaulted to the sandbox placeholder, empty access token. The
    /// embedding application must run one authorization (`begin_authorize`
    /// then `finish_authorize`) before the first operation and drop the
    /// client if it fails, so that no unauthenticated client is observable.
    pub fn new(config: &Config) -> (c: Client)
        ensures
            c.username@ == config.username@,
            c.password@ == config.password@,
            c.subscription_key@ == config.subscription_key@,
            c.base_url@ == resolved_base_url(config.base_url),
            c.target_environment@ == environment_of(c.base_url@),
            c.callback_host@ == resolved_callback_host(config.callback_host),
            c.collections_access_token@ == Seq::<char>::empty(),
            c.reauthorize == true,
    {
        let base_url: String = match &config.base_url {
            Some(url) => {
                let mut u = strip_trail_char(url.as_str(), '/').to_owned();
                u.append("/");
                u
            },
            None => sandbox_base_url().to_owned(),
        };
        let target_environment: String = if str_starts_with(
            base_url.as_str(),
            production_base_url(),
        ) {
            production().to_owned()
        } else {
            sandbox().to_owned()
        };
        let callback_host: String = match &config.callback_host {
            Some(domain) => domain.clone(),
            None => fallback_callback_host().to_owned(),
        };
        Client {
            target_environment,
            username: config.username.clone(),
            password: config.password.clone(),
            subscription_key: config.subscription_key.clone(),
            collections_access_token: String::new(),
            base_url,
            callback_host,
            reauthorize: true,
        }
    }

    /// Starts an authorization attempt: the retry guard goes down while
    /// the attempt is in flight, and the returned request posts the
    /// credentials to the token endpoint.
    pub fn begin_authorize(&mut self) -> (r: HttpCall)
        ensures
            *final(self) == (Client { reauthorize: false, ..*old(self) }),
            is_token_call(*final(self), r),
    {
        self.reauthorize = false;
        HttpCall {
            method: HttpMethod::Post,
            url: self.token_url(),
            basic_username: Some(self.username.clone()),
            basic_password: Some(self.password.clone()),
            bearer_token: None,
            callback_url: None,
            reference_id: None,
            target_environment: None,
            subscription_key: self.subscription_key.clone(),
            body: None,
        }
    }

    /// Completes an authorization attempt from the token endpoint's
    /// response: 200 with an access token in the body stores that token
    /// and raises the retry guard; any other response is an authorization
    /// error, carrying the status and body, and leaves the client as it
    /// was.
    pub fn finish_authorize(&mut self, status: u16, body: &str) -> (r: Result<(), MomoError>)
        ensures
            same_but_auth(*old(self), *final(self)),
            match r {
                Ok(()) => {
                    &&& status == 200
                    &&& json_str_field(body@, "access_token"@) == Some(
                        final(self).collections_access_token@,
                    )
                    &&& final(self).reauthorize
                },
                Err(e) => {
                    &&& e matches MomoError::Authorization { status: st, body: b } && st == status
                        && b@ == body@
                    &&& status != 200 || json_str_field(body@, "access_token"@) is None
                    &&& *final(self) == *old(self)
                },
            },
    {
        if status != 200 {
            return Err(MomoError::Authorization { status, body: body.to_owned() });
        }
        match json_string_field(body, "access_token") {
            Some(token) => {
                self.collections_access_token = token;
                self.reauthorize = true;
                Ok(())
            },
            None => Err(MomoError::Authorization { status, body: body.to_owned() }),
        }
    }

    fn token_url(&self) -> (r: String)
        ensures
            r@ == token_url_view(self.base_url@),
    {
        let mut u = self.base_url.clone();
        u.append("collection/token/");
        u
    }

    fn pay_url(&self) -> (r: String)
        ensures
            r@ == pay_url_view(self.base_url@),
    {
        let mut u = self.base_url.clone();
        u.append("collection/v1_0/requesttopay/");
        u
    }

    fn status_url(&self, reference_id: &str) -> (r: String)
        ensures
            r@ == status_url_view(self.base_url@, reference_id@),
    {
        let mut u = self.base_url.clone();
        u.append("collection/v1_0/requesttopay/");
        u.append(reference_id);
        u
    }

    fn balance_url(&self) -> (r: String)
        ensures
            r@ == balance_url_view(self.base_url@),
    {
        let mut u = self.base_url.clone();
        u.append("collection/v1_0/account/balance");
        u
    }
}

/// The status the gateway answers a successful operation with: 202 for
/// payment initiation, 200 otherwise.
pub open spec fn op_success_status(op: Operation) -> u16 {
    match op {
        Operation::Pay { .. } => 202,
        Operation::PayStatus { .. } => 200,
        Operation::GetBalance => 200,
    }
}

/// Does `reference_id` echo the reference the operation carries (none for
/// a balance query)?
pub open spec fn reference_matches(op: Operation, reference_id: Option<String>) -> bool {
    match op {
        Operation::Pay { reference_id: rid, .. } => reference_id matches Some(x) && x@ == rid@,
        Operation::PayStatus { reference_id: rid } => reference_id matches Some(x) && x@ == rid@,
        Operation::GetBalance => reference_id is None,
    }
}

/// What a success response to `op` with body `body` must yield: the
/// payment's reference id, the decoded payment status (an unknown wire
/// string fails, a body without one is malformed), or the balance fields.
pub open spec fn done_matches(op: Operation, body: Seq<char>, r: Step) -> bool {
    match op {
        Operation::Pay { reference_id, .. } => r matches Step::Done { outcome }
            && outcome matches OpOutcome::Accepted { reference_id: rid } && rid@ == reference_id@,
        Operation::PayStatus { .. } => match json_str_field(body, "status"@) {
            None => r matches Step::Failed { error } && error matches MomoError::MalformedResponse {
                body: b,
            } && b@ == body,
            Some(w) => match status_decode(w) {
                Some(ps) => r matches Step::Done { outcome } && outcome == (OpOutcome::Status {
                    status: ps,
                }),
                None => r matches Step::Failed { error } && error matches MomoError::UnknownStatus {
                    got,
                } && got@ == w,
            },
        },
        Operation::GetBalance => match (
            json_str_field(body, "availableBalance"@),
            json_str_field(body, "currency"@),
        ) {
            (Some(a), Some(cur)) => r matches Step::Done { outcome }
                && outcome matches OpOutcome::Funds { balance } && balance.amount@ == a
                && balance.currency@ == cur,
            _ => r matches Step::Failed { error } && error matches MomoError::MalformedResponse {
                body: b,
            } && b@ == body,
        },
    }
}

/// Is `op2` the operation replayed after a re-authorization? A status or
/// balance query is repeated as it is; a payment keeps its inputs and its
/// callback URL but goes out under a freshly drawn 36-character reference
/// id, so the retried request is a new request to the gateway.
pub open spec fn replayed_op(op: Operation, op2: Operation) -> bool {
    match op {
        Operation::Pay { amount, currency, msisdn, reference_id: _, callback_url } => {
            &&& op2 matches Operation::Pay {
                amount: a2,
                currency: c2,
                msisdn: m2,
                reference_id: r2,
                callback_url: u2,
            }
            &&& a2 == amount
            &&& c2 == currency
            &&& m2@ == msisdn@
            &&& u2@ == callback_url@
            &&& r2@.len() == 36
        },
        _ => op2 == op,
    }
}

/// How one `proceed` call relates the client and its result to the
/// response it consumed. This is the client state machine of the library:
/// a success status completes the operation; a 401 on a fresh attempt
/// with the retry guard up starts one re-authorization; a token response
/// with an access token stores it and replays the operation once, marked
/// as retried (a payment replay under a fresh reference id); everything
/// else fails the operation with a typed error and leaves the client
/// unchanged.
pub open spec fn step_post(
    c0: Client,
    s: OpSession,
    status: u16,
    body: Seq<char>,
    c1: Client,
    r: Step,
) -> bool {
    match s.phase {
        Phase::AwaitingOperation { retried } => {
            if status == op_success_status(s.op) {
                c1 == c0 && done_matches(s.op, body, r)
            } else if status == 401 && !retried && c0.reauthorize {
                &&& c1 == (Client { reauthorize: false, ..c0 })
                &&& r matches Step::Next { session: s2, call } && s2.op == s.op
                    && s2.phase is AwaitingToken && is_token_call(c1, call)
            } else {
                &&& c1 == c0
                &&& r matches Step::Failed { error } && error matches MomoError::Operation {
                    status: st,
                    reference_id,
                    body: b,
                } && st == status && b@ == body && reference_matches(s.op, reference_id)
            }
        },
        Phase::AwaitingToken => {
            if status == 200 && json_str_field(body, "access_token"@) is Some {
                &&& same_but_auth(c0, c1)
                &&& c1.reauthorize
                &&& json_str_field(body, "access_token"@) == Some(c1.collections_access_token@)
                &&& r matches Step::Next { session: s2, call } && replayed_op(s.op, s2.op)
                    && s2.phase == (Phase::AwaitingOperation { retried: true })
                    && call_matches_op(c1, s2.op, call)
            } else {
                &&& c1 == c0
                &&& r matches Step::Failed { error } && error matches MomoError::Authorization {
                    status: st,
                    body: b,
                } && st == status && b@ == body
            }
        },
    }
}

impl Client {
    /// Prepares a payment request: resolves the callback URL (the explicit
    /// argument, or the fixed fallback URL only when the configured
    /// callback host is the sandbox placeholder, else a configuration
    /// error), draws a fresh reference id, and builds the request body.
    /// The returned session awaits the gateway's response via `proceed`.
    pub fn begin_request_to_pay(
        &self,
        amount: u64,
        currency: &Currency,
        msisdn: &Msisdn,
        callback_url: Option<&str>,
    ) -> (r: Result<(OpSession, HttpCall), MomoError>)
        ensures
            match r {
                Ok((session, call)) => {
                    &&& session.phase == (Phase::AwaitingOperation { retried: false })
                    &&& session.op matches Operation::Pay {
                        amount: a,
                        currency: c,
                        msisdn: m,
                        reference_id,
                        callback_url: cb,
                    } && {
                        &&& a == amount
                        &&& c == *currency
                        &&& m@ == msisdn@
                        &&& reference_id@.len() == 36
                        &&& match callback_url {
                            Some(u) => cb@ == u@,
                            None => "mocky.io"@.is_suffix_of(self.callback_host@) && cb@
                                == "https://www.mocky.io/v2/5ec0fa1c2f000079004c86fb"@,
                        }
                    }
                    &&& call_matches_op(*self, session.op, call)
                },
                Err(e) => {
                    &&& e is MissingCallbackUrl
                    &&& callback_url is None
                    &&& !"mocky.io"@.is_suffix_of(self.callback_host@)
                },
            },
    {
        let cb: String = match callback_url {
            Some(u) => u.to_owned(),
            None => {
                if str_ends_with(self.callback_host.as_str(), "mocky.io") {
                    fallback_callback_url().to_owned()
                } else {
                    return Err(MomoError::MissingCallbackUrl);
                }
            },
        };
        let op = Operation::Pay {
            amount,
            currency: *currency,
            msisdn: msisdn.to_string(),
            reference_id: fresh_reference_id(),
            callback_url: cb,
        };
        let call = self.make_op_call(&op);
        Ok((OpSession { op, phase: Phase::AwaitingOperation { retried: false } }, call))
    }

    /// Prepares a status query for a previously accepted payment request.
    pub fn begin_request_to_pay_status(&self, reference_id: &str) -> (r: (OpSession, HttpCall))
        ensures
            r.0.phase == (Phase::AwaitingOperation { retried: false }),
            r.0.op matches Operation::PayStatus { reference_id: rid } && rid@ == reference_id@,
            call_matches_op(*self, r.0.op, r.1),
    {
        let op = Operation::PayStatus { reference_id: reference_id.to_owned() };
        let call = self.make_op_call(&op);
        (OpSession { op, phase: Phase::AwaitingOperation { retried: false } }, call)
    }

    /// Prepares a balance query.
    pub fn begin_get_balance(&self) -> (r: (OpSession, HttpCall))
        ensures
            r.0.phase == (Phase::AwaitingOperation { retried: false }),
            r.0.op is GetBalance,
            call_matches_op(*self, r.0.op, r.1),
    {
        let op = Operation::GetBalance;
        let call = self.make_op_call(&op);
        (OpSession { op, phase: Phase::AwaitingOperation { retried: false } }, call)
    }

    /// Consumes the response to the session's outstanding request and
    /// says what to do next, as `step_post` states: finish, fail, or —
    /// once per operation — re-authorize and replay.
    pub fn proceed(&mut self, session: OpSession, status: u16, body: &str) -> (r: Step)
        ensures
            step_post(*old(self), session, status, body@, *final(self), r),
    {
        match session.phase {
            Phase::AwaitingOperation { retried } => {
                let success: u16 = match &session.op {
                    Operation::Pay { .. } => 202,
                    Operation::PayStatus { .. } => 200,
                    Operation::GetBalance => 200,
                };
                if status == success {
                    match session.op {
                        Operation::Pay { reference_id, .. } => Step::Done {
                            outcome: OpOutcome::Accepted { reference_id },
                        },
                        Operation::PayStatus { .. } => {
                            match json_string_field(body, "status") {
                                None => Step::Failed {
                                    error: MomoError::MalformedResponse { body: body.to_owned() },
                                },
                                Some(w) => match PaymentStatus::from_str(w.as_str()) {
                                    Ok(ps) => Step::Done {
                                        outcome: OpOutcome::Status { status: ps },
                                    },
                                    Err(e) => Step::Failed { error: e },
                                },
                            }
                        },
                        Operation::GetBalance => {
                            let amount = json_string_field(body, "availableBalance");
                            let currency = json_string_field(body, "currency");
                            match (amount, currency) {
                                (Some(amount), Some(currency)) => Step::Done {
                                    outcome: OpOutcome::Funds {
                                        balance: Balance { amount, currency },
                                    },
                                },
                                _ => Step::Failed {
                                    error: MomoError::MalformedResponse { body: body.to_owned() },
                                },
                            }
                        },
                    }
                } else if status == 401 && !retried && self.reauthorize {
                    let call = self.begin_authorize();
                    Step::Next {
                        session: OpSession { op: session.op, phase: Phase::AwaitingToken },
                        call,
                    }
                } else {
                    let reference_id: Option<String> = match &session.op {
                        Operation::Pay { reference_id, .. } => Some(reference_id.clone()),
                        Operation::PayStatus { reference_id } => Some(reference_id.clone()),
                        Operation::GetBalance => None,
                    };
                    Step::Failed {
                        error: MomoError::Operation { status, reference_id, body: body.to_owned() },
                    }
                }
            },
            Phase::AwaitingToken => {
                match self.finish_authorize(status, body) {
                    Ok(()) => {
                        let op = replay_operation(session.op);
                        let call = self.make_op_call(&op);
                        Step::Next {
                            session: OpSession {
                                op,
                                phase: Phase::AwaitingOperation { retried: true },
                            },
                            call,
                        }
                    },
                    Err(e) => Step::Failed { error: e },
                }
            },
        }
    }

    /// The request that carries out `op`, bearing the current token.
    fn make_op_call(&self, op: &Operation) -> (r: HttpCall)
        ensures
            call_matches_op(*self, *op, r),
    {
        match op {
            Operation::Pay { amount, currency, msisdn, reference_id, callback_url } => HttpCall {
                method: HttpMethod::Post,
                url: self.pay_url(),
                basic_username: None,
                basic_password: None,
                bearer_token: Some(self.collections_access_token.clone()),
                callback_url: Some(callback_url.clone()),
                reference_id: Some(reference_id.clone()),
                target_environment: Some(self.target_environment.clone()),
                subscription_key: self.subscription_key.clone(),
                body: Some(
                    build_pay_body(*amount, currency, reference_id.as_str(), msisdn.as_str()),
                ),
            },
            Operation::PayStatus { reference_id } => HttpCall {
                method: HttpMethod::Get,
                url: self.status_url(reference_id.as_str()),
                basic_username: None,
                basic_password: None,
                bearer_token: Some(self.collections_access_token.clone()),
                callback_url: None,
                reference_id: None,
                target_environment: Some(self.target_environment.clone()),
                subscription_key: self.subscription_key.clone(),
                body: None,
            },
            Operation::GetBalance => HttpCall {
                method: HttpMethod::Get,
                url: self.balance_url(),
                basic_username: None,
                basic_password: None,
                bearer_token: Some(self.collections_access_token.clone()),
                callback_url: None,
                reference_id: None,
                target_environment: Some(self.target_environment.clone()),
                subscription_key: self.subscription_key.clone(),
                body: None,
            },
        }
    }
}

/// The operation as it is replayed after a re-authorization: a payment
/// goes out again under a freshly drawn reference id, with its body
/// rebuilt by `make_op_call`; a status or balance query is repeated as it
/// is.
fn replay_operation(op: Operation) -> (r: Operation)
    ensures
        replayed_op(op, r),
{
    match op {
        Operation::Pay { amount, currency, msisdn, reference_id: _, callback_url } => {
            Operation::Pay {
                amount,
                currency,
                msisdn,
                reference_id: fresh_reference_id(),
                callback_url,
            }
        },
        other => other,
    }
}

/// An operation whose fresh request is answered 401 performs exactly one
/// re-authorization (the token request of `call1`), then exactly one
/// replay of the original call (`call2`, bearing the new token; a payment
/// replay goes out under a fresh 36-character reference id with its body
/// rebuilt over it, and its acceptance returns that id); if the replay is
/// answered 401 again, the operation fails with an operation error
/// instead of re-authorizing a second time.
pub proof fn lemma_single_reauthorization(
    c0: Client,
    s0: OpSession,
    b1: Seq<char>,
    c1: Client,
    s1: OpSession,
    call1: HttpCall,
    b2: Seq<char>,
    c2: Client,
    s2: OpSession,
    call2: HttpCall,
    b3: Seq<char>,
    c3: Client,
    r3: Step,
)
    requires
        s0.phase == (Phase::AwaitingOperation { retried: false }),
        c0.reauthorize,
        step_post(c0, s0, 401, b1, c1, Step::Next { session: s1, call: call1 }),
        json_str_field(b2, "access_token"@) is Some,
        step_post(c1, s1, 200, b2, c2, Step::Next { session: s2, call: call2 }),
        step_post(c2, s2, 401, b3, c3, r3),
    ensures
        is_token_call(c1, call1),
        s1.phase is AwaitingToken,
        s1.op == s0.op,
        replayed_op(s0.op, s2.op),
        call_matches_op(c2, s2.op, call2),
        s2.phase == (Phase::AwaitingOperation { retried: true }),
        r3 matches Step::Failed { error } && error matches MomoError::Operation { .. },
        c3 == c2,
{
    assert(op_success_status(s0.op) == 202 || op_success_status(s0.op) == 200);
    assert(op_success_status(s2.op) == 202 || op_success_status(s2.op) == 200);
}

/// The JSON body of a payment-initiation request, built by verified
/// concatenation; no inserted value needs escaping, since each comes from
/// a validated or closed set.
fn build_pay_body(amount: u64, currency: &Currency, reference_id: &str, msisdn: &str) -> (r:
    String)
    ensures
        r@ == pay_body_view(amount, *currency, reference_id@, msisdn@),
{
    let amount_str = u64_to_string(amount);
    let currency_str = currency.to_string();
    let mut b = "{\"amount\":".to_owned();
    b.append(amount_str.as_str());
    b.append(",\"currency\":\"");
    b.append(currency_str.as_str());
    b.append("\",\"externalId\":\"");
    b.append(reference_id);
    b.append("\",\"payer\":{\"partyIdType\":\"MSISDN\",\"partyId\":\"");
    b.append(msisdn);
    b.append("\"},\"payerMessage\":\"it's time to pay :)\",\"payeeNote\":\"collections\"}");
    proof {
        assert(b@ =~= pay_body_view(amount, *currency, reference_id@, msisdn@));
    }
    b
}

} // verus!
