use mini_mtn_momo::Client;
use mini_mtn_momo::Config;
use mini_mtn_momo::Country;
use mini_mtn_momo::Currency;
use mini_mtn_momo::HttpMethod;
use mini_mtn_momo::MomoError;
use mini_mtn_momo::Msisdn;
use mini_mtn_momo::OpOutcome;
use mini_mtn_momo::OpSession;
use mini_mtn_momo::Operation;
use mini_mtn_momo::PaymentStatus;
use mini_mtn_momo::Phase;
use mini_mtn_momo::Step;

fn sandbox_config() -> Config {
    Config {
        username: String::from("sandbox-user"),
        password: String::from("sandbox-pass"),
        subscription_key: String::from("sandbox-key"),
        base_url: None,
        callback_host: None,
    }
}

fn authorized_client() -> Client {
    let config = sandbox_config();
    let mut client = Client::new(&config);
    let call = client.begin_authorize();
    assert_eq!(call.url, "https://sandbox.momodeveloper.mtn.com/collection/token/");
    client
        .finish_authorize(200, "{\"access_token\":\"tok1\",\"token_type\":\"Bearer\",\"expires_in\":\"3600\"}")
        .expect("authorization");
    client
}

fn ghana_msisdn() -> Msisdn {
    let ghana = Country {
        code: String::from("GH"),
        prefix: String::from("233"),
        non_prefix_digits: 9usize,
    };
    Msisdn::parse("0542373722", &ghana, None).expect("msisdn")
}

#[test]
fn resolving_sandbox_defaults_from_an_empty_config() {
    let client = Client::new(&sandbox_config());

    assert_eq!(&client.target_environment, "sandbox");
    assert_eq!(&client.base_url, "https://sandbox.momodeveloper.mtn.com/");
    assert_eq!(&client.callback_host, "www.mocky.io");
    assert_eq!(&client.collections_access_token, "");
    assert!(client.reauthorize);
}

#[test]
fn resolving_a_production_base_url() {
    let config = Config {
        base_url: Some(String::from("https://momodeveloper.mtn.com")),
        ..sandbox_config()
    };
    let client = Client::new(&config);

    assert_eq!(&client.base_url, "https://momodeveloper.mtn.com/");
    assert_eq!(&client.target_environment, "production");
}

#[test]
fn resolving_a_base_url_with_extra_slashes() {
    let config = Config {
        base_url: Some(String::from("https://gateway.example.com//")),
        ..sandbox_config()
    };
    let client = Client::new(&config);

    assert_eq!(&client.base_url, "https://gateway.example.com/");

    let config = Config {
        base_url: Some(String::from("https://momodeveloper.mtn.com///")),
        ..sandbox_config()
    };
    let client = Client::new(&config);

    assert_eq!(&client.base_url, "https://momodeveloper.mtn.com/");
    assert_eq!(&client.target_environment, "production");
}

#[test]
fn resolving_a_custom_base_url_keeps_one_trailing_slash() {
    let config = Config {
        base_url: Some(String::from("https://gateway.example.com/")),
        callback_host: Some(String::from("api.example.com")),
        ..sandbox_config()
    };
    let client = Client::new(&config);

    assert_eq!(&client.base_url, "https://gateway.example.com/");
    assert_eq!(&client.target_environment, "sandbox");
    assert_eq!(&client.callback_host, "api.example.com");
}

#[test]
fn authorizing_stores_the_access_token() {
    let client = authorized_client();

    assert_eq!(&client.collections_access_token, "tok1");
    assert!(client.reauthorize);
}

#[test]
fn authorizing_fails_on_a_non_success_status() {
    let mut client = Client::new(&sandbox_config());
    let _call = client.begin_authorize();
    match client.finish_authorize(401, "denied") {
        Err(MomoError::Authorization { status, body }) => {
            assert_eq!(status, 401);
            assert_eq!(body, "denied");
        }
        other => panic!("expected an authorization error, got {:?}", other),
    }
    assert_eq!(&client.collections_access_token, "");
    assert!(!client.reauthorize);
}

#[test]
fn authorizing_fails_on_a_body_without_a_token() {
    let mut client = Client::new(&sandbox_config());
    let _call = client.begin_authorize();
    match client.finish_authorize(200, "{\"token_type\":\"Bearer\"}") {
        Err(MomoError::Authorization { status, .. }) => assert_eq!(status, 200),
        other => panic!("expected an authorization error, got {:?}", other),
    }
}

#[test]
fn paying_builds_the_request_and_completes_on_202() {
    let mut client = authorized_client();
    let msisdn = ghana_msisdn();

    let (session, call) = client
        .begin_request_to_pay(419, &Currency::Cedi, &msisdn, None)
        .expect("request to pay");

    let (rid, cb) = match &session.op {
        Operation::Pay { amount, currency, msisdn, reference_id, callback_url } => {
            assert_eq!(*amount, 419);
            assert_eq!(*currency, Currency::Cedi);
            assert_eq!(msisdn, "233542373722");
            (reference_id.clone(), callback_url.clone())
        }
        other => panic!("expected a payment operation, got {:?}", other),
    };
    assert_eq!(rid.len(), 36);
    assert_eq!(cb, "https://www.mocky.io/v2/5ec0fa1c2f000079004c86fb");
    let body = call.body.clone().expect("request body");
    let expected = format!(
        "{{\"amount\":419,\"currency\":\"GHS\",\"externalId\":\"{}\",\
         \"payer\":{{\"partyIdType\":\"MSISDN\",\"partyId\":\"233542373722\"}},\
         \"payerMessage\":\"it's time to pay :)\",\"payeeNote\":\"collections\"}}",
        rid
    );
    assert_eq!(body, expected);

    let parsed: serde_json::Value = serde_json::from_str(&body).expect("well-formed body");
    assert_eq!(parsed["amount"], serde_json::Value::from(419u64));
    assert_eq!(parsed["payer"]["partyId"], serde_json::Value::from("233542373722"));

    assert_eq!(call.method, HttpMethod::Post);
    assert_eq!(call.url, "https://sandbox.momodeveloper.mtn.com/collection/v1_0/requesttopay/");
    assert_eq!(call.bearer_token.as_deref(), Some("tok1"));
    assert_eq!(call.reference_id.as_deref(), Some(rid.as_str()));
    assert_eq!(call.subscription_key, "sandbox-key");
    assert_eq!(call.target_environment.as_deref(), Some("sandbox"));

    match client.proceed(session, 202, "") {
        Step::Done { outcome: OpOutcome::Accepted { reference_id } } => {
            assert_eq!(reference_id, rid)
        }
        other => panic!("expected acceptance, got {:?}", other),
    }
}

#[test]
fn paying_with_a_custom_callback_host_requires_an_explicit_url() {
    let config = Config {
        callback_host: Some(String::from("api.example.com")),
        ..sandbox_config()
    };
    let mut client = Client::new(&config);
    let _call = client.begin_authorize();
    client
        .finish_authorize(200, "{\"access_token\":\"tok1\"}")
        .expect("authorization");
    let msisdn = ghana_msisdn();

    match client.begin_request_to_pay(419, &Currency::Cedi, &msisdn, None) {
        Err(MomoError::MissingCallbackUrl) => (),
        other => panic!("expected a configuration error, got {:?}", other),
    }

    let (session, call) = client
        .begin_request_to_pay(419, &Currency::Cedi, &msisdn, Some("https://api.example.com/cb"))
        .expect("request to pay");
    assert_eq!(call.callback_url.as_deref(), Some("https://api.example.com/cb"));
    match &session.op {
        Operation::Pay { callback_url, .. } => {
            assert_eq!(callback_url, "https://api.example.com/cb")
        }
        other => panic!("expected a payment operation, got {:?}", other),
    }
}

#[test]
fn querying_status_decodes_the_wire_string() {
    let mut client = authorized_client();
    let (session, call) = client.begin_request_to_pay_status("ref-1");

    assert_eq!(call.method, HttpMethod::Get);
    assert_eq!(
        call.url,
        "https://sandbox.momodeveloper.mtn.com/collection/v1_0/requesttopay/ref-1"
    );

    match client.proceed(session, 200, "{\"status\":\"SUCCESSFUL\",\"amount\":419}") {
        Step::Done { outcome: OpOutcome::Status { status } } => {
            assert_eq!(status, PaymentStatus::Resolved)
        }
        other => panic!("expected a decoded status, got {:?}", other),
    }
}

#[test]
fn querying_status_fails_on_an_unknown_wire_string() {
    let mut client = authorized_client();
    let (session, _call) = client.begin_request_to_pay_status("ref-1");

    match client.proceed(session, 200, "{\"status\":\"REFUNDED\"}") {
        Step::Failed { error: MomoError::UnknownStatus { got } } => assert_eq!(got, "REFUNDED"),
        other => panic!("expected an unknown-status failure, got {:?}", other),
    }
}

#[test]
fn querying_status_fails_on_a_body_without_a_status() {
    let mut client = authorized_client();
    let (session, _call) = client.begin_request_to_pay_status("ref-1");

    match client.proceed(session, 200, "{\"amount\":419}") {
        Step::Failed { error: MomoError::MalformedResponse { body } } => {
            assert_eq!(body, "{\"amount\":419}")
        }
        other => panic!("expected a malformed-response failure, got {:?}", other),
    }
}

#[test]
fn getting_the_balance_reads_both_fields() {
    let mut client = authorized_client();
    let (session, call) = client.begin_get_balance();

    assert_eq!(call.method, HttpMethod::Get);
    assert_eq!(
        call.url,
        "https://sandbox.momodeveloper.mtn.com/collection/v1_0/account/balance"
    );

    match client.proceed(session, 200, "{\"availableBalance\":\"900\",\"currency\":\"GHS\"}") {
        Step::Done { outcome: OpOutcome::Funds { balance } } => {
            assert_eq!(balance.amount, "900");
            assert_eq!(balance.currency, "GHS");
        }
        other => panic!("expected a balance, got {:?}", other),
    }
}

#[test]
fn reauthorizing_once_then_failing_on_a_second_401() {
    let mut client = authorized_client();
    let (session, call) = client.begin_request_to_pay_status("ref-1");
    assert_eq!(call.bearer_token.as_deref(), Some("tok1"));

    // The first 401 triggers exactly one re-authorization.
    let step = client.proceed(session, 401, "");
    let (session, call): (OpSession, _) = match step {
        Step::Next { session, call } => (session, call),
        other => panic!("expected a re-authorization, got {:?}", other),
    };
    assert_eq!(session.phase, Phase::AwaitingToken);
    assert_eq!(call.url, "https://sandbox.momodeveloper.mtn.com/collection/token/");
    assert_eq!(call.basic_username.as_deref(), Some("sandbox-user"));
    assert_eq!(call.basic_password.as_deref(), Some("sandbox-pass"));
    assert!(!client.reauthorize);

    // The token response leads to exactly one replay, with the new token.
    let step = client.proceed(session, 200, "{\"access_token\":\"tok2\"}");
    let (session, call): (OpSession, _) = match step {
        Step::Next { session, call } => (session, call),
        other => panic!("expected a replay, got {:?}", other),
    };
    assert_eq!(session.phase, Phase::AwaitingOperation { retried: true });
    assert_eq!(call.bearer_token.as_deref(), Some("tok2"));
    assert_eq!(
        call.url,
        "https://sandbox.momodeveloper.mtn.com/collection/v1_0/requesttopay/ref-1"
    );
    assert_eq!(&client.collections_access_token, "tok2");

    // A second consecutive 401 is surfaced as a failure, not retried.
    match client.proceed(session, 401, "expired") {
        Step::Failed { error: MomoError::Operation { status, reference_id, body } } => {
            assert_eq!(status, 401);
            assert_eq!(reference_id.as_deref(), Some("ref-1"));
            assert_eq!(body, "expired");
        }
        other => panic!("expected a failure, got {:?}", other),
    }
}

#[test]
fn a_payment_replay_draws_a_fresh_reference_id() {
    let mut client = authorized_client();
    let msisdn = ghana_msisdn();
    let (session, call) = client
        .begin_request_to_pay(419, &Currency::Cedi, &msisdn, None)
        .expect("request to pay");
    let first_rid = call.reference_id.clone().expect("reference id");

    // 401 on the fresh attempt: one re-authorization.
    let step = client.proceed(session, 401, "");
    let (session, _call): (OpSession, _) = match step {
        Step::Next { session, call } => (session, call),
        other => panic!("expected a re-authorization, got {:?}", other),
    };

    // The replay goes out under a fresh reference id, with the body
    // rebuilt around it and the new bearer token.
    let step = client.proceed(session, 200, "{\"access_token\":\"tok2\"}");
    let (session, call): (OpSession, _) = match step {
        Step::Next { session, call } => (session, call),
        other => panic!("expected a replay, got {:?}", other),
    };
    let retry_rid = call.reference_id.clone().expect("reference id");
    assert_eq!(retry_rid.len(), 36);
    assert_ne!(retry_rid, first_rid);
    assert_eq!(call.bearer_token.as_deref(), Some("tok2"));
    let body = call.body.clone().expect("request body");
    assert!(body.contains(&retry_rid));
    assert!(!body.contains(&first_rid));

    // Acceptance returns the id the accepted attempt went out under.
    match client.proceed(session, 202, "") {
        Step::Done { outcome: OpOutcome::Accepted { reference_id } } => {
            assert_eq!(reference_id, retry_rid)
        }
        other => panic!("expected acceptance, got {:?}", other),
    }
}

#[test]
fn a_failed_reauthorization_fails_the_operation() {
    let mut client = authorized_client();
    let (session, _call) = client.begin_get_balance();

    let step = client.proceed(session, 401, "");
    let (session, _call): (OpSession, _) = match step {
        Step::Next { session, call } => (session, call),
        other => panic!("expected a re-authorization, got {:?}", other),
    };

    match client.proceed(session, 500, "upstream down") {
        Step::Failed { error: MomoError::Authorization { status, body } } => {
            assert_eq!(status, 500);
            assert_eq!(body, "upstream down");
        }
        other => panic!("expected an authorization failure, got {:?}", other),
    }
    // The guard stays down, so a later 401 is not retried either.
    assert!(!client.reauthorize);
    let (session, _call) = client.begin_get_balance();
    match client.proceed(session, 401, "") {
        Step::Failed { error: MomoError::Operation { status, .. } } => assert_eq!(status, 401),
        other => panic!("expected a failure, got {:?}", other),
    }
}

#[test]
fn a_non_success_non_401_status_fails_the_operation() {
    let mut client = authorized_client();
    let msisdn = ghana_msisdn();
    let (session, _call) = client
        .begin_request_to_pay(419, &Currency::Cedi, &msisdn, None)
        .expect("request to pay");
    let rid = match &session.op {
        Operation::Pay { reference_id, .. } => reference_id.clone(),
        other => panic!("expected a payment operation, got {:?}", other),
    };

    match client.proceed(session, 500, "boom") {
        Step::Failed { error: MomoError::Operation { status, reference_id, body } } => {
            assert_eq!(status, 500);
            assert_eq!(reference_id, Some(rid));
            assert_eq!(body, "boom");
        }
        other => panic!("expected a failure, got {:?}", other),
    }
    // The 500 did not disturb the client's state.
    assert!(client.reauthorize);
    assert_eq!(&client.collections_access_token, "tok1");
}
