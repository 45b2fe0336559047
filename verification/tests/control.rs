use base64::engine::general_purpose::URL_SAFE_NO_PAD;
use base64::Engine;
use openidconnect::{JsonWebKeyId, PrivateSigningKey};
use rsa::pkcs1::EncodeRsaPrivateKey;
use secure_device_rotation::callback::{
    callback_target, parse_callback_request, reply, CallbackOutcome, CallbackReader, ReadStep,
};
use secure_device_rotation::client::{
    decode_policy_response, decode_status_response, prepare_policy_put, prepare_status_get,
    PolicyBody, PolicyResponse, StatusResponse,
};
use secure_device_rotation::contract::{
    CanonicalCommandState, CanonicalConditionReason, CanonicalConditionStatus,
    CanonicalConditionType, ConflictError, ConflictResponse, ErrorBody, NotFoundResponse,
    PolicyData, PolicyDataCondition, PolicyPutResponse, StatusActiveCommand, StatusCondition,
    StatusData, StatusDesired, StatusGetResponse, ValidationResponse,
};
use secure_device_rotation::control::{
    api_request, audit, begin_rotation, check_policy, cli_outcome, read_policy, require_ca_certificate,
    rotate_outcome, status_outcome, BodyBuffer, CliStop, PolicyInput, RotateRecord, UsageInput,
    MAX_RESPONSE_BYTES,
};
use secure_device_rotation::failure::{within_stage, AppError, ErrorStage};
use secure_device_rotation::id_token::{
    accept_jwks, accept_token, validate_id_token, validate_jwks_key_operations,
};
use secure_device_rotation::identity::Uuid;
use secure_device_rotation::locator::{
    checked_discovery_url, discovery_url, loopback_host, secure_remote_url, validate_rss_base_url,
    Locator,
};
use secure_device_rotation::login::{
    begin, checked_begin, classify_token_response, AuthArgs, AwaitCode, AwaitDiscovery, Discovery, LoginSecrets,
    TokenSet, TokenWire,
};
use secure_device_rotation::model::{KeyUsage, RotationPolicy};
use secure_device_rotation::nonzero::NonZeroU64;
use serde_json::Value;

fn id(text: &str) -> Uuid {
    Uuid::from_u128(text.parse::<uuid::Uuid>().expect("UUID").as_u128())
}

fn url(text: &str) -> Locator {
    Locator::read(text).expect("url")
}

fn object(fields: Vec<(&str, Value)>) -> Value {
    let mut map = serde_json::Map::new();
    for (key, value) in fields {
        map.insert(key.to_owned(), value);
    }
    Value::from(map)
}

struct Auth {
    issuer: String,
    client_id: String,
    tenant_id: String,
}

fn auth() -> Auth {
    Auth {
        issuer: "https://issuer.example/".to_owned(),
        client_id: "client".to_owned(),
        tenant_id: "tenant".to_owned(),
    }
}

fn validate(token: &str, jwks: &[u8], auth: &Auth, nonce: &str, now: u64) -> Result<(), AppError> {
    validate_id_token(
        token,
        jwks,
        &auth.client_id,
        &auth.issuer,
        &auth.tenant_id,
        nonce,
        now,
    )
}

/// The factors of one 2048-bit key that signs in these tests alone: to find a
/// pair afresh takes seconds.
const FIRST_PRIME: &str = "\
    eeb3a06c91ce87346d5c1edc0cfbbb28d76d5b53836a98fd6eea81d51ed5187c\
    48e30438adbbbaa91ecad8d4380934992131ddfe40686bc80047826a08c0aa72\
    59c0fd96fd12fa29780aab8a44f78b614a0dbb82a8d97495b6de6ee4b28b96a1\
    e9b54805618a54b76bc356ccfbfb7fb3ccaa421fd17ea7e55c4921e7b0073b07";

const SECOND_PRIME: &str = "\
    ca9c43a7a03c058fd4770a9098dd5dec1104b8152976e42982242c1881591221\
    f1d637bb89a0e44236aa43442f3974118c920b4b330841b82502bec8c2fc53a1\
    c76f56e95180916844978b13c804d9af8fd00ab224ca9107d3c3849a352c9fb7\
    5ce5f902ac96b1b47810f9fc4229307554cedf3112633052f6d4791f3fd30edf";

fn number(digits: &str) -> rsa::BigUint {
    rsa::BigUint::parse_bytes(digits.as_bytes(), 16).expect("number")
}

fn signing_key() -> openidconnect::core::CoreRsaPrivateSigningKey {
    let key = rsa::RsaPrivateKey::from_p_q(number(FIRST_PRIME), number(SECOND_PRIME), number("10001"))
        .expect("test key");
    let pem = key
        .to_pkcs1_pem(rsa::pkcs8::LineEnding::LF)
        .expect("encode test key");
    openidconnect::core::CoreRsaPrivateSigningKey::from_pem(&pem, Some(JsonWebKeyId::new("test-key".to_owned())))
        .expect("test key")
}

fn key_set(key: &openidconnect::core::CoreRsaPrivateSigningKey) -> Value {
    serde_json::to_value(openidconnect::core::CoreJsonWebKeySet::new(vec![key.as_verification_key()])).expect("jwks")
}

fn claims(audiences: &[&str], authorized_party: Option<&str>, tenant: &str) -> Vec<(&'static str, Value)> {
    let mut claims = vec![
        ("iss", Value::from("https://issuer.example/")),
        (
            "aud",
            Value::from(audiences.iter().map(|item| Value::from(*item)).collect::<Vec<_>>()),
        ),
        ("exp", Value::from(2_000)),
        ("iat", Value::from(900)),
        ("sub", Value::from("subject")),
        ("nonce", Value::from("nonce")),
        ("tenantId", Value::from(tenant)),
    ];
    if let Some(party) = authorized_party {
        claims.push(("azp", Value::from(party)));
    }
    claims
}

fn sign(key: &openidconnect::core::CoreRsaPrivateSigningKey, claims: Vec<(&str, Value)>) -> String {
    sign_payload(key, &serde_json::to_vec(&object(claims)).expect("JSON"))
}

fn sign_payload(key: &openidconnect::core::CoreRsaPrivateSigningKey, payload: &[u8]) -> String {
    let header = object(vec![
        ("alg", Value::from("RS256")),
        ("kid", Value::from("test-key")),
    ]);
    let header = serde_json::to_vec(&header).expect("JSON");
    let message = format!(
        "{}.{}",
        URL_SAFE_NO_PAD.encode(header),
        URL_SAFE_NO_PAD.encode(payload)
    );
    let signature = key
        .sign(
            &openidconnect::core::CoreJwsSigningAlgorithm::RsaSsaPkcs1V15Sha256,
            message.as_bytes(),
        )
        .expect("signature");
    format!("{message}.{}", URL_SAFE_NO_PAD.encode(signature))
}

fn signed_token(
    audiences: &[&str],
    authorized_party: Option<&str>,
    tenant: &str,
) -> (String, Vec<u8>) {
    let key = signing_key();
    let token = sign(&key, claims(audiences, authorized_party, tenant));
    (token, serde_json::to_vec(&key_set(&key)).expect("jwks"))
}

#[test]
fn typed_verifier_rejects_audience_nonce_expiry_tenant_and_authorized_party() {
    let (token, jwks) = signed_token(&["client"], None, "tenant");
    assert!(validate(&token, &jwks, &auth(), "nonce", 1_000).is_ok());
    for (configured, nonce, now, expected) in [
        (
            Auth {
                client_id: "other".to_owned(),
                ..auth()
            },
            "nonce",
            1_000,
            "id_token_invalid",
        ),
        (auth(), "wrong", 1_000, "id_token_invalid"),
        (auth(), "nonce", 2_000, "id_token_invalid"),
        (
            Auth {
                tenant_id: "other".to_owned(),
                ..auth()
            },
            "nonce",
            1_000,
            "tenant_mismatch",
        ),
        (auth(), "nonce", 899, "id_token_invalid"),
        (auth(), "nonce", u64::MAX, "clock_invalid"),
        (auth(), "nonce", i64::MAX as u64, "clock_invalid"),
        (
            Auth {
                issuer: "not a locator".to_owned(),
                ..auth()
            },
            "nonce",
            1_000,
            "issuer_invalid",
        ),
    ] {
        assert_eq!(
            validate(&token, &jwks, &configured, nonce, now)
                .expect_err("rejected")
                .code(),
            expected
        );
    }
    let (token, jwks) = signed_token(&["client", "api"], None, "tenant");
    assert_eq!(
        validate(&token, &jwks, &auth(), "nonce", 1_000)
            .expect_err("missing azp")
            .code(),
        "authorized_party_mismatch"
    );
}

#[test]
fn id_token_shape_requires_subject_and_issue_time() {
    let key = signing_key();
    let missing = vec![
        ("iss", Value::from("https://issuer.example/")),
        ("aud", Value::from("client")),
        ("exp", Value::from(2_000)),
        ("nonce", Value::from("nonce")),
        ("tenantId", Value::from("tenant")),
    ];
    let error = accept_token(&sign(&key, missing)).expect_err("shape");
    assert_eq!(error.code(), "malformed_json");
    assert_eq!(error.stage(), ErrorStage::TokenExchange);
    assert_eq!(error.exit_code(), 6);
    assert!(accept_token(&sign(&key, claims(&["client"], None, "tenant"))).is_ok());
    let mut unnamed = claims(&["client"], None, "tenant");
    unnamed.retain(|(key, _)| *key != "tenantId");
    assert!(accept_token(&sign(&key, unnamed)).is_err());
    assert!(accept_token("id-token-bait").is_err());
}

#[test]
fn a_token_names_its_tenant_exactly_once() {
    let key = signing_key();
    let jwks = serde_json::to_vec(&key_set(&key)).expect("jwks");
    let with = |members: &str| {
        let payload = format!(
            r#"{{"iss":"https://issuer.example/","aud":["client"],"exp":2000,"iat":900,"sub":"subject","nonce":"nonce"{members}}}"#
        );
        sign_payload(&key, payload.as_bytes())
    };
    for named in [
        r#","tenantId":"tenant""#,
        r#","tenant\u0049d":"tenant""#,
        r#","other":1,"other":2,"tenantId":"tenant""#,
        r#","other":{"tenantId":"other"},"tenantId":"tenant""#,
    ] {
        let token = with(named);
        assert!(accept_token(&token).is_ok(), "{named}");
        assert!(validate(&token, &jwks, &auth(), "nonce", 1_000).is_ok(), "{named}");
    }
    for unnamed in [
        "",
        r#","tenantId":"other","tenantId":"tenant""#,
        r#","tenantId":"tenant","tenantId":"tenant""#,
        r#","tenantId":"tenant","tenant\u0049d":"tenant""#,
        r#","tenantId":null,"tenantId":"tenant""#,
        r#","tenantId":7"#,
        r#","other":{"tenantId":"tenant"}"#,
    ] {
        let token = with(unnamed);
        let error = accept_token(&token).expect_err("tenant");
        assert_eq!(error.code(), "malformed_json", "{unnamed}");
        assert_eq!(error.stage(), ErrorStage::TokenExchange);
        assert_eq!(
            validate(&token, &jwks, &auth(), "nonce", 1_000)
                .expect_err("tenant")
                .code(),
            "id_token_invalid"
        );
    }
    let list = sign_payload(&key, br#"[["tenantId","tenant"]]"#);
    assert!(accept_token(&list).is_err());
}

#[test]
fn the_clock_ends_with_the_calendar() {
    let (token, jwks) = signed_token(&["client"], None, "tenant");
    for (now, expected) in [
        (8_210_266_876_799, "id_token_invalid"),
        (8_210_266_876_800, "clock_invalid"),
    ] {
        assert_eq!(
            validate(&token, &jwks, &auth(), "nonce", now)
                .expect_err("late")
                .code(),
            expected
        );
    }
}

#[test]
fn rendered_diagnostics_include_a_closed_stage() {
    let rendered = AppError::transport("request_failed", true).render();
    assert_eq!(rendered.stage, "transport");
    assert_eq!(rendered.category, "transport");
    assert_eq!(rendered.code, "request_failed");
    assert!(rendered.retryable);
    assert!(rendered.request_id.is_none());
}

#[test]
fn jwks_policy_and_typed_verifier_reject_non_signing_wrong_alg_and_duplicate_keys() {
    assert!(validate_jwks_key_operations(br#"{"keys":[{"key_ops":["verify"]}]}"#).is_ok());
    for body in [
        br#"{"keys":[{"key_ops":["encrypt"]}]}"#.as_slice(),
        br#"{"keys":[{"key_ops":["verify","sign"]}]}"#.as_slice(),
        br#"{"keys":[{},{"key_ops":"verify"}]}"#.as_slice(),
        br#"{"keys":[{"key_ops":[7]}]}"#.as_slice(),
        br#"{"keys":[{"key_ops":[]}]}"#.as_slice(),
    ] {
        assert_eq!(
            validate_jwks_key_operations(body)
                .expect_err("key operations")
                .code(),
            "id_token_key_usage"
        );
    }
    assert!(validate_jwks_key_operations(br#"{"keys":[]}"#).is_ok());
    assert!(validate_jwks_key_operations(br#"{"keys":[1,null,{"kid":"a"}]}"#).is_ok());
    for body in [
        b"not-json".as_slice(),
        br#"{"keys":{}}"#.as_slice(),
        br#"[]"#.as_slice(),
    ] {
        assert_eq!(
            validate_jwks_key_operations(body)
                .expect_err("key set")
                .code(),
            "malformed_json"
        );
    }

    let key = signing_key();
    let token = sign(&key, claims(&["client"], None, "tenant"));
    for mutation in ["use", "alg", "duplicate"] {
        let mut value = key_set(&key);
        let keys = value["keys"].as_array_mut().expect("keys");
        match mutation {
            "use" => keys[0]["use"] = Value::from("enc"),
            "alg" => keys[0]["alg"] = Value::from("RS512"),
            "duplicate" => {
                let again = keys[0].clone();
                keys.push(again);
            }
            _ => unreachable!(),
        }
        let invalid = serde_json::to_vec(&value).expect("typed jwks");
        assert!(accept_jwks(200, &invalid).is_ok());
        assert_eq!(
            validate(&token, &invalid, &auth(), "nonce", 1_000)
                .expect_err("invalid key policy")
                .code(),
            "id_token_invalid",
            "mutation {mutation}"
        );
    }
    let missing = accept_jwks(503, b"").expect_err("upstream");
    assert_eq!(missing.code(), "upstream_rejected");
    assert_eq!(missing.exit_code(), 5);
}

#[test]
fn rss_base_url_is_an_https_origin() {
    assert!(validate_rss_base_url(&url("https://rss.example/")).is_ok());
    for value in [
        "http://rss.example/",
        "https://rss.example/proxy",
        "https://rss.example/proxy/",
        "https://rss.example/?query=1",
        "https://user@rss.example/",
    ] {
        assert!(validate_rss_base_url(&url(value)).is_err(), "{value}");
    }
    assert_eq!(
        validate_rss_base_url(&url("https://rss.example/#part"))
            .expect_err("fragment")
            .code(),
        "rss_base_url_must_be_origin"
    );
}

#[test]
fn remote_plaintext_is_forbidden_but_loopback_callback_is_allowed() {
    assert!(secure_remote_url(&url("https://api.example/"), false).is_ok());
    assert!(secure_remote_url(&url("http://api.example/"), true).is_err());
    assert!(secure_remote_url(&url("http://127.0.0.1:8000/"), true).is_ok());
    assert!(secure_remote_url(&url("http://127.0.0.1:8000/"), false).is_err());
    assert!(secure_remote_url(&url("ftp://127.0.0.1/"), true).is_err());
}

#[test]
fn loopback_addresses_are_dotted_and_canonical() {
    for host in ["127.0.0.1", "127.255.255.255", "127.10.0.99", "127.0.0.0"] {
        assert!(loopback_host(host), "{host}");
    }
    for host in [
        "126.0.0.1",
        "128.0.0.1",
        "127.0.0.256",
        "127.0.0.01",
        "127.0.0",
        "127.0.0.1.",
        "127.0.0.1.1",
        "127..0.1",
        "127.0.0.1000",
        "127.0.0.1a",
        "localhost",
        "[::1]",
        "",
    ] {
        assert!(!loopback_host(host), "{host}");
    }
}

#[test]
fn discovery_preserves_keycloak_realm_path_and_issuer_identity_is_exact() {
    let issuer = url("https://issuer.example/realms/device");
    assert_eq!(
        discovery_url(&issuer).expect("discovery").text,
        "https://issuer.example/realms/device/.well-known/openid-configuration"
    );
    assert_eq!(
        discovery_url(&url("https://issuer.example/realms/device//"))
            .expect("discovery")
            .text,
        "https://issuer.example/realms/device/.well-known/openid-configuration"
    );
    let configured = Auth {
        issuer: issuer.text,
        ..auth()
    };
    let (token, jwks) = signed_token(&["client"], None, "tenant");
    assert_eq!(
        validate(&token, &jwks, &configured, "nonce", 1_000)
            .expect_err("exact issuer")
            .code(),
        "id_token_invalid"
    );
}

#[test]
fn multiple_audiences_require_matching_authorized_party() {
    let (token, jwks) = signed_token(&["client", "api"], Some("client"), "tenant");
    assert!(validate(&token, &jwks, &auth(), "nonce", 1_000).is_ok());
    let (token, jwks) = signed_token(&["client", "api"], Some("other"), "tenant");
    assert_eq!(
        validate(&token, &jwks, &auth(), "nonce", 1_000)
            .expect_err("wrong azp")
            .code(),
        "authorized_party_mismatch"
    );
}

fn read_request(fragments: &[&[u8]]) -> (ReadStep, Vec<u8>) {
    let mut reader = CallbackReader::new();
    let mut step = ReadStep::More;
    for fragment in fragments {
        assert!(fragment.len() <= reader.room());
        step = reader.take(fragment);
        if step != ReadStep::More {
            break;
        }
    }
    (step, reader.request().to_vec())
}

#[test]
fn callback_ignores_invalid_connections_reads_fragments_and_completes_browser_pages() {
    let redirect = url("http://127.0.0.1:8765/callback");
    let (step, invalid) = read_request(&[
        b"GET /wrong?state=expected&code=ignored HTTP/1.1\r\nHost: localhost\r\n\r\n",
    ]);
    assert_eq!(step, ReadStep::Complete);
    let answer = reply(parse_callback_request(&invalid, &redirect, "expected"));
    assert!(answer.page.contains("400 Bad Request"));
    assert!(answer.result.is_none());

    let (step, valid) = read_request(&[
        b"GET /callback?state=expected&code=split",
        b" HTTP/1.1\r\nHost: localhost\r\n\r\n",
    ]);
    assert_eq!(step, ReadStep::Complete);
    let answer = reply(parse_callback_request(&valid, &redirect, "expected"));
    assert_eq!(
        answer.page,
        "HTTP/1.1 200 OK\r\nContent-Type: text/plain\r\nContent-Length: 24\r\nConnection: close\r\n\r\nAuthentication complete."
    );
    assert_eq!(answer.result.expect("answer").expect("callback"), "split");
}

#[test]
fn callback_reports_authorization_rejection_to_browser_before_returning() {
    let redirect = url("http://127.0.0.1:8765/callback");
    let request =
        b"GET /callback?state=expected&error=access_denied HTTP/1.1\r\nHost: localhost\r\n\r\n";
    let answer = reply(parse_callback_request(request, &redirect, "expected"));
    assert!(answer.page.contains("Authentication rejected."));
    let error = answer.result.expect("answer").expect_err("rejected");
    assert_eq!(error.code(), "authorization_rejected");
    assert_eq!(error.stage(), ErrorStage::Callback);
}

#[test]
fn callbacks_that_are_not_the_expected_answer_are_ignored() {
    let redirect = url("http://127.0.0.1:8765/callback");
    let parse = |line: &str| {
        let request = format!("{line}\r\nHost: localhost\r\n\r\n");
        parse_callback_request(request.as_bytes(), &redirect, "expected")
    };
    for line in [
        "POST /callback?state=expected&code=a HTTP/1.1",
        "GET /callback?state=expected&code=a HTTP/1.0",
        "GET /callback?state=expected&code=a HTTP/1.1 extra",
        "GET //callback?state=expected&code=a HTTP/1.1",
        "GET callback?state=expected&code=a HTTP/1.1",
        "GET /callback?state=other&code=a HTTP/1.1",
        "GET /callback?state=expected&state=expected&code=a HTTP/1.1",
        "GET /callback?state=expected&code=a&code=b HTTP/1.1",
        "GET /callback?state=expected&code= HTTP/1.1",
        "GET /callback?state=expected HTTP/1.1",
        "GET /callback HTTP/1.1",
        "GET /callback?state=expected&code=a#part HTTP/1.1",
    ] {
        assert!(parse(line).is_none(), "{line}");
    }
    match parse("GET\t/callback?state=%65xpected&code=a%20b  HTTP/1.1") {
        Some(CallbackOutcome::Code(code)) => assert_eq!(code, "a b"),
        other => panic!("unexpected {other:?}"),
    }
    assert!(matches!(
        parse("GET /callback?state=expected&error=x&code=a HTTP/1.1"),
        Some(CallbackOutcome::Rejected)
    ));
    assert!(callback_target(&[0xff, 0xfe]).is_none());
}

#[test]
fn callback_reading_stays_within_its_budget() {
    let mut reader = CallbackReader::new();
    for _ in 0..7 {
        assert_eq!(reader.room(), 1024);
        assert_eq!(reader.take(&[b'x'; 1024]), ReadStep::More);
    }
    assert_eq!(reader.take(&[b'x'; 1000]), ReadStep::More);
    assert_eq!(reader.room(), 24);
    assert_eq!(reader.take(&[b'x'; 24]), ReadStep::Invalid);
    assert_eq!(reader.room(), 0);
    assert_eq!(CallbackReader::new().take(b""), ReadStep::Invalid);
    assert_eq!(CallbackReader::new().take(b"\r\n\r\n"), ReadStep::Complete);
}

fn arguments(issuer: &str, redirect: &str) -> AuthArgs {
    AuthArgs {
        issuer: url(issuer),
        client_id: "client".to_owned(),
        tenant_id: "tenant".to_owned(),
        redirect_uri: url(redirect),
    }
}

fn secrets() -> LoginSecrets {
    LoginSecrets {
        state: "state-1".to_owned(),
        nonce: "nonce".to_owned(),
        challenge: "challenge-1".to_owned(),
        verifier: "verifier-1".to_owned(),
    }
}

fn started() -> AwaitDiscovery {
    let (login, configuration) = begin(
        arguments("https://issuer.example/", "http://127.0.0.1:8765/callback"),
        secrets(),
    )
    .expect("arguments");
    assert_eq!(
        configuration.text,
        "https://issuer.example/.well-known/openid-configuration"
    );
    login
}

fn discovery() -> Discovery {
    Discovery {
        issuer: "https://issuer.example/".to_owned(),
        authorization_endpoint: "https://issuer.example/authorize".to_owned(),
        token_endpoint: "https://issuer.example/token".to_owned(),
        jwks_uri: "https://issuer.example/jwks".to_owned(),
    }
}

fn discovered() -> AwaitCode {
    started()
        .answer(200, Some(discovery()))
        .expect("configuration")
        .0
}

#[test]
fn overlong_arguments_and_endpoints_are_refused() {
    let overlong = "a".repeat(0x100_0001);
    let arguments = || arguments("https://issuer.example/", "http://127.0.0.1:8765/callback");
    let (login, configuration) = checked_begin(arguments(), secrets()).expect("arguments");
    assert_eq!(
        configuration.text,
        "https://issuer.example/.well-known/openid-configuration"
    );
    let (_, browse) = login
        .checked_answer(200, Some(discovery()))
        .expect("configuration");
    assert!(browse.starts_with("https://issuer.example/authorize?response_type=code&"));

    let error = checked_begin(
        AuthArgs {
            client_id: overlong.clone(),
            ..arguments()
        },
        secrets(),
    )
    .err()
    .expect("client");
    assert_eq!(error.code(), "invalid_cli");
    assert_eq!(error.exit_code(), 2);
    let mut long_state = secrets();
    long_state.state = overlong.clone();
    assert_eq!(
        checked_begin(arguments(), long_state).err().expect("state").code(),
        "invalid_cli"
    );
    let error = checked_begin(
        AuthArgs {
            issuer: url("http://issuer.example/"),
            ..arguments()
        },
        secrets(),
    )
    .err()
    .expect("plain issuer");
    assert_ne!(error.code(), "invalid_cli");

    let mut endpoints = discovery();
    endpoints.authorization_endpoint = overlong.clone();
    let error = started()
        .checked_answer(200, Some(endpoints))
        .err()
        .expect("endpoint");
    assert_eq!(error.code(), "response_oversize");
    assert_eq!(error.stage(), ErrorStage::Discovery);
    let error = started().checked_answer(200, None).err().expect("document");
    assert_eq!(error.code(), "malformed_json");

    assert_eq!(
        checked_discovery_url(&url("https://issuer.example/realms/device"))
            .expect("discovery")
            .text,
        "https://issuer.example/realms/device/.well-known/openid-configuration"
    );
    let mut issuer = url("https://issuer.example/");
    issuer.path = overlong;
    assert_eq!(
        checked_discovery_url(&issuer).expect_err("path").code(),
        "invalid_cli"
    );
}

#[test]
fn a_login_runs_from_discovery_to_a_verified_token() {
    let (login, browse) = started()
        .answer(200, Some(discovery()))
        .expect("configuration");
    assert_eq!(
        browse,
        "https://issuer.example/authorize?response_type=code&client_id=client&redirect_uri=http%3A%2F%2F127.0.0.1%3A8765%2Fcallback&scope=openid&state=state-1&nonce=nonce&code_challenge=challenge-1&code_challenge_method=S256"
    );
    assert_eq!(login.redirect().1, "state-1");
    let (login, endpoint, form) = login.answer("authorization-code");
    assert_eq!(endpoint.text, "https://issuer.example/token");
    let expected = [
        ("grant_type", "authorization_code"),
        ("code", "authorization-code"),
        ("redirect_uri", "http://127.0.0.1:8765/callback"),
        ("client_id", "client"),
        ("code_verifier", "verifier-1"),
    ];
    assert_eq!(form.len(), expected.len());
    for ((key, value), pair) in form.iter().zip(expected) {
        assert_eq!((key.as_str(), value.as_str()), pair);
    }
    let (id_token, jwks) = signed_token(&["client"], None, "tenant");
    let (login, keys) = login
        .answer(
            200,
            Some(TokenWire {
                access_token: "token-bait".to_owned(),
                id_token,
            }),
        )
        .expect("tokens");
    assert_eq!(keys.text, "https://issuer.example/jwks");
    let token = login.answer(200, &jwks, Some(1_000)).expect("verified");
    assert_eq!(format!("{token:?}"), "TokenSet([REDACTED])");
}

#[test]
fn login_arguments_are_checked_before_anything_is_asked() {
    for (issuer, redirect, code) in [
        (
            "http://issuer.example/",
            "http://127.0.0.1:8765/callback",
            "plaintext_remote_forbidden",
        ),
        (
            "https://issuer.example/",
            "http://localhost:8765/callback",
            "plaintext_remote_forbidden",
        ),
        (
            "https://issuer.example/",
            "https://remote.example/callback",
            "redirect_not_loopback",
        ),
    ] {
        let error = begin(arguments(issuer, redirect), secrets())
            .err()
            .expect(code);
        assert_eq!(error.code(), code);
        assert_eq!(error.exit_code(), 2);
    }
}

#[test]
fn oidc_transport_and_malformed_responses_keep_exit_classes() {
    let transport: Option<Result<(), AppError>> =
        Some(Err(AppError::transport("request_timeout", true)));
    let error = within_stage(transport, ErrorStage::Discovery).expect_err("transport");
    assert_eq!(error.exit_code(), 5);
    assert_eq!(error.render().stage, "discovery");
    let error = started().answer(200, None).err().expect("malformed");
    assert_eq!(error.exit_code(), 6);
    assert_eq!(error.render().stage, "discovery");
    let error = started().answer(404, None).err().expect("status");
    assert_eq!(error.code(), "upstream_rejected");
    assert_eq!(error.exit_code(), 5);
}

#[test]
fn login_timeout_reports_the_active_stage() {
    let pending: Option<Result<(), AppError>> = None;
    let error = within_stage(pending, ErrorStage::Discovery).expect_err("discovery timeout");
    assert_eq!(error.code(), "login_timeout");
    assert_eq!(error.stage().as_str(), "discovery");
    assert_eq!(within_stage(Some(Ok(3)), ErrorStage::Jwks).expect("in time"), 3);
}

#[test]
fn oidc_token_statuses_and_invalid_discovery_endpoints_keep_exit_classes() {
    for (status, exit) in [(400, 3), (401, 3), (403, 3), (429, 5), (503, 5), (418, 6)] {
        let (login, _, _) = discovered().answer("authorization-code");
        let error = login.answer(status, None).err().expect("token status");
        assert_eq!(error.exit_code(), exit, "status {status}");
        assert_eq!(error.render().stage, "token_exchange");
    }
    assert!(classify_token_response(200).is_ok());

    let mut invalid = discovery();
    invalid.authorization_endpoint = "not a URL".to_owned();
    assert_eq!(
        started()
            .answer(200, Some(invalid))
            .err()
            .expect("invalid discovery endpoint")
            .exit_code(),
        6
    );
    let mut plain = discovery();
    plain.token_endpoint = "http://issuer.example/token".to_owned();
    assert_eq!(
        started().answer(200, Some(plain)).err().expect("plain").code(),
        "plaintext_remote_forbidden"
    );
    let mut other = discovery();
    other.issuer = "https://issuer.example".to_owned();
    assert_eq!(
        started().answer(200, Some(other)).err().expect("issuer").code(),
        "issuer_mismatch"
    );
}

fn error_reply(request_id: &str, retryable: bool) -> ErrorBody {
    ErrorBody {
        request_id: request_id.to_owned(),
        retryable,
    }
}

fn no_body() -> PolicyBody {
    PolicyBody {
        accepted: None,
        validation: None,
        not_found: None,
        conflict: None,
    }
}

const REQUEST: &str = "0198d5f2-70de-7a2d-b3f4-012345678903";
const CORRELATION: &str = "0198d5f2-70de-7a2d-b3f4-012345678904";
const RECEIPT: &str = "0198d5f2-70de-7a2d-b3f4-012345678905";

fn rotate(response: &PolicyResponse) -> Result<secure_device_rotation::control::RotateOutput, AppError> {
    rotate_outcome(response, id(REQUEST), id(CORRELATION))
}

#[test]
fn injected_ports_drive_complete_rotate_and_typed_exit_mapping() {
    let accepted = PolicyBody {
        accepted: Some(PolicyPutResponse {
            data: PolicyData {
                accepted_generation: NonZeroU64::new(5).expect("generation"),
                authorization_receipt_id: id(RECEIPT),
                condition: PolicyDataCondition::Reconciling,
            },
        }),
        ..no_body()
    };
    let output = rotate(&decode_policy_response(200, &accepted)).expect("rotate");
    assert_eq!(output.accepted_generation, 5);
    assert_eq!(output.condition.as_str(), "Reconciling");
    assert_eq!(output.authorization_receipt_id.text(), RECEIPT);

    for (status, body, exit) in [
        (
            400,
            PolicyBody {
                validation: Some(ValidationResponse {
                    error: error_reply("r400", false),
                }),
                ..no_body()
            },
            4,
        ),
        (401, no_body(), 3),
        (403, no_body(), 3),
        (
            404,
            PolicyBody {
                not_found: Some(NotFoundResponse {
                    error: error_reply("r404", false),
                }),
                ..no_body()
            },
            4,
        ),
        (
            409,
            PolicyBody {
                conflict: Some(ConflictResponse {
                    error: ConflictError::ErrCoreVersionConflict {
                        request_id: "r409".to_owned(),
                        retryable: true,
                    },
                }),
                ..no_body()
            },
            4,
        ),
        (429, no_body(), 5),
        (503, no_body(), 5),
        (200, no_body(), 6),
    ] {
        let error = rotate(&decode_policy_response(status, &body)).expect_err("classified");
        assert_eq!(error.exit_code(), exit);
        assert_eq!(error.stage(), ErrorStage::Api);
    }
}

#[test]
fn injected_ports_drive_complete_status_without_ready_inference() {
    let body = StatusGetResponse {
        data: StatusData {
            conditions: vec![StatusCondition {
                last_transition_at: 10,
                observed_generation: 4,
                reason: CanonicalConditionReason::AwaitingDevice,
                status: CanonicalConditionStatus::Unknown,
                type_: CanonicalConditionType::PendingDevice,
            }],
            desired: Some(StatusDesired {
                active_command: Some(StatusActiveCommand {
                    fence_epoch: NonZeroU64::new(2).expect("fence"),
                    state: CanonicalCommandState::Queued,
                }),
                authorization_receipt_id: id(RECEIPT),
                generation: NonZeroU64::new(5).expect("generation"),
            }),
            observed_generation: 4,
        },
    };
    let response = decode_status_response(200, &Some(body));
    let output = status_outcome(response, id(REQUEST), id(CORRELATION)).expect("status");
    assert_eq!(output.status.desired_generation(), Some(5));
    assert_eq!(output.status.observed_generation(), 4);
    assert_eq!(output.status.conditions()[0].type_().as_str(), "PendingDevice");

    let rejected: StatusResponse = decode_status_response(503, &None);
    let error = status_outcome(rejected, id(REQUEST), id(CORRELATION)).expect_err("upstream");
    assert_eq!(error.exit_code(), 5);
}

#[test]
fn api_port_sends_exact_headers_method_path_and_canonical_body() {
    let device = id("0198d5f2-70de-7a2d-b3f4-012345678901");
    let idempotency = id("0198d5f2-70de-7a2d-b3f4-012345678902");
    let policy = RotationPolicy::try_new(vec![KeyUsage::ClientAuth], 600, Vec::new(), 3_600)
        .expect("policy");
    let put = prepare_policy_put(device, 4, idempotency, &policy).expect("prepared");
    assert!(put.request().sans.is_none());
    let prepared = put.with_body(Some(b"{}".to_vec())).expect("body");
    let request = api_request(
        &url("https://rss.example/"),
        &prepared,
        &TokenSet::new("token-bait".to_owned()),
        "tenant-one",
        id(REQUEST),
        id(CORRELATION),
    )
    .expect("request");
    assert_eq!(request.method(), "PUT");
    assert_eq!(
        request.url().text,
        "https://rss.example/api/v2/identity/devices/0198d5f2-70de-7a2d-b3f4-012345678901/certificate-policy"
    );
    let headers: Vec<(&str, &str)> = request
        .headers()
        .iter()
        .map(|(name, value)| (name.as_str(), value.as_str()))
        .collect();
    assert_eq!(
        headers,
        vec![
            ("authorization", "Bearer token-bait"),
            ("x-tenant-id", "tenant-one"),
            ("x-request-id", REQUEST),
            ("x-correlation-id", CORRELATION),
        ]
    );
    assert_eq!(request.body(), Some(b"{}".as_slice()));

    for (token, tenant, code) in [
        ("bad\ntoken", "tenant", "token_invalid"),
        ("token", "bad\u{7f}tenant", "invalid_tenant"),
    ] {
        let error = api_request(
            &url("https://rss.example/"),
            &prepare_status_get(device),
            &TokenSet::new(token.to_owned()),
            tenant,
            id(REQUEST),
            id(CORRELATION),
        )
        .err()
        .expect(code);
        assert_eq!(error.code(), code);
    }
}

#[test]
fn api_port_rejects_oversize_body_without_exposing_it() {
    let error = BodyBuffer::open(Some(MAX_RESPONSE_BYTES as u64 + 1)).expect_err("oversize");
    assert_eq!(error.code(), "response_oversize");
    let mut body = BodyBuffer::open(None).expect("unannounced");
    assert!(body.take(&vec![b'x'; MAX_RESPONSE_BYTES]).is_ok());
    let error = body.take(b"x").expect_err("oversize");
    assert_eq!(error.code(), "response_oversize");
    assert_eq!(error.exit_code(), 6);
    assert_eq!(body.bytes().len(), MAX_RESPONSE_BYTES);
}

#[test]
fn help_and_version_are_json_successes() {
    assert_eq!(cli_outcome(CliStop::Help).expect("help"), "help");
    assert_eq!(cli_outcome(CliStop::Version).expect("version"), "version");
}

fn policy_input(sans: Vec<String>) -> PolicyInput {
    PolicyInput {
        key_usages: vec![UsageInput::ClientAuth],
        renew_before_seconds: 600,
        sans,
        validity_seconds: 3600,
    }
}

#[test]
fn policy_check_reports_counts_without_sans_or_environment_bait() {
    let input = policy_input(vec!["private.device.example".to_owned()]);
    let policy = read_policy(Some(120), Some(input)).expect("policy");
    let report = check_policy(&policy);
    assert_eq!(report.san_count, 1);
    assert_eq!(report.key_usage_count, 1);
    assert_eq!(report.validity_seconds, 3600);
    assert_eq!(report.renew_before_seconds, 600);
    assert!(!format!("{report:?}").contains("private.device.example"));
}

#[test]
fn invalid_cli_and_input_use_stable_exit_two_and_json_only_diagnostics() {
    let error = cli_outcome(CliStop::Other { misuse: true }).expect_err("misuse");
    assert_eq!((error.code(), error.exit_code()), ("invalid_cli", 2));
    let error = cli_outcome(CliStop::Other { misuse: false }).expect_err("help");
    assert_eq!((error.code(), error.exit_code()), ("cli_help", 2));
    for (length, input, code) in [
        (None, None, "input_unreadable"),
        (Some(MAX_RESPONSE_BYTES + 1), None, "input_oversize"),
        (Some(25), None, "invalid_policy_json"),
        (
            Some(25),
            Some(policy_input(vec![String::new()])),
            "invalid_policy",
        ),
    ] {
        let error = read_policy(length, input).expect_err(code);
        assert_eq!((error.code(), error.exit_code()), (code, 2));
    }
    assert_eq!(
        require_ca_certificate(Some(MAX_RESPONSE_BYTES + 1))
            .expect_err("certificate")
            .code(),
        "ca_certificate_oversize"
    );
}

fn rotate_record() -> RotateRecord {
    RotateRecord {
        schema_version: "1".to_owned(),
        operation: "rotate".to_owned(),
        outcome: "accepted".to_owned(),
        request_id: id("0198d5f2-70de-7a2d-b3f4-012345678901"),
        correlation_id: id("0198d5f2-70de-7a2d-b3f4-012345678902"),
        authorization_receipt_id: id("0198d5f2-70de-7a2d-b3f4-012345678903"),
        accepted_generation: 2,
        condition: "Reconciling".to_owned(),
    }
}

#[test]
fn audit_validates_only_one_rotate_record_and_declares_no_durable_query() {
    let report = audit(Some(300), Some(rotate_record())).expect("audit");
    assert!(!report.durable_audit_queried);
    assert_eq!(report.accepted_generation, 2);
    for broken in [
        RotateRecord {
            schema_version: "2".to_owned(),
            ..rotate_record()
        },
        RotateRecord {
            operation: "status".to_owned(),
            ..rotate_record()
        },
        RotateRecord {
            outcome: "error".to_owned(),
            ..rotate_record()
        },
        RotateRecord {
            accepted_generation: 0,
            ..rotate_record()
        },
        RotateRecord {
            condition: "Ready".to_owned(),
            ..rotate_record()
        },
    ] {
        let error = audit(Some(300), Some(broken)).expect_err("record");
        assert_eq!(error.code(), "invalid_rotate_record");
    }
    assert!(audit(Some(300), None).is_err());
    assert_eq!(
        audit(Some(MAX_RESPONSE_BYTES + 1), None)
            .expect_err("oversize")
            .code(),
        "input_oversize"
    );
}

#[test]
fn a_reported_rotation_passes_its_own_audit() {
    let accepted = PolicyBody {
        accepted: Some(PolicyPutResponse {
            data: PolicyData {
                accepted_generation: NonZeroU64::new(9).expect("generation"),
                authorization_receipt_id: id(RECEIPT),
                condition: PolicyDataCondition::PendingDevice,
            },
        }),
        ..no_body()
    };
    let output = rotate(&decode_policy_response(200, &accepted)).expect("rotate");
    let record = RotateRecord {
        request_id: output.request_id,
        correlation_id: output.correlation_id,
        authorization_receipt_id: output.authorization_receipt_id,
        accepted_generation: output.accepted_generation,
        condition: output.condition.as_str().to_owned(),
        ..rotate_record()
    };
    assert!(audit(Some(300), Some(record)).is_ok());
}

#[test]
fn a_rotation_checks_the_origin_before_the_policy() {
    let origin = url("https://rss.example/");
    let policy = begin_rotation(&origin, Some(120), Some(policy_input(Vec::new()))).expect("valid");
    assert_eq!(policy.validity_seconds(), 3600);
    for (base, length, input, code) in [
        ("http://rss.example/", None, None, "plaintext_remote_forbidden"),
        (
            "https://rss.example/proxy",
            None,
            None,
            "rss_base_url_must_be_origin",
        ),
        ("https://rss.example/", None, None, "input_unreadable"),
        ("https://rss.example/", Some(3), None, "invalid_policy_json"),
        (
            "https://rss.example/",
            Some(3),
            Some(policy_input(vec![String::new()])),
            "invalid_policy",
        ),
    ] {
        let error = begin_rotation(&url(base), length, input).expect_err(code);
        assert_eq!(error.code(), code);
    }
}
