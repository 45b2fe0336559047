//! The identity token of a login: the keys it may be signed with, the
//! outside verification of its signature and claims, and what is asked of
//! the verified claims.

use crate::failure;
use crate::failure::{AppError, ErrorStage, FailureView};
use crate::json;
use crate::json::{JsonNode, JsonNodeView};
use crate::locator;
use crate::text;
use base64::Engine;
use chrono::DateTime;
use openidconnect::{ClientId, IssuerUrl, Nonce};
use std::ops::Deref;
use vstd::prelude::*;
use vstd::string::*;

verus! {

/// The operations that a key of a key set is declared for.
#[derive(Debug)]
pub enum KeyOperations {
    Absent,
    NotAList,
    /// A list of this many items, and the first of them if it is a text.
    List(usize, Option<String>),
}

pub enum KeyOperationsView {
    Absent,
    NotAList,
    List(nat, Option<Seq<char>>),
}

impl View for KeyOperations {
    type V = KeyOperationsView;

    open spec fn view(&self) -> KeyOperationsView {
        match self {
            KeyOperations::Absent => KeyOperationsView::Absent,
            KeyOperations::NotAList => KeyOperationsView::NotAList,
            KeyOperations::List(count, first) => KeyOperationsView::List(
                *count as nat,
                match first {
                    Some(operation) => Some(operation@),
                    None => None,
                },
            ),
        }
    }
}

impl KeyOperationsView {
    /// A key that declares its operations is declared for verification alone.
    pub open spec fn verifies(self) -> bool {
        match self {
            KeyOperationsView::Absent => true,
            KeyOperationsView::NotAList => false,
            KeyOperationsView::List(count, first) => count == 1 && first == Some("verify"@),
        }
    }
}

/// The views of a list of declarations.
pub open spec fn operations_view(keys: Seq<KeyOperations>) -> Seq<KeyOperationsView> {
    keys.map_values(|key: KeyOperations| key@)
}

/// The view of declarations that were or were not found.
pub open spec fn optional_operations(keys: Option<Vec<KeyOperations>>) -> Option<
    Seq<KeyOperationsView>,
> {
    match keys {
        Some(keys) => Some(operations_view(keys@)),
        None => None,
    }
}

/// Where the operations of the key at an index are declared.
pub open spec fn operations_pointer(index: nat) -> Seq<char> {
    "/keys/"@ + text::decimal(index) + "/key_ops"@
}

/// What a key set declares of the key at an index.
pub open spec fn declared(nodes: Map<Seq<char>, JsonNodeView>, index: nat) -> KeyOperationsView {
    let pointer = operations_pointer(index);
    if !nodes.contains_key(pointer) {
        KeyOperationsView::Absent
    } else {
        match nodes[pointer] {
            JsonNodeView::List(count) => KeyOperationsView::List(
                count,
                if nodes.contains_key(pointer + "/0"@) {
                    match nodes[pointer + "/0"@] {
                        JsonNodeView::Text(operation) => Some(operation),
                        _ => None,
                    }
                } else {
                    None
                },
            ),
            _ => KeyOperationsView::NotAList,
        }
    }
}

/// What a document declares of its keys, if it is a key set.
pub open spec fn declarations(nodes: Map<Seq<char>, JsonNodeView>) -> Option<
    Seq<KeyOperationsView>,
> {
    if nodes.contains_key("/keys"@) {
        match nodes["/keys"@] {
            JsonNodeView::List(count) => Some(
                Seq::new(count, |i: int| declared(nodes, i as nat)),
            ),
            _ => None,
        }
    } else {
        None
    }
}

fn read_declaration(value: &serde_json::Value, index: usize) -> (r: KeyOperations)
    ensures
        r@ == declared(json::json_nodes(*value), index as nat),
{
    let pointer = "/keys/".to_owned().concat(text::decimal_text(index as u64).as_str()).concat(
        "/key_ops",
    );
    match json::json_at(value, pointer.as_str()) {
        None => KeyOperations::Absent,
        Some(JsonNode::List(count)) => {
            let first = pointer.concat("/0");
            match json::json_at(value, first.as_str()) {
                Some(JsonNode::Text(operation)) => KeyOperations::List(count, Some(operation)),
                _ => KeyOperations::List(count, None),
            }
        },
        Some(_) => KeyOperations::NotAList,
    }
}

fn read_declarations(value: &serde_json::Value) -> (r: Option<Vec<KeyOperations>>)
    ensures
        match declarations(json::json_nodes(*value)) {
            Some(keys) => r is Some && operations_view(r->0@) == keys,
            None => r is None,
        },
{
    let count: usize = match json::json_at(value, "/keys") {
        Some(JsonNode::List(count)) => count,
        _ => {
            return None;
        },
    };
    let ghost nodes = json::json_nodes(*value);
    let mut keys: Vec<KeyOperations> = Vec::new();
    let mut i: usize = 0;
    while i < count
        invariant
            i <= count,
            nodes == json::json_nodes(*value),
            keys@.len() == i,
            forall|j: int| 0 <= j < i ==> #[trigger] keys@[j]@ == declared(nodes, j as nat),
        decreases count - i,
    {
        keys.push(read_declaration(value, i));
        i = i + 1;
    }
    assert(operations_view(keys@) =~= Seq::new(
        count as nat,
        |j: int| declared(nodes, j as nat),
    ));
    Some(keys)
}

pub open spec fn malformed_jwks() -> FailureView {
    failure::untrusted_failure("malformed_json"@).at(ErrorStage::Jwks)
}

/// No key is declared for anything but verification.
pub open spec fn all_verify(keys: Seq<KeyOperationsView>) -> bool {
    forall|i: int| 0 <= i < keys.len() ==> (#[trigger] keys[i]).verifies()
}

/// The first thing wrong with the declarations of a key set.
pub open spec fn operations_failure(keys: Option<Seq<KeyOperationsView>>) -> Option<FailureView> {
    match keys {
        None => Some(malformed_jwks()),
        Some(keys) => if all_verify(keys) {
            None
        } else {
            Some(failure::auth_failure("id_token_key_usage"@).at(ErrorStage::Jwks))
        },
    }
}

fn verifies(key: &KeyOperations) -> (r: bool)
    ensures
        r == key@.verifies(),
{
    match key {
        KeyOperations::Absent => true,
        KeyOperations::NotAList => false,
        KeyOperations::List(count, first) => match first {
            Some(operation) => *count == 1 && text::same(operation.as_str(), "verify"),
            None => false,
        },
    }
}

/// Every key that declares its operations must be declared for verification alone.
pub fn judge_key_operations(keys: &Option<Vec<KeyOperations>>) -> (r: Result<(), AppError>)
    ensures
        match operations_failure(optional_operations(*keys)) {
            Some(failure) => r is Err && r->Err_0@ == failure,
            None => r is Ok,
        },
{
    let list = match keys {
        Some(keys) => keys,
        None => {
            return Err(AppError::untrusted("malformed_json").at(ErrorStage::Jwks));
        },
    };
    let ghost seen = operations_view(list@);
    let mut i: usize = 0;
    while i < list.len()
        invariant
            i <= list@.len(),
            *keys == Some(*list),
            seen == operations_view(list@),
            forall|j: int| 0 <= j < i ==> (#[trigger] seen[j]).verifies(),
        decreases list@.len() - i,
    {
        if !verifies(&list[i]) {
            assert(!seen[i as int].verifies());
            assert(0 <= i < seen.len());
            return Err(AppError::auth("id_token_key_usage").at(ErrorStage::Jwks));
        }
        i = i + 1;
    }
    Ok(())
}

/// What a key set document declares of its keys, if it is one.
pub open spec fn jwks_declarations(body: Seq<u8>) -> Option<Seq<KeyOperationsView>> {
    match json::json_parsed(body) {
        Some(nodes) => declarations(nodes),
        None => None,
    }
}

/// Checks the declared operations of every key in a key set document.
pub fn validate_jwks_key_operations(body: &[u8]) -> (r: Result<(), AppError>)
    ensures
        match operations_failure(jwks_declarations(body@)) {
            Some(failure) => r is Err && r->Err_0@ == failure,
            None => r is Ok,
        },
{
    let keys = match json::parse_json(body) {
        Some(value) => read_declarations(&value),
        None => None,
    };
    judge_key_operations(&keys)
}

/// Whether some bytes are a key set of the supported key types.
pub uninterp spec fn key_set_readable(body: Seq<u8>) -> bool;

/// `serde_json::from_slice` reads an `openidconnect::core::CoreJsonWebKeySet`,
/// or refuses the bytes.
#[verifier::external_body]
fn readable_key_set(body: &[u8]) -> (r: bool)
    ensures
        r == key_set_readable(body@),
{
    serde_json::from_slice::<openidconnect::core::CoreJsonWebKeySet>(body).is_ok()
}

/// The first thing wrong with a fetched key set.
pub open spec fn key_set_failure(status: u16, body: Seq<u8>) -> Option<FailureView> {
    if status != 200 {
        Some(failure::transport_failure("upstream_rejected"@, false).at(ErrorStage::Jwks))
    } else {
        match operations_failure(jwks_declarations(body)) {
            Some(failure) => Some(failure),
            None => if key_set_readable(body) {
                None
            } else {
                Some(malformed_jwks())
            },
        }
    }
}

/// Takes the answer to a request for the issuer's key set.
pub fn accept_jwks(status: u16, body: &[u8]) -> (r: Result<(), AppError>)
    ensures
        match key_set_failure(status, body@) {
            Some(failure) => r is Err && r->Err_0@ == failure,
            None => r is Ok,
        },
{
    if status != 200 {
        return Err(AppError::transport("upstream_rejected", false).at(ErrorStage::Jwks));
    }
    match validate_jwks_key_operations(body) {
        Ok(()) => {},
        Err(error) => {
            return Err(error);
        },
    }
    if readable_key_set(body) {
        Ok(())
    } else {
        Err(AppError::untrusted("malformed_json").at(ErrorStage::Jwks))
    }
}

/// The bytes of one segment of a token.
pub uninterp spec fn segment_decoded(segment: Seq<char>) -> Option<Seq<u8>>;

/// `decode` of a `base64` engine with the URL-safe alphabet, without padding
/// and lenient about trailing bits returns the bytes of a segment, or an error.
#[verifier::external_body]
fn decode_segment(segment: &str) -> (r: Option<Vec<u8>>)
    ensures
        match segment_decoded(segment@) {
            Some(bytes) => r is Some && r->0@ == bytes,
            None => r is None,
        },
{
    let lenient = base64::engine::general_purpose::NO_PAD.with_decode_allow_trailing_bits(true);
    base64::engine::GeneralPurpose::new(&base64::alphabet::URL_SAFE, lenient).decode(segment).ok()
}

/// The tenant that a token's payload names: the text of its one `tenantId`
/// member. A payload with that member twice names none.
pub open spec fn tenant_claim(token: Seq<char>) -> Option<Seq<char>> {
    let segments = text::pieces(token, '.');
    if segments.len() != 3 {
        None
    } else {
        match segment_decoded(segments[1]) {
            Some(payload) => match json::json_members(payload) {
                Some(members) => json::sole_text(members, "tenantId"@),
                None => None,
            },
            None => None,
        }
    }
}

fn read_tenant(token: &str) -> (r: Option<String>)
    ensures
        match tenant_claim(token@) {
            Some(tenant) => r is Some && r->0@ == tenant,
            None => r is None,
        },
{
    let segments = text::split_pieces(token, '.');
    proof {
        assert(text::texts(segments@).len() == segments@.len());
    }
    if segments.len() != 3 {
        return None;
    }
    assert(text::texts(segments@)[1] == segments@[1]@);
    let payload = match decode_segment(segments[1].as_str()) {
        Some(payload) => payload,
        None => {
            return None;
        },
    };
    match json::read_members(payload.as_slice()) {
        Some(members) => json::read_sole_text(&members, "tenantId"),
        None => None,
    }
}

/// Whether a text is a token with the required standard claims.
pub uninterp spec fn token_readable(token: Seq<char>) -> bool;

/// `str::parse` reads an `openidconnect::core::CoreIdToken`: three segments,
/// a header and a payload with issuer, audience, expiry, issue time and
/// subject; or it refuses the text.
#[verifier::external_body]
fn readable_token(token: &str) -> (r: bool)
    ensures
        r == token_readable(token@),
{
    token.parse::<openidconnect::core::CoreIdToken>().is_ok()
}

/// Takes the identity token of a token answer: it must read as one and name a tenant.
pub fn accept_token(token: &str) -> (r: Result<(), AppError>)
    ensures
        r is Ok <==> token_readable(token@) && tenant_claim(token@) is Some,
        r is Err ==> r->Err_0@ == failure::untrusted_failure("malformed_json"@).at(
            ErrorStage::TokenExchange,
        ),
{
    if readable_token(token) && read_tenant(token).is_some() {
        Ok(())
    } else {
        Err(AppError::untrusted("malformed_json").at(ErrorStage::TokenExchange))
    }
}

/// Whether a second since the epoch is one the calendar reaches: from the
/// first second of the year -262143 to the last of the year 262142.
pub open spec fn calendar_reaches(seconds: i64) -> bool {
    -8_334_601_228_800 <= seconds <= 8_210_266_876_799
}

/// `chrono::DateTime::from_timestamp` turns seconds since the epoch into a
/// time, unless they are out of its calendar's range.
#[verifier::external_body]
fn on_calendar(seconds: i64) -> (r: bool)
    ensures
        r == calendar_reaches(seconds),
{
    DateTime::from_timestamp(seconds, 0).is_some()
}

/// A token may be used from the second it was issued in: an issue time after
/// the clock's second is in the future.
pub open spec fn issued(seconds: i64, nanoseconds: u32, now: i64) -> bool {
    seconds < now || (seconds == now && nanoseconds == 0)
}

/// The outside verification asks this of the issue time.
pub fn check_issue_time(seconds: i64, nanoseconds: u32, now: i64) -> (r: Result<(), String>)
    ensures
        r is Ok <==> issued(seconds, nanoseconds, now),
        r is Err ==> r->Err_0@ == "ID token issue time is in the future"@,
{
    if seconds < now || (seconds == now && nanoseconds == 0) {
        Ok(())
    } else {
        Err("ID token issue time is in the future".to_owned())
    }
}

/// The outside verification asks this of an audience that is not the client:
/// further audiences are judged with the authorized party.
pub fn other_audience(_audience: &str) -> (r: bool)
    ensures
        r,
{
    true
}

/// The signature algorithms that a token may be signed with.
#[derive(Clone, Copy, Debug, PartialEq, Eq, Structural)]
pub enum SigningAlgorithm {
    Rs256,
}

/// What a token is verified against.
pub struct TokenTerms {
    pub algorithm: SigningAlgorithm,
    pub client_id: Seq<char>,
    pub issuer: Seq<char>,
    pub nonce: Seq<char>,
    pub now: i64,
}

/// The claims of a token whose signature was verified.
#[derive(Debug)]
pub struct VerifiedClaims {
    pub audiences: usize,
    pub authorized_party: Option<String>,
}

pub struct VerifiedClaimsView {
    pub audiences: nat,
    pub authorized_party: Option<Seq<char>>,
}

impl View for VerifiedClaims {
    type V = VerifiedClaimsView;

    open spec fn view(&self) -> VerifiedClaimsView {
        VerifiedClaimsView {
            audiences: self.audiences as nat,
            authorized_party: match self.authorized_party {
                Some(party) => Some(party@),
                None => None,
            },
        }
    }
}

impl VerifiedClaims {
    /// Claims with this many audiences, for this party.
    #[must_use]
    pub fn of(audiences: usize, authorized_party: Option<&String>) -> (r: Self)
        ensures
            r@.audiences == audiences,
            match authorized_party {
                Some(party) => r@.authorized_party == Some(party@),
                None => r@.authorized_party is None,
            },
    {
        let authorized_party = match authorized_party {
            Some(party) => Some(party.clone()),
            None => None,
        };
        VerifiedClaims { audiences, authorized_party }
    }
}

/// Whether a text can name an issuer: it reads as an absolute locator.
pub open spec fn issuer_named(issuer: Seq<char>) -> bool {
    locator::locator_parsed(issuer) is Some
}

/// `openidconnect::IssuerUrl::new` keeps a text that `url::Url::parse` reads,
/// and refuses any other.
#[verifier::external_body]
fn names_issuer(issuer: &str) -> (r: bool)
    ensures
        r == issuer_named(issuer@),
{
    IssuerUrl::new(issuer.to_owned()).is_ok()
}

/// The claims that a token makes under a key set, if it holds up against the terms.
pub uninterp spec fn claims_verified(
    token: Seq<char>,
    jwks: Seq<u8>,
    terms: TokenTerms,
) -> Option<VerifiedClaimsView>;

/// `openidconnect::IdToken::claims` returns the claims of a token whose
/// signature, issuer, audience, expiry and nonce hold up, under the issue
/// time and audience checks of this module, or an error.
#[verifier::external_body]
fn verify_claims(
    token: &str,
    jwks: &[u8],
    algorithm: SigningAlgorithm,
    client_id: String,
    issuer: String,
    nonce: String,
    now: i64,
) -> (r: Option<VerifiedClaims>)
    ensures
        ({
            let terms = TokenTerms {
                algorithm,
                client_id: client_id@,
                issuer: issuer@,
                nonce: nonce@,
                now,
            };
            match claims_verified(token@, jwks@, terms) {
                Some(claims) => r is Some && r->0@ == claims,
                None => r is None,
            }
        }),
{
    let time = DateTime::from_timestamp(now, 0)?;
    let algorithm = match algorithm {
        SigningAlgorithm::Rs256 => openidconnect::core::CoreJwsSigningAlgorithm::RsaSsaPkcs1V15Sha256,
    };
    let verifier = openidconnect::core::CoreIdTokenVerifier::new_public_client(
        ClientId::new(client_id), IssuerUrl::new(issuer).ok()?, serde_json::from_slice(jwks).ok()?)
        .set_allowed_algs([algorithm])
        .set_other_audience_verifier_fn(|other| other_audience(other))
        .set_time_fn(move || time)
        .set_issue_time_verifier_fn(move |at| check_issue_time(at.timestamp(), at.timestamp_subsec_nanos(), now));
    let token: openidconnect::core::CoreIdToken = token.parse().ok()?;
    let claims = token.claims(&verifier, &Nonce::new(nonce)).ok()?;
    Some(VerifiedClaims::of(claims.audiences().len(), claims.authorized_party().map(Deref::deref)))
}

/// The first thing wrong with verified claims for a client and a tenant.
pub open spec fn claims_failure(
    claims: VerifiedClaimsView,
    tenant: Seq<char>,
    client_id: Seq<char>,
    tenant_id: Seq<char>,
) -> Option<FailureView> {
    if (claims.audiences > 1 && claims.authorized_party is None) || (
    claims.authorized_party matches Some(party) && party != client_id) {
        Some(failure::auth_failure("authorized_party_mismatch"@))
    } else if tenant != tenant_id {
        Some(failure::auth_failure("tenant_mismatch"@))
    } else {
        None
    }
}

/// Asks of verified claims that they were made for this client, and for this tenant.
pub fn judge_claims(
    claims: &VerifiedClaims,
    tenant: &str,
    client_id: &str,
    tenant_id: &str,
) -> (r: Result<(), AppError>)
    ensures
        match claims_failure(claims@, tenant@, client_id@, tenant_id@) {
            Some(failure) => r is Err && r->Err_0@ == failure,
            None => r is Ok,
        },
{
    match &claims.authorized_party {
        Some(party) => if !text::same(party.as_str(), client_id) {
            return Err(AppError::auth("authorized_party_mismatch"));
        },
        None => if claims.audiences > 1 {
            return Err(AppError::auth("authorized_party_mismatch"));
        },
    }
    if !text::same(tenant, tenant_id) {
        return Err(AppError::auth("tenant_mismatch"));
    }
    Ok(())
}

/// The first thing wrong with a token for a client of an issuer, at a time.
pub open spec fn token_failure(
    token: Seq<char>,
    jwks: Seq<u8>,
    client_id: Seq<char>,
    issuer: Seq<char>,
    tenant_id: Seq<char>,
    nonce: Seq<char>,
    now: u64,
) -> Option<FailureView> {
    if now > i64::MAX || !calendar_reaches(now as i64) {
        Some(failure::auth_failure("clock_invalid"@))
    } else if !issuer_named(issuer) {
        Some(failure::auth_failure("issuer_invalid"@))
    } else {
        let terms = TokenTerms {
            algorithm: SigningAlgorithm::Rs256,
            client_id,
            issuer,
            nonce,
            now: now as i64,
        };
        match (claims_verified(token, jwks, terms), tenant_claim(token)) {
            (Some(claims), Some(tenant)) => claims_failure(claims, tenant, client_id, tenant_id),
            _ => Some(failure::auth_failure("id_token_invalid"@)),
        }
    }
}

/// Verifies an identity token for a client of an issuer, at a time.
pub fn validate_id_token(
    token: &str,
    jwks: &[u8],
    client_id: &str,
    issuer: &str,
    tenant_id: &str,
    nonce: &str,
    now: u64,
) -> (r: Result<(), AppError>)
    ensures
        match token_failure(token@, jwks@, client_id@, issuer@, tenant_id@, nonce@, now) {
            Some(failure) => r is Err && r->Err_0@ == failure,
            None => r is Ok,
        },
{
    if now > i64::MAX as u64 {
        return Err(AppError::auth("clock_invalid"));
    }
    let now: i64 = now as i64;
    if !on_calendar(now) {
        return Err(AppError::auth("clock_invalid"));
    }
    if !names_issuer(issuer) {
        return Err(AppError::auth("issuer_invalid"));
    }
    let claims = match verify_claims(
        token,
        jwks,
        SigningAlgorithm::Rs256,
        client_id.to_owned(),
        issuer.to_owned(),
        nonce.to_owned(),
        now,
    ) {
        Some(claims) => claims,
        None => {
            return Err(AppError::auth("id_token_invalid"));
        },
    };
    match read_tenant(token) {
        Some(tenant) => judge_claims(&claims, tenant.as_str(), client_id, tenant_id),
        None => Err(AppError::auth("id_token_invalid")),
    }
}

/// A token that passes held up under the terms of this client, issuer, nonce
/// and time, signed with RS256; it names the tenant; it names the client
/// wherever it names a party at all, and always does so when it has several
/// audiences.
pub proof fn law_tokens_serve_one_client_and_tenant(
    token: Seq<char>,
    jwks: Seq<u8>,
    client_id: Seq<char>,
    issuer: Seq<char>,
    tenant_id: Seq<char>,
    nonce: Seq<char>,
    now: u64,
)
    requires
        token_failure(token, jwks, client_id, issuer, tenant_id, nonce, now) is None,
    ensures
        tenant_claim(token) == Some(tenant_id),
        claims_verified(
            token,
            jwks,
            TokenTerms {
                algorithm: SigningAlgorithm::Rs256,
                client_id,
                issuer,
                nonce,
                now: now as i64,
            },
        ) matches Some(claims) && {
            &&& claims.authorized_party matches Some(party) ==> party == client_id
            &&& claims.audiences > 1 ==> claims.authorized_party == Some(client_id)
        },
{
}

} // verus!
