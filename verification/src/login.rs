//! One login by authorization code, as the steps between its outside calls.
//!
//! Each phase takes the answer it was waiting for and says what to ask next,
//! so the order of a login is the order of its types.

use crate::control;
use crate::failure;
use crate::failure::{AppError, ErrorStage, FailureView};
use crate::id_token;
use crate::locator;
use crate::locator::{Locator, LocatorView};
use crate::text;
use vstd::prelude::*;
use vstd::string::*;

verus! {

/// Seconds that a whole login may take.
pub const LOGIN_TIMEOUT: u64 = 120;

/// Who logs in, and where.
#[derive(Debug)]
pub struct AuthArgs {
    pub issuer: Locator,
    pub client_id: String,
    pub tenant_id: String,
    pub redirect_uri: Locator,
}

pub struct AuthView {
    pub issuer: LocatorView,
    pub client_id: Seq<char>,
    pub tenant_id: Seq<char>,
    pub redirect_uri: LocatorView,
}

impl View for AuthArgs {
    type V = AuthView;

    open spec fn view(&self) -> AuthView {
        AuthView {
            issuer: self.issuer@,
            client_id: self.client_id@,
            tenant_id: self.tenant_id@,
            redirect_uri: self.redirect_uri@,
        }
    }
}

impl AuthView {
    /// No argument is so long that a locator made of them would overflow.
    pub open spec fn short(self) -> bool {
        &&& locator::discoverable(self.issuer)
        &&& locator::short(self.client_id)
        &&& locator::short(self.redirect_uri.text)
    }
}

/// The one-time values of a login.
pub struct LoginSecrets {
    pub state: String,
    pub nonce: String,
    pub challenge: String,
    pub verifier: String,
}

pub struct SecretsView {
    pub state: Seq<char>,
    pub nonce: Seq<char>,
    pub challenge: Seq<char>,
    pub verifier: Seq<char>,
}

impl View for LoginSecrets {
    type V = SecretsView;

    open spec fn view(&self) -> SecretsView {
        SecretsView {
            state: self.state@,
            nonce: self.nonce@,
            challenge: self.challenge@,
            verifier: self.verifier@,
        }
    }
}

impl SecretsView {
    pub open spec fn short(self) -> bool {
        &&& locator::short(self.state)
        &&& locator::short(self.nonce)
        &&& locator::short(self.challenge)
    }
}

/// The endpoints that an issuer publishes.
#[derive(Debug)]
pub struct Discovery {
    pub issuer: String,
    pub authorization_endpoint: String,
    pub token_endpoint: String,
    pub jwks_uri: String,
}

/// What a token endpoint answers with.
pub struct TokenWire {
    pub access_token: String,
    pub id_token: String,
}

/// The tokens of a finished login. They are never persisted or shown.
pub struct TokenSet {
    access_token: String,
}

impl View for TokenSet {
    type V = Seq<char>;

    closed spec fn view(&self) -> Seq<char> {
        self.access_token@
    }
}

impl TokenSet {
    #[must_use]
    pub fn new(access_token: String) -> (r: Self)
        ensures
            r@ == access_token@,
    {
        TokenSet { access_token }
    }

    pub(crate) fn expose(&self) -> (r: &str)
        ensures
            r@ == self@,
    {
        self.access_token.as_str()
    }
}

impl core::fmt::Debug for TokenSet {
    fn fmt(&self, formatter: &mut core::fmt::Formatter<'_>) -> (r: Result<(), core::fmt::Error>)
        ensures
            r is Ok ==> crate::display::wrote(
                *old(formatter),
                *final(formatter),
                "TokenSet([REDACTED])"@,
            ),
    {
        formatter.write_str("TokenSet([REDACTED])")
    }
}

/// The first thing wrong with the arguments of a login.
pub open spec fn arguments_failure(auth: AuthView) -> Option<FailureView> {
    if !locator::is_secure(auth.issuer, false) || !locator::is_secure(auth.redirect_uri, true) {
        Some(failure::input_failure("plaintext_remote_forbidden"@))
    } else if auth.redirect_uri.host is None {
        Some(failure::input_failure("invalid_redirect"@))
    } else if !locator::on_loopback(auth.redirect_uri) {
        Some(failure::input_failure("redirect_not_loopback"@))
    } else if locator::discovery_of(auth.issuer) is None {
        Some(failure::input_failure("invalid_issuer"@))
    } else {
        None
    }
}

/// A login that waits for the issuer's configuration.
pub struct AwaitDiscovery {
    auth: AuthArgs,
    secrets: LoginSecrets,
}

/// A login that waits for the browser to come back with a code.
pub struct AwaitCode {
    auth: AuthArgs,
    secrets: LoginSecrets,
    token_endpoint: Locator,
    jwks_uri: Locator,
}

/// A login that waits for the tokens its code was exchanged for.
pub struct AwaitToken {
    auth: AuthArgs,
    nonce: String,
    jwks_uri: Locator,
}

/// A login that waits for the keys its token is verified with.
pub struct AwaitKeys {
    auth: AuthArgs,
    nonce: String,
    token: TokenWire,
}

pub struct AwaitDiscoveryView {
    pub auth: AuthView,
    pub secrets: SecretsView,
}

impl View for AwaitDiscovery {
    type V = AwaitDiscoveryView;

    closed spec fn view(&self) -> AwaitDiscoveryView {
        AwaitDiscoveryView { auth: self.auth@, secrets: self.secrets@ }
    }
}

pub struct AwaitCodeView {
    pub auth: AuthView,
    pub secrets: SecretsView,
    pub token_endpoint: LocatorView,
    pub jwks_uri: LocatorView,
}

impl View for AwaitCode {
    type V = AwaitCodeView;

    closed spec fn view(&self) -> AwaitCodeView {
        AwaitCodeView {
            auth: self.auth@,
            secrets: self.secrets@,
            token_endpoint: self.token_endpoint@,
            jwks_uri: self.jwks_uri@,
        }
    }
}

pub struct AwaitTokenView {
    pub auth: AuthView,
    pub nonce: Seq<char>,
    pub jwks_uri: LocatorView,
}

impl View for AwaitToken {
    type V = AwaitTokenView;

    closed spec fn view(&self) -> AwaitTokenView {
        AwaitTokenView { auth: self.auth@, nonce: self.nonce@, jwks_uri: self.jwks_uri@ }
    }
}

pub struct AwaitKeysView {
    pub auth: AuthView,
    pub nonce: Seq<char>,
    pub access_token: Seq<char>,
    pub id_token: Seq<char>,
}

impl View for AwaitKeys {
    type V = AwaitKeysView;

    closed spec fn view(&self) -> AwaitKeysView {
        AwaitKeysView {
            auth: self.auth@,
            nonce: self.nonce@,
            access_token: self.token.access_token@,
            id_token: self.token.id_token@,
        }
    }
}

/// The first thing wrong with the endpoints that an issuer publishes.
pub open spec fn endpoints_failure(
    authorization: Option<LocatorView>,
    token: Option<LocatorView>,
    jwks: Option<LocatorView>,
) -> Option<FailureView> {
    match (authorization, token, jwks) {
        (Some(authorization), Some(token), Some(jwks)) => if !locator::is_secure(
            authorization,
            false,
        ) || !locator::is_secure(token, false) || !locator::is_secure(jwks, false) {
            Some(failure::input_failure("plaintext_remote_forbidden"@))
        } else {
            None
        },
        _ => Some(failure::untrusted_failure("invalid_discovery"@).at(ErrorStage::Discovery)),
    }
}

/// The first thing wrong with an issuer's answer about its configuration.
pub open spec fn discovery_failure(
    auth: AuthView,
    status: u16,
    document: Option<Discovery>,
) -> Option<FailureView> {
    if status != 200 {
        Some(failure::transport_failure("upstream_rejected"@, false).at(ErrorStage::Discovery))
    } else {
        match document {
            None => Some(
                failure::untrusted_failure("malformed_json"@).at(ErrorStage::Discovery),
            ),
            Some(document) => if document.issuer@ != auth.issuer.text {
                Some(failure::auth_failure("issuer_mismatch"@).at(ErrorStage::Discovery))
            } else {
                endpoints_failure(
                    locator::locator_parsed(document.authorization_endpoint@),
                    locator::locator_parsed(document.token_endpoint@),
                    locator::locator_parsed(document.jwks_uri@),
                )
            },
        }
    }
}

/// What the browser asks the authorization endpoint for.
pub open spec fn authorization_pairs(auth: AuthView, secrets: SecretsView) -> Seq<
    (Seq<char>, Seq<char>),
> {
    seq![
        ("response_type"@, "code"@),
        ("client_id"@, auth.client_id),
        ("redirect_uri"@, auth.redirect_uri.text),
        ("scope"@, "openid"@),
        ("state"@, secrets.state),
        ("nonce"@, secrets.nonce),
        ("code_challenge"@, secrets.challenge),
        ("code_challenge_method"@, "S256"@),
    ]
}

/// What the token endpoint is asked for.
pub open spec fn token_pairs(auth: AuthView, code: Seq<char>, verifier: Seq<char>) -> Seq<
    (Seq<char>, Seq<char>),
> {
    seq![
        ("grant_type"@, "authorization_code"@),
        ("code"@, code),
        ("redirect_uri"@, auth.redirect_uri.text),
        ("client_id"@, auth.client_id),
        ("code_verifier"@, verifier),
    ]
}

/// Takes the answers for the three endpoints as they were read.
pub fn require_endpoints(
    authorization: &Option<Locator>,
    token: &Option<Locator>,
    jwks: &Option<Locator>,
) -> (r: Result<(), AppError>)
    ensures
        match endpoints_failure(
            locator::optional_locator(*authorization),
            locator::optional_locator(*token),
            locator::optional_locator(*jwks),
        ) {
            Some(failure) => r is Err && r->Err_0@ == failure,
            None => r is Ok,
        },
{
    match (authorization, token, jwks) {
        (Some(authorization), Some(token), Some(jwks)) => {
            match locator::secure_remote_url(authorization, false) {
                Ok(()) => {},
                Err(error) => {
                    return Err(error);
                },
            }
            match locator::secure_remote_url(token, false) {
                Ok(()) => {},
                Err(error) => {
                    return Err(error);
                },
            }
            locator::secure_remote_url(jwks, false)
        },
        _ => Err(AppError::untrusted("invalid_discovery").at(ErrorStage::Discovery)),
    }
}

/// The class of a token endpoint's answer.
pub open spec fn token_status_failure(status: u16) -> Option<FailureView> {
    if status == 200 {
        None
    } else if status == 400 || status == 401 || status == 403 {
        Some(
            failure::auth_failure("token_exchange_rejected"@).at(ErrorStage::TokenExchange),
        )
    } else if status == 429 || 500 <= status <= 599 {
        Some(
            failure::transport_failure("token_upstream_rejected"@, true).at(
                ErrorStage::TokenExchange,
            ),
        )
    } else {
        Some(
            failure::untrusted_failure("token_status_unknown"@).at(ErrorStage::TokenExchange),
        )
    }
}

pub fn classify_token_response(status: u16) -> (r: Result<(), AppError>)
    ensures
        match token_status_failure(status) {
            Some(failure) => r is Err && r->Err_0@ == failure,
            None => r is Ok,
        },
{
    if status == 200 {
        Ok(())
    } else if status == 400 || status == 401 || status == 403 {
        Err(AppError::auth("token_exchange_rejected").at(ErrorStage::TokenExchange))
    } else if status == 429 || (500 <= status && status <= 599) {
        Err(AppError::transport("token_upstream_rejected", true).at(ErrorStage::TokenExchange))
    } else {
        Err(AppError::untrusted("token_status_unknown").at(ErrorStage::TokenExchange))
    }
}

/// The first thing wrong with a token endpoint's answer.
pub open spec fn token_answer_failure(status: u16, wire: Option<TokenWire>) -> Option<FailureView> {
    match token_status_failure(status) {
        Some(failure) => Some(failure),
        None => {
            let malformed = failure::untrusted_failure("malformed_json"@).at(
                ErrorStage::TokenExchange,
            );
            match wire {
                None => Some(malformed),
                Some(wire) => if id_token::token_readable(wire.id_token@)
                    && id_token::tenant_claim(wire.id_token@) is Some {
                    None
                } else {
                    Some(malformed)
                },
            }
        },
    }
}

/// The first thing wrong with the end of a login: the keys, the clock, the token.
pub open spec fn login_failure(
    login: AwaitKeysView,
    status: u16,
    body: Seq<u8>,
    now: Option<u64>,
) -> Option<FailureView> {
    match id_token::key_set_failure(status, body) {
        Some(failure) => Some(failure),
        None => match now {
            None => Some(failure::auth_failure("clock_invalid"@)),
            Some(now) => id_token::token_failure(
                login.id_token,
                body,
                login.auth.client_id,
                login.auth.issuer.text,
                login.auth.tenant_id,
                login.nonce,
                now,
            ),
        },
    }
}

fn pair(key: &str, value: &str) -> (r: (String, String))
    ensures
        r.0@ == key@,
        r.1@ == value@,
{
    (key.to_owned(), value.to_owned())
}

/// How a login starts: with the first thing wrong with its arguments, or by
/// asking for the issuer's configuration.
pub open spec fn begun(
    auth: AuthView,
    secrets: SecretsView,
    r: Result<(AwaitDiscovery, Locator), AppError>,
) -> bool {
    match arguments_failure(auth) {
        Some(failure) => r is Err && r->Err_0@ == failure,
        None => r matches Ok((login, configuration)) && login@ == (AwaitDiscoveryView {
            auth,
            secrets,
        }) && Some(configuration@) == locator::discovery_of(auth.issuer),
    }
}

/// Starts a login whatever its arguments: overlong ones are no arguments of
/// this program.
pub fn checked_begin(auth: AuthArgs, secrets: LoginSecrets) -> (r: Result<
    (AwaitDiscovery, Locator),
    AppError,
>)
    ensures
        if auth@.short() && secrets@.short() {
            begun(auth@, secrets@, r)
        } else {
            r is Err && r->Err_0@ == failure::input_failure("invalid_cli"@)
        },
{
    if locator::is_discoverable(&auth.issuer) && locator::is_short(auth.client_id.as_str())
        && locator::is_short(auth.redirect_uri.text.as_str()) && locator::is_short(
        secrets.state.as_str(),
    ) && locator::is_short(secrets.nonce.as_str()) && locator::is_short(
        secrets.challenge.as_str(),
    ) {
        begin(auth, secrets)
    } else {
        Err(AppError::input("invalid_cli"))
    }
}

/// Starts a login: the issuer's configuration is asked for first.
pub fn begin(auth: AuthArgs, secrets: LoginSecrets) -> (r: Result<
    (AwaitDiscovery, Locator),
    AppError,
>)
    requires
        auth@.short(),
        secrets@.short(),
    ensures
        begun(auth@, secrets@, r),
{
    match locator::secure_remote_url(&auth.issuer, false) {
        Ok(()) => {},
        Err(error) => {
            return Err(error);
        },
    }
    match locator::secure_remote_url(&auth.redirect_uri, true) {
        Ok(()) => {},
        Err(error) => {
            return Err(error);
        },
    }
    let loopback = match &auth.redirect_uri.host {
        Some(host) => locator::loopback_host(host.as_str()),
        None => {
            return Err(AppError::input("invalid_redirect"));
        },
    };
    if !loopback {
        return Err(AppError::input("redirect_not_loopback"));
    }
    match locator::discovery_url(&auth.issuer) {
        Ok(configuration) => Ok((AwaitDiscovery { auth, secrets }, configuration)),
        Err(error) => Err(error),
    }
}

/// How a login goes on from the issuer's answer: with the first thing wrong
/// with it, or by sending the browser off.
pub open spec fn discovered(
    login: AwaitDiscoveryView,
    status: u16,
    document: Option<Discovery>,
    r: Result<(AwaitCode, String), AppError>,
) -> bool {
    match discovery_failure(login.auth, status, document) {
        Some(failure) => r is Err && r->Err_0@ == failure,
        None => r matches Ok((next, browse)) && next@.auth == login.auth && next@.secrets
            == login.secrets && Some(next@.token_endpoint) == locator::locator_parsed(
            document->0.token_endpoint@,
        ) && Some(next@.jwks_uri) == locator::locator_parsed(document->0.jwks_uri@) && Some(
            browse@,
        ) == locator::locator_with_pairs(
            document->0.authorization_endpoint@,
            authorization_pairs(login.auth, login.secrets),
        ),
    }
}

/// Whether a document names an authorization endpoint that no response is
/// long enough to hold.
pub open spec fn overlong(document: Option<Discovery>) -> bool {
    document matches Some(document) && !locator::short(document.authorization_endpoint@)
}

impl AwaitDiscovery {
    #[verifier::type_invariant]
    spec fn inv(self) -> bool {
        self.auth@.short() && self.secrets@.short()
    }

    /// Takes any answer of the issuer; one with an overlong endpoint is an
    /// oversize response.
    pub fn checked_answer(self, status: u16, document: Option<Discovery>) -> (r: Result<
        (AwaitCode, String),
        AppError,
    >)
        ensures
            if overlong(document) {
                r is Err && r->Err_0@ == control::oversize().at(ErrorStage::Discovery)
            } else {
                discovered(self@, status, document, r)
            },
    {
        let fits = match &document {
            Some(document) => locator::is_short(document.authorization_endpoint.as_str()),
            None => true,
        };
        if fits {
            self.answer(status, document)
        } else {
            Err(AppError::untrusted("response_oversize").at(ErrorStage::Discovery))
        }
    }

    /// Takes the issuer's answer; the browser is sent to the returned locator.
    pub fn answer(self, status: u16, document: Option<Discovery>) -> (r: Result<
        (AwaitCode, String),
        AppError,
    >)
        requires
            !overlong(document),
        ensures
            discovered(self@, status, document, r),
    {
        proof {
            use_type_invariant(&self);
        }
        if status != 200 {
            return Err(
                AppError::transport("upstream_rejected", false).at(ErrorStage::Discovery),
            );
        }
        let document = match document {
            Some(document) => document,
            None => {
                return Err(AppError::untrusted("malformed_json").at(ErrorStage::Discovery));
            },
        };
        if !text::same(document.issuer.as_str(), self.auth.issuer.text.as_str()) {
            return Err(AppError::auth("issuer_mismatch").at(ErrorStage::Discovery));
        }
        let authorization = Locator::read(document.authorization_endpoint.as_str());
        let token = Locator::read(document.token_endpoint.as_str());
        let jwks = Locator::read(document.jwks_uri.as_str());
        match require_endpoints(&authorization, &token, &jwks) {
            Ok(()) => {},
            Err(error) => {
                return Err(error);
            },
        }
        let mut pairs: Vec<(String, String)> = Vec::new();
        pairs.push(pair("response_type", "code"));
        pairs.push(pair("client_id", self.auth.client_id.as_str()));
        pairs.push(pair("redirect_uri", self.auth.redirect_uri.text.as_str()));
        pairs.push(pair("scope", "openid"));
        pairs.push(pair("state", self.secrets.state.as_str()));
        pairs.push(pair("nonce", self.secrets.nonce.as_str()));
        pairs.push(pair("code_challenge", self.secrets.challenge.as_str()));
        pairs.push(pair("code_challenge_method", "S256"));
        proof {
            reveal_strlit("response_type");
            reveal_strlit("client_id");
            reveal_strlit("redirect_uri");
            reveal_strlit("scope");
            reveal_strlit("state");
            reveal_strlit("nonce");
            reveal_strlit("code_challenge");
            reveal_strlit("code_challenge_method");
            reveal_strlit("code");
            reveal_strlit("openid");
            reveal_strlit("S256");
            assert(locator::pair_texts(pairs@) =~= authorization_pairs(
                self.auth@,
                self.secrets@,
            ));
        }
        match (
            locator::with_pairs(document.authorization_endpoint.as_str(), pairs.as_slice()),
            token,
            jwks,
        ) {
            (Some(browse), Some(token_endpoint), Some(jwks_uri)) => Ok(
                (
                    AwaitCode { auth: self.auth, secrets: self.secrets, token_endpoint, jwks_uri },
                    browse,
                ),
            ),
            _ => Err(AppError::untrusted("invalid_discovery").at(ErrorStage::Discovery)),
        }
    }
}

impl AwaitCode {
    /// Where the browser returns to, and the state it must bring back.
    #[must_use]
    pub fn redirect(&self) -> (r: (&Locator, &str))
        ensures
            r.0@ == self@.auth.redirect_uri,
            r.1@ == self@.secrets.state,
    {
        (&self.auth.redirect_uri, self.secrets.state.as_str())
    }

    /// Takes the code; the returned form is posted to the returned endpoint.
    #[must_use]
    pub fn answer(self, code: &str) -> (r: (AwaitToken, Locator, Vec<(String, String)>))
        ensures
            r.0@ == (AwaitTokenView {
                auth: self@.auth,
                nonce: self@.secrets.nonce,
                jwks_uri: self@.jwks_uri,
            }),
            r.1@ == self@.token_endpoint,
            locator::pair_texts(r.2@) == token_pairs(
                self@.auth,
                code@,
                self@.secrets.verifier,
            ),
    {
        let mut form: Vec<(String, String)> = Vec::new();
        form.push(pair("grant_type", "authorization_code"));
        form.push(pair("code", code));
        form.push(pair("redirect_uri", self.auth.redirect_uri.text.as_str()));
        form.push(pair("client_id", self.auth.client_id.as_str()));
        form.push(pair("code_verifier", self.secrets.verifier.as_str()));
        assert(locator::pair_texts(form@) =~= token_pairs(
            self.auth@,
            code@,
            self.secrets.verifier@,
        ));
        (
            AwaitToken { auth: self.auth, nonce: self.secrets.nonce, jwks_uri: self.jwks_uri },
            self.token_endpoint,
            form,
        )
    }
}

impl AwaitToken {
    /// Takes the token endpoint's answer; the key set is fetched from the
    /// returned locator.
    pub fn answer(self, status: u16, wire: Option<TokenWire>) -> (r: Result<
        (AwaitKeys, Locator),
        AppError,
    >)
        ensures
            match token_answer_failure(status, wire) {
                Some(failure) => r is Err && r->Err_0@ == failure,
                None => r matches Ok((login, keys)) && login@ == (AwaitKeysView {
                    auth: self@.auth,
                    nonce: self@.nonce,
                    access_token: wire->0.access_token@,
                    id_token: wire->0.id_token@,
                }) && keys@ == self@.jwks_uri,
            },
    {
        match classify_token_response(status) {
            Ok(()) => {},
            Err(error) => {
                return Err(error);
            },
        }
        let token = match wire {
            Some(token) => token,
            None => {
                return Err(AppError::untrusted("malformed_json").at(ErrorStage::TokenExchange));
            },
        };
        match id_token::accept_token(token.id_token.as_str()) {
            Ok(()) => Ok((AwaitKeys { auth: self.auth, nonce: self.nonce, token }, self.jwks_uri)),
            Err(error) => Err(error),
        }
    }
}

impl AwaitKeys {
    /// Takes the issuer's key set and the clock; the login ends here.
    pub fn answer(self, status: u16, body: &[u8], now: Option<u64>) -> (r: Result<
        TokenSet,
        AppError,
    >)
        ensures
            match login_failure(self@, status, body@, now) {
                Some(failure) => r is Err && r->Err_0@ == failure,
                None => r is Ok && r->Ok_0@ == self@.access_token,
            },
    {
        match id_token::accept_jwks(status, body) {
            Ok(()) => {},
            Err(error) => {
                return Err(error);
            },
        }
        let now: u64 = match now {
            Some(now) => now,
            None => {
                return Err(AppError::auth("clock_invalid"));
            },
        };
        match id_token::validate_id_token(
            self.token.id_token.as_str(),
            body,
            self.auth.client_id.as_str(),
            self.auth.issuer.text.as_str(),
            self.auth.tenant_id.as_str(),
            self.nonce.as_str(),
            now,
        ) {
            Ok(()) => Ok(TokenSet { access_token: self.token.access_token }),
            Err(error) => Err(error),
        }
    }
}

/// No login ends with a token unless the issuer's keys verified it for this
/// client, this tenant and the nonce this login sent.
pub proof fn law_a_login_ends_in_a_verified_token(
    login: AwaitKeysView,
    status: u16,
    body: Seq<u8>,
    now: Option<u64>,
)
    requires
        login_failure(login, status, body, now) is None,
    ensures
        status == 200,
        now is Some,
        id_token::all_verify(id_token::jwks_declarations(body)->0),
        ({
            let terms = id_token::TokenTerms {
                algorithm: id_token::SigningAlgorithm::Rs256,
                client_id: login.auth.client_id,
                issuer: login.auth.issuer.text,
                nonce: login.nonce,
                now: now->0 as i64,
            };
            id_token::claims_verified(login.id_token, body, terms) is Some
        }),
        id_token::tenant_claim(login.id_token) == Some(login.auth.tenant_id),
{
}

/// Every endpoint that a login talks to is reached over TLS, and the browser
/// only ever returns to this machine.
pub proof fn law_logins_stay_on_tls(auth: AuthView, status: u16, document: Discovery)
    requires
        arguments_failure(auth) is None,
        discovery_failure(auth, status, Some(document)) is None,
    ensures
        auth.issuer.scheme == "https"@,
        locator::on_loopback(auth.redirect_uri),
        locator::locator_parsed(document.authorization_endpoint@)->0.scheme == "https"@,
        locator::locator_parsed(document.token_endpoint@)->0.scheme == "https"@,
        locator::locator_parsed(document.jwks_uri@)->0.scheme == "https"@,
{
}

} // verus!
