//! Laws of the steps of a login and of the token that ends it.

use crate::control_laws::{fails, input_fails};
use crate::failure::{AppError, ErrorClass, ErrorStage};
use crate::id_token;
use crate::id_token::{
    KeyOperations, SigningAlgorithm, TokenTerms, VerifiedClaims, VerifiedClaimsView,
};
use crate::json;
use crate::json::JsonNodeView;
use crate::locator;
use crate::locator::{Locator, LocatorView};
use crate::login;
use crate::login::{
    AuthArgs, AwaitCode, AwaitDiscovery, AwaitKeys, AwaitToken, Discovery, LoginSecrets, TokenSet,
    TokenWire,
};
use crate::login_laws::{closed_once, configured_at, guarded, loops_back};
use crate::text;
use vstd::prelude::*;

verus! {

/// The arguments that a login can start with: an issuer over TLS, a return
/// to this machine, and a configuration that can be asked for.
pub open spec fn can_start(auth: AuthArgs, path: Seq<char>) -> bool {
    &&& auth.issuer.scheme@ == "https"@
    &&& auth.redirect_uri.scheme@ == "https"@ || auth.redirect_uri.scheme@ == "http"@
    &&& auth.redirect_uri.host is Some
    &&& loops_back(auth.redirect_uri.host->0@)
    &&& configured_at(auth.issuer@, path) is Some
}

/// A login starts exactly with arguments that it can start with, by asking
/// for the issuer's configuration; plain text is told first, then a return
/// to elsewhere.
pub proof fn law_logins_start_with_the_configuration(
    auth: AuthArgs,
    secrets: LoginSecrets,
    path: Seq<char>,
    r: Result<(AwaitDiscovery, Locator), AppError>,
)
    requires
        auth@.short(),
        secrets@.short(),
        call_ensures(login::begin, (auth, secrets), r),
        closed_once(auth.issuer.path@, path),
    ensures
        started(auth, secrets, path, r),
{
    lemma_started(auth, secrets, path, r);
}

/// What the start of a login comes to.
pub open spec fn started(
    auth: AuthArgs,
    secrets: LoginSecrets,
    path: Seq<char>,
    r: Result<(AwaitDiscovery, Locator), AppError>,
) -> bool {
    &&& r is Ok <==> can_start(auth, path)
    &&& r is Ok ==> {
        &&& r->Ok_0.0@.auth == auth@
        &&& r->Ok_0.0@.secrets == secrets@
        &&& Some(r->Ok_0.1@) == configured_at(auth.issuer@, path)
    }
    &&& auth.issuer.scheme@ != "https"@ ==> input_fails(
        r->Err_0,
        "plaintext_remote_forbidden"@,
    )
    &&& !guarded(auth.redirect_uri@, true) ==> input_fails(
        r->Err_0,
        "plaintext_remote_forbidden"@,
    )
    &&& auth.issuer.scheme@ == "https"@ && guarded(auth.redirect_uri@, true) && (
    auth.redirect_uri.host is Some && !loops_back(auth.redirect_uri.host->0@)) ==> input_fails(
        r->Err_0,
        "redirect_not_loopback"@,
    )
    &&& auth.issuer.scheme@ == "https"@ && guarded(auth.redirect_uri@, true)
        && auth.redirect_uri.host is None ==> input_fails(r->Err_0, "invalid_redirect"@)
}

proof fn lemma_started(
    auth: AuthArgs,
    secrets: LoginSecrets,
    path: Seq<char>,
    r: Result<(AwaitDiscovery, Locator), AppError>,
)
    requires
        login::begun(auth@, secrets@, r),
        closed_once(auth.issuer.path@, path),
    ensures
        started(auth, secrets, path, r),
{
    crate::login_laws::lemma_guarded(auth.issuer@, false);
    crate::login_laws::lemma_guarded(auth.redirect_uri@, true);
    if auth.redirect_uri.host is Some {
        crate::login_laws::lemma_loops_back(auth.redirect_uri.host->0@);
    }
    crate::login_laws::lemma_closed_once(auth.issuer.path@);
    crate::login_laws::lemma_one_closing(
        auth.issuer.path@,
        path,
        locator::issuer_path(auth.issuer.path@),
    );
}

/// Any arguments start a login like this, unless they are too long to be
/// arguments at all.
pub proof fn law_overlong_arguments_start_nothing(
    auth: AuthArgs,
    secrets: LoginSecrets,
    path: Seq<char>,
    r: Result<(AwaitDiscovery, Locator), AppError>,
)
    requires
        call_ensures(login::checked_begin, (auth, secrets), r),
        closed_once(auth.issuer.path@, path),
    ensures
        ({
            &&& auth.issuer.text@.len() <= 0x100_0000
            &&& auth.issuer.path@.len() < 0x100_0000
            &&& auth.client_id@.len() <= 0x100_0000
            &&& auth.redirect_uri.text@.len() <= 0x100_0000
            &&& secrets.state@.len() <= 0x100_0000
            &&& secrets.nonce@.len() <= 0x100_0000
            &&& secrets.challenge@.len() <= 0x100_0000
        }) ==> started(auth, secrets, path, r),
        auth.client_id@.len() > 0x100_0000 ==> r is Err && input_fails(r->Err_0, "invalid_cli"@),
{
    if auth@.short() && secrets@.short() {
        lemma_started(auth, secrets, path, r);
    }
}

/// The three endpoints of a configuration, each over TLS.
pub open spec fn published(
    document: Discovery,
    authorization: LocatorView,
    token: LocatorView,
    jwks: LocatorView,
) -> bool {
    &&& locator::locator_parsed(document.authorization_endpoint@) == Some(authorization)
    &&& locator::locator_parsed(document.token_endpoint@) == Some(token)
    &&& locator::locator_parsed(document.jwks_uri@) == Some(jwks)
    &&& authorization.scheme == "https"@
    &&& token.scheme == "https"@
    &&& jwks.scheme == "https"@
}

/// What the browser asks the issuer for: a code for this client, back to
/// this place, with the state, the nonce and the challenge of this login.
pub open spec fn asked_of_the_issuer(
    pairs: Seq<(Seq<char>, Seq<char>)>,
    auth: login::AuthView,
    secrets: login::SecretsView,
) -> bool {
    &&& pairs.len() == 8
    &&& pairs[0] == ("response_type"@, "code"@)
    &&& pairs[1] == ("client_id"@, auth.client_id)
    &&& pairs[2] == ("redirect_uri"@, auth.redirect_uri.text)
    &&& pairs[3] == ("scope"@, "openid"@)
    &&& pairs[4] == ("state"@, secrets.state)
    &&& pairs[5] == ("nonce"@, secrets.nonce)
    &&& pairs[6] == ("code_challenge"@, secrets.challenge)
    &&& pairs[7] == ("code_challenge_method"@, "S256"@)
}

/// A failure of the configuration.
pub open spec fn discovery_fails(error: AppError, code: Seq<char>, class: ErrorClass) -> bool {
    fails(error, code, class, ErrorStage::Discovery, false)
}

/// A configuration is taken exactly if it came with a success, names this
/// issuer and three TLS endpoints. The login keeps its arguments and secrets,
/// goes on to the published endpoints, and the browser asks for a code there.
pub proof fn law_configurations_are_taken_from_their_issuer(
    login: AwaitDiscovery,
    status: u16,
    document: Option<Discovery>,
    pairs: Seq<(Seq<char>, Seq<char>)>,
    r: Result<(AwaitCode, String), AppError>,
)
    requires
        document is Some ==> document->0.authorization_endpoint@.len() <= 0x100_0000,
        call_ensures(AwaitDiscovery::answer, (login, status, document), r),
        asked_of_the_issuer(pairs, login@.auth, login@.secrets),
    ensures
        configured(login, status, document, pairs, r),
{
    lemma_configured(login, status, document, pairs, r);
}

/// What the answer about a configuration comes to.
pub open spec fn configured(
    login: AwaitDiscovery,
    status: u16,
    document: Option<Discovery>,
    pairs: Seq<(Seq<char>, Seq<char>)>,
    r: Result<(AwaitCode, String), AppError>,
) -> bool {
    &&& r is Ok <==> {
        &&& status == 200
        &&& document is Some
        &&& document->0.issuer@ == login@.auth.issuer.text
        &&& exists|authorization: LocatorView, token: LocatorView, jwks: LocatorView| #[trigger]
            published(document->0, authorization, token, jwks)
    }
    &&& r is Ok ==> {
        &&& r->Ok_0.0@.auth == login@.auth
        &&& r->Ok_0.0@.secrets == login@.secrets
        &&& locator::locator_parsed(document->0.token_endpoint@) == Some(
            r->Ok_0.0@.token_endpoint,
        )
        &&& locator::locator_parsed(document->0.jwks_uri@) == Some(r->Ok_0.0@.jwks_uri)
        &&& locator::locator_with_pairs(document->0.authorization_endpoint@, pairs) == Some(
            r->Ok_0.1@,
        )
    }
    &&& status != 200 ==> discovery_fails(
        r->Err_0,
        "upstream_rejected"@,
        ErrorClass::Transport,
    )
    &&& status == 200 && document is None ==> discovery_fails(
        r->Err_0,
        "malformed_json"@,
        ErrorClass::Untrusted,
    )
    &&& status == 200 && document is Some && document->0.issuer@ != login@.auth.issuer.text
        ==> discovery_fails(r->Err_0, "issuer_mismatch"@, ErrorClass::Auth)
}

proof fn lemma_configured(
    login: AwaitDiscovery,
    status: u16,
    document: Option<Discovery>,
    pairs: Seq<(Seq<char>, Seq<char>)>,
    r: Result<(AwaitCode, String), AppError>,
)
    requires
        login::discovered(login@, status, document, r),
        asked_of_the_issuer(pairs, login@.auth, login@.secrets),
    ensures
        configured(login, status, document, pairs, r),
{
    assert(pairs =~= login::authorization_pairs(login@.auth, login@.secrets));
    if document is Some {
        let authorization = locator::locator_parsed(document->0.authorization_endpoint@);
        let token = locator::locator_parsed(document->0.token_endpoint@);
        let jwks = locator::locator_parsed(document->0.jwks_uri@);
        if authorization is Some && token is Some && jwks is Some {
            crate::login_laws::lemma_guarded(authorization->0, false);
            crate::login_laws::lemma_guarded(token->0, false);
            crate::login_laws::lemma_guarded(jwks->0, false);
            if r is Ok {
                assert(published(document->0, authorization->0, token->0, jwks->0));
            }
        }
    }
}

/// Any answer about a configuration is taken like this, unless it names an
/// endpoint that no response can hold.
pub proof fn law_overlong_configurations_are_refused(
    login: AwaitDiscovery,
    status: u16,
    document: Option<Discovery>,
    pairs: Seq<(Seq<char>, Seq<char>)>,
    r: Result<(AwaitCode, String), AppError>,
)
    requires
        call_ensures(AwaitDiscovery::checked_answer, (login, status, document), r),
        asked_of_the_issuer(pairs, login@.auth, login@.secrets),
    ensures
        document is Some && document->0.authorization_endpoint@.len() > 0x100_0000 ==> r is Err
            && discovery_fails(r->Err_0, "response_oversize"@, ErrorClass::Untrusted),
        document is None || document->0.authorization_endpoint@.len() <= 0x100_0000 ==> configured(
            login,
            status,
            document,
            pairs,
            r,
        ),
{
    if !login::overlong(document) {
        lemma_configured(login, status, document, pairs, r);
    }
}

/// Endpoints are taken exactly if all three were read and are over TLS.
pub proof fn law_endpoints_are_taken_over_tls(
    authorization: &Option<Locator>,
    token: &Option<Locator>,
    jwks: &Option<Locator>,
    r: Result<(), AppError>,
)
    requires
        call_ensures(login::require_endpoints, (authorization, token, jwks), r),
    ensures
        r is Ok <==> {
            &&& *authorization is Some
            &&& *token is Some
            &&& *jwks is Some
            &&& (*authorization)->0.scheme@ == "https"@
            &&& (*token)->0.scheme@ == "https"@
            &&& (*jwks)->0.scheme@ == "https"@
        },
        *authorization is None || *token is None || *jwks is None ==> discovery_fails(
            r->Err_0,
            "invalid_discovery"@,
            ErrorClass::Untrusted,
        ),
        r is Err && *authorization is Some && *token is Some && *jwks is Some ==> input_fails(
            r->Err_0,
            "plaintext_remote_forbidden"@,
        ),
{
}

/// The browser is expected back where it was sent from, with the state of
/// this login.
pub proof fn law_the_browser_is_expected_back(login: &AwaitCode, r: (&Locator, &str))
    requires
        call_ensures(AwaitCode::redirect, (login,), r),
    ensures
        r.0@ == login@.auth.redirect_uri,
        r.1@ == login@.secrets.state,
{
}

/// A code is exchanged at the token endpoint, with the redirect, client and
/// verifier it was asked for with; the login keeps its nonce and key set.
pub proof fn law_codes_are_exchanged_with_the_verifier(
    login: AwaitCode,
    code: &str,
    r: (AwaitToken, Locator, Vec<(String, String)>),
)
    requires
        call_ensures(AwaitCode::answer, (login, code), r),
    ensures
        r.1@ == login@.token_endpoint,
        r.0@.auth == login@.auth,
        r.0@.nonce == login@.secrets.nonce,
        r.0@.jwks_uri == login@.jwks_uri,
        r.2@.len() == 5,
        r.2@[0].0@ == "grant_type"@ && r.2@[0].1@ == "authorization_code"@,
        r.2@[1].0@ == "code"@ && r.2@[1].1@ == code@,
        r.2@[2].0@ == "redirect_uri"@ && r.2@[2].1@ == login@.auth.redirect_uri.text,
        r.2@[3].0@ == "client_id"@ && r.2@[3].1@ == login@.auth.client_id,
        r.2@[4].0@ == "code_verifier"@ && r.2@[4].1@ == login@.secrets.verifier,
{
    let form = locator::pair_texts(r.2@);
    assert(form.len() == 5);
    assert forall|i: int| 0 <= i < 5 implies #[trigger] form[i] == (r.2@[i].0@, r.2@[i].1@) by {}
    assert(form[0] == ("grant_type"@, "authorization_code"@));
    assert(form[1] == ("code"@, code@));
    assert(form[2] == ("redirect_uri"@, login@.auth.redirect_uri.text));
    assert(form[3] == ("client_id"@, login@.auth.client_id));
    assert(form[4] == ("code_verifier"@, login@.secrets.verifier));
}

/// A failure of the token exchange.
pub open spec fn exchange_fails(
    error: AppError,
    code: Seq<char>,
    class: ErrorClass,
    retryable: bool,
) -> bool {
    fails(error, code, class, ErrorStage::TokenExchange, retryable)
}

/// What the status of a token answer comes to.
pub open spec fn classified(status: u16, r: Result<(), AppError>) -> bool {
    &&& r is Ok <==> status == 200
    &&& status == 400 || status == 401 || status == 403 ==> exchange_fails(
        r->Err_0,
        "token_exchange_rejected"@,
        ErrorClass::Auth,
        false,
    )
    &&& status == 429 || 500 <= status < 600 ==> exchange_fails(
        r->Err_0,
        "token_upstream_rejected"@,
        ErrorClass::Transport,
        true,
    )
    &&& status != 200 && status != 400 && status != 401 && status != 403 && status != 429 && !(500
        <= status < 600) ==> exchange_fails(
        r->Err_0,
        "token_status_unknown"@,
        ErrorClass::Untrusted,
        false,
    )
}

/// Only a success carries tokens; a refusal is one of authentication, a busy
/// or failing endpoint is worth another try, any other status is untrusted.
pub proof fn law_token_answers_are_told_apart(status: u16, r: Result<(), AppError>)
    requires
        call_ensures(login::classify_token_response, (status,), r),
    ensures
        classified(status, r),
{
}

/// Tokens are taken exactly from a success with an identity token that reads
/// as one and names a tenant; the login keeps what it asked with, and the
/// tokens as they came.
pub proof fn law_token_answers_name_a_tenant(
    login: AwaitToken,
    status: u16,
    wire: Option<TokenWire>,
    r: Result<(AwaitKeys, Locator), AppError>,
)
    requires
        call_ensures(AwaitToken::answer, (login, status, wire), r),
    ensures
        r is Ok <==> {
            &&& status == 200
            &&& wire is Some
            &&& id_token::token_readable(wire->0.id_token@)
            &&& exists|tenant: Seq<char>| #[trigger] names_tenant(wire->0.id_token@, tenant)
        },
        r is Ok ==> {
            &&& r->Ok_0.0@.auth == login@.auth
            &&& r->Ok_0.0@.nonce == login@.nonce
            &&& r->Ok_0.0@.access_token == wire->0.access_token@
            &&& r->Ok_0.0@.id_token == wire->0.id_token@
            &&& r->Ok_0.1@ == login@.jwks_uri
        },
        status != 200 ==> classified(status, Err::<(), AppError>(r->Err_0)),
        status == 200 && r is Err ==> exchange_fails(
            r->Err_0,
            "malformed_json"@,
            ErrorClass::Untrusted,
            false,
        ),
{
    if wire is Some {
        lemma_tenant(wire->0.id_token@);
    }
}

/// The member stands here, is this text, and stands nowhere else.
pub open spec fn sole_member(
    members: Seq<(Seq<char>, Map<Seq<char>, JsonNodeView>)>,
    name: Seq<char>,
    value: Seq<char>,
    i: int,
) -> bool {
    &&& 0 <= i < members.len()
    &&& members[i].0 == name
    &&& members[i].1.contains_key(""@)
    &&& members[i].1[""@] == JsonNodeView::Text(value)
    &&& forall|j: int| 0 <= j < members.len() && j != i ==> (#[trigger] members[j]).0 != name
}

/// The token has three segments, and the object in the second has `tenantId`
/// exactly once, as this text.
pub open spec fn names_tenant(token: Seq<char>, tenant: Seq<char>) -> bool {
    let segments = text::pieces(token, '.');
    &&& segments.len() == 3
    &&& id_token::segment_decoded(segments[1]) is Some
    &&& json::json_members(id_token::segment_decoded(segments[1])->0) is Some
    &&& exists|i: int| #[trigger]
        sole_member(
            json::json_members(id_token::segment_decoded(segments[1])->0)->0,
            "tenantId"@,
            tenant,
            i,
        )
}

proof fn lemma_none_named(
    members: Seq<(Seq<char>, Map<Seq<char>, JsonNodeView>)>,
    name: Seq<char>,
)
    ensures
        json::named(members, name).len() == 0 <==> forall|i: int|
            0 <= i < members.len() ==> (#[trigger] members[i]).0 != name,
    decreases members.len(),
{
    reveal(Seq::filter);
    if members.len() > 0 {
        let before = members.drop_last();
        lemma_none_named(before, name);
        assert(forall|i: int| 0 <= i < before.len() ==> #[trigger] before[i] == members[i]);
        if json::named(members, name).len() == 0 {
            assert forall|i: int| 0 <= i < members.len() implies (#[trigger] members[i]).0
                != name by {
                if i < before.len() {
                    assert(before[i].0 != name);
                }
            }
        } else {
            if forall|i: int| 0 <= i < members.len() ==> (#[trigger] members[i]).0 != name {
                assert forall|i: int| 0 <= i < before.len() implies (#[trigger] before[i]).0
                    != name by {
                    assert(members[i].0 != name);
                }
                assert(members[members.len() - 1].0 != name);
            }
        }
    }
}

proof fn lemma_one_named(
    members: Seq<(Seq<char>, Map<Seq<char>, JsonNodeView>)>,
    name: Seq<char>,
) -> (at: int)
    ensures
        json::named(members, name).len() == 1 ==> 0 <= at < members.len() && members[at].0 == name
            && json::named(members, name)[0] == members[at] && forall|j: int|
            0 <= j < members.len() && j != at ==> (#[trigger] members[j]).0 != name,
        forall|i: int|
            0 <= i < members.len() && (#[trigger] members[i]).0 == name && (forall|j: int|
                0 <= j < members.len() && j != i ==> (#[trigger] members[j]).0 != name)
                ==> json::named(members, name) == seq![members[i]],
    decreases members.len(),
{
    reveal(Seq::filter);
    if members.len() == 0 {
        0
    } else {
        let before = members.drop_last();
        let last = members.len() - 1;
        let earlier = lemma_one_named(before, name);
        lemma_none_named(before, name);
        assert(forall|i: int| 0 <= i < before.len() ==> #[trigger] before[i] == members[i]);
        let at = if members[last].0 == name {
            last
        } else {
            earlier
        };
        if json::named(members, name).len() == 1 {
            assert forall|j: int| 0 <= j < members.len() && j != at implies (
            #[trigger] members[j]).0 != name by {
                if j < before.len() {
                    assert(before[j] == members[j]);
                }
            }
        }
        assert forall|i: int|
            0 <= i < members.len() && (#[trigger] members[i]).0 == name && (forall|j: int|
                0 <= j < members.len() && j != i ==> (#[trigger] members[j]).0
                    != name) implies json::named(members, name) == seq![members[i]] by {
            if i == last {
                assert forall|j: int| 0 <= j < before.len() implies (#[trigger] before[j]).0
                    != name by {
                    assert(members[j].0 != name);
                }
                assert(json::named(before, name).len() == 0);
                assert(json::named(members, name) =~= seq![members[i]]);
            } else {
                assert(members[last].0 != name);
                assert forall|j: int| 0 <= j < before.len() && j != i implies (
                #[trigger] before[j]).0 != name by {
                    assert(members[j].0 != name);
                }
                assert(before[i].0 == name);
            }
        }
        at
    }
}

proof fn lemma_tenant(token: Seq<char>)
    ensures
        forall|tenant: Seq<char>|
            #[trigger] names_tenant(token, tenant) <==> id_token::tenant_claim(token) == Some(
                tenant,
            ),
        id_token::tenant_claim(token) is Some <==> exists|tenant: Seq<char>| #[trigger]
            names_tenant(token, tenant),
{
    let segments = text::pieces(token, '.');
    if segments.len() == 3 && id_token::segment_decoded(segments[1]) is Some
        && json::json_members(id_token::segment_decoded(segments[1])->0) is Some {
        let members = json::json_members(id_token::segment_decoded(segments[1])->0)->0;
        let at = lemma_one_named(members, "tenantId"@);
        assert forall|tenant: Seq<char>|
            #[trigger] names_tenant(token, tenant) implies id_token::tenant_claim(token) == Some(
            tenant,
        ) by {
            let i = choose|i: int| #[trigger] sole_member(members, "tenantId"@, tenant, i);
            assert(members[i].0 == "tenantId"@);
            assert(json::named(members, "tenantId"@) == seq![members[i]]);
            assert(seq![members[i]][0] == members[i]);
        }
        assert forall|tenant: Seq<char>|
            id_token::tenant_claim(token) == Some(tenant) implies #[trigger] names_tenant(
            token,
            tenant,
        ) by {
            assert(sole_member(members, "tenantId"@, tenant, at));
        }
    }
    if id_token::tenant_claim(token) is Some {
        assert(names_tenant(token, id_token::tenant_claim(token)->0));
    }
}

/// An identity token is taken exactly if it reads as one and names a tenant
/// in one place.
pub proof fn law_tokens_name_one_tenant(token: &str, r: Result<(), AppError>)
    requires
        call_ensures(id_token::accept_token, (token,), r),
    ensures
        r is Ok <==> id_token::token_readable(token@) && exists|tenant: Seq<char>| #[trigger]
            names_tenant(token@, tenant),
        r is Err ==> exchange_fails(
            r->Err_0,
            "malformed_json"@,
            ErrorClass::Untrusted,
            false,
        ),
{
    lemma_tenant(token@);
}

/// A key may verify tokens: it declares no operations, or verification alone.
pub open spec fn may_verify(key: KeyOperations) -> bool {
    ||| key is Absent
    ||| {
        &&& key matches KeyOperations::List(count, first)
        &&& count == 1
        &&& first is Some
        &&& first->0@ == "verify"@
    }
}

/// A list of keys is taken exactly if every key may verify.
pub proof fn law_keys_are_for_verification(
    keys: &Option<Vec<KeyOperations>>,
    r: Result<(), AppError>,
)
    requires
        call_ensures(id_token::judge_key_operations, (keys,), r),
    ensures
        r is Ok <==> *keys is Some && forall|i: int|
            0 <= i < (*keys)->0@.len() ==> may_verify(#[trigger] (*keys)->0@[i]),
        *keys is None ==> fails(
            r->Err_0,
            "malformed_json"@,
            ErrorClass::Untrusted,
            ErrorStage::Jwks,
            false,
        ),
        *keys is Some && r is Err ==> fails(
            r->Err_0,
            "id_token_key_usage"@,
            ErrorClass::Auth,
            ErrorStage::Jwks,
            false,
        ),
{
    if *keys is Some {
        let list = (*keys)->0@;
        let views = id_token::operations_view(list);
        assert(views.len() == list.len());
        assert forall|i: int| 0 <= i < list.len() implies (may_verify(#[trigger] list[i])
            <==> views[i].verifies()) by {
            assert(views[i] == list[i]@);
        }
        if id_token::all_verify(views) {
            assert forall|i: int| 0 <= i < list.len() implies may_verify(#[trigger] list[i]) by {
                assert(views[i].verifies());
            }
        } else {
            let i = choose|i: int| 0 <= i < views.len() && !(#[trigger] views[i]).verifies();
            assert(!may_verify(list[i]));
        }
    }
}

/// Where a key set declares what its key at an index is for.
pub open spec fn declared_at(index: nat) -> Seq<char> {
    "/keys/"@ + text::decimal(index) + "/key_ops"@
}

/// The key at an index may verify tokens: nothing is declared of it, or
/// verification alone.
pub open spec fn key_may_verify(nodes: Map<Seq<char>, JsonNodeView>, index: nat) -> bool {
    let pointer = declared_at(index);
    ||| !nodes.contains_key(pointer)
    ||| {
        &&& nodes[pointer] == JsonNodeView::List(1)
        &&& nodes.contains_key(pointer + "/0"@)
        &&& nodes[pointer + "/0"@] == JsonNodeView::Text("verify"@)
    }
}

/// The document is a key set of which every key may verify tokens.
pub open spec fn keys_may_verify(body: Seq<u8>) -> bool {
    &&& json::json_parsed(body) is Some
    &&& ({
        let nodes = json::json_parsed(body)->0;
        &&& nodes.contains_key("/keys"@)
        &&& nodes["/keys"@] is List
        &&& forall|i: nat|
            i < nodes["/keys"@]->List_0 ==> #[trigger] key_may_verify(nodes, i)
    })
}

proof fn lemma_keys_may_verify(body: Seq<u8>)
    ensures
        keys_may_verify(body) <==> id_token::operations_failure(id_token::jwks_declarations(body))
            is None,
{
    if json::json_parsed(body) is Some {
        let nodes = json::json_parsed(body)->0;
        if nodes.contains_key("/keys"@) && nodes["/keys"@] is List {
            let count = nodes["/keys"@]->List_0;
            let keys = id_token::declarations(nodes)->0;
            assert(keys.len() == count);
            assert forall|i: nat| i < count implies (#[trigger] key_may_verify(nodes, i)
                <==> keys[i as int].verifies()) by {
                assert(keys[i as int] == id_token::declared(nodes, i));
            }
            if id_token::all_verify(keys) {
                assert forall|i: nat| i < count implies #[trigger] key_may_verify(nodes, i) by {
                    assert(keys[i as int].verifies());
                }
            } else {
                let i = choose|i: int| 0 <= i < keys.len() && !(#[trigger] keys[i]).verifies();
                assert(!key_may_verify(nodes, i as nat));
            }
        }
    }
}

/// A fetched key set is taken exactly if it came with a success, every key
/// may verify, and it reads as a key set.
pub proof fn law_key_sets_are_for_verification(
    status: u16,
    body: &[u8],
    checked: Result<(), AppError>,
    r: Result<(), AppError>,
)
    requires
        call_ensures(id_token::validate_jwks_key_operations, (body,), checked),
        call_ensures(id_token::accept_jwks, (status, body), r),
    ensures
        checked is Ok <==> keys_may_verify(body@),
        r is Ok <==> status == 200 && keys_may_verify(body@) && id_token::key_set_readable(body@),
        status != 200 ==> fails(
            r->Err_0,
            "upstream_rejected"@,
            ErrorClass::Transport,
            ErrorStage::Jwks,
            false,
        ),
        r is Err ==> r->Err_0@.stage is Jwks && !r->Err_0@.retryable,
{
    lemma_keys_may_verify(body@);
}

/// A token may be used from the second of its issue time on, and not before.
pub proof fn law_tokens_are_not_used_before_their_issue(
    seconds: i64,
    nanoseconds: u32,
    now: i64,
    r: Result<(), String>,
)
    requires
        call_ensures(id_token::check_issue_time, (seconds, nanoseconds, now), r),
    ensures
        seconds > now ==> r is Err,
        seconds < now ==> r is Ok,
        seconds == now ==> (r is Ok <==> nanoseconds == 0),
        r is Err ==> r->Err_0@ == "ID token issue time is in the future"@,
{
}

/// Claims are for this client and tenant: the party, where one is named, is
/// the client; several audiences name one; the tenant is the expected one.
pub open spec fn meant_for(
    claims: VerifiedClaimsView,
    tenant: Seq<char>,
    client_id: Seq<char>,
    tenant_id: Seq<char>,
) -> bool {
    &&& claims.authorized_party is Some ==> claims.authorized_party->0 == client_id
    &&& claims.audiences > 1 ==> claims.authorized_party is Some
    &&& tenant == tenant_id
}

/// Verified claims are taken exactly if they are for this client and tenant;
/// the party is looked at first.
pub proof fn law_claims_serve_the_client_and_tenant(
    claims: &VerifiedClaims,
    tenant: &str,
    client_id: &str,
    tenant_id: &str,
    r: Result<(), AppError>,
)
    requires
        call_ensures(id_token::judge_claims, (claims, tenant, client_id, tenant_id), r),
    ensures
        r is Ok <==> meant_for(claims@, tenant@, client_id@, tenant_id@),
        !meant_for(claims@, tenant_id@, client_id@, tenant_id@) ==> fails(
            r->Err_0,
            "authorized_party_mismatch"@,
            ErrorClass::Auth,
            ErrorStage::IdToken,
            false,
        ),
        r is Err && meant_for(claims@, tenant_id@, client_id@, tenant_id@) ==> fails(
            r->Err_0,
            "tenant_mismatch"@,
            ErrorClass::Auth,
            ErrorStage::IdToken,
            false,
        ),
{
}

/// A token holds up: the clock is one the calendar reaches, the issuer is a
/// locator, the outside verification under RS256, this client, issuer, nonce
/// and second returns claims, and those are for this client and tenant.
pub open spec fn holds_up(
    token: Seq<char>,
    jwks: Seq<u8>,
    client_id: Seq<char>,
    issuer: Seq<char>,
    tenant_id: Seq<char>,
    nonce: Seq<char>,
    now: u64,
) -> bool {
    &&& now <= 8_210_266_876_799
    &&& locator::locator_parsed(issuer) is Some
    &&& names_tenant(token, tenant_id)
    &&& ({
        let terms = TokenTerms {
            algorithm: SigningAlgorithm::Rs256,
            client_id,
            issuer,
            nonce,
            now: now as i64,
        };
        &&& id_token::claims_verified(token, jwks, terms) is Some
        &&& meant_for(
            id_token::claims_verified(token, jwks, terms)->0,
            tenant_id,
            client_id,
            tenant_id,
        )
    })
}

/// An identity token is taken exactly if it holds up.
pub proof fn law_only_tokens_that_hold_up_are_taken(
    token: &str,
    jwks: &[u8],
    client_id: &str,
    issuer: &str,
    tenant_id: &str,
    nonce: &str,
    now: u64,
    r: Result<(), AppError>,
)
    requires
        call_ensures(
            id_token::validate_id_token,
            (token, jwks, client_id, issuer, tenant_id, nonce, now),
            r,
        ),
    ensures
        r is Ok <==> holds_up(token@, jwks@, client_id@, issuer@, tenant_id@, nonce@, now),
        r is Err ==> r->Err_0@.class is Auth && r->Err_0@.stage is IdToken && !r->Err_0@.retryable,
        now > 8_210_266_876_799 ==> fails(
            r->Err_0,
            "clock_invalid"@,
            ErrorClass::Auth,
            ErrorStage::IdToken,
            false,
        ),
        now <= 8_210_266_876_799 && locator::locator_parsed(issuer@) is None ==> fails(
            r->Err_0,
            "issuer_invalid"@,
            ErrorClass::Auth,
            ErrorStage::IdToken,
            false,
        ),
{
    lemma_tenant(token@);
}

/// A login ends with the access token it was given exactly if the keys were
/// taken, the clock was read, and the identity token holds up for the client,
/// issuer, tenant and nonce of this login.
pub proof fn law_logins_end_with_a_token_that_holds_up(
    login: AwaitKeys,
    status: u16,
    body: &[u8],
    now: Option<u64>,
    r: Result<TokenSet, AppError>,
)
    requires
        call_ensures(AwaitKeys::answer, (login, status, body, now), r),
    ensures
        r is Ok <==> {
            &&& status == 200
            &&& keys_may_verify(body@)
            &&& id_token::key_set_readable(body@)
            &&& now is Some
            &&& holds_up(
                login@.id_token,
                body@,
                login@.auth.client_id,
                login@.auth.issuer.text,
                login@.auth.tenant_id,
                login@.nonce,
                now->0,
            )
        },
        r is Ok ==> r->Ok_0@ == login@.access_token,
        r is Err && status == 200 && keys_may_verify(body@) && id_token::key_set_readable(body@)
            && now is None ==> fails(
            r->Err_0,
            "clock_invalid"@,
            ErrorClass::Auth,
            ErrorStage::IdToken,
            false,
        ),
{
    lemma_keys_may_verify(body@);
    lemma_tenant(login@.id_token);
}

/// The tokens of a login are the token it was given.
pub proof fn law_token_sets_keep_their_token(access_token: String, r: TokenSet)
    requires
        call_ensures(TokenSet::new, (access_token,), r),
    ensures
        r@ == access_token@,
{
}

} // verus!
