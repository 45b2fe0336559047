//! Laws of the control application: what a failure tells, which inputs an
//! operation takes, and what it reports.

use crate::client::{
    Diagnostic, DiagnosticKind, PolicyCondition, PolicyResponse, PolicyResponseView,
    PreparedRequest, StatusResponse, StatusResponseView,
};
use crate::control;
use crate::control::{
    ApiRequest, AuditOutput, BodyBuffer, CliStop, PolicyCheck, PolicyInput, RotateOutput,
    RotateRecord, StatusOutput,
};
use crate::failure;
use crate::failure::{AppError, ErrorClass, ErrorStage, RenderedError};
use crate::identity;
use crate::identity::Uuid;
use crate::locator;
use crate::locator::Locator;
use crate::login::TokenSet;
use crate::model::{KeyUsage, PolicyView, RotationPolicy};
use crate::reference::RotationModelError;
use vstd::prelude::*;
use vstd::utf8::*;

verus! {

/// A failure of this code, class and stage that no request is named for.
pub open spec fn fails(
    error: AppError,
    code: Seq<char>,
    class: ErrorClass,
    stage: ErrorStage,
    retryable: bool,
) -> bool {
    &&& error@.code == code
    &&& error@.class == class
    &&& error@.stage == stage
    &&& error@.retryable == retryable
    &&& error@.request_id is None
}

/// A failure of the input, of this code.
pub open spec fn input_fails(error: AppError, code: Seq<char>) -> bool {
    fails(error, code, ErrorClass::Input, ErrorStage::Input, false)
}

/// A failure says what it was made for, starts at the stage of its kind, and
/// is only worth another try if it was made so.
pub proof fn law_failures_say_what_they_were_made_for(
    code: &'static str,
    retryable: bool,
    input: AppError,
    auth: AppError,
    transport: AppError,
    untrusted: AppError,
)
    requires
        call_ensures(AppError::input, (code,), input),
        call_ensures(AppError::auth, (code,), auth),
        call_ensures(AppError::transport, (code, retryable), transport),
        call_ensures(AppError::untrusted, (code,), untrusted),
    ensures
        fails(input, code@, ErrorClass::Input, ErrorStage::Input, false),
        fails(auth, code@, ErrorClass::Auth, ErrorStage::IdToken, false),
        fails(transport, code@, ErrorClass::Transport, ErrorStage::Transport, retryable),
        fails(untrusted, code@, ErrorClass::Untrusted, ErrorStage::Transport, false),
{
}

/// Moving a failure to a stage changes its stage and nothing else, and its
/// own code and stage are what it answers with.
pub proof fn law_moved_failures_keep_the_rest(
    error: AppError,
    stage: ErrorStage,
    moved: AppError,
    code: &'static str,
    reached: ErrorStage,
)
    requires
        call_ensures(AppError::at, (error, stage), moved),
        call_ensures(AppError::code, (&moved,), code),
        call_ensures(AppError::stage, (&moved,), reached),
    ensures
        moved@.stage == stage,
        moved@.code == error@.code,
        moved@.class == error@.class,
        moved@.request_id == error@.request_id,
        moved@.retryable == error@.retryable,
        code@ == error@.code,
        reached == stage,
{
}

/// The exit status tells the class: 2 for the input, 3 for authentication, 4
/// for a refused request, 5 for the transport and 6 for an untrusted answer.
pub proof fn law_exit_statuses_tell_the_class(error: &AppError, r: i32)
    requires
        call_ensures(AppError::exit_code, (error,), r),
    ensures
        2 <= r <= 6,
        r == 2 <==> error@.class is Input,
        r == 3 <==> error@.class is Auth,
        r == 4 <==> error@.class is Typed,
        r == 5 <==> error@.class is Transport,
        r == 6 <==> error@.class is Untrusted,
{
}

/// The diagnostic document names the class and the stage by their words and
/// repeats the rest.
pub proof fn law_failures_are_rendered_as_they_are(error: &AppError, r: RenderedError)
    requires
        call_ensures(AppError::render, (error,), r),
    ensures
        error@.class is Input ==> r.category@ == "input"@,
        error@.class is Auth ==> r.category@ == "auth"@,
        error@.class is Typed ==> r.category@ == "typed"@,
        error@.class is Transport ==> r.category@ == "transport"@,
        error@.class is Untrusted ==> r.category@ == "untrusted"@,
        error@.stage is Input ==> r.stage@ == "input"@,
        error@.stage is Runtime ==> r.stage@ == "runtime"@,
        error@.stage is Discovery ==> r.stage@ == "discovery"@,
        error@.stage is Callback ==> r.stage@ == "callback"@,
        error@.stage is TokenExchange ==> r.stage@ == "token_exchange"@,
        error@.stage is Jwks ==> r.stage@ == "jwks"@,
        error@.stage is IdToken ==> r.stage@ == "id_token"@,
        error@.stage is Api ==> r.stage@ == "api"@,
        error@.stage is Transport ==> r.stage@ == "transport"@,
        r.code@ == error@.code,
        r.retryable == error@.retryable,
        r.request_id is Some <==> error@.request_id is Some,
        r.request_id is Some ==> error@.request_id == Some(r.request_id->0@),
{
}

/// A diagnostic of the service becomes a failure of the service's stage that
/// keeps the request and whether another try may help. Only a diagnostic of
/// the caller's standing is one of authentication, only a refused request is
/// typed, only a busy or failing service is one of the transport.
pub proof fn law_diagnostics_become_failures_of_their_class(value: &Diagnostic, r: AppError)
    requires
        call_ensures(AppError::from_diagnostic, (value,), r),
    ensures
        r@.stage is Api,
        r@.request_id == value@.request_id,
        r@.retryable == value@.retryable,
        r@.class is Auth <==> value@.kind is Unauthorized || value@.kind is Forbidden,
        r@.class is Typed <==> value@.kind is Validation || value@.kind is NotFound
            || value@.kind is Conflict,
        r@.class is Transport <==> value@.kind is RateLimited || value@.kind is Upstream,
        r@.class is Untrusted <==> value@.kind is Malformed || value@.kind is UnknownStatus,
        named_code(value@.kind, r@.code),
{
}

/// The code that a kind of diagnostic goes by.
pub open spec fn named_code(kind: DiagnosticKind, code: Seq<char>) -> bool {
    &&& kind is Validation ==> code == "validation_failed"@
    &&& kind is NotFound ==> code == "not_found"@
    &&& kind is Conflict ==> code == "conflict"@
    &&& kind is Unauthorized ==> code == "unauthorized"@
    &&& kind is Forbidden ==> code == "forbidden"@
    &&& kind is RateLimited ==> code == "rate_limited"@
    &&& kind is Upstream ==> code == "upstream_failure"@
    &&& kind is Malformed ==> code == "malformed_response"@
    &&& kind is UnknownStatus ==> code == "unknown_status"@
}

/// The code of a kind is the one its failures carry.
pub proof fn law_kinds_go_by_their_codes(kind: DiagnosticKind, r: &'static str)
    requires
        call_ensures(DiagnosticKind::code, (kind,), r),
    ensures
        named_code(kind, r@),
{
}

/// A step within the login deadline hands its value on; one that did not end
/// timed out, and one that failed did so, at this stage.
pub proof fn law_steps_end_at_their_stage<T>(
    outcome: Option<Result<T, AppError>>,
    stage: ErrorStage,
    r: Result<T, AppError>,
)
    requires
        call_ensures(failure::within_stage::<T>, (outcome, stage), r),
    ensures
        r is Ok <==> outcome is Some && outcome->0 is Ok,
        r is Ok ==> r->Ok_0 == outcome->0->Ok_0,
        outcome is None ==> fails(r->Err_0, "login_timeout"@, ErrorClass::Auth, stage, false),
        outcome is Some && outcome->0 is Err ==> {
            &&& r->Err_0@.stage == stage
            &&& r->Err_0@.code == outcome->0->Err_0@.code
            &&& r->Err_0@.class == outcome->0->Err_0@.class
            &&& r->Err_0@.retryable == outcome->0->Err_0@.retryable
            &&& r->Err_0@.request_id == outcome->0->Err_0@.request_id
        },
{
}

/// A file that was read and holds at most a mebibyte.
pub open spec fn readable(length: Option<usize>) -> bool {
    length is Some && length->0 <= 1_048_576
}

/// A name that a certificate may carry: one to 253 characters, none of them
/// a control character.
pub open spec fn nameable(san: Seq<char>) -> bool {
    &&& 1 <= san.len() <= 253
    &&& forall|i: int|
        0 <= i < san.len() ==> {
            let c = #[trigger] san[i];
            '\u{20}' <= c && !('\u{7f}' <= c <= '\u{9f}')
        }
}

/// A policy that can be asked for: at least one usage and none twice, a
/// validity from five minutes to a year, a renewal at least a minute before
/// the end and within the validity, and at most 32 names, none twice.
pub open spec fn acceptable(policy: PolicyView) -> bool {
    &&& policy.key_usages.len() > 0
    &&& forall|i: int, j: int|
        0 <= i < j < policy.key_usages.len() ==> policy.key_usages[i] != policy.key_usages[j]
    &&& 300 <= policy.validity_seconds <= 31_536_000
    &&& 60 <= policy.renew_before_seconds < policy.validity_seconds
    &&& policy.sans.len() <= 32
    &&& forall|i: int, j: int|
        0 <= i < j < policy.sans.len() ==> policy.sans[i] != policy.sans[j]
    &&& forall|i: int| 0 <= i < policy.sans.len() ==> nameable(#[trigger] policy.sans[i])
}

/// The policy says what the document says, item by item.
pub open spec fn says(policy: PolicyView, input: PolicyInput) -> bool {
    &&& policy.validity_seconds == input.validity_seconds
    &&& policy.renew_before_seconds == input.renew_before_seconds
    &&& policy.sans.len() == input.sans@.len()
    &&& forall|i: int|
        0 <= i < input.sans@.len() ==> #[trigger] policy.sans[i] == input.sans@[i]@
    &&& policy.key_usages.len() == input.key_usages@.len()
    &&& forall|i: int|
        0 <= i < input.key_usages@.len() ==> ((#[trigger] policy.key_usages[i]) is ClientAuth
            <==> input.key_usages@[i] is ClientAuth)
}

pub(crate) proof fn lemma_acceptable(policy: PolicyView)
    ensures
        policy.valid() <==> acceptable(policy),
{
    assert forall|i: int| 0 <= i < policy.sans.len() implies (PolicyView::san_ok(
        #[trigger] policy.sans[i],
    ) <==> nameable(policy.sans[i])) by {
        let san = policy.sans[i];
        if nameable(san) {
            assert forall|k: int| 0 <= k < san.len() implies !crate::text::is_control(
                #[trigger] san[k],
            ) by {}
        }
    }
    if policy.valid() {
        assert forall|i: int, j: int| 0 <= i < j < policy.key_usages.len() implies
            policy.key_usages[i] != policy.key_usages[j] by {}
        assert forall|i: int| 0 <= i < policy.sans.len() implies nameable(
            #[trigger] policy.sans[i],
        ) by {
            assert(PolicyView::san_ok(policy.sans[i]));
        }
    }
    if acceptable(policy) {
        assert(policy.key_usages.no_duplicates());
        assert(policy.sans.no_duplicates());
        assert forall|i: int| 0 <= i < policy.sans.len() implies PolicyView::san_ok(
            #[trigger] policy.sans[i],
        ) by {
            assert(nameable(policy.sans[i]));
        }
    }
}

/// A policy is made of its parts as they are, and exactly if it can be asked for.
pub proof fn law_policies_are_made_of_acceptable_parts(
    key_usages: Vec<KeyUsage>,
    renew_before_seconds: u64,
    sans: Vec<String>,
    validity_seconds: u64,
    policy: PolicyView,
    r: Result<RotationPolicy, RotationModelError>,
)
    requires
        call_ensures(
            RotationPolicy::try_new,
            (key_usages, renew_before_seconds, sans, validity_seconds),
            r,
        ),
        policy.key_usages == key_usages@,
        policy.renew_before_seconds == renew_before_seconds,
        policy.sans.len() == sans@.len(),
        forall|i: int| 0 <= i < sans@.len() ==> #[trigger] policy.sans[i] == sans@[i]@,
        policy.validity_seconds == validity_seconds,
    ensures
        r is Ok <==> acceptable(policy),
        r is Ok ==> r->Ok_0@ == policy,
{
    assert(policy.sans =~= crate::text::texts(sans@));
    lemma_acceptable(policy);
}

/// A policy file is taken exactly if it was read, fits, is a policy document
/// and asks for an acceptable policy; the policy then says what the document
/// says. Otherwise the first of these that fails is told.
pub proof fn law_policy_files_are_read_as_written(
    length: Option<usize>,
    input: Option<PolicyInput>,
    asked: PolicyView,
    r: Result<RotationPolicy, AppError>,
)
    requires
        call_ensures(control::read_policy, (length, input), r),
        input is Some ==> says(asked, input->0),
    ensures
        r is Ok <==> readable(length) && input is Some && acceptable(asked),
        r is Ok ==> says(r->Ok_0@, input->0),
        length is None ==> input_fails(r->Err_0, "input_unreadable"@),
        length is Some && length->0 > 1_048_576 ==> input_fails(r->Err_0, "input_oversize"@),
        readable(length) && input is None ==> input_fails(r->Err_0, "invalid_policy_json"@),
        readable(length) && input is Some && !acceptable(asked) ==> input_fails(
            r->Err_0,
            "invalid_policy"@,
        ),
{
    if input is Some {
        lemma_asked(input->0, asked);
        lemma_acceptable(asked);
    }
}

proof fn lemma_asked(input: PolicyInput, asked: PolicyView)
    requires
        says(asked, input),
    ensures
        control::policy_of(input) == asked,
{
    let policy = control::policy_of(input);
    assert forall|i: int| 0 <= i < input.key_usages@.len() implies #[trigger] policy.key_usages[i]
        == asked.key_usages[i] by {
        assert(asked.key_usages[i] is ClientAuth <==> input.key_usages@[i] is ClientAuth);
        assert(policy.key_usages[i] == control::usage_of(input.key_usages@[i]));
    }
    assert(policy.key_usages =~= asked.key_usages);
    assert forall|i: int| 0 <= i < input.sans@.len() implies #[trigger] policy.sans[i]
        == asked.sans[i] by {
        assert(asked.sans[i] == input.sans@[i]@);
    }
    assert(policy.sans =~= asked.sans);
}

/// A check of a policy reports its two times and counts its usages and names.
pub proof fn law_policy_checks_count(policy: &RotationPolicy, r: PolicyCheck)
    requires
        call_ensures(control::check_policy, (policy,), r),
    ensures
        r.validity_seconds == policy@.validity_seconds,
        r.renew_before_seconds == policy@.renew_before_seconds,
        r.key_usage_count == policy@.key_usages.len(),
        r.san_count == policy@.sans.len(),
{
}

/// The service is talked to at an origin over TLS: no path, query, fragment,
/// name or password.
pub open spec fn serves(base: Locator) -> bool {
    &&& base.scheme@ == "https"@
    &&& base.path@ == "/"@
    &&& base.query is None
    &&& base.fragment is None
    &&& base.username@.len() == 0
    &&& base.password is None
}

/// A rotation begins exactly with a service origin and a policy file that can
/// be taken, and with the policy that the file asks for. The origin is looked
/// at first.
pub proof fn law_rotations_begin_with_an_origin_and_a_policy(
    base: &Locator,
    length: Option<usize>,
    input: Option<PolicyInput>,
    asked: PolicyView,
    r: Result<RotationPolicy, AppError>,
)
    requires
        call_ensures(control::begin_rotation, (base, length, input), r),
        input is Some ==> says(asked, input->0),
    ensures
        r is Ok <==> serves(*base) && readable(length) && input is Some && acceptable(asked),
        r is Ok ==> says(r->Ok_0@, input->0),
        base.scheme@ != "https"@ ==> input_fails(r->Err_0, "plaintext_remote_forbidden"@),
        base.scheme@ == "https"@ && !serves(*base) ==> input_fails(
            r->Err_0,
            "rss_base_url_must_be_origin"@,
        ),
        serves(*base) && length is None ==> input_fails(r->Err_0, "input_unreadable"@),
        serves(*base) && readable(length) && input is None ==> input_fails(
            r->Err_0,
            "invalid_policy_json"@,
        ),
        serves(*base) && readable(length) && input is Some && !acceptable(asked) ==> input_fails(
            r->Err_0,
            "invalid_policy"@,
        ),
{
    if input is Some {
        lemma_asked(input->0, asked);
        lemma_acceptable(asked);
    }
}

/// An accepted rotation reports the request and correlation it was asked
/// with and the receipt, generation and condition it was answered with; a
/// refused one fails with the diagnostic.
pub proof fn law_rotations_report_the_answer(
    response: &PolicyResponse,
    request_id: Uuid,
    correlation_id: Uuid,
    r: Result<RotateOutput, AppError>,
)
    requires
        call_ensures(control::rotate_outcome, (response, request_id, correlation_id), r),
    ensures
        r is Ok <==> response@ is Accepted,
        response@ matches PolicyResponseView::Accepted(accepted) ==> {
            &&& r->Ok_0.request_id == request_id
            &&& r->Ok_0.correlation_id == correlation_id
            &&& r->Ok_0.authorization_receipt_id@ == accepted.receipt_id
            &&& r->Ok_0.accepted_generation == accepted.generation
            &&& r->Ok_0.condition == accepted.condition
        },
        response@ matches PolicyResponseView::Rejected(diagnostic) ==> {
            &&& r->Err_0@.stage is Api
            &&& named_code(diagnostic.kind, r->Err_0@.code)
            &&& r->Err_0@.request_id == diagnostic.request_id
            &&& r->Err_0@.retryable == diagnostic.retryable
        },
{
}

/// An observed status is reported as it was observed, under the request and
/// correlation it was asked with; a refused one fails with the diagnostic.
pub proof fn law_statuses_report_the_answer(
    response: StatusResponse,
    request_id: Uuid,
    correlation_id: Uuid,
    r: Result<StatusOutput, AppError>,
)
    requires
        call_ensures(control::status_outcome, (response, request_id, correlation_id), r),
    ensures
        r is Ok <==> response@ is Observed,
        response@ matches StatusResponseView::Observed(status) ==> {
            &&& r->Ok_0.request_id == request_id
            &&& r->Ok_0.correlation_id == correlation_id
            &&& r->Ok_0.status@ == status
        },
        response@ matches StatusResponseView::Rejected(diagnostic) ==> {
            &&& r->Err_0@.stage is Api
            &&& named_code(diagnostic.kind, r->Err_0@.code)
            &&& r->Err_0@.request_id == diagnostic.request_id
            &&& r->Err_0@.retryable == diagnostic.retryable
        },
{
}

/// An audit passes exactly a record that was read, fits, and is one of an
/// accepted rotation with a generation and an accepting condition. It
/// reports the record's own values and has asked no service.
pub proof fn law_audits_pass_accepted_rotations(
    length: Option<usize>,
    record: Option<RotateRecord>,
    r: Result<AuditOutput, AppError>,
)
    requires
        call_ensures(control::audit, (length, record), r),
    ensures
        r is Ok <==> {
            &&& readable(length)
            &&& record is Some
            &&& record->0.schema_version@ == "1"@
            &&& record->0.operation@ == "rotate"@
            &&& record->0.outcome@ == "accepted"@
            &&& record->0.accepted_generation > 0
            &&& record->0.condition@ == "Reconciling"@ || record->0.condition@ == "PendingDevice"@
        },
        r is Ok ==> {
            &&& r->Ok_0.request_id == record->0.request_id
            &&& r->Ok_0.correlation_id == record->0.correlation_id
            &&& r->Ok_0.authorization_receipt_id == record->0.authorization_receipt_id
            &&& r->Ok_0.accepted_generation == record->0.accepted_generation
            &&& !r->Ok_0.durable_audit_queried
        },
        length is None ==> input_fails(r->Err_0, "input_unreadable"@),
        length is Some && length->0 > 1_048_576 ==> input_fails(r->Err_0, "input_oversize"@),
        r is Err && readable(length) ==> input_fails(r->Err_0, "invalid_rotate_record"@),
{
}

/// What a rotation reports, written down and read back, passes an audit with
/// the same values.
pub proof fn law_reported_rotations_pass_the_audit(
    response: &PolicyResponse,
    request_id: Uuid,
    correlation_id: Uuid,
    output: RotateOutput,
    word: &'static str,
    length: Option<usize>,
    record: RotateRecord,
    r: Result<AuditOutput, AppError>,
)
    requires
        call_ensures(
            control::rotate_outcome,
            (response, request_id, correlation_id),
            Ok::<RotateOutput, AppError>(output),
        ),
        call_ensures(PolicyCondition::as_str, (output.condition,), word),
        output.accepted_generation > 0,
        readable(length),
        record.schema_version@ == "1"@,
        record.operation@ == "rotate"@,
        record.outcome@ == "accepted"@,
        record.request_id == output.request_id,
        record.correlation_id == output.correlation_id,
        record.authorization_receipt_id == output.authorization_receipt_id,
        record.accepted_generation == output.accepted_generation,
        record.condition@ == word@,
        call_ensures(control::audit, (length, Some(record)), r),
    ensures
        r is Ok,
        r->Ok_0.request_id == request_id,
        r->Ok_0.correlation_id == correlation_id,
        r->Ok_0.accepted_generation == output.accepted_generation,
{
}

/// A text that can stand in a header: none of its bytes is a control byte
/// but the tab.
pub open spec fn can_be_sent(value: Seq<char>) -> bool {
    forall|i: int|
        0 <= i < encode_utf8(value).len() ==> {
            let byte = #[trigger] encode_utf8(value)[i];
            byte == 9 || (32 <= byte && byte != 127)
        }
}

/// A request to the service goes where it was resolved to, with the prepared
/// method and body, and carries in this order the bearer token, the tenant
/// and the two identities as texts.
pub proof fn law_api_requests_carry_their_credentials(
    url: Option<Locator>,
    prepared: &PreparedRequest,
    token: &TokenSet,
    tenant: &str,
    request_id: Uuid,
    correlation_id: Uuid,
    r: Result<ApiRequest, AppError>,
)
    requires
        call_ensures(
            control::api_request_to,
            (url, prepared, token, tenant, request_id, correlation_id),
            r,
        ),
    ensures
        r is Ok <==> url is Some && can_be_sent("Bearer "@ + token@) && can_be_sent(tenant@),
        r is Ok ==> {
            &&& r->Ok_0@.method == prepared@.method
            &&& r->Ok_0@.body == prepared@.body
            &&& r->Ok_0@.url == url->0@
            &&& r->Ok_0@.headers.len() == 4
            &&& r->Ok_0@.headers[0] == ("authorization"@, "Bearer "@ + token@)
            &&& r->Ok_0@.headers[1] == ("x-tenant-id"@, tenant@)
            &&& r->Ok_0@.headers[2] == ("x-request-id"@, identity::hyphenated(request_id@))
            &&& r->Ok_0@.headers[3] == ("x-correlation-id"@, identity::hyphenated(
                correlation_id@,
            ))
        },
        url is None ==> input_fails(r->Err_0, "invalid_rss_url"@),
        url is Some && !can_be_sent("Bearer "@ + token@) ==> fails(
            r->Err_0,
            "token_invalid"@,
            ErrorClass::Auth,
            ErrorStage::IdToken,
            false,
        ),
        url is Some && can_be_sent("Bearer "@ + token@) && !can_be_sent(tenant@) ==> input_fails(
            r->Err_0,
            "invalid_tenant"@,
        ),
{
    lemma_can_be_sent("Bearer "@ + token@);
    lemma_can_be_sent(tenant@);
}

proof fn lemma_can_be_sent(value: Seq<char>)
    ensures
        can_be_sent(value) <==> control::is_header_value(value),
{
    let bytes = encode_utf8(value);
    if can_be_sent(value) {
        assert forall|i: int| 0 <= i < bytes.len() implies control::is_header_byte(
            #[trigger] bytes[i],
        ) by {}
    }
    if control::is_header_value(value) {
        assert forall|i: int| 0 <= i < bytes.len() implies {
            let byte = #[trigger] bytes[i];
            byte == 9 || (32 <= byte && byte != 127)
        } by {
            assert(control::is_header_byte(bytes[i]));
        }
    }
}

/// A request is made to the prepared path as it resolves against the
/// service's origin, and not at all where it does not resolve.
pub proof fn law_api_requests_go_to_the_prepared_path(
    base: &Locator,
    prepared: &PreparedRequest,
    token: &TokenSet,
    tenant: &str,
    request_id: Uuid,
    correlation_id: Uuid,
    r: Result<ApiRequest, AppError>,
)
    requires
        call_ensures(
            control::api_request,
            (base, prepared, token, tenant, request_id, correlation_id),
            r,
        ),
    ensures
        r is Ok <==> {
            &&& locator::locator_joined(base.text@, prepared@.path) is Some
            &&& can_be_sent("Bearer "@ + token@)
            &&& can_be_sent(tenant@)
        },
        r is Ok ==> {
            &&& Some(r->Ok_0@.url) == locator::locator_joined(base.text@, prepared@.path)
            &&& r->Ok_0@.method == prepared@.method
            &&& r->Ok_0@.body == prepared@.body
            &&& r->Ok_0@.headers.len() == 4
            &&& r->Ok_0@.headers[0] == ("authorization"@, "Bearer "@ + token@)
            &&& r->Ok_0@.headers[1] == ("x-tenant-id"@, tenant@)
            &&& r->Ok_0@.headers[2] == ("x-request-id"@, identity::hyphenated(request_id@))
            &&& r->Ok_0@.headers[3] == ("x-correlation-id"@, identity::hyphenated(
                correlation_id@,
            ))
        },
        locator::locator_joined(base.text@, prepared@.path) is None ==> input_fails(
            r->Err_0,
            "invalid_rss_url"@,
        ),
{
    lemma_can_be_sent("Bearer "@ + token@);
    lemma_can_be_sent(tenant@);
}

/// The parts of a request are the ones it is sent with.
pub proof fn law_api_requests_are_sent_as_made(
    request: &ApiRequest,
    method: &'static str,
    url: &Locator,
    headers: &[(String, String)],
    body: Option<&[u8]>,
)
    requires
        call_ensures(ApiRequest::method, (request,), method),
        call_ensures(ApiRequest::url, (request,), url),
        call_ensures(ApiRequest::headers, (request,), headers),
        call_ensures(ApiRequest::body, (request,), body),
    ensures
        method@ == request@.method,
        url@ == request@.url,
        headers@.len() == request@.headers.len(),
        forall|i: int|
            0 <= i < headers@.len() ==> (headers@[i].0@, headers@[i].1@)
                == #[trigger] request@.headers[i],
        body is Some <==> request@.body is Some,
        body is Some ==> request@.body == Some(body->0@),
{
    let told = locator::pair_texts(headers@);
    assert forall|i: int| 0 <= i < headers@.len() implies (headers@[i].0@, headers@[i].1@)
        == #[trigger] request@.headers[i] by {
        assert(told[i] == (headers@[i].0@, headers@[i].1@));
    }
}

/// A body is taken from its first byte on, unless it announces more than a mebibyte.
pub proof fn law_bodies_open_within_the_limit(
    announced: Option<u64>,
    r: Result<BodyBuffer, AppError>,
)
    requires
        call_ensures(BodyBuffer::open, (announced,), r),
    ensures
        r is Err <==> announced is Some && announced->0 > 1_048_576,
        r is Ok ==> r->Ok_0@.len() == 0,
        r is Err ==> fails(
            r->Err_0,
            "response_oversize"@,
            ErrorClass::Untrusted,
            ErrorStage::Transport,
            false,
        ),
{
}

/// A chunk is appended whole, or the body would pass a mebibyte and stays as it was.
pub proof fn law_bodies_grow_within_the_limit(
    buffer: &mut BodyBuffer,
    chunk: &[u8],
    r: Result<(), AppError>,
)
    requires
        call_ensures(BodyBuffer::take, (buffer, chunk), r),
    ensures
        r is Ok <==> old(buffer)@.len() + chunk@.len() <= 1_048_576,
        r is Ok ==> final(buffer)@ == old(buffer)@ + chunk@,
        r is Err ==> final(buffer)@ == old(buffer)@,
        r is Err ==> fails(
            r->Err_0,
            "response_oversize"@,
            ErrorClass::Untrusted,
            ErrorStage::Transport,
            false,
        ),
{
}

/// An input or certificate file is taken exactly if it was read and holds at
/// most a mebibyte.
pub proof fn law_input_files_fit(
    length: Option<usize>,
    input: Result<(), AppError>,
    certificate: Result<(), AppError>,
)
    requires
        call_ensures(control::require_input, (length,), input),
        call_ensures(control::require_ca_certificate, (length,), certificate),
    ensures
        input is Ok <==> readable(length),
        certificate is Ok <==> readable(length),
        length is None ==> input_fails(input->Err_0, "input_unreadable"@),
        length is None ==> input_fails(certificate->Err_0, "input_unreadable"@),
        length is Some && length->0 > 1_048_576 ==> input_fails(
            input->Err_0,
            "input_oversize"@,
        ),
        length is Some && length->0 > 1_048_576 ==> input_fails(
            certificate->Err_0,
            "ca_certificate_oversize"@,
        ),
{
}

/// Help and version are answered by their names; every other stop of the
/// command line is a failure of the input.
pub proof fn law_only_help_and_version_are_answers(stop: CliStop, r: Result<&'static str, AppError>)
    requires
        call_ensures(control::cli_outcome, (stop,), r),
    ensures
        stop is Help ==> r is Ok && r->Ok_0@ == "help"@,
        stop is Version ==> r is Ok && r->Ok_0@ == "version"@,
        stop is Other && stop->misuse ==> r is Err && input_fails(r->Err_0, "invalid_cli"@),
        stop is Other && !stop->misuse ==> r is Err && input_fails(r->Err_0, "cli_help"@),
{
}

} // verus!
