//! The operations of the control application between their inputs and their
//! one-document outputs.

use crate::client::{
    PolicyCondition, PolicyResponse, PolicyResponseView, PreparedRequest, StatusProjection,
    StatusResponse, StatusResponseView,
};
use crate::failure;
use crate::failure::{AppError, FailureView};
use crate::identity;
use crate::identity::Uuid;
use crate::locator;
use crate::locator::{Locator, LocatorView};
use crate::login::TokenSet;
use crate::model::{KeyUsage, PolicyView, RotationPolicy};
use crate::text;
use vstd::prelude::*;
use vstd::string::*;
use vstd::utf8::*;

verus! {

/// Seconds that one request to the service may take.
pub const API_TIMEOUT: u64 = 30;

/// No input and no response body is longer than this.
pub const MAX_RESPONSE_BYTES: usize = 1_048_576;

/// A key usage as a policy document writes it.
#[derive(Clone, Copy, Debug, PartialEq, Eq, Structural)]
pub enum UsageInput {
    ClientAuth,
    ServerAuth,
}

/// A policy document.
#[derive(Debug)]
pub struct PolicyInput {
    pub key_usages: Vec<UsageInput>,
    pub renew_before_seconds: u64,
    pub sans: Vec<String>,
    pub validity_seconds: u64,
}

pub open spec fn usage_of(usage: UsageInput) -> KeyUsage {
    match usage {
        UsageInput::ClientAuth => KeyUsage::ClientAuth,
        UsageInput::ServerAuth => KeyUsage::ServerAuth,
    }
}

/// The policy that a document asks for.
pub open spec fn policy_of(input: PolicyInput) -> PolicyView {
    PolicyView {
        key_usages: input.key_usages@.map_values(|usage: UsageInput| usage_of(usage)),
        renew_before_seconds: input.renew_before_seconds,
        sans: text::texts(input.sans@),
        validity_seconds: input.validity_seconds,
    }
}

fn usages(input: &Vec<UsageInput>) -> (r: Vec<KeyUsage>)
    ensures
        r@ == input@.map_values(|usage: UsageInput| usage_of(usage)),
{
    let mut out: Vec<KeyUsage> = Vec::new();
    let mut i: usize = 0;
    while i < input.len()
        invariant
            i <= input@.len(),
            out@.len() == i,
            forall|j: int| 0 <= j < i ==> #[trigger] out@[j] == usage_of(input@[j]),
        decreases input@.len() - i,
    {
        out.push(
            match input[i] {
                UsageInput::ClientAuth => KeyUsage::ClientAuth,
                UsageInput::ServerAuth => KeyUsage::ServerAuth,
            },
        );
        i = i + 1;
    }
    assert(out@ =~= input@.map_values(|usage: UsageInput| usage_of(usage)));
    out
}

impl TryFrom<PolicyInput> for RotationPolicy {
    type Error = AppError;

    fn try_from(value: PolicyInput) -> (r: Result<Self, AppError>)
        ensures
            if policy_of(value).valid() {
                r is Ok && r->Ok_0@ == policy_of(value)
            } else {
                r is Err && r->Err_0@ == failure::input_failure("invalid_policy"@)
            },
    {
        match RotationPolicy::try_new(
            usages(&value.key_usages),
            value.renew_before_seconds,
            value.sans,
            value.validity_seconds,
        ) {
            Ok(policy) => Ok(policy),
            Err(_) => Err(AppError::input("invalid_policy")),
        }
    }
}

impl vstd::std_specs::convert::TryFromSpecImpl<PolicyInput> for RotationPolicy {
    open spec fn obeys_try_from_spec() -> bool {
        false
    }

    open spec fn try_from_spec(value: PolicyInput) -> Result<Self, AppError> {
        arbitrary()
    }
}

/// The first thing wrong with the length of an input file; nothing is known
/// of one that could not be read.
pub open spec fn length_failure(length: Option<usize>) -> Option<FailureView> {
    match length {
        None => Some(failure::input_failure("input_unreadable"@)),
        Some(length) => if length > MAX_RESPONSE_BYTES {
            Some(failure::input_failure("input_oversize"@))
        } else {
            None
        },
    }
}

/// Asks of an input file that it was read and is not too long.
pub fn require_input(length: Option<usize>) -> (r: Result<(), AppError>)
    ensures
        match length_failure(length) {
            Some(failure) => r is Err && r->Err_0@ == failure,
            None => r is Ok,
        },
{
    match length {
        None => Err(AppError::input("input_unreadable")),
        Some(length) => if length > MAX_RESPONSE_BYTES {
            Err(AppError::input("input_oversize"))
        } else {
            Ok(())
        },
    }
}

/// The policy of a file of this length, if its content reads as a policy document.
pub fn read_policy(length: Option<usize>, input: Option<PolicyInput>) -> (r: Result<
    RotationPolicy,
    AppError,
>)
    ensures
        match length_failure(length) {
            Some(failure) => r is Err && r->Err_0@ == failure,
            None => match input {
                None => r is Err && r->Err_0@ == failure::input_failure("invalid_policy_json"@),
                Some(input) => if policy_of(input).valid() {
                    r is Ok && r->Ok_0@ == policy_of(input)
                } else {
                    r is Err && r->Err_0@ == failure::input_failure("invalid_policy"@)
                },
            },
        },
{
    match require_input(length) {
        Ok(()) => {},
        Err(error) => {
            return Err(error);
        },
    }
    match input {
        Some(input) => RotationPolicy::try_from(input),
        None => Err(AppError::input("invalid_policy_json")),
    }
}

/// What a policy check reports: numbers, and none of the names.
#[derive(Clone, Copy, Debug, PartialEq, Eq, Structural)]
pub struct PolicyCheck {
    pub validity_seconds: u64,
    pub renew_before_seconds: u64,
    pub key_usage_count: usize,
    pub san_count: usize,
}

#[must_use]
pub fn check_policy(policy: &RotationPolicy) -> (r: PolicyCheck)
    ensures
        r.validity_seconds == policy@.validity_seconds,
        r.renew_before_seconds == policy@.renew_before_seconds,
        r.key_usage_count == policy@.key_usages.len(),
        r.san_count == policy@.sans.len(),
{
    PolicyCheck {
        validity_seconds: policy.validity_seconds(),
        renew_before_seconds: policy.renew_before_seconds(),
        key_usage_count: policy.key_usages().len(),
        san_count: policy.sans().len(),
    }
}

/// The first thing wrong with what a rotation is asked for: the service's
/// origin is checked before the policy is looked at.
pub open spec fn rotation_failure(
    base: LocatorView,
    length: Option<usize>,
    input: Option<PolicyInput>,
) -> Option<FailureView> {
    match locator::origin_failure(base) {
        Some(failure) => Some(failure),
        None => match length_failure(length) {
            Some(failure) => Some(failure),
            None => match input {
                None => Some(failure::input_failure("invalid_policy_json"@)),
                Some(input) => if policy_of(input).valid() {
                    None
                } else {
                    Some(failure::input_failure("invalid_policy"@))
                },
            },
        },
    }
}

/// Checks what a rotation is asked for before anyone logs in for it.
pub fn begin_rotation(base: &Locator, length: Option<usize>, input: Option<PolicyInput>) -> (r:
    Result<RotationPolicy, AppError>)
    ensures
        match rotation_failure(base@, length, input) {
            Some(failure) => r is Err && r->Err_0@ == failure,
            None => r is Ok && r->Ok_0@ == policy_of(input->0),
        },
{
    match locator::validate_rss_base_url(base) {
        Ok(()) => read_policy(length, input),
        Err(error) => Err(error),
    }
}

/// What an accepted rotation reports.
#[derive(Clone, Copy, Debug)]
pub struct RotateOutput {
    pub request_id: Uuid,
    pub correlation_id: Uuid,
    pub authorization_receipt_id: Uuid,
    pub accepted_generation: u64,
    pub condition: PolicyCondition,
}

/// Reports a policy response.
pub fn rotate_outcome(response: &PolicyResponse, request_id: Uuid, correlation_id: Uuid) -> (r:
    Result<RotateOutput, AppError>)
    ensures
        match response@ {
            PolicyResponseView::Accepted(accepted) => {
                &&& r is Ok
                &&& r->Ok_0.request_id == request_id
                &&& r->Ok_0.correlation_id == correlation_id
                &&& r->Ok_0.authorization_receipt_id@ == accepted.receipt_id
                &&& r->Ok_0.accepted_generation == accepted.generation
                &&& r->Ok_0.condition == accepted.condition
            },
            PolicyResponseView::Rejected(diagnostic) => r is Err && r->Err_0@
                == failure::diagnosed(diagnostic),
        },
{
    match response {
        PolicyResponse::Accepted(value) => Ok(
            RotateOutput {
                request_id,
                correlation_id,
                authorization_receipt_id: value.receipt_id(),
                accepted_generation: value.generation(),
                condition: value.condition(),
            },
        ),
        PolicyResponse::Rejected(diagnostic) => Err(AppError::from_diagnostic(diagnostic)),
    }
}

/// What an observed status reports: the projection itself, and nothing inferred from it.
#[derive(Debug)]
pub struct StatusOutput {
    pub request_id: Uuid,
    pub correlation_id: Uuid,
    pub status: StatusProjection,
}

/// Reports a status response.
pub fn status_outcome(response: StatusResponse, request_id: Uuid, correlation_id: Uuid) -> (r:
    Result<StatusOutput, AppError>)
    ensures
        match response@ {
            StatusResponseView::Observed(status) => {
                &&& r is Ok
                &&& r->Ok_0.request_id == request_id
                &&& r->Ok_0.correlation_id == correlation_id
                &&& r->Ok_0.status@ == status
            },
            StatusResponseView::Rejected(diagnostic) => r is Err && r->Err_0@
                == failure::diagnosed(diagnostic),
        },
{
    match response {
        StatusResponse::Observed(status) => Ok(
            StatusOutput { request_id, correlation_id, status },
        ),
        StatusResponse::Rejected(diagnostic) => Err(AppError::from_diagnostic(&diagnostic)),
    }
}

/// A rotation record as it is read back.
#[derive(Debug)]
pub struct RotateRecord {
    pub schema_version: String,
    pub operation: String,
    pub outcome: String,
    pub request_id: Uuid,
    pub correlation_id: Uuid,
    pub authorization_receipt_id: Uuid,
    pub accepted_generation: u64,
    pub condition: String,
}

/// A record of an accepted rotation.
pub open spec fn is_rotate_record(record: RotateRecord) -> bool {
    &&& record.schema_version@ == "1"@
    &&& record.operation@ == "rotate"@
    &&& record.outcome@ == "accepted"@
    &&& record.accepted_generation != 0
    &&& record.condition@ == "Reconciling"@ || record.condition@ == "PendingDevice"@
}

/// What an audit reports. It reads the record alone and asks no service.
#[derive(Clone, Copy, Debug)]
pub struct AuditOutput {
    pub request_id: Uuid,
    pub correlation_id: Uuid,
    pub authorization_receipt_id: Uuid,
    pub accepted_generation: u64,
    pub durable_audit_queried: bool,
}

/// Audits a file of this length, if its content reads as a rotation record.
pub fn audit(length: Option<usize>, record: Option<RotateRecord>) -> (r: Result<
    AuditOutput,
    AppError,
>)
    ensures
        match length_failure(length) {
            Some(failure) => r is Err && r->Err_0@ == failure,
            None => match record {
                Some(record) => if is_rotate_record(record) {
                    r == Ok::<AuditOutput, AppError>(
                        AuditOutput {
                            request_id: record.request_id,
                            correlation_id: record.correlation_id,
                            authorization_receipt_id: record.authorization_receipt_id,
                            accepted_generation: record.accepted_generation,
                            durable_audit_queried: false,
                        },
                    )
                } else {
                    r is Err && r->Err_0@ == failure::input_failure("invalid_rotate_record"@)
                },
                None => r is Err && r->Err_0@ == failure::input_failure("invalid_rotate_record"@),
            },
        },
{
    match require_input(length) {
        Ok(()) => {},
        Err(error) => {
            return Err(error);
        },
    }
    let record = match record {
        Some(record) => record,
        None => {
            return Err(AppError::input("invalid_rotate_record"));
        },
    };
    if !text::same(record.schema_version.as_str(), "1") || !text::same(
        record.operation.as_str(),
        "rotate",
    ) || !text::same(record.outcome.as_str(), "accepted") || record.accepted_generation == 0 || (
    !text::same(record.condition.as_str(), "Reconciling") && !text::same(
        record.condition.as_str(),
        "PendingDevice",
    )) {
        return Err(AppError::input("invalid_rotate_record"));
    }
    Ok(
        AuditOutput {
            request_id: record.request_id,
            correlation_id: record.correlation_id,
            authorization_receipt_id: record.authorization_receipt_id,
            accepted_generation: record.accepted_generation,
            durable_audit_queried: false,
        },
    )
}

/// A record that says what an accepted rotation reported.
pub open spec fn records(output: RotateOutput, record: RotateRecord) -> bool {
    &&& record.schema_version@ == "1"@
    &&& record.operation@ == "rotate"@
    &&& record.outcome@ == "accepted"@
    &&& record.request_id == output.request_id
    &&& record.correlation_id == output.correlation_id
    &&& record.authorization_receipt_id == output.authorization_receipt_id
    &&& record.accepted_generation == output.accepted_generation
    &&& record.condition@ == output.condition.text()
}

/// What a rotation reports is what an audit accepts.
pub proof fn law_rotations_can_be_audited(output: RotateOutput, record: RotateRecord)
    requires
        records(output, record),
        output.accepted_generation > 0,
    ensures
        is_rotate_record(record),
{
}

/// A byte that a header value may hold.
pub open spec fn is_header_byte(byte: u8) -> bool {
    (byte >= 32 && byte != 127) || byte == 9
}

/// A text that a header value may hold.
pub open spec fn is_header_value(value: Seq<char>) -> bool {
    forall|i: int|
        0 <= i < encode_utf8(value).len() ==> is_header_byte(#[trigger] encode_utf8(value)[i])
}

/// `http::HeaderValue::from_str` takes a text without control bytes other
/// than the tab, and refuses any other.
#[verifier::external_body]
fn header_value(value: &str) -> (r: bool)
    ensures
        r == is_header_value(value@),
{
    http::HeaderValue::from_str(value).is_ok()
}

pub struct ApiRequestView {
    pub method: Seq<char>,
    pub url: LocatorView,
    pub headers: Seq<(Seq<char>, Seq<char>)>,
    pub body: Option<Seq<u8>>,
}

/// One request to the service, ready to be sent.
pub struct ApiRequest {
    method: &'static str,
    url: Locator,
    headers: Vec<(String, String)>,
    body: Option<Vec<u8>>,
}

impl View for ApiRequest {
    type V = ApiRequestView;

    closed spec fn view(&self) -> ApiRequestView {
        ApiRequestView {
            method: self.method@,
            url: self.url@,
            headers: locator::pair_texts(self.headers@),
            body: match self.body {
                Some(body) => Some(body@),
                None => None,
            },
        }
    }
}

impl ApiRequest {
    #[must_use]
    pub fn method(&self) -> (r: &'static str)
        ensures
            r@ == self@.method,
    {
        self.method
    }

    #[must_use]
    pub fn url(&self) -> (r: &Locator)
        ensures
            r@ == self@.url,
    {
        &self.url
    }

    #[must_use]
    pub fn headers(&self) -> (r: &[(String, String)])
        ensures
            locator::pair_texts(r@) == self@.headers,
    {
        self.headers.as_slice()
    }

    #[must_use]
    pub fn body(&self) -> (r: Option<&[u8]>)
        ensures
            match self@.body {
                Some(body) => r is Some && r->0@ == body,
                None => r is None,
            },
    {
        match &self.body {
            Some(body) => Some(body.as_slice()),
            None => None,
        }
    }
}

/// The headers that every request to the service carries.
pub open spec fn api_headers(
    token: Seq<char>,
    tenant: Seq<char>,
    request_id: u128,
    correlation_id: u128,
) -> Seq<(Seq<char>, Seq<char>)> {
    seq![
        ("authorization"@, "Bearer "@ + token),
        ("x-tenant-id"@, tenant),
        ("x-request-id"@, identity::hyphenated(request_id)),
        ("x-correlation-id"@, identity::hyphenated(correlation_id)),
    ]
}

/// The first thing wrong with what a request to the service is made of.
pub open spec fn api_failure(
    url: Option<LocatorView>,
    token: Seq<char>,
    tenant: Seq<char>,
) -> Option<FailureView> {
    if url is None {
        Some(failure::input_failure("invalid_rss_url"@))
    } else if !is_header_value("Bearer "@ + token) {
        Some(failure::auth_failure("token_invalid"@))
    } else if !is_header_value(tenant) {
        Some(failure::input_failure("invalid_tenant"@))
    } else {
        None
    }
}

/// Makes the request to a locator that was already resolved.
pub fn api_request_to(
    url: Option<Locator>,
    prepared: &PreparedRequest,
    token: &TokenSet,
    tenant: &str,
    request_id: Uuid,
    correlation_id: Uuid,
) -> (r: Result<ApiRequest, AppError>)
    ensures
        match api_failure(locator::optional_locator(url), token@, tenant@) {
            Some(failure) => r is Err && r->Err_0@ == failure,
            None => r is Ok && r->Ok_0@ == (ApiRequestView {
                method: prepared@.method,
                url: url->0@,
                headers: api_headers(token@, tenant@, request_id@, correlation_id@),
                body: prepared@.body,
            }),
        },
{
    let url = match url {
        Some(url) => url,
        None => {
            return Err(AppError::input("invalid_rss_url"));
        },
    };
    let bearer = "Bearer ".to_owned().concat(token.expose());
    if !header_value(bearer.as_str()) {
        return Err(AppError::auth("token_invalid"));
    }
    if !header_value(tenant) {
        return Err(AppError::input("invalid_tenant"));
    }
    let mut headers: Vec<(String, String)> = Vec::new();
    headers.push(("authorization".to_owned(), bearer));
    headers.push(("x-tenant-id".to_owned(), tenant.to_owned()));
    headers.push(("x-request-id".to_owned(), request_id.text()));
    headers.push(("x-correlation-id".to_owned(), correlation_id.text()));
    assert(locator::pair_texts(headers@) =~= api_headers(
        token@,
        tenant@,
        request_id@,
        correlation_id@,
    ));
    let body = match prepared.body() {
        Some(bytes) => {
            let mut body: Vec<u8> = Vec::new();
            text::push_bytes(&mut body, bytes);
            assert(body@ =~= bytes@);
            Some(body)
        },
        None => None,
    };
    Ok(ApiRequest { method: prepared.method(), url, headers, body })
}

/// Makes one request to the service at its origin.
pub fn api_request(
    base: &Locator,
    prepared: &PreparedRequest,
    token: &TokenSet,
    tenant: &str,
    request_id: Uuid,
    correlation_id: Uuid,
) -> (r: Result<ApiRequest, AppError>)
    ensures
        ({
            let url = locator::locator_joined(base@.text, prepared@.path);
            match api_failure(url, token@, tenant@) {
                Some(failure) => r is Err && r->Err_0@ == failure,
                None => r is Ok && r->Ok_0@ == (ApiRequestView {
                    method: prepared@.method,
                    url: url->0,
                    headers: api_headers(token@, tenant@, request_id@, correlation_id@),
                    body: prepared@.body,
                }),
            }
        }),
{
    let url = locator::join(base.text.as_str(), prepared.path());
    api_request_to(url, prepared, token, tenant, request_id, correlation_id)
}

pub open spec fn oversize() -> FailureView {
    failure::untrusted_failure("response_oversize"@)
}

/// A response body as it comes in, never longer than the limit.
#[derive(Debug)]
pub struct BodyBuffer {
    bytes: Vec<u8>,
}

impl View for BodyBuffer {
    type V = Seq<u8>;

    closed spec fn view(&self) -> Seq<u8> {
        self.bytes@
    }
}

impl BodyBuffer {
    #[verifier::type_invariant]
    spec fn inv(self) -> bool {
        self.bytes@.len() <= MAX_RESPONSE_BYTES
    }

    /// Starts on a response that announces this length, if it announces one.
    pub fn open(announced: Option<u64>) -> (r: Result<Self, AppError>)
        ensures
            (announced matches Some(length) && length > MAX_RESPONSE_BYTES) ==> r is Err
                && r->Err_0@ == oversize(),
            !(announced matches Some(length) && length > MAX_RESPONSE_BYTES) ==> r is Ok
                && r->Ok_0@ == Seq::<u8>::empty(),
    {
        match announced {
            Some(length) => if length > MAX_RESPONSE_BYTES as u64 {
                return Err(AppError::untrusted("response_oversize"));
            },
            None => {},
        }
        Ok(BodyBuffer { bytes: Vec::new() })
    }

    /// Takes the next chunk. A chunk that does not fit leaves the buffer as it was.
    pub fn take(&mut self, chunk: &[u8]) -> (r: Result<(), AppError>)
        ensures
            if old(self)@.len() + chunk@.len() > MAX_RESPONSE_BYTES {
                r is Err && r->Err_0@ == oversize() && final(self)@ == old(self)@
            } else {
                r is Ok && final(self)@ == old(self)@ + chunk@
            },
    {
        proof {
            use_type_invariant(&*self);
        }
        if chunk.len() > MAX_RESPONSE_BYTES - self.bytes.len() {
            return Err(AppError::untrusted("response_oversize"));
        }
        let mut bytes: Vec<u8> = Vec::new();
        std::mem::swap(&mut bytes, &mut self.bytes);
        text::push_bytes(&mut bytes, chunk);
        self.bytes = bytes;
        Ok(())
    }

    #[must_use]
    pub fn bytes(&self) -> (r: &[u8])
        ensures
            r@ == self@,
            r@.len() <= MAX_RESPONSE_BYTES,
    {
        proof {
            use_type_invariant(self);
        }
        self.bytes.as_slice()
    }
}

/// Asks of a certificate file that it is not too long.
pub fn require_ca_certificate(length: Option<usize>) -> (r: Result<(), AppError>)
    ensures
        match length {
            None => r is Err && r->Err_0@ == failure::input_failure("input_unreadable"@),
            Some(length) => if length > MAX_RESPONSE_BYTES {
                r is Err && r->Err_0@ == failure::input_failure("ca_certificate_oversize"@)
            } else {
                r is Ok
            },
        },
{
    match length {
        None => Err(AppError::input("input_unreadable")),
        Some(length) => if length > MAX_RESPONSE_BYTES {
            Err(AppError::input("ca_certificate_oversize"))
        } else {
            Ok(())
        },
    }
}

/// Why the command line led to no command.
#[derive(Clone, Copy, Debug, PartialEq, Eq, Structural)]
pub enum CliStop {
    Help,
    Version,
    /// Something is wrong with it, or it asks for output of another kind.
    Other { misuse: bool },
}

/// Help and version are answers; everything else is a failure of the input.
pub fn cli_outcome(stop: CliStop) -> (r: Result<&'static str, AppError>)
    ensures
        match stop {
            CliStop::Help => r is Ok && r->Ok_0@ == "help"@,
            CliStop::Version => r is Ok && r->Ok_0@ == "version"@,
            CliStop::Other { misuse } => r is Err && r->Err_0@ == failure::input_failure(
                if misuse {
                    "invalid_cli"@
                } else {
                    "cli_help"@
                },
            ),
        },
{
    match stop {
        CliStop::Help => Ok("help"),
        CliStop::Version => Ok("version"),
        CliStop::Other { misuse } => Err(
            AppError::input(
                if misuse {
                    "invalid_cli"
                } else {
                    "cli_help"
                },
            ),
        ),
    }
}

} // verus!
