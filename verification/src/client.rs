//! The facade to the device-security service: canonical requests, and the
//! closed projections that responses are reduced to.

use crate::contract::{
    CanonicalCommandState, CanonicalConditionReason, CanonicalConditionStatus,
    CanonicalConditionType, ConflictError, ConflictResponse, NotFoundResponse, PolicyDataCondition,
    PolicyPutResponse, StatusCondition, StatusGetResponse, ValidationResponse,
};
use crate::display;
use crate::identity;
use crate::identity::Uuid;
use crate::model::{KeyUsage, RotationPolicy};
use crate::text;
use vstd::prelude::*;
use vstd::string::*;

verus! {

/// Canonical operation descriptor independent of any HTTP implementation.
#[derive(Clone, Copy, Debug, PartialEq, Eq)]
pub struct OperationDescriptor {
    pub method: &'static str,
    pub path_template: &'static str,
}

/// The operation that puts a device's certificate policy.
pub fn policy_put_operation() -> (r: OperationDescriptor)
    ensures
        r.method@ == "PUT"@,
        r.path_template@ == "/api/v2/identity/devices/{deviceId}/certificate-policy"@,
{
    OperationDescriptor {
        method: "PUT",
        path_template: "/api/v2/identity/devices/{deviceId}/certificate-policy",
    }
}

/// The operation that reads a device's certificate status.
pub fn status_get_operation() -> (r: OperationDescriptor)
    ensures
        r.method@ == "GET"@,
        r.path_template@ == "/api/v2/identity/devices/{deviceId}/certificate-status"@,
{
    OperationDescriptor {
        method: "GET",
        path_template: "/api/v2/identity/devices/{deviceId}/certificate-status",
    }
}

/// The path of an operation on one device.
pub open spec fn device_path(device_id: u128, tail: Seq<char>) -> Seq<char> {
    "/api/v2/identity/devices/"@ + identity::hyphenated(device_id) + tail
}

/// The path of an operation is its template with the device in place of the placeholder.
pub proof fn law_paths_follow_their_templates(device_id: u128)
    ensures
        "/api/v2/identity/devices/{deviceId}/certificate-policy"@ == "/api/v2/identity/devices/"@
            + "{deviceId}"@ + "/certificate-policy"@,
        device_path(device_id, "/certificate-policy"@) == "/api/v2/identity/devices/"@
            + identity::hyphenated(device_id) + "/certificate-policy"@,
        "/api/v2/identity/devices/{deviceId}/certificate-status"@ == "/api/v2/identity/devices/"@
            + "{deviceId}"@ + "/certificate-status"@,
        device_path(device_id, "/certificate-status"@) == "/api/v2/identity/devices/"@
            + identity::hyphenated(device_id) + "/certificate-status"@,
{
    reveal_strlit("/api/v2/identity/devices/{deviceId}/certificate-policy");
    reveal_strlit("/api/v2/identity/devices/{deviceId}/certificate-status");
    reveal_strlit("/api/v2/identity/devices/");
    reveal_strlit("{deviceId}");
    reveal_strlit("/certificate-policy");
    reveal_strlit("/certificate-status");
    assert("/api/v2/identity/devices/{deviceId}/certificate-policy"@ =~= "/api/v2/identity/devices/"@
        + "{deviceId}"@ + "/certificate-policy"@);
    assert("/api/v2/identity/devices/{deviceId}/certificate-status"@ =~= "/api/v2/identity/devices/"@
        + "{deviceId}"@ + "/certificate-status"@);
}

fn path_for(device_id: Uuid, tail: &str) -> (r: String)
    ensures
        r@ == device_path(device_id@, tail@),
{
    String::from_str("/api/v2/identity/devices/").concat(device_id.text().as_str()).concat(tail)
}

/// What a prepared request asks for.
pub struct RequestView {
    pub method: Seq<char>,
    pub path: Seq<char>,
    pub body: Option<Seq<u8>>,
}

/// A fully prepared canonical request. Its path and body are never rendered.
#[derive(PartialEq, Eq)]
pub struct PreparedRequest {
    method: &'static str,
    path: String,
    body: Option<Vec<u8>>,
}

impl View for PreparedRequest {
    type V = RequestView;

    closed spec fn view(&self) -> RequestView {
        RequestView {
            method: self.method@,
            path: self.path@,
            body: match self.body {
                Some(body) => Some(body@),
                None => None,
            },
        }
    }
}

/// How a request is rendered: the method in clear, and whether there is a body.
pub open spec fn request_text(request: RequestView) -> Seq<char> {
    "PreparedRequest { method: \""@ + request.method + "\", path: \"[REDACTED]\", body: "@ + (
    if request.body is Some {
        "Some(\"[REDACTED]\")"@
    } else {
        "None"@
    }) + " }"@
}

impl core::fmt::Debug for PreparedRequest {
    fn fmt(&self, formatter: &mut core::fmt::Formatter<'_>) -> (r: Result<(), core::fmt::Error>)
        ensures
            r is Ok ==> display::wrote(*old(formatter), *final(formatter), request_text(self@)),
    {
        let body = if self.body.is_some() {
            "Some(\"[REDACTED]\")"
        } else {
            "None"
        };
        let rendered = String::from_str("PreparedRequest { method: \"").concat(self.method).concat(
            "\", path: \"[REDACTED]\", body: ",
        ).concat(body).concat(" }");
        formatter.write_str(rendered.as_str())
    }
}

impl PreparedRequest {
    #[must_use]
    pub fn method(&self) -> (r: &'static str)
        ensures
            r@ == self@.method,
    {
        self.method
    }

    #[must_use]
    pub fn path(&self) -> (r: &str)
        ensures
            r@ == self@.path,
    {
        self.path.as_str()
    }

    #[must_use]
    pub fn body(&self) -> (r: Option<&[u8]>)
        ensures
            match self@.body {
                Some(body) => r is Some && r->0@ == body,
                None => r is None,
            },
    {
        match &self.body {
            Some(body) => Some(body.as_slice()),
            None => None,
        }
    }
}

/// Payload-free construction or decoding failure.
#[derive(Clone, Copy, Debug, PartialEq, Eq, Structural)]
pub enum FacadeError {
    InvalidInput,
    Serialization,
}

impl FacadeError {
    /// The text that describes the failure.
    pub open spec fn message(self) -> Seq<char> {
        match self {
            FacadeError::InvalidInput => "invalid canonical request input"@,
            FacadeError::Serialization => "canonical request serialization failed"@,
        }
    }
}

impl core::fmt::Display for FacadeError {
    fn fmt(&self, formatter: &mut core::fmt::Formatter<'_>) -> (r: Result<(), core::fmt::Error>)
        ensures
            r is Ok ==> display::wrote(*old(formatter), *final(formatter), self.message()),
    {
        formatter.write_str(
            match self {
                FacadeError::InvalidInput => "invalid canonical request input",
                FacadeError::Serialization => "canonical request serialization failed",
            },
        )
    }
}

impl std::error::Error for FacadeError {

}

/// What the policy request says, once its encoding is left aside.
pub struct PolicyPutView {
    pub expected_generation: i64,
    pub idempotency_key: u128,
    pub key_usages: Seq<KeyUsage>,
    pub renew_before_seconds: i64,
    pub sans: Option<Seq<Seq<char>>>,
    pub validity_seconds: i64,
}

/// The body of the policy request as plain values.
#[derive(PartialEq, Eq)]
pub struct PolicyPutRequest {
    pub expected_generation: i64,
    pub idempotency_key: Uuid,
    pub key_usages: Vec<KeyUsage>,
    pub renew_before_seconds: i64,
    pub sans: Option<Vec<String>>,
    pub validity_seconds: i64,
}

impl View for PolicyPutRequest {
    type V = PolicyPutView;

    open spec fn view(&self) -> PolicyPutView {
        PolicyPutView {
            expected_generation: self.expected_generation,
            idempotency_key: self.idempotency_key@,
            key_usages: self.key_usages@,
            renew_before_seconds: self.renew_before_seconds,
            sans: match self.sans {
                Some(sans) => Some(text::texts(sans@)),
                None => None,
            },
            validity_seconds: self.validity_seconds,
        }
    }
}

/// A policy request for one device whose body is still to be encoded.
#[derive(PartialEq, Eq)]
pub struct PolicyPut {
    device_id: Uuid,
    request: PolicyPutRequest,
}

impl PolicyPut {
    pub closed spec fn device(self) -> u128 {
        self.device_id@
    }

    pub closed spec fn asks(self) -> PolicyPutView {
        self.request@
    }

    pub fn request(&self) -> (r: &PolicyPutRequest)
        ensures
            r@ == self.asks(),
    {
        &self.request
    }

    /// The request with its encoded body, if the body could be encoded.
    pub fn with_body(self, encoded: Option<Vec<u8>>) -> (r: Result<PreparedRequest, FacadeError>)
        ensures
            match encoded {
                Some(body) => r is Ok && r->Ok_0@ == (RequestView {
                    method: "PUT"@,
                    path: device_path(self.device(), "/certificate-policy"@),
                    body: Some(body@),
                }),
                None => r == Err::<PreparedRequest, FacadeError>(FacadeError::Serialization),
            },
    {
        match encoded {
            Some(body) => Ok(
                PreparedRequest {
                    method: "PUT",
                    path: path_for(self.device_id, "/certificate-policy"),
                    body: Some(body),
                },
            ),
            None => Err(FacadeError::Serialization),
        }
    }
}

/// Builds the canonical policy request. The durations of a policy always fit;
/// the expected generation must.
pub fn prepare_policy_put(
    device_id: Uuid,
    expected_generation: u64,
    idempotency_key: Uuid,
    policy: &RotationPolicy,
) -> (r: Result<PolicyPut, FacadeError>)
    ensures
        if expected_generation <= i64::MAX {
            &&& r is Ok
            &&& r->Ok_0.device() == device_id@
            &&& r->Ok_0.asks() == (PolicyPutView {
                expected_generation: expected_generation as i64,
                idempotency_key: idempotency_key@,
                key_usages: policy@.key_usages,
                renew_before_seconds: policy@.renew_before_seconds as i64,
                sans: if policy@.sans.len() > 0 {
                    Some(policy@.sans)
                } else {
                    None
                },
                validity_seconds: policy@.validity_seconds as i64,
            })
        } else {
            r == Err::<PolicyPut, FacadeError>(FacadeError::InvalidInput)
        },
{
    if expected_generation > 9_223_372_036_854_775_807 {
        return Err(FacadeError::InvalidInput);
    }
    let key_usages = usages_of(policy.key_usages());
    let sans = strings_of(policy.sans());
    let sans = if sans.len() > 0 {
        Some(sans)
    } else {
        None
    };
    Ok(
        PolicyPut {
            device_id,
            request: PolicyPutRequest {
                expected_generation: expected_generation as i64,
                idempotency_key,
                key_usages,
                renew_before_seconds: policy.renew_before_seconds() as i64,
                sans,
                validity_seconds: policy.validity_seconds() as i64,
            },
        },
    )
}

fn usages_of(usages: &[KeyUsage]) -> (r: Vec<KeyUsage>)
    ensures
        r@ == usages@,
{
    let mut out: Vec<KeyUsage> = Vec::new();
    let mut i: usize = 0;
    while i < usages.len()
        invariant
            i <= usages@.len(),
            out@ == usages@.take(i as int),
        decreases usages@.len() - i,
    {
        out.push(usages[i]);
        i = i + 1;
        assert(out@ =~= usages@.take(i as int));
    }
    assert(usages@.take(i as int) =~= usages@);
    out
}

fn strings_of(strings: &[String]) -> (r: Vec<String>)
    ensures
        text::texts(r@) == text::texts(strings@),
        r@.len() == strings@.len(),
{
    let mut out: Vec<String> = Vec::new();
    let mut i: usize = 0;
    while i < strings.len()
        invariant
            i <= strings@.len(),
            out@ == strings@.take(i as int),
        decreases strings@.len() - i,
    {
        out.push(strings[i].clone());
        i = i + 1;
        assert(out@ =~= strings@.take(i as int));
    }
    assert(strings@.take(i as int) =~= strings@);
    out
}

#[must_use]
pub fn prepare_status_get(device_id: Uuid) -> (r: PreparedRequest)
    ensures
        r@ == (RequestView {
            method: "GET"@,
            path: device_path(device_id@, "/certificate-status"@),
            body: None,
        }),
{
    PreparedRequest { method: "GET", path: path_for(device_id, "/certificate-status"), body: None }
}

/// Closed diagnostic categories exposed to applications.
#[derive(Clone, Copy, Debug, PartialEq, Eq, Structural)]
pub enum DiagnosticKind {
    Validation,
    NotFound,
    Conflict,
    Unauthorized,
    Forbidden,
    RateLimited,
    Upstream,
    Malformed,
    UnknownStatus,
}

impl DiagnosticKind {
    pub open spec fn code_text(self) -> Seq<char> {
        match self {
            DiagnosticKind::Validation => "validation_failed"@,
            DiagnosticKind::NotFound => "not_found"@,
            DiagnosticKind::Conflict => "conflict"@,
            DiagnosticKind::Unauthorized => "unauthorized"@,
            DiagnosticKind::Forbidden => "forbidden"@,
            DiagnosticKind::RateLimited => "rate_limited"@,
            DiagnosticKind::Upstream => "upstream_failure"@,
            DiagnosticKind::Malformed => "malformed_response"@,
            DiagnosticKind::UnknownStatus => "unknown_status"@,
        }
    }

    /// Only a busy or failing service is worth another try.
    pub open spec fn is_retryable(self) -> bool {
        self == DiagnosticKind::RateLimited || self == DiagnosticKind::Upstream
    }

    #[must_use]
    pub fn code(self) -> (r: &'static str)
        ensures
            r@ == self.code_text(),
    {
        match self {
            DiagnosticKind::Validation => "validation_failed",
            DiagnosticKind::NotFound => "not_found",
            DiagnosticKind::Conflict => "conflict",
            DiagnosticKind::Unauthorized => "unauthorized",
            DiagnosticKind::Forbidden => "forbidden",
            DiagnosticKind::RateLimited => "rate_limited",
            DiagnosticKind::Upstream => "upstream_failure",
            DiagnosticKind::Malformed => "malformed_response",
            DiagnosticKind::UnknownStatus => "unknown_status",
        }
    }

    fn retryable(self) -> (r: bool)
        ensures
            r == self.is_retryable(),
    {
        match self {
            DiagnosticKind::RateLimited | DiagnosticKind::Upstream => true,
            _ => false,
        }
    }

    fn name(self) -> (r: &'static str)
        ensures
            r@ == self.name_text(),
    {
        match self {
            DiagnosticKind::Validation => "Validation",
            DiagnosticKind::NotFound => "NotFound",
            DiagnosticKind::Conflict => "Conflict",
            DiagnosticKind::Unauthorized => "Unauthorized",
            DiagnosticKind::Forbidden => "Forbidden",
            DiagnosticKind::RateLimited => "RateLimited",
            DiagnosticKind::Upstream => "Upstream",
            DiagnosticKind::Malformed => "Malformed",
            DiagnosticKind::UnknownStatus => "UnknownStatus",
        }
    }

    pub open spec fn name_text(self) -> Seq<char> {
        match self {
            DiagnosticKind::Validation => "Validation"@,
            DiagnosticKind::NotFound => "NotFound"@,
            DiagnosticKind::Conflict => "Conflict"@,
            DiagnosticKind::Unauthorized => "Unauthorized"@,
            DiagnosticKind::Forbidden => "Forbidden"@,
            DiagnosticKind::RateLimited => "RateLimited"@,
            DiagnosticKind::Upstream => "Upstream"@,
            DiagnosticKind::Malformed => "Malformed"@,
            DiagnosticKind::UnknownStatus => "UnknownStatus"@,
        }
    }
}

/// What a diagnostic tells.
pub struct DiagnosticView {
    pub kind: DiagnosticKind,
    pub request_id: Option<Seq<char>>,
    pub retryable: bool,
}

/// Sanitized diagnostic; upstream payloads and provider messages are never retained.
#[derive(PartialEq, Eq)]
pub struct Diagnostic {
    kind: DiagnosticKind,
    request_id: Option<String>,
    retryable: bool,
}

impl View for Diagnostic {
    type V = DiagnosticView;

    closed spec fn view(&self) -> DiagnosticView {
        DiagnosticView {
            kind: self.kind,
            request_id: match self.request_id {
                Some(id) => Some(id@),
                None => None,
            },
            retryable: self.retryable,
        }
    }
}

/// How a diagnostic is rendered: the request identity never in clear.
pub open spec fn diagnostic_text(diagnostic: DiagnosticView) -> Seq<char> {
    "Diagnostic { kind: "@ + diagnostic.kind.name_text() + ", request_id: "@ + (
    if diagnostic.request_id is Some {
        "Some(\"[REDACTED]\")"@
    } else {
        "None"@
    }) + ", retryable: "@ + (if diagnostic.retryable {
        "true"@
    } else {
        "false"@
    }) + " }"@
}

impl core::fmt::Debug for Diagnostic {
    fn fmt(&self, formatter: &mut core::fmt::Formatter<'_>) -> (r: Result<(), core::fmt::Error>)
        ensures
            r is Ok ==> display::wrote(*old(formatter), *final(formatter), diagnostic_text(self@)),
    {
        let request_id = if self.request_id.is_some() {
            "Some(\"[REDACTED]\")"
        } else {
            "None"
        };
        let retryable = if self.retryable {
            "true"
        } else {
            "false"
        };
        let rendered = String::from_str("Diagnostic { kind: ").concat(self.kind.name()).concat(
            ", request_id: ",
        ).concat(request_id).concat(", retryable: ").concat(retryable).concat(" }");
        formatter.write_str(rendered.as_str())
    }
}

impl Clone for Diagnostic {
    fn clone(&self) -> (r: Self)
        ensures
            r == *self,
    {
        Diagnostic {
            kind: self.kind,
            request_id: match &self.request_id {
                Some(id) => Some(id.clone()),
                None => None,
            },
            retryable: self.retryable,
        }
    }
}

impl Diagnostic {
    #[must_use]
    pub fn kind(&self) -> (r: DiagnosticKind)
        ensures
            r == self@.kind,
    {
        self.kind
    }

    #[must_use]
    pub fn request_id(&self) -> (r: Option<&str>)
        ensures
            match self@.request_id {
                Some(id) => r is Some && r->0@ == id,
                None => r is None,
            },
    {
        match &self.request_id {
            Some(id) => Some(id.as_str()),
            None => None,
        }
    }

    #[must_use]
    pub fn retryable(&self) -> (r: bool)
        ensures
            r == self@.retryable,
    {
        self.retryable
    }

    fn new(kind: DiagnosticKind, request_id: Option<&String>) -> (r: Self)
        ensures
            r@ == (DiagnosticView {
                kind,
                request_id: match request_id {
                    Some(id) => Some(id@),
                    None => None,
                },
                retryable: kind.is_retryable(),
            }),
    {
        Diagnostic {
            kind,
            request_id: match request_id {
                Some(id) => Some(id.clone()),
                None => None,
            },
            retryable: kind.retryable(),
        }
    }

    fn conflict(request_id: &String, retryable: bool) -> (r: Self)
        ensures
            r@ == (DiagnosticView {
                kind: DiagnosticKind::Conflict,
                request_id: Some(request_id@),
                retryable,
            }),
    {
        Diagnostic {
            kind: DiagnosticKind::Conflict,
            request_id: Some(request_id.clone()),
            retryable,
        }
    }
}

#[derive(Clone, Copy, Debug, PartialEq, Eq, Structural)]
pub enum PolicyCondition {
    Reconciling,
    PendingDevice,
}

impl PolicyCondition {
    /// The text of the value on the wire.
    pub open spec fn text(self) -> Seq<char> {
        match self {
            PolicyCondition::Reconciling => "Reconciling"@,
            PolicyCondition::PendingDevice => "PendingDevice"@,
        }
    }

    #[must_use]
    pub fn as_str(self) -> (r: &'static str)
        ensures
            r@ == self.text(),
    {
        match self {
            PolicyCondition::Reconciling => "Reconciling",
            PolicyCondition::PendingDevice => "PendingDevice",
        }
    }
}

#[derive(Clone, Copy, Debug, PartialEq, Eq, Structural)]
pub enum ActiveCommandState {
    Queued,
    Published,
    Received,
}

impl ActiveCommandState {
    /// The text of the value on the wire.
    pub open spec fn text(self) -> Seq<char> {
        match self {
            ActiveCommandState::Queued => "queued"@,
            ActiveCommandState::Published => "published"@,
            ActiveCommandState::Received => "received"@,
        }
    }

    #[must_use]
    pub fn as_str(self) -> (r: &'static str)
        ensures
            r@ == self.text(),
    {
        match self {
            ActiveCommandState::Queued => "queued",
            ActiveCommandState::Published => "published",
            ActiveCommandState::Received => "received",
        }
    }
}

#[derive(Clone, Copy, Debug, PartialEq, Eq, Structural)]
pub enum ConditionStatus {
    True,
    False,
    Unknown,
}

impl ConditionStatus {
    /// The text of the value on the wire.
    pub open spec fn text(self) -> Seq<char> {
        match self {
            ConditionStatus::True => "True"@,
            ConditionStatus::False => "False"@,
            ConditionStatus::Unknown => "Unknown"@,
        }
    }

    #[must_use]
    pub fn as_str(self) -> (r: &'static str)
        ensures
            r@ == self.text(),
    {
        match self {
            ConditionStatus::True => "True",
            ConditionStatus::False => "False",
            ConditionStatus::Unknown => "Unknown",
        }
    }
}

#[derive(Clone, Copy, Debug, PartialEq, Eq, Structural)]
pub enum ConditionType {
    Ready,
    Reconciling,
    PendingDevice,
    Degraded,
    Quarantined,
    Deleting,
}

impl ConditionType {
    /// The text of the value on the wire.
    pub open spec fn text(self) -> Seq<char> {
        match self {
            ConditionType::Ready => "Ready"@,
            ConditionType::Reconciling => "Reconciling"@,
            ConditionType::PendingDevice => "PendingDevice"@,
            ConditionType::Degraded => "Degraded"@,
            ConditionType::Quarantined => "Quarantined"@,
            ConditionType::Deleting => "Deleting"@,
        }
    }

    #[must_use]
    pub fn as_str(self) -> (r: &'static str)
        ensures
            r@ == self.text(),
    {
        match self {
            ConditionType::Ready => "Ready",
            ConditionType::Reconciling => "Reconciling",
            ConditionType::PendingDevice => "PendingDevice",
            ConditionType::Degraded => "Degraded",
            ConditionType::Quarantined => "Quarantined",
            ConditionType::Deleting => "Deleting",
        }
    }
}

#[derive(Clone, Copy, Debug, PartialEq, Eq, Structural)]
pub enum ConditionReason {
    DesiredAccepted,
    CommandQueued,
    AwaitingDevice,
    DeviceReported,
    StateMatches,
    StateDrift,
    CommandRejected,
    CommandTimedOut,
    ProtocolViolation,
    QuarantinedByOperator,
    DeletionPending,
    DeletionComplete,
    ArtifactUnavailable,
    TransportUnavailable,
}

impl ConditionReason {
    /// The text of the value on the wire.
    pub open spec fn text(self) -> Seq<char> {
        match self {
            ConditionReason::DesiredAccepted => "DesiredAccepted"@,
            ConditionReason::CommandQueued => "CommandQueued"@,
            ConditionReason::AwaitingDevice => "AwaitingDevice"@,
            ConditionReason::DeviceReported => "DeviceReported"@,
            ConditionReason::StateMatches => "StateMatches"@,
            ConditionReason::StateDrift => "StateDrift"@,
            ConditionReason::CommandRejected => "CommandRejected"@,
            ConditionReason::CommandTimedOut => "CommandTimedOut"@,
            ConditionReason::ProtocolViolation => "ProtocolViolation"@,
            ConditionReason::QuarantinedByOperator => "QuarantinedByOperator"@,
            ConditionReason::DeletionPending => "DeletionPending"@,
            ConditionReason::DeletionComplete => "DeletionComplete"@,
            ConditionReason::ArtifactUnavailable => "ArtifactUnavailable"@,
            ConditionReason::TransportUnavailable => "TransportUnavailable"@,
        }
    }

    #[must_use]
    pub fn as_str(self) -> (r: &'static str)
        ensures
            r@ == self.text(),
    {
        match self {
            ConditionReason::DesiredAccepted => "DesiredAccepted",
            ConditionReason::CommandQueued => "CommandQueued",
            ConditionReason::AwaitingDevice => "AwaitingDevice",
            ConditionReason::DeviceReported => "DeviceReported",
            ConditionReason::StateMatches => "StateMatches",
            ConditionReason::StateDrift => "StateDrift",
            ConditionReason::CommandRejected => "CommandRejected",
            ConditionReason::CommandTimedOut => "CommandTimedOut",
            ConditionReason::ProtocolViolation => "ProtocolViolation",
            ConditionReason::QuarantinedByOperator => "QuarantinedByOperator",
            ConditionReason::DeletionPending => "DeletionPending",
            ConditionReason::DeletionComplete => "DeletionComplete",
            ConditionReason::ArtifactUnavailable => "ArtifactUnavailable",
            ConditionReason::TransportUnavailable => "TransportUnavailable",
        }
    }
}

pub open spec fn policy_condition_of(value: PolicyDataCondition) -> PolicyCondition {
    match value {
        PolicyDataCondition::Reconciling => PolicyCondition::Reconciling,
        PolicyDataCondition::PendingDevice => PolicyCondition::PendingDevice,
    }
}

fn policy_condition(value: PolicyDataCondition) -> (r: PolicyCondition)
    ensures
        r == policy_condition_of(value),
{
    match value {
        PolicyDataCondition::Reconciling => PolicyCondition::Reconciling,
        PolicyDataCondition::PendingDevice => PolicyCondition::PendingDevice,
    }
}

pub open spec fn command_state_of(value: CanonicalCommandState) -> ActiveCommandState {
    match value {
        CanonicalCommandState::Queued => ActiveCommandState::Queued,
        CanonicalCommandState::Published => ActiveCommandState::Published,
        CanonicalCommandState::Received => ActiveCommandState::Received,
    }
}

fn command_state(value: CanonicalCommandState) -> (r: ActiveCommandState)
    ensures
        r == command_state_of(value),
{
    match value {
        CanonicalCommandState::Queued => ActiveCommandState::Queued,
        CanonicalCommandState::Published => ActiveCommandState::Published,
        CanonicalCommandState::Received => ActiveCommandState::Received,
    }
}

pub open spec fn condition_status_of(value: CanonicalConditionStatus) -> ConditionStatus {
    match value {
        CanonicalConditionStatus::True => ConditionStatus::True,
        CanonicalConditionStatus::False => ConditionStatus::False,
        CanonicalConditionStatus::Unknown => ConditionStatus::Unknown,
    }
}

fn condition_status(value: CanonicalConditionStatus) -> (r: ConditionStatus)
    ensures
        r == condition_status_of(value),
{
    match value {
        CanonicalConditionStatus::True => ConditionStatus::True,
        CanonicalConditionStatus::False => ConditionStatus::False,
        CanonicalConditionStatus::Unknown => ConditionStatus::Unknown,
    }
}

pub open spec fn condition_type_of(value: CanonicalConditionType) -> ConditionType {
    match value {
        CanonicalConditionType::Ready => ConditionType::Ready,
        CanonicalConditionType::Reconciling => ConditionType::Reconciling,
        CanonicalConditionType::PendingDevice => ConditionType::PendingDevice,
        CanonicalConditionType::Degraded => ConditionType::Degraded,
        CanonicalConditionType::Quarantined => ConditionType::Quarantined,
        CanonicalConditionType::Deleting => ConditionType::Deleting,
    }
}

fn condition_type(value: CanonicalConditionType) -> (r: ConditionType)
    ensures
        r == condition_type_of(value),
{
    match value {
        CanonicalConditionType::Ready => ConditionType::Ready,
        CanonicalConditionType::Reconciling => ConditionType::Reconciling,
        CanonicalConditionType::PendingDevice => ConditionType::PendingDevice,
        CanonicalConditionType::Degraded => ConditionType::Degraded,
        CanonicalConditionType::Quarantined => ConditionType::Quarantined,
        CanonicalConditionType::Deleting => ConditionType::Deleting,
    }
}

pub open spec fn condition_reason_of(value: CanonicalConditionReason) -> ConditionReason {
    match value {
        CanonicalConditionReason::DesiredAccepted => ConditionReason::DesiredAccepted,
        CanonicalConditionReason::CommandQueued => ConditionReason::CommandQueued,
        CanonicalConditionReason::AwaitingDevice => ConditionReason::AwaitingDevice,
        CanonicalConditionReason::DeviceReported => ConditionReason::DeviceReported,
        CanonicalConditionReason::StateMatches => ConditionReason::StateMatches,
        CanonicalConditionReason::StateDrift => ConditionReason::StateDrift,
        CanonicalConditionReason::CommandRejected => ConditionReason::CommandRejected,
        CanonicalConditionReason::CommandTimedOut => ConditionReason::CommandTimedOut,
        CanonicalConditionReason::ProtocolViolation => ConditionReason::ProtocolViolation,
        CanonicalConditionReason::QuarantinedByOperator => ConditionReason::QuarantinedByOperator,
        CanonicalConditionReason::DeletionPending => ConditionReason::DeletionPending,
        CanonicalConditionReason::DeletionComplete => ConditionReason::DeletionComplete,
        CanonicalConditionReason::ArtifactUnavailable => ConditionReason::ArtifactUnavailable,
        CanonicalConditionReason::TransportUnavailable => ConditionReason::TransportUnavailable,
    }
}

fn condition_reason(value: CanonicalConditionReason) -> (r: ConditionReason)
    ensures
        r == condition_reason_of(value),
{
    match value {
        CanonicalConditionReason::DesiredAccepted => ConditionReason::DesiredAccepted,
        CanonicalConditionReason::CommandQueued => ConditionReason::CommandQueued,
        CanonicalConditionReason::AwaitingDevice => ConditionReason::AwaitingDevice,
        CanonicalConditionReason::DeviceReported => ConditionReason::DeviceReported,
        CanonicalConditionReason::StateMatches => ConditionReason::StateMatches,
        CanonicalConditionReason::StateDrift => ConditionReason::StateDrift,
        CanonicalConditionReason::CommandRejected => ConditionReason::CommandRejected,
        CanonicalConditionReason::CommandTimedOut => ConditionReason::CommandTimedOut,
        CanonicalConditionReason::ProtocolViolation => ConditionReason::ProtocolViolation,
        CanonicalConditionReason::QuarantinedByOperator => ConditionReason::QuarantinedByOperator,
        CanonicalConditionReason::DeletionPending => ConditionReason::DeletionPending,
        CanonicalConditionReason::DeletionComplete => ConditionReason::DeletionComplete,
        CanonicalConditionReason::ArtifactUnavailable => ConditionReason::ArtifactUnavailable,
        CanonicalConditionReason::TransportUnavailable => ConditionReason::TransportUnavailable,
    }
}

/// What an accepted policy is projected to.
#[derive(Clone, Copy, Debug, PartialEq, Eq, Structural)]
pub struct PolicyAcceptedProjection {
    receipt_id: Uuid,
    generation: u64,
    condition: PolicyCondition,
}

/// What the projection of an accepted policy says.
pub struct PolicyAcceptedView {
    pub receipt_id: u128,
    pub generation: u64,
    pub condition: PolicyCondition,
}

impl View for PolicyAcceptedProjection {
    type V = PolicyAcceptedView;

    closed spec fn view(&self) -> PolicyAcceptedView {
        PolicyAcceptedView {
            receipt_id: self.receipt_id@,
            generation: self.generation,
            condition: self.condition,
        }
    }
}

impl PolicyAcceptedProjection {
    #[must_use]
    pub fn receipt_id(&self) -> (r: Uuid)
        ensures
            r@ == self@.receipt_id,
    {
        self.receipt_id
    }

    #[must_use]
    pub fn generation(&self) -> (r: u64)
        ensures
            r == self@.generation,
    {
        self.generation
    }

    #[must_use]
    pub fn condition(&self) -> (r: PolicyCondition)
        ensures
            r == self@.condition,
    {
        self.condition
    }
}

#[derive(Debug, PartialEq, Eq)]
pub enum PolicyResponse {
    Accepted(PolicyAcceptedProjection),
    Rejected(Diagnostic),
}

/// What a policy response says.
pub enum PolicyResponseView {
    Accepted(PolicyAcceptedView),
    Rejected(DiagnosticView),
}

impl View for PolicyResponse {
    type V = PolicyResponseView;

    open spec fn view(&self) -> PolicyResponseView {
        match self {
            PolicyResponse::Accepted(accepted) => PolicyResponseView::Accepted(accepted@),
            PolicyResponse::Rejected(diagnostic) => PolicyResponseView::Rejected(diagnostic@),
        }
    }
}

/// A policy response body as each documented schema reads it.
#[derive(Debug)]
pub struct PolicyBody {
    pub accepted: Option<PolicyPutResponse>,
    pub validation: Option<ValidationResponse>,
    pub not_found: Option<NotFoundResponse>,
    pub conflict: Option<ConflictResponse>,
}

pub open spec fn diagnostic_of(
    kind: DiagnosticKind,
    request_id: Option<Seq<char>>,
) -> DiagnosticView {
    DiagnosticView { kind, request_id, retryable: kind.is_retryable() }
}

pub open spec fn rejection_of(
    kind: DiagnosticKind,
    request_id: Option<Seq<char>>,
) -> PolicyResponseView {
    PolicyResponseView::Rejected(diagnostic_of(kind, request_id))
}

/// The diagnostic for a status that no body is read for.
pub open spec fn bodyless_kind(status: u16) -> DiagnosticKind {
    if status == 401 {
        DiagnosticKind::Unauthorized
    } else if status == 403 {
        DiagnosticKind::Forbidden
    } else if status == 429 {
        DiagnosticKind::RateLimited
    } else if 500 <= status <= 599 {
        DiagnosticKind::Upstream
    } else {
        DiagnosticKind::UnknownStatus
    }
}

/// The projection of a policy response: a documented status with the body
/// documented for it, and nothing else of the body.
pub open spec fn policy_projection(status: u16, body: PolicyBody) -> PolicyResponseView {
    let malformed = rejection_of(DiagnosticKind::Malformed, None);
    if status == 200 {
        match body.accepted {
            Some(response) => PolicyResponseView::Accepted(
                PolicyAcceptedView {
                    receipt_id: response.data.authorization_receipt_id@,
                    generation: response.data.accepted_generation@,
                    condition: policy_condition_of(response.data.condition),
                },
            ),
            None => malformed,
        }
    } else if status == 400 {
        match body.validation {
            Some(response) => rejection_of(
                DiagnosticKind::Validation,
                Some(response.error.request_id@),
            ),
            None => malformed,
        }
    } else if status == 404 {
        match body.not_found {
            Some(response) => rejection_of(
                DiagnosticKind::NotFound,
                Some(response.error.request_id@),
            ),
            None => malformed,
        }
    } else if status == 409 {
        match body.conflict {
            Some(response) => PolicyResponseView::Rejected(
                match response.error {
                    ConflictError::ErrCoreVersionConflict {
                        request_id,
                        retryable,
                    } => DiagnosticView {
                        kind: DiagnosticKind::Conflict,
                        request_id: Some(request_id@),
                        retryable,
                    },
                    ConflictError::ErrCoreConflict { request_id, retryable } => DiagnosticView {
                        kind: DiagnosticKind::Conflict,
                        request_id: Some(request_id@),
                        retryable,
                    },
                },
            ),
            None => malformed,
        }
    } else {
        rejection_of(bodyless_kind(status), None)
    }
}

fn bodyless(status: u16) -> (r: DiagnosticKind)
    ensures
        r == bodyless_kind(status),
{
    if status == 401 {
        DiagnosticKind::Unauthorized
    } else if status == 403 {
        DiagnosticKind::Forbidden
    } else if status == 429 {
        DiagnosticKind::RateLimited
    } else if 500 <= status && status <= 599 {
        DiagnosticKind::Upstream
    } else {
        DiagnosticKind::UnknownStatus
    }
}

fn rejected_policy(kind: DiagnosticKind, request_id: Option<&String>) -> (r: PolicyResponse)
    ensures
        r@ == rejection_of(
            kind,
            match request_id {
                Some(id) => Some(id@),
                None => None,
            },
        ),
{
    PolicyResponse::Rejected(Diagnostic::new(kind, request_id))
}

/// Decodes only documented policy status/body pairs into a closed projection.
#[must_use]
pub fn decode_policy_response(status: u16, body: &PolicyBody) -> (r: PolicyResponse)
    ensures
        r@ == policy_projection(status, *body),
{
    if status == 200 {
        match &body.accepted {
            Some(response) => PolicyResponse::Accepted(
                PolicyAcceptedProjection {
                    receipt_id: response.data.authorization_receipt_id,
                    generation: response.data.accepted_generation.get(),
                    condition: policy_condition(response.data.condition),
                },
            ),
            None => rejected_policy(DiagnosticKind::Malformed, None),
        }
    } else if status == 400 {
        match &body.validation {
            Some(response) => rejected_policy(
                DiagnosticKind::Validation,
                Some(&response.error.request_id),
            ),
            None => rejected_policy(DiagnosticKind::Malformed, None),
        }
    } else if status == 404 {
        match &body.not_found {
            Some(response) => rejected_policy(
                DiagnosticKind::NotFound,
                Some(&response.error.request_id),
            ),
            None => rejected_policy(DiagnosticKind::Malformed, None),
        }
    } else if status == 409 {
        match &body.conflict {
            Some(response) => match &response.error {
                ConflictError::ErrCoreVersionConflict { request_id, retryable } =>
                    PolicyResponse::Rejected(Diagnostic::conflict(request_id, *retryable)),
                ConflictError::ErrCoreConflict { request_id, retryable } =>
                    PolicyResponse::Rejected(Diagnostic::conflict(request_id, *retryable)),
            },
            None => rejected_policy(DiagnosticKind::Malformed, None),
        }
    } else {
        rejected_policy(bodyless(status), None)
    }
}

#[derive(Clone, Copy, Debug, PartialEq, Eq, Structural)]
pub struct ActiveCommandProjection {
    fence_epoch: u64,
    state: ActiveCommandState,
}

/// What the projection of an active command says.
pub struct ActiveCommandView {
    pub fence_epoch: u64,
    pub state: ActiveCommandState,
}

impl View for ActiveCommandProjection {
    type V = ActiveCommandView;

    closed spec fn view(&self) -> ActiveCommandView {
        ActiveCommandView { fence_epoch: self.fence_epoch, state: self.state }
    }
}

impl ActiveCommandProjection {
    #[must_use]
    pub fn fence_epoch(&self) -> (r: u64)
        ensures
            r == self@.fence_epoch,
    {
        self.fence_epoch
    }

    #[must_use]
    pub fn state(&self) -> (r: ActiveCommandState)
        ensures
            r == self@.state,
    {
        self.state
    }
}

#[derive(Clone, Copy, Debug, PartialEq, Eq, Structural)]
pub struct ConditionProjection {
    observed_generation: u64,
    reason: ConditionReason,
    status: ConditionStatus,
    type_: ConditionType,
    last_transition_at: i64,
}

/// What the projection of a condition says.
pub struct ConditionView {
    pub observed_generation: u64,
    pub reason: ConditionReason,
    pub status: ConditionStatus,
    pub type_: ConditionType,
    pub last_transition_at: i64,
}

impl View for ConditionProjection {
    type V = ConditionView;

    closed spec fn view(&self) -> ConditionView {
        ConditionView {
            observed_generation: self.observed_generation,
            reason: self.reason,
            status: self.status,
            type_: self.type_,
            last_transition_at: self.last_transition_at,
        }
    }
}

impl ConditionProjection {
    #[must_use]
    pub fn observed_generation(&self) -> (r: u64)
        ensures
            r == self@.observed_generation,
    {
        self.observed_generation
    }

    #[must_use]
    pub fn reason(&self) -> (r: ConditionReason)
        ensures
            r == self@.reason,
    {
        self.reason
    }

    #[must_use]
    pub fn status(&self) -> (r: ConditionStatus)
        ensures
            r == self@.status,
    {
        self.status
    }

    #[must_use]
    pub fn type_(&self) -> (r: ConditionType)
        ensures
            r == self@.type_,
    {
        self.type_
    }

    #[must_use]
    pub fn last_transition_at(&self) -> (r: i64)
        ensures
            r == self@.last_transition_at,
    {
        self.last_transition_at
    }
}

/// What the projection of a status says.
pub struct StatusView {
    pub desired_generation: Option<u64>,
    pub authorization_receipt_id: Option<u128>,
    pub observed_generation: u64,
    pub active_command: Option<ActiveCommandView>,
    pub conditions: Seq<ConditionView>,
}

#[derive(Debug, PartialEq, Eq)]
pub struct StatusProjection {
    desired_generation: Option<u64>,
    authorization_receipt_id: Option<Uuid>,
    observed_generation: u64,
    active_command: Option<ActiveCommandProjection>,
    conditions: Vec<ConditionProjection>,
}

pub open spec fn conditions_view(conditions: Seq<ConditionProjection>) -> Seq<ConditionView> {
    conditions.map_values(|condition: ConditionProjection| condition@)
}

impl View for StatusProjection {
    type V = StatusView;

    closed spec fn view(&self) -> StatusView {
        StatusView {
            desired_generation: self.desired_generation,
            authorization_receipt_id: match self.authorization_receipt_id {
                Some(id) => Some(id@),
                None => None,
            },
            observed_generation: self.observed_generation,
            active_command: match self.active_command {
                Some(command) => Some(command@),
                None => None,
            },
            conditions: conditions_view(self.conditions@),
        }
    }
}

impl StatusProjection {
    #[must_use]
    pub fn desired_generation(&self) -> (r: Option<u64>)
        ensures
            r == self@.desired_generation,
    {
        self.desired_generation
    }

    #[must_use]
    pub fn authorization_receipt_id(&self) -> (r: Option<Uuid>)
        ensures
            match self@.authorization_receipt_id {
                Some(id) => r is Some && r->0@ == id,
                None => r is None,
            },
    {
        self.authorization_receipt_id
    }

    #[must_use]
    pub fn observed_generation(&self) -> (r: u64)
        ensures
            r == self@.observed_generation,
    {
        self.observed_generation
    }

    #[must_use]
    pub fn active_command(&self) -> (r: Option<&ActiveCommandProjection>)
        ensures
            match self@.active_command {
                Some(command) => r is Some && r->0@ == command,
                None => r is None,
            },
    {
        self.active_command.as_ref()
    }

    #[must_use]
    pub fn conditions(&self) -> (r: &[ConditionProjection])
        ensures
            conditions_view(r@) == self@.conditions,
    {
        self.conditions.as_slice()
    }
}

#[derive(Debug, PartialEq, Eq)]
pub enum StatusResponse {
    Observed(StatusProjection),
    Rejected(Diagnostic),
}

/// What a status response says.
pub enum StatusResponseView {
    Observed(StatusView),
    Rejected(DiagnosticView),
}

impl View for StatusResponse {
    type V = StatusResponseView;

    open spec fn view(&self) -> StatusResponseView {
        match self {
            StatusResponse::Observed(status) => StatusResponseView::Observed(status@),
            StatusResponse::Rejected(diagnostic) => StatusResponseView::Rejected(diagnostic@),
        }
    }
}

pub open spec fn condition_of(condition: StatusCondition) -> ConditionView {
    ConditionView {
        observed_generation: condition.observed_generation as u64,
        reason: condition_reason_of(condition.reason),
        status: condition_status_of(condition.status),
        type_: condition_type_of(condition.type_),
        last_transition_at: condition.last_transition_at,
    }
}

/// Every generation in the response is a generation.
pub open spec fn generations_valid(response: StatusGetResponse) -> bool {
    &&& response.data.observed_generation >= 0
    &&& forall|i: int|
        0 <= i < response.data.conditions@.len() ==> (
        #[trigger] response.data.conditions@[i]).observed_generation >= 0
}

pub open spec fn status_of(response: StatusGetResponse) -> StatusView {
    StatusView {
        desired_generation: match response.data.desired {
            Some(desired) => Some(desired.generation@),
            None => None,
        },
        authorization_receipt_id: match response.data.desired {
            Some(desired) => Some(desired.authorization_receipt_id@),
            None => None,
        },
        observed_generation: response.data.observed_generation as u64,
        active_command: match response.data.desired {
            Some(desired) => match desired.active_command {
                Some(command) => Some(
                    ActiveCommandView {
                        fence_epoch: command.fence_epoch@,
                        state: command_state_of(command.state),
                    },
                ),
                None => None,
            },
            None => None,
        },
        conditions: response.data.conditions@.map_values(
            |condition: StatusCondition| condition_of(condition),
        ),
    }
}

/// The projection of a status response: field for field, with no readiness
/// derived from it.
pub open spec fn status_projection(
    status: u16,
    body: Option<StatusGetResponse>,
) -> StatusResponseView {
    if status != 200 {
        StatusResponseView::Rejected(
            diagnostic_of(
                if status == 404 {
                    DiagnosticKind::NotFound
                } else {
                    bodyless_kind(status)
                },
                None,
            ),
        )
    } else {
        match body {
            Some(response) => if generations_valid(response) {
                StatusResponseView::Observed(status_of(response))
            } else {
                StatusResponseView::Rejected(diagnostic_of(DiagnosticKind::Malformed, None))
            },
            None => StatusResponseView::Rejected(diagnostic_of(DiagnosticKind::Malformed, None)),
        }
    }
}

fn project_conditions(conditions: &Vec<StatusCondition>) -> (r: Option<Vec<ConditionProjection>>)
    ensures
        match r {
            Some(projected) => {
                &&& forall|i: int|
                    0 <= i < conditions@.len() ==> (
                    #[trigger] conditions@[i]).observed_generation >= 0
                &&& conditions_view(projected@) == conditions@.map_values(
                    |condition: StatusCondition| condition_of(condition),
                )
            },
            None => exists|i: int|
                0 <= i < conditions@.len() && (#[trigger] conditions@[i]).observed_generation < 0,
        },
{
    let mut out: Vec<ConditionProjection> = Vec::new();
    let mut i: usize = 0;
    while i < conditions.len()
        invariant
            i <= conditions@.len(),
            out@.len() == i,
            forall|j: int| 0 <= j < i ==> (#[trigger] conditions@[j]).observed_generation >= 0,
            forall|j: int| 0 <= j < i ==> (#[trigger] out@[j])@ == condition_of(conditions@[j]),
        decreases conditions@.len() - i,
    {
        let condition = conditions[i];
        if condition.observed_generation < 0 {
            assert(conditions@[i as int].observed_generation < 0);
            return None;
        }
        out.push(
            ConditionProjection {
                observed_generation: condition.observed_generation as u64,
                reason: condition_reason(condition.reason),
                status: condition_status(condition.status),
                type_: condition_type(condition.type_),
                last_transition_at: condition.last_transition_at,
            },
        );
        i = i + 1;
    }
    assert(conditions_view(out@) =~= conditions@.map_values(
        |condition: StatusCondition| condition_of(condition),
    ));
    Some(out)
}

fn rejected_status(kind: DiagnosticKind) -> (r: StatusResponse)
    ensures
        r@ == StatusResponseView::Rejected(diagnostic_of(kind, None)),
{
    StatusResponse::Rejected(Diagnostic::new(kind, None))
}

/// Decodes only the documented status response into a closed projection.
#[must_use]
pub fn decode_status_response(status: u16, body: &Option<StatusGetResponse>) -> (r: StatusResponse)
    ensures
        r@ == status_projection(status, *body),
{
    if status != 200 {
        let kind = if status == 404 {
            DiagnosticKind::NotFound
        } else {
            bodyless(status)
        };
        return rejected_status(kind);
    }
    let response = match body {
        Some(response) => response,
        None => {
            return rejected_status(DiagnosticKind::Malformed);
        },
    };
    if response.data.observed_generation < 0 {
        return rejected_status(DiagnosticKind::Malformed);
    }
    let conditions = match project_conditions(&response.data.conditions) {
        Some(conditions) => conditions,
        None => {
            return rejected_status(DiagnosticKind::Malformed);
        },
    };
    let (desired_generation, authorization_receipt_id, active_command) =
        match &response.data.desired {
        Some(desired) => (
            Some(desired.generation.get()),
            Some(desired.authorization_receipt_id),
            match desired.active_command {
                Some(command) => Some(
                    ActiveCommandProjection {
                        fence_epoch: command.fence_epoch.get(),
                        state: command_state(command.state),
                    },
                ),
                None => None,
            },
        ),
        None => (None, None, None),
    };
    StatusResponse::Observed(
        StatusProjection {
            desired_generation,
            authorization_receipt_id,
            observed_generation: response.data.observed_generation as u64,
            active_command,
            conditions,
        },
    )
}

/// A diagnostic is retryable only for a busy or failing service, or where a
/// conflict says so itself.
pub proof fn law_only_capacity_and_conflicts_are_retryable(status: u16, body: PolicyBody)
    ensures
        policy_projection(status, body) matches PolicyResponseView::Rejected(diagnostic)
            ==> diagnostic.retryable ==> (diagnostic.kind.is_retryable() || diagnostic.kind
            == DiagnosticKind::Conflict),
{
}

/// A body is looked at only for the statuses that document one.
pub proof fn law_undocumented_bodies_are_not_read(status: u16, body: PolicyBody, other: PolicyBody)
    requires
        status != 200,
        status != 400,
        status != 404,
        status != 409,
    ensures
        policy_projection(status, body) == policy_projection(status, other),
        policy_projection(status, body) is Rejected,
{
}

} // verus!
