//! The public device-security contract as plain values: what the documented
//! messages carry once their encoding has been read.

use crate::identity::Uuid;
use crate::nonzero::NonZeroU64;
use vstd::prelude::*;

verus! {

/// The command that asks a device to apply a certificate.
#[derive(Debug, PartialEq, Eq)]
pub struct ApplyRequest {
    pub artifact_digest: String,
    pub artifact_id: String,
    pub authorization_receipt_id: Uuid,
    pub deadline_epoch_seconds: NonZeroU64,
    pub desired_generation: NonZeroU64,
    pub device_id: Uuid,
    pub fence_epoch: NonZeroU64,
    pub intent_digest: String,
    pub policy_hash: String,
}

/// Why a device rejected a command, in the contract's own words.
#[derive(Clone, Copy, Debug, PartialEq, Eq, Structural)]
pub enum RejectedReason {
    ArtifactUnavailable,
    ArtifactDigestMismatch,
    PolicyRejected,
    GenerationStale,
    FenceEpochStale,
    MalformedCommand,
    DeviceFailure,
}

#[derive(Debug, PartialEq, Eq)]
pub struct ReceivedAck {
    pub command_id: String,
    pub desired_generation: NonZeroU64,
    pub device_id: Uuid,
    pub device_sequence: i64,
    pub fence_epoch: NonZeroU64,
    pub observed_at: i64,
}

#[derive(Debug, PartialEq, Eq)]
pub struct RejectedAck {
    pub command_id: String,
    pub desired_generation: NonZeroU64,
    pub device_id: Uuid,
    pub device_sequence: i64,
    pub fence_epoch: NonZeroU64,
    pub observed_at: i64,
    pub reason: RejectedReason,
}

/// The acknowledgement of a command.
#[derive(Debug, PartialEq, Eq)]
pub enum AckPayload {
    ReceivedPayload(ReceivedAck),
    RejectedPayload(RejectedAck),
}

/// The report of an installed credential.
#[derive(Debug, PartialEq, Eq)]
pub struct ReportPayload {
    pub artifact_digest: String,
    pub device_id: Uuid,
    pub device_sequence: i64,
    pub expires_at: Option<i64>,
    pub fence_epoch: NonZeroU64,
    pub observed_at: i64,
    pub observed_generation: NonZeroU64,
    pub state_hash: String,
}

#[derive(Clone, Copy, Debug, PartialEq, Eq, Structural)]
pub enum StaleReason {
    GenerationStale,
    FenceEpochStale,
    DeviceSequenceStale,
}

#[derive(Clone, Copy, Debug, PartialEq, Eq, Structural)]
pub enum ReceiptRejectionReason {
    NotAccepted,
    SchemaRejected,
    ProtocolViolation,
}

#[derive(Debug, PartialEq, Eq)]
pub struct CommittedReceipt {
    pub authorization_receipt_id: Uuid,
    pub committed_at: i64,
    pub desired_generation: NonZeroU64,
    pub device_id: Uuid,
    pub ingress_envelope_id: String,
}

#[derive(Debug, PartialEq, Eq)]
pub struct DuplicateReceipt {
    pub authorization_receipt_id: Uuid,
    pub committed_at: i64,
    pub desired_generation: NonZeroU64,
    pub device_id: Uuid,
    pub ingress_envelope_id: String,
}

#[derive(Debug, PartialEq, Eq)]
pub struct StaleReceipt {
    pub authorization_receipt_id: Uuid,
    pub committed_at: i64,
    pub desired_generation: NonZeroU64,
    pub device_id: Uuid,
    pub ingress_envelope_id: String,
    pub reason: StaleReason,
}

#[derive(Debug, PartialEq, Eq)]
pub struct RejectedReceipt {
    pub committed_at: i64,
    pub device_id: Uuid,
    pub ingress_envelope_id: String,
    pub reason: ReceiptRejectionReason,
}

/// The receipt for an inbound device fact.
#[derive(Debug, PartialEq, Eq)]
pub enum ReceiptPayload {
    CommittedPayload(CommittedReceipt),
    DuplicatePayload(DuplicateReceipt),
    StalePayload(StaleReceipt),
    RejectedPayload(RejectedReceipt),
}

/// Where an accepted policy stands.
#[derive(Clone, Copy, Debug, PartialEq, Eq, Structural)]
pub enum PolicyDataCondition {
    Reconciling,
    PendingDevice,
}

#[derive(Clone, Copy, Debug, PartialEq, Eq, Structural)]
pub struct PolicyData {
    pub accepted_generation: NonZeroU64,
    pub authorization_receipt_id: Uuid,
    pub condition: PolicyDataCondition,
}

/// The acceptance of a policy.
#[derive(Clone, Copy, Debug, PartialEq, Eq, Structural)]
pub struct PolicyPutResponse {
    pub data: PolicyData,
}

/// What the error responses have in common.
#[derive(Debug, PartialEq, Eq)]
pub struct ErrorBody {
    pub request_id: String,
    pub retryable: bool,
}

#[derive(Debug, PartialEq, Eq)]
pub struct ValidationResponse {
    pub error: ErrorBody,
}

#[derive(Debug, PartialEq, Eq)]
pub struct NotFoundResponse {
    pub error: ErrorBody,
}

/// The two conflicts that a policy can run into.
#[derive(Debug, PartialEq, Eq)]
pub enum ConflictError {
    ErrCoreVersionConflict { request_id: String, retryable: bool },
    ErrCoreConflict { request_id: String, retryable: bool },
}

#[derive(Debug, PartialEq, Eq)]
pub struct ConflictResponse {
    pub error: ConflictError,
}

#[derive(Clone, Copy, Debug, PartialEq, Eq, Structural)]
pub enum CanonicalCommandState {
    Queued,
    Published,
    Received,
}

#[derive(Clone, Copy, Debug, PartialEq, Eq, Structural)]
pub enum CanonicalConditionStatus {
    True,
    False,
    Unknown,
}

#[derive(Clone, Copy, Debug, PartialEq, Eq, Structural)]
pub enum CanonicalConditionType {
    Ready,
    Reconciling,
    PendingDevice,
    Degraded,
    Quarantined,
    Deleting,
}

#[derive(Clone, Copy, Debug, PartialEq, Eq, Structural)]
pub enum CanonicalConditionReason {
    DesiredAccepted,
    CommandQueued,
    AwaitingDevice,
    DeviceReported,
    StateMatches,
    StateDrift,
    CommandRejected,
    CommandTimedOut,
    ProtocolViolation,
    QuarantinedByOperator,
    DeletionPending,
    DeletionComplete,
    ArtifactUnavailable,
    TransportUnavailable,
}

#[derive(Clone, Copy, Debug, PartialEq, Eq, Structural)]
pub struct StatusActiveCommand {
    pub fence_epoch: NonZeroU64,
    pub state: CanonicalCommandState,
}

#[derive(Clone, Copy, Debug, PartialEq, Eq)]
pub struct StatusDesired {
    pub active_command: Option<StatusActiveCommand>,
    pub authorization_receipt_id: Uuid,
    pub generation: NonZeroU64,
}

#[derive(Clone, Copy, Debug, PartialEq, Eq, Structural)]
pub struct StatusCondition {
    pub last_transition_at: i64,
    pub observed_generation: i64,
    pub reason: CanonicalConditionReason,
    pub status: CanonicalConditionStatus,
    pub type_: CanonicalConditionType,
}

#[derive(Debug, PartialEq, Eq)]
pub struct StatusData {
    pub conditions: Vec<StatusCondition>,
    pub desired: Option<StatusDesired>,
    pub observed_generation: i64,
}

/// The status of a device's certificate.
#[derive(Debug, PartialEq, Eq)]
pub struct StatusGetResponse {
    pub data: StatusData,
}

} // verus!
