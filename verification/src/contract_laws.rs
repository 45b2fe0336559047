//! Laws of the public contract: what a mapped or projected fact says is what
//! the contract's message says, word for word and number for number, and
//! nothing is made of a message that does not hold up.

use crate::client;
use crate::client::{
    ActiveCommandState, ConditionStatus, DiagnosticKind, FacadeError, PolicyBody, PolicyCondition,
    PolicyPut, PolicyResponse, PreparedRequest, StatusProjection, StatusResponse,
};
use crate::contract::{
    AckPayload, ApplyRequest, CanonicalCommandState, CanonicalConditionReason,
    CanonicalConditionStatus, CanonicalConditionType, ConflictError, ConflictResponse,
    NotFoundResponse, PolicyPutResponse, ReceiptPayload, ReceiptRejectionReason, RejectedReason,
    ReportPayload, StaleReason, StatusGetResponse,
};
use crate::digest;
use crate::identity;
use crate::identity::{CommandRejection, DeviceCommand, DeviceIdentity, OutboundFact, Uuid};
use crate::journey;
use crate::journey::JourneyError;
use crate::mapping;
use crate::mapping::{
    CorrelatedCommand, MappingContext, MappingError, PolicyPutFailure, StatusObservation,
};
use crate::model::{
    ApplicationReceiptObservation, ApplicationRejectionReason, ApplicationStaleReason,
    CommandAcknowledgement, CommandAcknowledgementOutcome, CommandRejectionReason, CredentialReport,
    LineageView, ReceiptOutcomeView, RotationAccepted, RotationPolicy,
};
use crate::reference::{CommandRef, EventRef};
use crate::text;
use crate::wire;
use crate::wire::{EncodedOutbound, WireError};
use vstd::prelude::*;

verus! {

/// A text that can stand as a reference: something to see in it, and no
/// control character.
pub open spec fn visible(value: Seq<char>) -> bool {
    &&& exists|i: int| 0 <= i < value.len() && !text::is_white_space(#[trigger] value[i])
    &&& forall|i: int| 0 <= i < value.len() ==> !text::is_control(#[trigger] value[i])
}

proof fn lemma_visible(value: Seq<char>)
    ensures
        visible(value) <==> crate::reference::is_reference(value),
{
}

/// A mapping refuses a fact of another device before it looks at anything else.
pub open spec fn refuses_device(context: MappingContext, actual: Uuid, error: MappingError) -> bool {
    error matches MappingError::DeviceMismatch { expected, actual: told } && expected@
        == context@.expected_device_id && told == actual
}

/// Both vocabularies name the same rejection.
pub open spec fn same_rejection(told: RejectedReason, mapped: CommandRejectionReason) -> bool {
    match mapped {
        CommandRejectionReason::ArtifactUnavailable => told is ArtifactUnavailable,
        CommandRejectionReason::ArtifactDigestMismatch => told is ArtifactDigestMismatch,
        CommandRejectionReason::PolicyRejected => told is PolicyRejected,
        CommandRejectionReason::GenerationStale => told is GenerationStale,
        CommandRejectionReason::FenceEpochStale => told is FenceEpochStale,
        CommandRejectionReason::MalformedCommand => told is MalformedCommand,
        CommandRejectionReason::DeviceFailure => told is DeviceFailure,
    }
}

/// An acknowledgement is mapped as received exactly when the payload says
/// received, and as rejected for the payload's own reason when it says
/// rejected; command, position and time are the payload's.
pub proof fn law_acknowledgements_are_mapped_as_told(
    context: &MappingContext,
    event: EventRef,
    payload: AckPayload,
    r: Result<CommandAcknowledgement, MappingError>,
)
    requires
        call_ensures(mapping::map_acknowledgement, (context, event, payload), r),
    ensures
        match payload {
            AckPayload::ReceivedPayload(told) => {
                &&& r is Ok <==> told.device_id@ == context@.expected_device_id && visible(
                    told.command_id@,
                ) && told.device_sequence >= 0
                &&& told.device_id@ != context@.expected_device_id ==> r is Err && refuses_device(
                    *context,
                    told.device_id,
                    r->Err_0,
                )
                &&& told.device_id@ == context@.expected_device_id && visible(told.command_id@)
                    && told.device_sequence < 0 ==> r == Err::<
                    CommandAcknowledgement,
                    MappingError,
                >(MappingError::NegativeDeviceSequence(told.device_sequence))
                &&& r is Ok ==> {
                    let mapped = r->Ok_0@;
                    &&& mapped.outcome == CommandAcknowledgementOutcome::Received
                    &&& mapped.coordinates == context@.coordinates
                    &&& mapped.event == event@
                    &&& mapped.command == told.command_id@
                    &&& mapped.position.desired_generation == told.desired_generation@
                    &&& mapped.position.fence_epoch == told.fence_epoch@
                    &&& mapped.position.device_sequence == told.device_sequence
                    &&& mapped.position.observed_at == told.observed_at
                }
            },
            AckPayload::RejectedPayload(told) => {
                &&& r is Ok <==> told.device_id@ == context@.expected_device_id && visible(
                    told.command_id@,
                ) && told.device_sequence >= 0
                &&& told.device_id@ != context@.expected_device_id ==> r is Err && refuses_device(
                    *context,
                    told.device_id,
                    r->Err_0,
                )
                &&& told.device_id@ == context@.expected_device_id && visible(told.command_id@)
                    && told.device_sequence < 0 ==> r == Err::<
                    CommandAcknowledgement,
                    MappingError,
                >(MappingError::NegativeDeviceSequence(told.device_sequence))
                &&& r is Ok ==> {
                    let mapped = r->Ok_0@;
                    &&& mapped.outcome is Rejected
                    &&& same_rejection(told.reason, mapped.outcome->Rejected_0)
                    &&& mapped.coordinates == context@.coordinates
                    &&& mapped.event == event@
                    &&& mapped.command == told.command_id@
                    &&& mapped.position.desired_generation == told.desired_generation@
                    &&& mapped.position.fence_epoch == told.fence_epoch@
                    &&& mapped.position.device_sequence == told.device_sequence
                    &&& mapped.position.observed_at == told.observed_at
                }
            },
        },
{
    match payload {
        AckPayload::ReceivedPayload(told) => lemma_visible(told.command_id@),
        AckPayload::RejectedPayload(told) => lemma_visible(told.command_id@),
    }
}

/// A report is mapped with the payload's own generation, fence, number, time,
/// hash, digest and expiry, or refused.
pub proof fn law_reports_are_mapped_as_told(
    context: &MappingContext,
    event: EventRef,
    told: ReportPayload,
    r: Result<CredentialReport, MappingError>,
)
    requires
        call_ensures(mapping::map_report, (context, event, told), r),
    ensures
        r is Ok <==> told.device_id@ == context@.expected_device_id && told.device_sequence >= 0
            && visible(told.state_hash@) && visible(told.artifact_digest@),
        told.device_id@ != context@.expected_device_id ==> r is Err && refuses_device(
            *context,
            told.device_id,
            r->Err_0,
        ),
        told.device_id@ == context@.expected_device_id && told.device_sequence < 0 ==> r == Err::<
            CredentialReport,
            MappingError,
        >(MappingError::NegativeDeviceSequence(told.device_sequence)),
        r is Ok ==> {
            let mapped = r->Ok_0@;
            &&& mapped.coordinates == context@.coordinates
            &&& mapped.event == event@
            &&& mapped.position.observed_generation == told.observed_generation@
            &&& mapped.position.fence_epoch == told.fence_epoch@
            &&& mapped.position.device_sequence == told.device_sequence
            &&& mapped.position.observed_at == told.observed_at
            &&& mapped.state_hash == told.state_hash@
            &&& mapped.artifact_digest == told.artifact_digest@
            &&& mapped.expires_at == told.expires_at
        },
{
    lemma_visible(told.state_hash@);
    lemma_visible(told.artifact_digest@);
}

/// The lineage names the receipt by its canonical text, and its generation.
pub open spec fn lineage_told(lineage: LineageView, receipt: Uuid, generation: u64) -> bool {
    lineage.authorization_receipt == identity::hyphenated(receipt@) && lineage.desired_generation
        == generation
}

pub open spec fn same_staleness(told: StaleReason, mapped: ApplicationStaleReason) -> bool {
    match mapped {
        ApplicationStaleReason::GenerationStale => told is GenerationStale,
        ApplicationStaleReason::FenceEpochStale => told is FenceEpochStale,
        ApplicationStaleReason::DeviceSequenceStale => told is DeviceSequenceStale,
    }
}

pub open spec fn same_refusal(
    told: ReceiptRejectionReason,
    mapped: ApplicationRejectionReason,
) -> bool {
    match mapped {
        ApplicationRejectionReason::NotAccepted => told is NotAccepted,
        ApplicationRejectionReason::SchemaRejected => told is SchemaRejected,
        ApplicationRejectionReason::ProtocolViolation => told is ProtocolViolation,
    }
}

/// A receipt keeps its kind: committed is told of a committed payload alone,
/// duplicate of a duplicate one, stale of a stale one, and rejected of a
/// rejected one, each with the payload's own lineage and reason.
pub proof fn law_receipts_keep_their_kind(
    context: &MappingContext,
    event: EventRef,
    payload: ReceiptPayload,
    r: Result<ApplicationReceiptObservation, MappingError>,
)
    requires
        call_ensures(mapping::map_receipt, (context, event, payload), r),
    ensures
        r is Ok ==> {
            let mapped = r->Ok_0@;
            &&& mapped.coordinates == context@.coordinates
            &&& mapped.event == event@
            &&& mapped.outcome is Committed <==> payload is CommittedPayload
            &&& mapped.outcome is Duplicate <==> payload is DuplicatePayload
            &&& mapped.outcome is Stale <==> payload is StalePayload
            &&& mapped.outcome is Rejected <==> payload is RejectedPayload
            &&& match payload {
                ReceiptPayload::CommittedPayload(told) => {
                    &&& mapped.ingress_envelope == told.ingress_envelope_id@
                    &&& mapped.committed_at == told.committed_at
                    &&& mapped.outcome matches ReceiptOutcomeView::Committed(lineage)
                        && lineage_told(
                        lineage,
                        told.authorization_receipt_id,
                        told.desired_generation@,
                    )
                },
                ReceiptPayload::DuplicatePayload(told) => {
                    &&& mapped.ingress_envelope == told.ingress_envelope_id@
                    &&& mapped.committed_at == told.committed_at
                    &&& mapped.outcome matches ReceiptOutcomeView::Duplicate(lineage)
                        && lineage_told(
                        lineage,
                        told.authorization_receipt_id,
                        told.desired_generation@,
                    )
                },
                ReceiptPayload::StalePayload(told) => {
                    &&& mapped.ingress_envelope == told.ingress_envelope_id@
                    &&& mapped.committed_at == told.committed_at
                    &&& mapped.outcome matches ReceiptOutcomeView::Stale { lineage, reason }
                        && lineage_told(
                        lineage,
                        told.authorization_receipt_id,
                        told.desired_generation@,
                    ) && same_staleness(told.reason, reason)
                },
                ReceiptPayload::RejectedPayload(told) => {
                    &&& mapped.ingress_envelope == told.ingress_envelope_id@
                    &&& mapped.committed_at == told.committed_at
                    &&& mapped.outcome matches ReceiptOutcomeView::Rejected(reason)
                        && same_refusal(told.reason, reason)
                },
            }
        },
        ({
            let (device, envelope) = match payload {
                ReceiptPayload::CommittedPayload(told) => (
                    told.device_id,
                    told.ingress_envelope_id@,
                ),
                ReceiptPayload::DuplicatePayload(told) => (
                    told.device_id,
                    told.ingress_envelope_id@,
                ),
                ReceiptPayload::StalePayload(told) => (told.device_id, told.ingress_envelope_id@),
                ReceiptPayload::RejectedPayload(told) => (
                    told.device_id,
                    told.ingress_envelope_id@,
                ),
            };
            &&& r is Ok <==> device@ == context@.expected_device_id && visible(envelope)
            &&& device@ != context@.expected_device_id ==> r is Err && refuses_device(
                *context,
                device,
                r->Err_0,
            )
        }),
{
    match payload {
        ReceiptPayload::CommittedPayload(told) => lemma_visible(told.ingress_envelope_id@),
        ReceiptPayload::DuplicatePayload(told) => lemma_visible(told.ingress_envelope_id@),
        ReceiptPayload::StalePayload(told) => lemma_visible(told.ingress_envelope_id@),
        ReceiptPayload::RejectedPayload(told) => lemma_visible(told.ingress_envelope_id@),
    }
}

/// An accepted policy is mapped with its own receipt, generation and condition.
pub proof fn law_acceptances_are_mapped_as_told(
    context: &MappingContext,
    response: &PolicyPutResponse,
    r: Result<RotationAccepted, MappingError>,
)
    requires
        call_ensures(mapping::map_policy_success, (context, response), r),
    ensures
        r is Ok,
        r->Ok_0@.coordinates == context@.coordinates,
        r->Ok_0@.authorization_receipt == identity::hyphenated(
            response.data.authorization_receipt_id@,
        ),
        r->Ok_0@.accepted_generation == response.data.accepted_generation@,
        r->Ok_0@.condition is Reconciling <==> response.data.condition is Reconciling,
        r->Ok_0@.condition is PendingDevice <==> response.data.condition is PendingDevice,
{
}

/// A refused policy and a status are handed on as they came; a command is
/// correlated only with the device it names.
pub proof fn law_correlations_keep_their_parts(
    context: MappingContext,
    not_found: NotFoundResponse,
    missing: PolicyPutFailure,
    conflict: ConflictResponse,
    conflicting: PolicyPutFailure,
    status: StatusGetResponse,
    observed: StatusObservation,
    observed_parts: (MappingContext, StatusGetResponse),
    envelope: CommandRef,
    request: ApplyRequest,
    correlated: Result<CorrelatedCommand, MappingError>,
    parts: (MappingContext, CommandRef, ApplyRequest),
)
    requires
        call_ensures(mapping::map_policy_not_found, (not_found,), missing),
        call_ensures(mapping::map_policy_conflict, (conflict,), conflicting),
        call_ensures(mapping::observe_status, (context, status), observed),
        call_ensures(StatusObservation::into_parts, (observed,), observed_parts),
        call_ensures(mapping::correlate_command, (context, envelope, request), correlated),
        correlated is Ok ==> call_ensures(
            CorrelatedCommand::into_parts,
            (correlated->Ok_0,),
            parts,
        ),
    ensures
        missing == PolicyPutFailure::NotFound(not_found),
        conflicting == PolicyPutFailure::Conflict(conflict),
        observed_parts == (context, status),
        correlated is Ok <==> request.device_id@ == context@.expected_device_id,
        correlated is Ok ==> parts == (context, envelope, request),
        correlated is Err ==> refuses_device(context, request.device_id, correlated->Err_0),
{
}

// ---- Projections ----

/// The word of the contract for a condition's status.
pub open spec fn status_word(value: CanonicalConditionStatus) -> Seq<char> {
    match value {
        CanonicalConditionStatus::True => "True"@,
        CanonicalConditionStatus::False => "False"@,
        CanonicalConditionStatus::Unknown => "Unknown"@,
    }
}

/// The word of the contract for a condition's type.
pub open spec fn type_word(value: CanonicalConditionType) -> Seq<char> {
    match value {
        CanonicalConditionType::Ready => "Ready"@,
        CanonicalConditionType::Reconciling => "Reconciling"@,
        CanonicalConditionType::PendingDevice => "PendingDevice"@,
        CanonicalConditionType::Degraded => "Degraded"@,
        CanonicalConditionType::Quarantined => "Quarantined"@,
        CanonicalConditionType::Deleting => "Deleting"@,
    }
}

/// The word of the contract for a condition's reason.
pub open spec fn reason_word(value: CanonicalConditionReason) -> Seq<char> {
    match value {
        CanonicalConditionReason::DesiredAccepted => "DesiredAccepted"@,
        CanonicalConditionReason::CommandQueued => "CommandQueued"@,
        CanonicalConditionReason::AwaitingDevice => "AwaitingDevice"@,
        CanonicalConditionReason::DeviceReported => "DeviceReported"@,
        CanonicalConditionReason::StateMatches => "StateMatches"@,
        CanonicalConditionReason::StateDrift => "StateDrift"@,
        CanonicalConditionReason::CommandRejected => "CommandRejected"@,
        CanonicalConditionReason::CommandTimedOut => "CommandTimedOut"@,
        CanonicalConditionReason::ProtocolViolation => "ProtocolViolation"@,
        CanonicalConditionReason::QuarantinedByOperator => "QuarantinedByOperator"@,
        CanonicalConditionReason::DeletionPending => "DeletionPending"@,
        CanonicalConditionReason::DeletionComplete => "DeletionComplete"@,
        CanonicalConditionReason::ArtifactUnavailable => "ArtifactUnavailable"@,
        CanonicalConditionReason::TransportUnavailable => "TransportUnavailable"@,
    }
}

/// The word of the contract for a command's state.
pub open spec fn state_word(value: CanonicalCommandState) -> Seq<char> {
    match value {
        CanonicalCommandState::Queued => "queued"@,
        CanonicalCommandState::Published => "published"@,
        CanonicalCommandState::Received => "received"@,
    }
}

/// Different values are different words, so that a word names its value.
pub proof fn law_contract_words_are_distinct(
    status: CanonicalConditionStatus,
    other_status: CanonicalConditionStatus,
    type_: CanonicalConditionType,
    other_type: CanonicalConditionType,
    state: CanonicalCommandState,
    other_state: CanonicalCommandState,
)
    ensures
        status_word(status) == status_word(other_status) ==> status == other_status,
        type_word(type_) == type_word(other_type) ==> type_ == other_type,
        state_word(state) == state_word(other_state) ==> state == other_state,
{
    reveal_strlit("True");
    reveal_strlit("False");
    reveal_strlit("Unknown");
    reveal_strlit("Ready");
    reveal_strlit("Reconciling");
    reveal_strlit("PendingDevice");
    reveal_strlit("Degraded");
    reveal_strlit("Quarantined");
    reveal_strlit("Deleting");
    reveal_strlit("queued");
    reveal_strlit("published");
    reveal_strlit("received");
    if type_word(type_) == type_word(other_type) {
        assert(type_word(type_)[0] == type_word(other_type)[0]);
        assert(type_word(type_)[2] == type_word(other_type)[2]);
    }
    if state_word(state) == state_word(other_state) {
        assert(state_word(state)[0] == state_word(other_state)[0]);
    }
    if status_word(status) == status_word(other_status) {
        assert(status_word(status)[0] == status_word(other_status)[0]);
    }
}

/// Every condition of a projected status says what the response says: the
/// status, type and reason under the same words, the generation and the time
/// unchanged, and none is added, left out or moved. A status that is not 200,
/// a body that cannot be read and a negative generation show nothing.
pub proof fn law_statuses_are_shown_as_told(
    status: u16,
    body: &Option<StatusGetResponse>,
    r: StatusResponse,
)
    requires
        call_ensures(client::decode_status_response, (status, body), r),
    ensures
        r is Observed <==> {
            &&& status == 200
            &&& *body is Some
            &&& (*body)->0.data.observed_generation >= 0
            &&& forall|i: int|
                0 <= i < (*body)->0.data.conditions@.len() ==> (
                #[trigger] (*body)->0.data.conditions@[i]).observed_generation >= 0
        },
        r matches StatusResponse::Observed(shown) ==> {
            let told = (*body)->0.data;
            let seen = shown@;
            &&& seen.observed_generation == told.observed_generation
            &&& seen.conditions.len() == told.conditions@.len()
            &&& forall|i: int|
                #![trigger seen.conditions[i]]
                #![trigger told.conditions@[i]]
                0 <= i < told.conditions@.len() ==> {
                    &&& seen.conditions[i].status.text() == status_word(told.conditions@[i].status)
                    &&& seen.conditions[i].status is True <==> told.conditions@[i].status is True
                    &&& seen.conditions[i].status is False <==> told.conditions@[i].status is False
                    &&& seen.conditions[i].status is Unknown <==> told.conditions@[i].status
                        is Unknown
                    &&& seen.conditions[i].type_.text() == type_word(told.conditions@[i].type_)
                    &&& seen.conditions[i].type_ is Ready <==> told.conditions@[i].type_ is Ready
                    &&& seen.conditions[i].reason.text() == reason_word(told.conditions@[i].reason)
                    &&& seen.conditions[i].reason is StateMatches <==> told.conditions@[i].reason
                        is StateMatches
                    &&& seen.conditions[i].observed_generation
                        == told.conditions@[i].observed_generation
                    &&& seen.conditions[i].last_transition_at
                        == told.conditions@[i].last_transition_at
                }
            &&& seen.desired_generation is Some <==> told.desired is Some
            &&& seen.authorization_receipt_id is Some <==> told.desired is Some
            &&& told.desired is Some ==> {
                let desired = told.desired->0;
                &&& seen.desired_generation->0 == desired.generation@
                &&& seen.authorization_receipt_id->0 == desired.authorization_receipt_id@
                &&& seen.active_command is Some <==> desired.active_command is Some
                &&& desired.active_command is Some ==> seen.active_command->0.fence_epoch
                    == desired.active_command->0.fence_epoch@
                    && seen.active_command->0.state.text() == state_word(
                    desired.active_command->0.state,
                )
            }
            &&& told.desired is None ==> seen.active_command is None
        },
        r matches StatusResponse::Rejected(diagnostic) ==> {
            &&& diagnostic@.request_id is None
            &&& status == 200 ==> diagnostic@.kind is Malformed
            &&& status == 404 <==> diagnostic@.kind is NotFound
            &&& status == 401 <==> diagnostic@.kind is Unauthorized
            &&& status == 403 <==> diagnostic@.kind is Forbidden
            &&& status == 429 <==> diagnostic@.kind is RateLimited
            &&& 500 <= status <= 599 <==> diagnostic@.kind is Upstream
            &&& diagnostic@.retryable <==> status == 429 || 500 <= status <= 599
        },
{
    if let StatusResponse::Observed(shown) = r {
        let told = (*body)->0;
        assert forall|i: int|
            #![trigger shown@.conditions[i]]
            #![trigger told.data.conditions@[i]]
            0 <= i < told.data.conditions@.len() implies shown@.conditions[i]
            == client::condition_of(told.data.conditions@[i]) by {}
    }
    if status == 200 && *body is Some {
        assert(client::generations_valid((*body)->0) <==> ((*body)->0.data.observed_generation >= 0
            && forall|i: int|
            0 <= i < (*body)->0.data.conditions@.len() ==> (
            #[trigger] (*body)->0.data.conditions@[i]).observed_generation >= 0));
    }
}

/// A policy response is an acceptance exactly for status 200 with the body of
/// an acceptance, and then shows its receipt, generation and condition. Every
/// other one is a diagnostic whose kind follows from the status, which shows
/// the request identity of the documented body, and which is worth another
/// try only where the service is busy or failing or the conflict says so.
pub proof fn law_policy_responses_are_shown_as_told(
    status: u16,
    body: &PolicyBody,
    r: PolicyResponse,
)
    requires
        call_ensures(client::decode_policy_response, (status, body), r),
    ensures
        r is Accepted <==> status == 200 && body.accepted is Some,
        r matches PolicyResponse::Accepted(shown) ==> {
            let told = body.accepted->0.data;
            &&& shown@.receipt_id == told.authorization_receipt_id@
            &&& shown@.generation == told.accepted_generation@
            &&& shown@.condition is Reconciling <==> told.condition is Reconciling
            &&& shown@.condition is PendingDevice <==> told.condition is PendingDevice
        },
        r matches PolicyResponse::Rejected(diagnostic) ==> {
            let d = diagnostic@;
            &&& d.kind is Malformed <==> {
                ||| status == 200
                ||| status == 400 && body.validation is None
                ||| status == 404 && body.not_found is None
                ||| status == 409 && body.conflict is None
            }
            &&& d.kind is Validation <==> status == 400 && body.validation is Some
            &&& d.kind is NotFound <==> status == 404 && body.not_found is Some
            &&& d.kind is Conflict <==> status == 409 && body.conflict is Some
            &&& d.kind is Unauthorized <==> status == 401
            &&& d.kind is Forbidden <==> status == 403
            &&& d.kind is RateLimited <==> status == 429
            &&& d.kind is Upstream <==> 500 <= status <= 599
            &&& d.request_id is Some <==> d.kind is Validation || d.kind is NotFound || d.kind
                is Conflict
            &&& d.kind is Validation ==> d.request_id->0 == body.validation->0.error.request_id@
            &&& d.kind is NotFound ==> d.request_id->0 == body.not_found->0.error.request_id@
            &&& d.kind is Conflict ==> match body.conflict->0.error {
                ConflictError::ErrCoreVersionConflict { request_id, retryable } => d.request_id->0
                    == request_id@ && d.retryable == retryable,
                ConflictError::ErrCoreConflict { request_id, retryable } => d.request_id->0
                    == request_id@ && d.retryable == retryable,
            }
            &&& !(d.kind is Conflict) ==> (d.retryable <==> status == 429 || 500 <= status <= 599)
        },
{
}

/// The words that values are rendered with are the contract's own.
pub proof fn law_projected_words_are_the_contracts(
    policy: PolicyCondition,
    policy_word: &'static str,
    state: ActiveCommandState,
    rendered_state: &'static str,
    status: ConditionStatus,
    rendered_status: &'static str,
    kind: DiagnosticKind,
    code: &'static str,
)
    requires
        call_ensures(PolicyCondition::as_str, (policy,), policy_word),
        call_ensures(ActiveCommandState::as_str, (state,), rendered_state),
        call_ensures(ConditionStatus::as_str, (status,), rendered_status),
        call_ensures(DiagnosticKind::code, (kind,), code),
    ensures
        policy is Reconciling ==> policy_word@ == "Reconciling"@,
        policy is PendingDevice ==> policy_word@ == "PendingDevice"@,
        state is Queued ==> rendered_state@ == "queued"@,
        state is Published ==> rendered_state@ == "published"@,
        state is Received ==> rendered_state@ == "received"@,
        status is True ==> rendered_status@ == "True"@,
        status is False ==> rendered_status@ == "False"@,
        status is Unknown ==> rendered_status@ == "Unknown"@,
        kind is Validation ==> code@ == "validation_failed"@,
        kind is NotFound ==> code@ == "not_found"@,
        kind is Conflict ==> code@ == "conflict"@,
        kind is Unauthorized ==> code@ == "unauthorized"@,
        kind is Forbidden ==> code@ == "forbidden"@,
        kind is RateLimited ==> code@ == "rate_limited"@,
        kind is Upstream ==> code@ == "upstream_failure"@,
        kind is Malformed ==> code@ == "malformed_response"@,
        kind is UnknownStatus ==> code@ == "unknown_status"@,
{
}

/// A policy request asks for the policy it was made of, for that device,
/// under that key and expecting that generation.
pub proof fn law_policy_requests_ask_for_the_policy(
    device: Uuid,
    expected_generation: u64,
    key: Uuid,
    policy: &RotationPolicy,
    r: Result<PolicyPut, FacadeError>,
    encoded: Option<Vec<u8>>,
    prepared: Result<PreparedRequest, FacadeError>,
    status: PreparedRequest,
)
    requires
        call_ensures(client::prepare_policy_put, (device, expected_generation, key, policy), r),
        r is Ok ==> call_ensures(PolicyPut::with_body, (r->Ok_0, encoded), prepared),
        call_ensures(client::prepare_status_get, (device,), status),
    ensures
        r is Ok <==> expected_generation <= i64::MAX,
        r is Err ==> r->Err_0 is InvalidInput,
        r is Ok ==> {
            let asked = r->Ok_0.asks();
            &&& asked.expected_generation == expected_generation
            &&& asked.idempotency_key == key@
            &&& asked.key_usages == policy@.key_usages
            &&& policy@.renew_before_seconds <= i64::MAX ==> asked.renew_before_seconds
                == policy@.renew_before_seconds
            &&& policy@.validity_seconds <= i64::MAX ==> asked.validity_seconds
                == policy@.validity_seconds
            &&& asked.sans is Some <==> policy@.sans.len() > 0
            &&& asked.sans is Some ==> asked.sans->0 == policy@.sans
            &&& encoded is None <==> prepared is Err
            &&& encoded is Some ==> {
                &&& prepared->Ok_0@.method == "PUT"@
                &&& prepared->Ok_0@.path == "/api/v2/identity/devices/"@ + identity::hyphenated(
                    device@,
                ) + "/certificate-policy"@
                &&& prepared->Ok_0@.body == Some(encoded->0@)
            }
        },
        status@.method == "GET"@,
        status@.path == "/api/v2/identity/devices/"@ + identity::hyphenated(device@)
            + "/certificate-status"@,
        status@.body is None,
{
}

// ---- The wire ----

/// A request is taken as a command exactly if it names this device and every
/// part of it is well formed; and the command asks for what the request asks
/// for, part by part.
pub proof fn law_commands_are_decoded_as_told(
    identity: &DeviceIdentity,
    command_id: &str,
    request: ApplyRequest,
    r: Result<DeviceCommand, WireError>,
)
    requires
        call_ensures(wire::decode_command, (identity, command_id, request), r),
    ensures
        request.device_id@ != identity@.device ==> r is Err,
        !visible(command_id@) ==> r is Err,
        !digest::is_digest_text(request.artifact_digest@) ==> r is Err,
        !digest::is_digest_text(request.intent_digest@) ==> r is Err,
        !digest::is_digest_text(request.policy_hash@) ==> r is Err,
        !identity::is_artifact_id(request.artifact_id@) ==> r is Err,
        !identity::is_command_id(command_id@) ==> r is Err,
        r is Err ==> {
            ||| request.device_id@ != identity@.device
            ||| !visible(command_id@)
            ||| !identity::is_command_id(command_id@)
            ||| !identity::is_artifact_id(request.artifact_id@)
            ||| !digest::is_digest_text(request.artifact_digest@)
            ||| !digest::is_digest_text(request.intent_digest@)
            ||| !digest::is_digest_text(request.policy_hash@)
        },
        r is Ok ==> {
            let command = r->Ok_0@;
            &&& command.command_id == command_id@
            &&& command.device_id == request.device_id@
            &&& command.artifact_id == request.artifact_id@
            &&& command.artifact_digest == request.artifact_digest@
            &&& command.authorization_receipt_id == request.authorization_receipt_id@
            &&& command.deadline_epoch_seconds == request.deadline_epoch_seconds@
            &&& command.desired_generation == request.desired_generation@
            &&& command.fence_epoch == request.fence_epoch@
            &&& command.intent_digest == request.intent_digest@
            &&& command.policy_hash == request.policy_hash@
        },
{
    lemma_visible(command_id@);
}

/// Both vocabularies name the same reason.
pub open spec fn same_word(decided: CommandRejection, written: RejectedReason) -> bool {
    match written {
        RejectedReason::ArtifactUnavailable => decided is ArtifactUnavailable,
        RejectedReason::ArtifactDigestMismatch => decided is ArtifactDigestMismatch,
        RejectedReason::PolicyRejected => decided is PolicyRejected,
        RejectedReason::GenerationStale => decided is GenerationStale,
        RejectedReason::FenceEpochStale => decided is FenceEpochStale,
        RejectedReason::MalformedCommand => decided is MalformedCommand,
        RejectedReason::DeviceFailure => decided is DeviceFailure,
    }
}

/// What is written of a fact is what the fact tells: an acceptance is written
/// as received, a rejection as rejected for its own reason, a report with its
/// own position, hash, digest and expiry; under the fact's own event.
pub proof fn law_facts_are_written_as_decided(
    identity: &DeviceIdentity,
    outbound: OutboundFact,
    r: Result<EncodedOutbound, WireError>,
)
    requires
        call_ensures(wire::encode_outbound, (identity, outbound), r),
    ensures
        match outbound {
            OutboundFact::CommandAcknowledged { event_id, payload } => {
                &&& r is Ok <==> payload.desired_generation > 0 && payload.fence_epoch > 0
                    && payload.device_sequence <= i64::MAX
                &&& r is Ok ==> {
                    &&& r->Ok_0.event_id@ == event_id@
                    &&& r->Ok_0.kind is CommandAcknowledged
                    &&& r->Ok_0.payload is Acknowledgement
                    &&& match r->Ok_0.payload->Acknowledgement_0 {
                        AckPayload::ReceivedPayload(written) => {
                            &&& payload.rejection is None
                            &&& written.command_id@ == payload.command_id@
                            &&& written.device_id@ == identity@.device
                            &&& written.desired_generation@ == payload.desired_generation
                            &&& written.fence_epoch@ == payload.fence_epoch
                            &&& written.device_sequence == payload.device_sequence
                            &&& written.observed_at == payload.observed_at
                        },
                        AckPayload::RejectedPayload(written) => {
                            &&& payload.rejection is Some
                            &&& same_word(payload.rejection->0, written.reason)
                            &&& written.command_id@ == payload.command_id@
                            &&& written.device_id@ == identity@.device
                            &&& written.desired_generation@ == payload.desired_generation
                            &&& written.fence_epoch@ == payload.fence_epoch
                            &&& written.device_sequence == payload.device_sequence
                            &&& written.observed_at == payload.observed_at
                        },
                    }
                }
            },
            OutboundFact::CertificateReported { event_id, payload } => {
                &&& r is Ok <==> payload.observed_generation > 0 && payload.fence_epoch > 0
                    && payload.device_sequence <= i64::MAX
                &&& r is Ok ==> {
                    let written = r->Ok_0.payload->Report_0;
                    &&& r->Ok_0.event_id@ == event_id@
                    &&& r->Ok_0.kind is CertificateReported
                    &&& r->Ok_0.payload is Report
                    &&& written.device_id@ == identity@.device
                    &&& written.observed_generation@ == payload.observed_generation
                    &&& written.fence_epoch@ == payload.fence_epoch
                    &&& written.device_sequence == payload.device_sequence
                    &&& written.observed_at == payload.observed_at
                    &&& written.state_hash@ == payload.state_hash@
                    &&& written.artifact_digest@ == payload.artifact_digest@
                    &&& written.expires_at == payload.expires_at
                }
            },
        },
{
}

// ---- Traces ----

/// A status shows Ready for the generation it observes: a condition of that
/// type, true, because the state matches, at that generation.
pub open spec fn shows_ready(status: client::StatusView) -> bool {
    exists|i: int|
        0 <= i < status.conditions.len() && (#[trigger] status.conditions[i]).type_ is Ready
            && status.conditions[i].status is True && status.conditions[i].reason is StateMatches
            && status.conditions[i].observed_generation == status.observed_generation
}

proof fn lemma_ready(status: client::StatusView)
    ensures
        journey::ready(status) <==> shows_ready(status),
{
    if journey::ready(status) {
        let i = choose|i: int|
            0 <= i < status.conditions.len() && #[trigger] journey::ready_condition(
                status.conditions[i],
                status.observed_generation,
            );
        assert(status.conditions[i].type_ is Ready);
    }
    if shows_ready(status) {
        let i = choose|i: int|
            0 <= i < status.conditions.len() && (#[trigger] status.conditions[i]).type_ is Ready
                && status.conditions[i].status is True && status.conditions[i].reason
                is StateMatches && status.conditions[i].observed_generation
                == status.observed_generation;
        assert(journey::ready_condition(status.conditions[i], status.observed_generation));
    }
}

/// A status desires the accepted generation under its authorization.
pub open spec fn shows_desired(
    status: client::StatusView,
    accepted: crate::model::AcceptedView,
) -> bool {
    &&& status.desired_generation == Some(accepted.accepted_generation)
    &&& status.authorization_receipt_id is Some
    &&& identity::hyphenated(status.authorization_receipt_id->0) == accepted.authorization_receipt
}

/// A trace passes exactly if the device received the command, reported under
/// the same position and was committed, every fact belongs to the accepted
/// rotation and generation under an event of its own, and the status becomes
/// Ready only at the end. What fails it is told in that order.
pub proof fn law_a_positive_trace_is_complete(
    accepted: &RotationAccepted,
    acknowledgement: &CommandAcknowledgement,
    after_ack: &StatusProjection,
    report: &CredentialReport,
    receipt: &ApplicationReceiptObservation,
    at_end: &StatusProjection,
    r: Result<(), JourneyError>,
)
    requires
        call_ensures(
            journey::verify_positive_trace,
            (accepted, acknowledgement, after_ack, report, receipt, at_end),
            r,
        ),
    ensures
        r is Ok <==> {
            &&& acknowledgement@.outcome is Received
            &&& acknowledgement@.coordinates == accepted@.coordinates
            &&& report@.coordinates == accepted@.coordinates
            &&& receipt@.coordinates == accepted@.coordinates
            &&& acknowledgement@.position.desired_generation == accepted@.accepted_generation
            &&& report@.position.observed_generation == accepted@.accepted_generation
            &&& report@.position.fence_epoch == acknowledgement@.position.fence_epoch
            &&& !shows_ready(after_ack@)
            &&& shows_desired(after_ack@, accepted@)
            &&& receipt@.outcome is Committed
            &&& receipt@.outcome->Committed_0.desired_generation == accepted@.accepted_generation
            &&& receipt@.outcome->Committed_0.authorization_receipt
                == accepted@.authorization_receipt
            &&& shows_desired(at_end@, accepted@)
            &&& at_end@.observed_generation == accepted@.accepted_generation
            &&& acknowledgement@.event != report@.event
            &&& acknowledgement@.event != receipt@.event
            &&& report@.event != receipt@.event
            &&& shows_ready(at_end@)
        },
        !(acknowledgement@.outcome is Received) <==> r == Err::<(), JourneyError>(
            JourneyError::ExpectedReceivedAck,
        ),
        acknowledgement@.outcome is Received && shows_ready(after_ack@) <==> r == Err::<
            (),
            JourneyError,
        >(JourneyError::ReadyBeforeReceipt),
        ({
            let untold = acknowledgement@.outcome is Received && !shows_ready(after_ack@);
            let told = untold && {
                &&& acknowledgement@.coordinates == accepted@.coordinates
                &&& report@.coordinates == accepted@.coordinates
                &&& receipt@.coordinates == accepted@.coordinates
                &&& acknowledgement@.position.desired_generation == accepted@.accepted_generation
                &&& report@.position.observed_generation == accepted@.accepted_generation
                &&& report@.position.fence_epoch == acknowledgement@.position.fence_epoch
                &&& shows_desired(after_ack@, accepted@)
            };
            let committed = told && receipt@.outcome is Committed;
            let lineage = receipt@.outcome->Committed_0;
            let owned = committed && {
                &&& lineage.desired_generation == accepted@.accepted_generation
                &&& lineage.authorization_receipt == accepted@.authorization_receipt
                &&& shows_desired(at_end@, accepted@)
                &&& at_end@.observed_generation == accepted@.accepted_generation
            };
            let collide = acknowledgement@.event == report@.event || acknowledgement@.event
                == receipt@.event || report@.event == receipt@.event;
            &&& r == Err::<(), JourneyError>(JourneyError::LineageMismatch) <==> (untold && !told)
                || (committed && !owned)
            &&& r == Err::<(), JourneyError>(JourneyError::ExpectedCommittedReceipt) <==> told
                && !committed
            &&& r == Err::<(), JourneyError>(JourneyError::EventIdentityCollision) <==> owned
                && collide
            &&& r == Err::<(), JourneyError>(JourneyError::MissingReadyObservation) <==> owned
                && !collide && !shows_ready(at_end@)
        }),
{
    lemma_ready(after_ack@);
    lemma_ready(at_end@);
}

/// A revoked credential passes only with the policy rejection of the device,
/// no Ready, and a generation that stayed behind; a stale fact only with a
/// forbidden that is not worth another try.
pub proof fn law_revoked_and_stale_facts_stay_behind(
    acknowledgement: &CommandAcknowledgement,
    status: &StatusProjection,
    revoked: Result<(), JourneyError>,
    response: &PolicyResponse,
    stale: Result<(), JourneyError>,
)
    requires
        call_ensures(journey::verify_revoked_no_advance, (acknowledgement, status), revoked),
        call_ensures(journey::verify_forbidden, (response,), stale),
    ensures
        revoked is Ok <==> {
            &&& acknowledgement@.outcome is Rejected
            &&& acknowledgement@.outcome->Rejected_0 is PolicyRejected
            &&& !shows_ready(status@)
            &&& status@.observed_generation < acknowledgement@.position.desired_generation
        },
        ({
            let refused = acknowledgement@.outcome is Rejected
                && acknowledgement@.outcome->Rejected_0 is PolicyRejected;
            &&& revoked == Err::<(), JourneyError>(JourneyError::ExpectedRevokedRejection)
                <==> !refused
            &&& revoked == Err::<(), JourneyError>(JourneyError::ReadyAfterRevocation) <==> refused
                && shows_ready(status@)
            &&& revoked == Err::<(), JourneyError>(JourneyError::LineageMismatch) <==> refused
                && !shows_ready(status@) && status@.observed_generation
                >= acknowledgement@.position.desired_generation
        }),
        stale is Ok <==> *response is Rejected && response->Rejected_0@.kind is Forbidden
            && !response->Rejected_0@.retryable,
        stale is Err ==> stale->Err_0 is ExpectedForbidden,
{
    lemma_ready(status@);
}

} // verus!
