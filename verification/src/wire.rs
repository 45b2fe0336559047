//! Between the public contract and the device's own facts: what a decoded
//! command means for this device, and what a durable fact says on the wire.

use crate::contract::{AckPayload, ApplyRequest, ReceivedAck, RejectedAck, RejectedReason, ReportPayload};
use crate::digest;
use crate::display;
use crate::identity;
use crate::identity::{
    AckFact, AckFactView, ArtifactId, CommandId, CommandRejection, CommandView, DeviceCommand,
    DeviceIdentity, OutboundFact, ReportFact, ReportFactView, Sha256Digest,
};
use crate::mapping;
use crate::mapping::{correlate_command, ContextView, MappingContext, MappingError};
use crate::model::{
    AckPositionView, CommandAcknowledgement, CommandAcknowledgementOutcome, FenceEpoch, Generation,
    RotationCoordinates,
};
use crate::mqtt::OutboundKind;
use crate::nonzero::NonZeroU64;
use crate::reference;
use crate::reference::{CommandRef, DeviceRef, RotationId, TenantRef};
use vstd::prelude::*;
use vstd::string::*;

verus! {

/// A wire value that is not canonical for this device.
#[derive(Clone, Copy, Debug, PartialEq, Eq, Structural)]
pub struct WireError;

impl core::fmt::Display for WireError {
    fn fmt(&self, formatter: &mut core::fmt::Formatter<'_>) -> (r: Result<(), core::fmt::Error>)
        ensures
            r is Ok ==> display::wrote(
                *old(formatter),
                *final(formatter),
                "canonical device-security wire value is invalid"@,
            ),
    {
        formatter.write_str("canonical device-security wire value is invalid")
    }
}

impl std::error::Error for WireError {

}

/// Whether a decoded request is a command for this device under this command identity.
pub open spec fn decodable(device: u128, command_id: Seq<char>, request: ApplyRequest) -> bool {
    &&& reference::is_reference(command_id)
    &&& request.device_id@ == device
    &&& identity::is_command_id(command_id)
    &&& identity::is_artifact_id(request.artifact_id@)
    &&& digest::is_digest_text(request.artifact_digest@)
    &&& digest::is_digest_text(request.intent_digest@)
    &&& digest::is_digest_text(request.policy_hash@)
}

/// The command that a decoded request asks for.
pub open spec fn command_of(command_id: Seq<char>, request: ApplyRequest) -> CommandView {
    CommandView {
        command_id,
        device_id: request.device_id@,
        artifact_id: request.artifact_id@,
        artifact_digest: request.artifact_digest@,
        authorization_receipt_id: request.authorization_receipt_id@,
        deadline_epoch_seconds: request.deadline_epoch_seconds@,
        desired_generation: request.desired_generation@,
        fence_epoch: request.fence_epoch@,
        intent_digest: request.intent_digest@,
        policy_hash: request.policy_hash@,
    }
}

fn coordinates_of(identity: &DeviceIdentity, command_id: &str) -> (r: Result<
    RotationCoordinates,
    WireError,
>)
    ensures
        r is Ok <==> reference::is_reference(command_id@),
{
    proof {
        mapping::lemma_hyphenated_is_reference(identity@.tenant);
        mapping::lemma_hyphenated_is_reference(identity@.device);
    }
    let rotation = match RotationId::try_from(command_id) {
        Ok(rotation) => rotation,
        Err(_) => {
            return Err(WireError);
        },
    };
    let tenant = match TenantRef::try_from(identity.tenant().text()) {
        Ok(tenant) => tenant,
        Err(_) => {
            return Err(WireError);
        },
    };
    match DeviceRef::try_from(identity.device().text()) {
        Ok(device) => Ok(RotationCoordinates::new(rotation, tenant, device)),
        Err(_) => Err(WireError),
    }
}

/// Takes a decoded request as a command for this device.
pub fn decode_command(
    identity: &DeviceIdentity,
    command_id: &str,
    request: ApplyRequest,
) -> (r: Result<DeviceCommand, WireError>)
    ensures
        r is Ok <==> decodable(identity@.device, command_id@, request),
        r is Ok ==> r->Ok_0@ == command_of(command_id@, request),
{
    let coordinates = match coordinates_of(identity, command_id) {
        Ok(coordinates) => coordinates,
        Err(error) => {
            return Err(error);
        },
    };
    let context = MappingContext::new(coordinates, identity.device());
    let envelope = match CommandRef::try_from(command_id) {
        Ok(envelope) => envelope,
        Err(_) => {
            return Err(WireError);
        },
    };
    let request = match correlate_command(context, envelope, request) {
        Ok(correlated) => correlated.into_parts().2,
        Err(_) => {
            return Err(WireError);
        },
    };
    let command = match CommandId::try_from(command_id) {
        Ok(command) => command,
        Err(_) => {
            return Err(WireError);
        },
    };
    let artifact_id = match ArtifactId::try_from(request.artifact_id) {
        Ok(artifact_id) => artifact_id,
        Err(_) => {
            return Err(WireError);
        },
    };
    let artifact_digest = match Sha256Digest::try_from(request.artifact_digest) {
        Ok(artifact_digest) => artifact_digest,
        Err(_) => {
            return Err(WireError);
        },
    };
    let generation = match Generation::try_from(request.desired_generation.get()) {
        Ok(generation) => generation,
        Err(_) => {
            return Err(WireError);
        },
    };
    let fence = match FenceEpoch::try_from(request.fence_epoch.get()) {
        Ok(fence) => fence,
        Err(_) => {
            return Err(WireError);
        },
    };
    let intent_digest = match Sha256Digest::try_from(request.intent_digest) {
        Ok(intent_digest) => intent_digest,
        Err(_) => {
            return Err(WireError);
        },
    };
    let policy_hash = match Sha256Digest::try_from(request.policy_hash) {
        Ok(policy_hash) => policy_hash,
        Err(_) => {
            return Err(WireError);
        },
    };
    Ok(
        DeviceCommand::new(
            command,
            request.device_id,
            artifact_id,
            artifact_digest,
            request.authorization_receipt_id,
            request.deadline_epoch_seconds,
            generation,
            fence,
            intent_digest,
            policy_hash,
        ),
    )
}

/// What goes into the payload of one outbound fact.
#[derive(Debug, PartialEq, Eq)]
pub enum EncodedPayload {
    Acknowledgement(AckPayload),
    Report(ReportPayload),
}

/// One outbound fact ready to be written as canonical JSON.
#[derive(Debug, PartialEq, Eq)]
pub struct EncodedOutbound {
    pub event_id: String,
    pub kind: OutboundKind,
    pub payload: EncodedPayload,
}

/// The contract's word for a rejection.
pub open spec fn reason_of(rejection: CommandRejection) -> RejectedReason {
    match rejection {
        CommandRejection::ArtifactUnavailable => RejectedReason::ArtifactUnavailable,
        CommandRejection::ArtifactDigestMismatch => RejectedReason::ArtifactDigestMismatch,
        CommandRejection::PolicyRejected => RejectedReason::PolicyRejected,
        CommandRejection::GenerationStale => RejectedReason::GenerationStale,
        CommandRejection::FenceEpochStale => RejectedReason::FenceEpochStale,
        CommandRejection::MalformedCommand => RejectedReason::MalformedCommand,
        CommandRejection::DeviceFailure => RejectedReason::DeviceFailure,
    }
}

fn rejection_reason(rejection: CommandRejection) -> (r: RejectedReason)
    ensures
        r == reason_of(rejection),
{
    match rejection {
        CommandRejection::ArtifactUnavailable => RejectedReason::ArtifactUnavailable,
        CommandRejection::ArtifactDigestMismatch => RejectedReason::ArtifactDigestMismatch,
        CommandRejection::PolicyRejected => RejectedReason::PolicyRejected,
        CommandRejection::GenerationStale => RejectedReason::GenerationStale,
        CommandRejection::FenceEpochStale => RejectedReason::FenceEpochStale,
        CommandRejection::MalformedCommand => RejectedReason::MalformedCommand,
        CommandRejection::DeviceFailure => RejectedReason::DeviceFailure,
    }
}

/// Whether the numbers of a fact fit the contract: positions are positive
/// and the sequence is a signed number. What forms the contract's own
/// text types ask of identifiers, digests and hashes is left out: no text is
/// refused here.
pub open spec fn writable(generation: u64, fence_epoch: u64, device_sequence: u64) -> bool {
    generation > 0 && fence_epoch > 0 && device_sequence <= i64::MAX
}

/// Whether a payload says what an acknowledgement tells, for a device.
pub open spec fn writes_ack(device: u128, fact: AckFactView, payload: AckPayload) -> bool {
    let told = mapping::ack_view(payload);
    &&& told.device_id@ == device
    &&& told.command_id == fact.command_id
    &&& told.desired_generation == fact.desired_generation
    &&& told.fence_epoch == fact.fence_epoch
    &&& told.device_sequence == fact.device_sequence
    &&& told.observed_at == fact.observed_at
    &&& match fact.rejection {
        None => payload is ReceivedPayload,
        Some(rejection) => payload is RejectedPayload && payload->RejectedPayload_0.reason
            == reason_of(rejection),
    }
}

/// Whether a payload says what a report tells, for a device.
pub open spec fn writes_report(device: u128, fact: ReportFactView, payload: ReportPayload) -> bool {
    &&& payload.device_id@ == device
    &&& payload.artifact_digest@ == fact.artifact_digest
    &&& payload.device_sequence == fact.device_sequence
    &&& payload.expires_at == fact.expires_at
    &&& payload.fence_epoch@ == fact.fence_epoch
    &&& payload.observed_at == fact.observed_at
    &&& payload.observed_generation@ == fact.observed_generation
    &&& payload.state_hash@ == fact.state_hash
}

fn encode_ack(identity: &DeviceIdentity, payload: AckFact) -> (r: Result<AckPayload, WireError>)
    ensures
        r is Ok <==> writable(
            payload.desired_generation,
            payload.fence_epoch,
            payload.device_sequence,
        ),
        r is Ok ==> writes_ack(identity@.device, payload@, r->Ok_0),
{
    let desired_generation = match NonZeroU64::new(payload.desired_generation) {
        Some(value) => value,
        None => {
            return Err(WireError);
        },
    };
    let fence_epoch = match NonZeroU64::new(payload.fence_epoch) {
        Some(value) => value,
        None => {
            return Err(WireError);
        },
    };
    if payload.device_sequence > i64::MAX as u64 {
        return Err(WireError);
    }
    let device_sequence: i64 = payload.device_sequence as i64;
    match payload.rejection {
        None => Ok(
            AckPayload::ReceivedPayload(
                ReceivedAck {
                    command_id: payload.command_id,
                    desired_generation,
                    device_id: identity.device(),
                    device_sequence,
                    fence_epoch,
                    observed_at: payload.observed_at,
                },
            ),
        ),
        Some(rejection) => Ok(
            AckPayload::RejectedPayload(
                RejectedAck {
                    command_id: payload.command_id,
                    desired_generation,
                    device_id: identity.device(),
                    device_sequence,
                    fence_epoch,
                    observed_at: payload.observed_at,
                    reason: rejection_reason(rejection),
                },
            ),
        ),
    }
}

fn encode_report(identity: &DeviceIdentity, payload: ReportFact) -> (r: Result<
    ReportPayload,
    WireError,
>)
    ensures
        r is Ok <==> writable(
            payload.observed_generation,
            payload.fence_epoch,
            payload.device_sequence,
        ),
        r is Ok ==> writes_report(identity@.device, payload@, r->Ok_0),
{
    if payload.device_sequence > i64::MAX as u64 {
        return Err(WireError);
    }
    let fence_epoch = match NonZeroU64::new(payload.fence_epoch) {
        Some(value) => value,
        None => {
            return Err(WireError);
        },
    };
    let observed_generation = match NonZeroU64::new(payload.observed_generation) {
        Some(value) => value,
        None => {
            return Err(WireError);
        },
    };
    Ok(
        ReportPayload {
            artifact_digest: payload.artifact_digest,
            device_id: identity.device(),
            device_sequence: payload.device_sequence as i64,
            expires_at: payload.expires_at,
            fence_epoch,
            observed_at: payload.observed_at,
            observed_generation,
            state_hash: payload.state_hash,
        },
    )
}

/// What is written for one outbound fact. Whether it can be written is a
/// matter of its numbers alone, as [`writable`] says.
pub open spec fn encoded(
    device: u128,
    outbound: OutboundFact,
    result: Result<EncodedOutbound, WireError>,
) -> bool {
    match outbound {
        OutboundFact::CommandAcknowledged { event_id, payload } => {
            &&& result is Ok <==> writable(
                payload.desired_generation,
                payload.fence_epoch,
                payload.device_sequence,
            )
            &&& result is Ok ==> {
                &&& result->Ok_0.event_id@ == event_id@
                &&& result->Ok_0.kind == OutboundKind::CommandAcknowledged
                &&& result->Ok_0.payload is Acknowledgement
                &&& writes_ack(device, payload@, result->Ok_0.payload->Acknowledgement_0)
            }
        },
        OutboundFact::CertificateReported { event_id, payload } => {
            &&& result is Ok <==> writable(
                payload.observed_generation,
                payload.fence_epoch,
                payload.device_sequence,
            )
            &&& result is Ok ==> {
                &&& result->Ok_0.event_id@ == event_id@
                &&& result->Ok_0.kind == OutboundKind::CertificateReported
                &&& result->Ok_0.payload is Report
                &&& writes_report(device, payload@, result->Ok_0.payload->Report_0)
            }
        },
    }
}

/// Turns one outbound fact into the values of its canonical payload.
pub fn encode_outbound(identity: &DeviceIdentity, outbound: OutboundFact) -> (r: Result<
    EncodedOutbound,
    WireError,
>)
    ensures
        encoded(identity@.device, outbound, r),
{
    match outbound {
        OutboundFact::CommandAcknowledged { event_id, payload } => match encode_ack(
            identity,
            payload,
        ) {
            Ok(payload) => Ok(
                EncodedOutbound {
                    event_id,
                    kind: OutboundKind::CommandAcknowledged,
                    payload: EncodedPayload::Acknowledgement(payload),
                },
            ),
            Err(error) => Err(error),
        },
        OutboundFact::CertificateReported { event_id, payload } => match encode_report(
            identity,
            payload,
        ) {
            Ok(payload) => Ok(
                EncodedOutbound {
                    event_id,
                    kind: OutboundKind::CertificateReported,
                    payload: EncodedPayload::Report(payload),
                },
            ),
            Err(error) => Err(error),
        },
    }
}

/// What a device writes in an acknowledgement is what the product reads from
/// it: the command, its position, its time and its outcome.
pub proof fn law_acknowledgements_survive_the_wire(
    context: ContextView,
    event: Seq<char>,
    fact: AckFactView,
    payload: AckPayload,
    mapped: Result<CommandAcknowledgement, MappingError>,
)
    requires
        reference::is_reference(fact.command_id),
        writes_ack(context.expected_device_id, fact, payload),
        mapping::ack_mapped(context, event, mapping::ack_view(payload), mapped),
    ensures
        mapped is Ok,
        mapped->Ok_0@.coordinates == context.coordinates,
        mapped->Ok_0@.event == event,
        mapped->Ok_0@.command == fact.command_id,
        mapped->Ok_0@.position == (AckPositionView {
            desired_generation: fact.desired_generation,
            fence_epoch: fact.fence_epoch,
            device_sequence: fact.device_sequence,
            observed_at: fact.observed_at,
        }),
        mapped->Ok_0@.outcome == match fact.rejection {
            None => CommandAcknowledgementOutcome::Received,
            Some(rejection) => CommandAcknowledgementOutcome::Rejected(
                mapping::rejection_reason_of(reason_of(rejection)),
            ),
        },
{
}

/// What a device writes in a report is what the product reads from it.
pub proof fn law_reports_survive_the_wire(
    context: ContextView,
    event: Seq<char>,
    fact: ReportFactView,
    payload: ReportPayload,
    mapped: Result<crate::model::CredentialReport, MappingError>,
)
    requires
        reference::is_reference(fact.state_hash),
        reference::is_reference(fact.artifact_digest),
        writes_report(context.expected_device_id, fact, payload),
        mapping::report_mapped(context, event, payload, mapped),
    ensures
        mapped is Ok,
        mapped->Ok_0@.coordinates == context.coordinates,
        mapped->Ok_0@.event == event,
        mapped->Ok_0@.position.observed_generation == fact.observed_generation,
        mapped->Ok_0@.position.fence_epoch == fact.fence_epoch,
        mapped->Ok_0@.position.device_sequence == fact.device_sequence,
        mapped->Ok_0@.position.observed_at == fact.observed_at,
        mapped->Ok_0@.state_hash == fact.state_hash,
        mapped->Ok_0@.artifact_digest == fact.artifact_digest,
        mapped->Ok_0@.expires_at == fact.expires_at,
{
}

} // verus!
