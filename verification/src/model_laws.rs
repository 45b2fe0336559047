//! Laws of the product model: a fact tells what it was made of, and nothing
//! else.

use crate::model::{
    AcceptanceCondition, ApplicationReceiptObservation, ApplicationReceiptOutcome,
    CommandAckPosition, CommandAcknowledgement, CommandAcknowledgementOutcome, CredentialReport,
    CredentialRevision, DeviceSequence, FenceEpoch, Generation, InstalledCredentialPosition,
    KeyUsage, OperationCorrelation, ReceiptLineage, ReportPosition, RotationAccepted,
    RotationCoordinates, RotationIntent, RotationPolicy, UnixTimestamp,
};
use crate::reference::{
    ArtifactDigest, AuthorizationReceiptRef, CommandRef, CorrelationId, DeviceRef, EventRef,
    IngressEnvelopeRef, PrincipalRef, RequestId, RotationId, RotationModelError, StateHash,
    TenantRef,
};
use vstd::prelude::*;

verus! {

/// Generations, fences and revisions are the positive numbers, each refusing
/// zero by its own name.
pub proof fn law_positions_are_positive(
    value: u64,
    generation: Result<Generation, RotationModelError>,
    fence: Result<FenceEpoch, RotationModelError>,
    revision: Result<CredentialRevision, RotationModelError>,
)
    requires
        call_ensures(<Generation as TryFrom<u64>>::try_from, (value,), generation),
        call_ensures(<FenceEpoch as TryFrom<u64>>::try_from, (value,), fence),
        call_ensures(<CredentialRevision as TryFrom<u64>>::try_from, (value,), revision),
    ensures
        generation is Ok <==> value > 0,
        fence is Ok <==> value > 0,
        revision is Ok <==> value > 0,
        generation is Ok ==> generation->Ok_0@ == value,
        fence is Ok ==> fence->Ok_0@ == value,
        revision is Ok ==> revision->Ok_0@ == value,
        generation is Err ==> generation->Err_0 is ZeroGeneration,
        fence is Err ==> fence->Err_0 is ZeroFenceEpoch,
        revision is Err ==> revision->Err_0 is ZeroCredentialRevision,
{
}

/// Numbers and times give back their value; a position's is never zero.
pub proof fn law_numbers_give_back_their_value(
    generation: Generation,
    fence: FenceEpoch,
    revision: CredentialRevision,
    sequence: DeviceSequence,
    time: UnixTimestamp,
    g: u64,
    f: u64,
    c: u64,
    n: u64,
    m: u64,
    t: i64,
    u: i64,
)
    requires
        call_ensures(Generation::get, (generation,), g),
        call_ensures(FenceEpoch::get, (fence,), f),
        call_ensures(CredentialRevision::get, (revision,), c),
        call_ensures(DeviceSequence::new, (n,), sequence),
        call_ensures(DeviceSequence::get, (sequence,), m),
        call_ensures(UnixTimestamp::new, (t,), time),
        call_ensures(UnixTimestamp::get, (time,), u),
    ensures
        g == generation@ && g > 0,
        f == fence@ && f > 0,
        c == revision@ && c > 0,
        m == n && sequence@ == n,
        u == t && time@ == t,
{
}

/// An installed position tells its generation, fence and revision.
pub proof fn law_installed_positions_tell_their_coordinates(
    desired_generation: Generation,
    fence_epoch: FenceEpoch,
    credential_revision: CredentialRevision,
    made: InstalledCredentialPosition,
    g: Generation,
    f: FenceEpoch,
    c: CredentialRevision,
)
    requires
        call_ensures(
            InstalledCredentialPosition::new,
            (desired_generation, fence_epoch, credential_revision),
            made,
        ),
        call_ensures(InstalledCredentialPosition::desired_generation, (made,), g),
        call_ensures(InstalledCredentialPosition::fence_epoch, (made,), f),
        call_ensures(InstalledCredentialPosition::credential_revision, (made,), c),
    ensures
        g@ == desired_generation@,
        f@ == fence_epoch@,
        c@ == credential_revision@,
{
}

/// The two usages go by their names in certificates.
pub proof fn law_usages_go_by_their_names(
    usage: KeyUsage,
    r: &'static str,
)
    requires
        call_ensures(KeyUsage::as_str, (usage,), r),
    ensures
        usage is ClientAuth ==> r@ == "clientAuth"@,
        usage is ServerAuth ==> r@ == "serverAuth"@,
{
}

/// A policy tells its usages, names and times, and every policy there is can be
/// asked for.
pub proof fn law_policies_tell_their_parts(
    policy: &RotationPolicy,
    usages: &[KeyUsage],
    renew_before: u64,
    sans: &[String],
    validity: u64,
)
    requires
        call_ensures(RotationPolicy::key_usages, (policy,), usages),
        call_ensures(RotationPolicy::renew_before_seconds, (policy,), renew_before),
        call_ensures(RotationPolicy::sans, (policy,), sans),
        call_ensures(RotationPolicy::validity_seconds, (policy,), validity),
    ensures
        usages@ == policy@.key_usages,
        renew_before == policy@.renew_before_seconds,
        validity == policy@.validity_seconds,
        sans@.len() == policy@.sans.len(),
        forall|i: int| 0 <= i < sans@.len() ==> (#[trigger] sans@[i])@ == policy@.sans[i],
        crate::control_laws::acceptable(policy@),
{
    crate::control_laws::lemma_acceptable(policy@);
    let told = crate::text::texts(sans@);
    assert forall|i: int| 0 <= i < sans@.len() implies (#[trigger] sans@[i])@
        == policy@.sans[i] by {
        assert(told[i] == sans@[i]@);
    }
}

/// A correlation tells its two identities.
pub proof fn law_correlations_tell_their_identities(
    request_id: RequestId,
    correlation_id: CorrelationId,
    made: OperationCorrelation,
    told_request_id: &RequestId,
    told_correlation_id: &CorrelationId,
)
    requires
        call_ensures(OperationCorrelation::new, (request_id, correlation_id), made),
        call_ensures(OperationCorrelation::request_id, (&made,), told_request_id),
        call_ensures(OperationCorrelation::correlation_id, (&made,), told_correlation_id),
    ensures
        told_request_id@ == request_id@,
        told_correlation_id@ == correlation_id@,
{
}

/// Coordinates tell rotation, tenant and device.
pub proof fn law_coordinates_tell_their_parts(
    rotation_id: RotationId,
    tenant: TenantRef,
    device: DeviceRef,
    made: RotationCoordinates,
    told_rotation_id: &RotationId,
    told_tenant: &TenantRef,
    told_device: &DeviceRef,
)
    requires
        call_ensures(RotationCoordinates::new, (rotation_id, tenant, device), made),
        call_ensures(RotationCoordinates::rotation_id, (&made,), told_rotation_id),
        call_ensures(RotationCoordinates::tenant, (&made,), told_tenant),
        call_ensures(RotationCoordinates::device, (&made,), told_device),
    ensures
        told_rotation_id@ == rotation_id@,
        told_tenant@ == tenant@,
        told_device@ == device@,
{
}

/// An intent tells where and by whom it was asked.
pub proof fn law_intents_tell_their_parts(
    coordinates: RotationCoordinates,
    requested_by: PrincipalRef,
    made: RotationIntent,
    told_coordinates: &RotationCoordinates,
    told_requested_by: &PrincipalRef,
)
    requires
        call_ensures(RotationIntent::new, (coordinates, requested_by), made),
        call_ensures(RotationIntent::coordinates, (&made,), told_coordinates),
        call_ensures(RotationIntent::requested_by, (&made,), told_requested_by),
    ensures
        told_coordinates@ == coordinates@,
        told_requested_by@ == requested_by@,
{
}

/// An acceptance tells its receipt, generation and condition.
pub proof fn law_acceptances_tell_their_parts(
    coordinates: RotationCoordinates,
    authorization_receipt: AuthorizationReceiptRef,
    accepted_generation: Generation,
    condition: AcceptanceCondition,
    made: RotationAccepted,
    told_coordinates: &RotationCoordinates,
    told_authorization_receipt: &AuthorizationReceiptRef,
    told_accepted_generation: Generation,
    told_condition: AcceptanceCondition,
)
    requires
        call_ensures(
            RotationAccepted::new,
            (coordinates, authorization_receipt, accepted_generation, condition),
            made,
        ),
        call_ensures(RotationAccepted::coordinates, (&made,), told_coordinates),
        call_ensures(RotationAccepted::authorization_receipt, (&made,), told_authorization_receipt),
        call_ensures(RotationAccepted::accepted_generation, (&made,), told_accepted_generation),
        call_ensures(RotationAccepted::condition, (&made,), told_condition),
    ensures
        told_coordinates@ == coordinates@,
        told_authorization_receipt@ == authorization_receipt@,
        told_accepted_generation@ == accepted_generation@,
        told_condition == condition,
{
}

/// An acknowledgement tells its event, command, position and outcome.
pub proof fn law_acknowledgements_tell_their_parts(
    coordinates: RotationCoordinates,
    event: EventRef,
    command: CommandRef,
    position: CommandAckPosition,
    outcome: CommandAcknowledgementOutcome,
    made: CommandAcknowledgement,
    told_event: &EventRef,
    told_coordinates: &RotationCoordinates,
    told_command: &CommandRef,
    told_desired_generation: Generation,
    told_fence_epoch: FenceEpoch,
    told_device_sequence: DeviceSequence,
    told_outcome: CommandAcknowledgementOutcome,
    told_observed_at: UnixTimestamp,
    generation: Generation,
    fence: FenceEpoch,
    sequence: DeviceSequence,
    time: UnixTimestamp,
)
    requires
        call_ensures(
            CommandAcknowledgement::new,
            (coordinates, event, command, position, outcome),
            made,
        ),
        call_ensures(CommandAcknowledgement::event, (&made,), told_event),
        call_ensures(CommandAcknowledgement::coordinates, (&made,), told_coordinates),
        call_ensures(CommandAcknowledgement::command, (&made,), told_command),
        call_ensures(CommandAcknowledgement::desired_generation, (&made,), told_desired_generation),
        call_ensures(CommandAcknowledgement::fence_epoch, (&made,), told_fence_epoch),
        call_ensures(CommandAcknowledgement::device_sequence, (&made,), told_device_sequence),
        call_ensures(CommandAcknowledgement::outcome, (&made,), told_outcome),
        call_ensures(CommandAcknowledgement::observed_at, (&made,), told_observed_at),
        call_ensures(CommandAckPosition::new, (generation, fence, sequence, time), position),
    ensures
        told_event@ == event@,
        told_coordinates@ == coordinates@,
        told_command@ == command@,
        told_desired_generation@ == generation@,
        told_fence_epoch@ == fence@,
        told_device_sequence@ == sequence@,
        told_outcome == outcome,
        told_observed_at@ == time@,
{
}

/// A report tells its event, position, digests and expiry.
pub proof fn law_reports_tell_their_parts(
    coordinates: RotationCoordinates,
    event: EventRef,
    position: ReportPosition,
    state_hash: StateHash,
    artifact_digest: ArtifactDigest,
    expires_at: Option<UnixTimestamp>,
    made: CredentialReport,
    told_event: &EventRef,
    told_coordinates: &RotationCoordinates,
    told_observed_generation: Generation,
    told_fence_epoch: FenceEpoch,
    told_device_sequence: DeviceSequence,
    told_state_hash: &StateHash,
    told_artifact_digest: &ArtifactDigest,
    told_expires_at: Option<UnixTimestamp>,
    told_observed_at: UnixTimestamp,
    generation: Generation,
    fence: FenceEpoch,
    sequence: DeviceSequence,
    time: UnixTimestamp,
)
    requires
        call_ensures(
            CredentialReport::new,
            (coordinates, event, position, state_hash, artifact_digest, expires_at),
            made,
        ),
        call_ensures(CredentialReport::event, (&made,), told_event),
        call_ensures(CredentialReport::coordinates, (&made,), told_coordinates),
        call_ensures(CredentialReport::observed_generation, (&made,), told_observed_generation),
        call_ensures(CredentialReport::fence_epoch, (&made,), told_fence_epoch),
        call_ensures(CredentialReport::device_sequence, (&made,), told_device_sequence),
        call_ensures(CredentialReport::state_hash, (&made,), told_state_hash),
        call_ensures(CredentialReport::artifact_digest, (&made,), told_artifact_digest),
        call_ensures(CredentialReport::expires_at, (&made,), told_expires_at),
        call_ensures(CredentialReport::observed_at, (&made,), told_observed_at),
        call_ensures(ReportPosition::new, (generation, fence, sequence, time), position),
    ensures
        told_event@ == event@,
        told_coordinates@ == coordinates@,
        told_observed_generation@ == generation@,
        told_fence_epoch@ == fence@,
        told_device_sequence@ == sequence@,
        told_state_hash@ == state_hash@,
        told_artifact_digest@ == artifact_digest@,
        told_expires_at is Some <==> expires_at is Some,
        told_observed_at@ == time@,
        expires_at is Some ==> told_expires_at->0@ == expires_at->0@,
{
}

/// A lineage tells its receipt and generation.
pub proof fn law_lineages_tell_their_parts(
    authorization_receipt: AuthorizationReceiptRef,
    desired_generation: Generation,
    made: ReceiptLineage,
    told_authorization_receipt: &AuthorizationReceiptRef,
    told_desired_generation: Generation,
)
    requires
        call_ensures(ReceiptLineage::new, (authorization_receipt, desired_generation), made),
        call_ensures(ReceiptLineage::authorization_receipt, (&made,), told_authorization_receipt),
        call_ensures(ReceiptLineage::desired_generation, (&made,), told_desired_generation),
    ensures
        told_authorization_receipt@ == authorization_receipt@,
        told_desired_generation@ == desired_generation@,
{
}

/// A receipt tells its event, ingress, outcome and time; the outcome is of the
/// kind it was made of, with its own lineage or reason.
pub proof fn law_receipts_tell_their_parts(
    coordinates: RotationCoordinates,
    event: EventRef,
    ingress_envelope: IngressEnvelopeRef,
    outcome: ApplicationReceiptOutcome,
    committed_at: UnixTimestamp,
    made: ApplicationReceiptObservation,
    told_event: &EventRef,
    told_coordinates: &RotationCoordinates,
    told_ingress_envelope: &IngressEnvelopeRef,
    told_outcome: &ApplicationReceiptOutcome,
    told_committed_at: UnixTimestamp,
)
    requires
        call_ensures(
            ApplicationReceiptObservation::new,
            (coordinates, event, ingress_envelope, outcome, committed_at),
            made,
        ),
        call_ensures(ApplicationReceiptObservation::event, (&made,), told_event),
        call_ensures(ApplicationReceiptObservation::coordinates, (&made,), told_coordinates),
        call_ensures(
            ApplicationReceiptObservation::ingress_envelope,
            (&made,),
            told_ingress_envelope,
        ),
        call_ensures(ApplicationReceiptObservation::outcome, (&made,), told_outcome),
        call_ensures(ApplicationReceiptObservation::committed_at, (&made,), told_committed_at),
    ensures
        told_event@ == event@,
        told_coordinates@ == coordinates@,
        told_ingress_envelope@ == ingress_envelope@,
        told_outcome is Committed <==> outcome is Committed,
        told_committed_at@ == committed_at@,
        told_outcome is Duplicate <==> outcome is Duplicate,
        told_outcome is Stale <==> outcome is Stale,
        told_outcome is Rejected <==> outcome is Rejected,
        outcome is Committed ==> told_outcome->Committed_0@ == outcome->Committed_0@,
        outcome is Duplicate ==> told_outcome->Duplicate_0@ == outcome->Duplicate_0@,
        outcome is Stale ==> told_outcome->lineage@ == outcome->lineage@
            && told_outcome->Stale_reason
            == outcome->Stale_reason,
        outcome is Rejected ==> told_outcome->Rejected_0 == outcome->Rejected_0,
{
}

} // verus!
