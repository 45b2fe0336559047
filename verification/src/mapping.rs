//! Pure mappings from the public contract to product facts.

use crate::contract::{
    AckPayload, ApplyRequest, ConflictResponse, NotFoundResponse, PolicyDataCondition,
    PolicyPutResponse, ReceiptPayload, ReceiptRejectionReason, RejectedReason, ReportPayload,
    StaleReason, StatusGetResponse,
};
use crate::display;
use crate::identity;
use crate::identity::Uuid;
use crate::identity_laws;
use crate::model::{
    AcceptanceCondition, AcceptedView, AckPositionView, AcknowledgementView,
    ApplicationReceiptObservation, ApplicationReceiptOutcome, ApplicationRejectionReason,
    ApplicationStaleReason, CommandAckPosition, CommandAcknowledgement,
    CommandAcknowledgementOutcome, CommandRejectionReason, CoordinatesView, CredentialReport,
    DeviceSequence, FenceEpoch, Generation, LineageView, ReceiptLineage, ReceiptOutcomeView,
    ReceiptView, ReportPosition, ReportPositionView, ReportView, RotationAccepted,
    RotationCoordinates, UnixTimestamp,
};
use crate::reference;
use crate::reference::{
    ArtifactDigest, AuthorizationReceiptRef, CommandRef, EventRef, IngressEnvelopeRef,
    RotationModelError, StateHash,
};
use crate::text;
use vstd::prelude::*;
use vstd::string::*;

verus! {

/// What a mapping is done for.
pub struct ContextView {
    pub coordinates: CoordinatesView,
    pub expected_device_id: u128,
}

/// Product correlation plus the public device UUID expected at this mapping boundary.
///
/// This is shape context only; it does not authenticate a tenant or device.
#[derive(PartialEq, Eq)]
pub struct MappingContext {
    coordinates: RotationCoordinates,
    expected_device_id: Uuid,
}

impl View for MappingContext {
    type V = ContextView;

    closed spec fn view(&self) -> ContextView {
        ContextView {
            coordinates: self.coordinates@,
            expected_device_id: self.expected_device_id@,
        }
    }
}

impl core::fmt::Debug for MappingContext {
    fn fmt(&self, formatter: &mut core::fmt::Formatter<'_>) -> (r: Result<(), core::fmt::Error>)
        ensures
            r is Ok ==> display::wrote(
                *old(formatter),
                *final(formatter),
                "MappingContext { coordinates: RotationCoordinates { rotation_id: RotationId([REDACTED]), tenant: TenantRef([REDACTED]), device: DeviceRef([REDACTED]) }, expected_device_id: \"[REDACTED]\" }"@,
            ),
    {
        formatter.write_str(
            "MappingContext { coordinates: RotationCoordinates { rotation_id: RotationId([REDACTED]), tenant: TenantRef([REDACTED]), device: DeviceRef([REDACTED]) }, expected_device_id: \"[REDACTED]\" }",
        )
    }
}

impl Clone for MappingContext {
    fn clone(&self) -> (r: Self)
        ensures
            r == *self,
    {
        MappingContext {
            coordinates: self.coordinates.clone(),
            expected_device_id: self.expected_device_id,
        }
    }
}

/// Mapping rejection for invalid boundary correlations or product references.
#[derive(Clone, Copy, PartialEq, Eq)]
pub enum MappingError {
    DeviceMismatch { expected: Uuid, actual: Uuid },
    NegativeDeviceSequence(i64),
    InvalidProductReference(RotationModelError),
}

impl MappingError {
    /// The text that describes the failure, without its values.
    pub open spec fn message(self) -> Seq<char> {
        match self {
            MappingError::DeviceMismatch { .. } => "device mismatch"@,
            MappingError::NegativeDeviceSequence(_) => "negative device sequence"@,
            MappingError::InvalidProductReference(_) => "invalid product reference"@,
        }
    }

    pub open spec fn debug_text(self) -> Seq<char> {
        match self {
            MappingError::DeviceMismatch { .. } => "MappingError::DeviceMismatch([REDACTED])"@,
            MappingError::NegativeDeviceSequence(_) =>
                "MappingError::NegativeDeviceSequence([REDACTED])"@,
            MappingError::InvalidProductReference(_) =>
                "MappingError::InvalidProductReference([REDACTED])"@,
        }
    }

    /// The product validation failure behind the rejection, if that is what it is.
    pub fn product_error(&self) -> (r: Option<RotationModelError>)
        ensures
            r == (match *self {
                MappingError::InvalidProductReference(error) => Some(error),
                _ => None,
            }),
    {
        match self {
            MappingError::InvalidProductReference(error) => Some(*error),
            _ => None,
        }
    }
}

impl core::fmt::Debug for MappingError {
    fn fmt(&self, formatter: &mut core::fmt::Formatter<'_>) -> (r: Result<(), core::fmt::Error>)
        ensures
            r is Ok ==> display::wrote(*old(formatter), *final(formatter), self.debug_text()),
    {
        match self {
            MappingError::DeviceMismatch { .. } => formatter.write_str(
                "MappingError::DeviceMismatch([REDACTED])",
            ),
            MappingError::NegativeDeviceSequence(_) => formatter.write_str(
                "MappingError::NegativeDeviceSequence([REDACTED])",
            ),
            MappingError::InvalidProductReference(_) => formatter.write_str(
                "MappingError::InvalidProductReference([REDACTED])",
            ),
        }
    }
}

impl core::fmt::Display for MappingError {
    fn fmt(&self, formatter: &mut core::fmt::Formatter<'_>) -> (r: Result<(), core::fmt::Error>)
        ensures
            r is Ok ==> display::wrote(*old(formatter), *final(formatter), self.message()),
    {
        match self {
            MappingError::DeviceMismatch { .. } => formatter.write_str("device mismatch"),
            MappingError::NegativeDeviceSequence(_) => formatter.write_str(
                "negative device sequence",
            ),
            MappingError::InvalidProductReference(_) => formatter.write_str(
                "invalid product reference",
            ),
        }
    }
}

impl std::error::Error for MappingError {

}

impl From<RotationModelError> for MappingError {
    fn from(value: RotationModelError) -> (r: Self) {
        MappingError::InvalidProductReference(value)
    }
}

impl vstd::std_specs::convert::FromSpecImpl<RotationModelError> for MappingError {
    open spec fn obeys_from_spec() -> bool {
        true
    }

    open spec fn from_spec(value: RotationModelError) -> Self {
        MappingError::InvalidProductReference(value)
    }
}

/// The payload must name the expected device.
pub open spec fn device_error(expected: u128, actual: Uuid, error: MappingError) -> bool {
    error matches MappingError::DeviceMismatch { expected: e, actual: a } && e@ == expected && a
        == actual
}

impl MappingContext {
    #[must_use]
    pub fn new(coordinates: RotationCoordinates, expected_device_id: Uuid) -> (r: Self)
        ensures
            r@ == (ContextView {
                coordinates: coordinates@,
                expected_device_id: expected_device_id@,
            }),
    {
        MappingContext { coordinates, expected_device_id }
    }

    #[must_use]
    pub fn coordinates(&self) -> (r: &RotationCoordinates)
        ensures
            r@ == self@.coordinates,
    {
        &self.coordinates
    }

    #[must_use]
    pub fn expected_device_id(&self) -> (r: Uuid)
        ensures
            r@ == self@.expected_device_id,
    {
        self.expected_device_id
    }

    fn require_device(&self, actual: Uuid) -> (r: Result<(), MappingError>)
        ensures
            actual@ == self@.expected_device_id ==> r is Ok,
            actual@ != self@.expected_device_id ==> r is Err && device_error(
                self@.expected_device_id,
                actual,
                r->Err_0,
            ),
    {
        if actual.same(self.expected_device_id) {
            Ok(())
        } else {
            Err(MappingError::DeviceMismatch { expected: self.expected_device_id, actual })
        }
    }
}

/// A canonical policy PUT failure, preserved as it came.
#[derive(Debug, PartialEq, Eq)]
pub enum PolicyPutFailure {
    NotFound(NotFoundResponse),
    Conflict(ConflictResponse),
}

/// A canonical status correlated with product coordinates.
#[derive(PartialEq, Eq)]
pub struct StatusObservation {
    context: MappingContext,
    response: StatusGetResponse,
}

impl StatusObservation {
    pub closed spec fn for_context(self) -> MappingContext {
        self.context
    }

    pub closed spec fn told(self) -> StatusGetResponse {
        self.response
    }

    #[must_use]
    pub fn new(context: MappingContext, response: StatusGetResponse) -> (r: Self)
        ensures
            r.for_context() == context,
            r.told() == response,
    {
        StatusObservation { context, response }
    }

    #[must_use]
    pub fn context(&self) -> (r: &MappingContext)
        ensures
            *r == self.for_context(),
    {
        &self.context
    }

    #[must_use]
    pub fn response(&self) -> (r: &StatusGetResponse)
        ensures
            *r == self.told(),
    {
        &self.response
    }

    #[must_use]
    pub fn into_parts(self) -> (r: (MappingContext, StatusGetResponse))
        ensures
            r == (self.for_context(), self.told()),
    {
        (self.context, self.response)
    }
}

/// A command correlated with its payload-external envelope identity.
#[derive(PartialEq, Eq)]
pub struct CorrelatedCommand {
    context: MappingContext,
    envelope: CommandRef,
    request: ApplyRequest,
}

impl CorrelatedCommand {
    pub closed spec fn for_context(self) -> MappingContext {
        self.context
    }

    pub closed spec fn under(self) -> CommandRef {
        self.envelope
    }

    pub closed spec fn asks(self) -> ApplyRequest {
        self.request
    }

    #[must_use]
    pub fn context(&self) -> (r: &MappingContext)
        ensures
            *r == self.for_context(),
    {
        &self.context
    }

    #[must_use]
    pub fn envelope(&self) -> (r: &CommandRef)
        ensures
            *r == self.under(),
    {
        &self.envelope
    }

    #[must_use]
    pub fn request(&self) -> (r: &ApplyRequest)
        ensures
            *r == self.asks(),
    {
        &self.request
    }

    #[must_use]
    pub fn into_parts(self) -> (r: (MappingContext, CommandRef, ApplyRequest))
        ensures
            r == (self.for_context(), self.under(), self.asks()),
    {
        (self.context, self.envelope, self.request)
    }
}

/// The canonical text of an identifier can stand as a reference.
pub proof fn lemma_hyphenated_is_reference(value: u128)
    ensures
        reference::is_reference(identity::hyphenated(value)),
{
    identity_laws::lemma_hyphenated_len(value);
    reveal_strlit("-");
    text::lemma_be_bytes_len(value as nat, 16);
    let digits = text::hex(text::be_bytes(value as nat, 16));
    let s = identity::hyphenated(value);
    assert forall|i: int| 0 <= i < 36 implies !text::is_control(#[trigger] s[i])
        && !text::is_white_space(s[i]) by {
        if i == 8 || i == 13 || i == 18 || i == 23 {
            assert(s[i] == '-');
        } else {
            let k = if i < 8 {
                i
            } else if i < 13 {
                i - 1
            } else if i < 18 {
                i - 2
            } else if i < 23 {
                i - 3
            } else {
                i - 4
            };
            assert(s[i] == digits[k]);
        }
    }
    assert(!text::is_white_space(s[0]));
}

fn receipt_ref(value: Uuid) -> (r: Result<AuthorizationReceiptRef, MappingError>)
    ensures
        r is Ok,
        r->Ok_0@ == identity::hyphenated(value@),
{
    proof {
        lemma_hyphenated_is_reference(value@);
    }
    match AuthorizationReceiptRef::try_from(value.text()) {
        Ok(receipt) => Ok(receipt),
        Err(error) => Err(MappingError::from(error)),
    }
}

fn generation_of(value: u64) -> (r: Result<Generation, MappingError>)
    requires
        value > 0,
    ensures
        r is Ok,
        r->Ok_0@ == value,
{
    match Generation::try_from(value) {
        Ok(generation) => Ok(generation),
        Err(error) => Err(MappingError::from(error)),
    }
}

fn fence_of(value: u64) -> (r: Result<FenceEpoch, MappingError>)
    requires
        value > 0,
    ensures
        r is Ok,
        r->Ok_0@ == value,
{
    match FenceEpoch::try_from(value) {
        Ok(fence) => Ok(fence),
        Err(error) => Err(MappingError::from(error)),
    }
}

fn sequence(value: i64) -> (r: Result<DeviceSequence, MappingError>)
    ensures
        value >= 0 ==> r is Ok && r->Ok_0@ == value,
        value < 0 ==> r == Err::<DeviceSequence, MappingError>(
            MappingError::NegativeDeviceSequence(value),
        ),
{
    if value < 0 {
        Err(MappingError::NegativeDeviceSequence(value))
    } else {
        Ok(DeviceSequence::new(value as u64))
    }
}

fn lineage(authorization_receipt: Uuid, desired_generation: u64) -> (r: Result<
    ReceiptLineage,
    MappingError,
>)
    requires
        desired_generation > 0,
    ensures
        r is Ok,
        r->Ok_0@ == (LineageView {
            authorization_receipt: identity::hyphenated(authorization_receipt@),
            desired_generation,
        }),
{
    let receipt = match receipt_ref(authorization_receipt) {
        Ok(receipt) => receipt,
        Err(error) => {
            return Err(error);
        },
    };
    match generation_of(desired_generation) {
        Ok(generation) => Ok(ReceiptLineage::new(receipt, generation)),
        Err(error) => Err(error),
    }
}

pub open spec fn acceptance_condition(condition: PolicyDataCondition) -> AcceptanceCondition {
    match condition {
        PolicyDataCondition::Reconciling => AcceptanceCondition::Reconciling,
        PolicyDataCondition::PendingDevice => AcceptanceCondition::PendingDevice,
    }
}

/// Maps canonical policy acceptance directly into the product model.
pub fn map_policy_success(context: &MappingContext, response: &PolicyPutResponse) -> (r: Result<
    RotationAccepted,
    MappingError,
>)
    ensures
        r is Ok,
        r->Ok_0@ == (AcceptedView {
            coordinates: context@.coordinates,
            authorization_receipt: identity::hyphenated(response.data.authorization_receipt_id@),
            accepted_generation: response.data.accepted_generation@,
            condition: acceptance_condition(response.data.condition),
        }),
{
    let condition = match response.data.condition {
        PolicyDataCondition::Reconciling => AcceptanceCondition::Reconciling,
        PolicyDataCondition::PendingDevice => AcceptanceCondition::PendingDevice,
    };
    let receipt = match receipt_ref(response.data.authorization_receipt_id) {
        Ok(receipt) => receipt,
        Err(error) => {
            return Err(error);
        },
    };
    match generation_of(response.data.accepted_generation.get()) {
        Ok(generation) => Ok(
            RotationAccepted::new(context.coordinates.clone(), receipt, generation, condition),
        ),
        Err(error) => Err(error),
    }
}

#[must_use]
pub fn map_policy_not_found(response: NotFoundResponse) -> (r: PolicyPutFailure)
    ensures
        r == PolicyPutFailure::NotFound(response),
{
    PolicyPutFailure::NotFound(response)
}

#[must_use]
pub fn map_policy_conflict(response: ConflictResponse) -> (r: PolicyPutFailure)
    ensures
        r == PolicyPutFailure::Conflict(response),
{
    PolicyPutFailure::Conflict(response)
}

#[must_use]
pub fn observe_status(context: MappingContext, response: StatusGetResponse) -> (r:
    StatusObservation)
    ensures
        r.for_context() == context,
        r.told() == response,
{
    StatusObservation::new(context, response)
}

/// Validates device correlation and keeps the command body separate from its envelope identity.
pub fn correlate_command(
    context: MappingContext,
    envelope: CommandRef,
    request: ApplyRequest,
) -> (r: Result<CorrelatedCommand, MappingError>)
    ensures
        request.device_id@ == context@.expected_device_id ==> r is Ok && r->Ok_0.for_context()
            == context && r->Ok_0.under() == envelope && r->Ok_0.asks() == request,
        request.device_id@ != context@.expected_device_id ==> r is Err && device_error(
            context@.expected_device_id,
            request.device_id,
            r->Err_0,
        ),
{
    match context.require_device(request.device_id) {
        Ok(()) => Ok(CorrelatedCommand { context, envelope, request }),
        Err(error) => Err(error),
    }
}

pub open spec fn rejection_reason_of(reason: RejectedReason) -> CommandRejectionReason {
    match reason {
        RejectedReason::ArtifactUnavailable => CommandRejectionReason::ArtifactUnavailable,
        RejectedReason::ArtifactDigestMismatch => CommandRejectionReason::ArtifactDigestMismatch,
        RejectedReason::PolicyRejected => CommandRejectionReason::PolicyRejected,
        RejectedReason::GenerationStale => CommandRejectionReason::GenerationStale,
        RejectedReason::FenceEpochStale => CommandRejectionReason::FenceEpochStale,
        RejectedReason::MalformedCommand => CommandRejectionReason::MalformedCommand,
        RejectedReason::DeviceFailure => CommandRejectionReason::DeviceFailure,
    }
}

/// What an acknowledgement carries, whichever of the two it is.
pub struct AckView {
    pub device_id: Uuid,
    pub command_id: Seq<char>,
    pub desired_generation: u64,
    pub fence_epoch: u64,
    pub device_sequence: i64,
    pub observed_at: i64,
    pub outcome: CommandAcknowledgementOutcome,
}

pub open spec fn ack_view(payload: AckPayload) -> AckView {
    match payload {
        AckPayload::ReceivedPayload(payload) => AckView {
            device_id: payload.device_id,
            command_id: payload.command_id@,
            desired_generation: payload.desired_generation@,
            fence_epoch: payload.fence_epoch@,
            device_sequence: payload.device_sequence,
            observed_at: payload.observed_at,
            outcome: CommandAcknowledgementOutcome::Received,
        },
        AckPayload::RejectedPayload(payload) => AckView {
            device_id: payload.device_id,
            command_id: payload.command_id@,
            desired_generation: payload.desired_generation@,
            fence_epoch: payload.fence_epoch@,
            device_sequence: payload.device_sequence,
            observed_at: payload.observed_at,
            outcome: CommandAcknowledgementOutcome::Rejected(rejection_reason_of(payload.reason)),
        },
    }
}

/// The result of mapping an acknowledgement: the first of device, command
/// reference and sequence that does not hold up, or the fact itself.
pub open spec fn ack_mapped(
    context: ContextView,
    event: Seq<char>,
    payload: AckView,
    result: Result<CommandAcknowledgement, MappingError>,
) -> bool {
    if payload.device_id@ != context.expected_device_id {
        result is Err && device_error(
            context.expected_device_id,
            payload.device_id,
            result->Err_0,
        )
    } else {
        match reference::reference_error("command_ref", payload.command_id) {
            Some(error) => result == Err::<CommandAcknowledgement, MappingError>(
                MappingError::InvalidProductReference(error),
            ),
            None => if payload.device_sequence < 0 {
                result == Err::<CommandAcknowledgement, MappingError>(
                    MappingError::NegativeDeviceSequence(payload.device_sequence),
                )
            } else {
                result is Ok && result->Ok_0@ == (AcknowledgementView {
                    coordinates: context.coordinates,
                    event,
                    command: payload.command_id,
                    position: AckPositionView {
                        desired_generation: payload.desired_generation,
                        fence_epoch: payload.fence_epoch,
                        device_sequence: payload.device_sequence as u64,
                        observed_at: payload.observed_at,
                    },
                    outcome: payload.outcome,
                })
            },
        }
    }
}

struct AckProjection {
    device_id: Uuid,
    command: String,
    desired_generation: u64,
    fence_epoch: u64,
    device_sequence: i64,
    observed_at: i64,
    outcome: CommandAcknowledgementOutcome,
}

impl AckProjection {
    spec fn told(self) -> AckView {
        AckView {
            device_id: self.device_id,
            command_id: self.command@,
            desired_generation: self.desired_generation,
            fence_epoch: self.fence_epoch,
            device_sequence: self.device_sequence,
            observed_at: self.observed_at,
            outcome: self.outcome,
        }
    }
}

fn ack(context: &MappingContext, event: EventRef, projection: AckProjection) -> (r: Result<
    CommandAcknowledgement,
    MappingError,
>)
    requires
        projection.desired_generation > 0,
        projection.fence_epoch > 0,
    ensures
        ack_mapped(context@, event@, projection.told(), r),
{
    match context.require_device(projection.device_id) {
        Ok(()) => {},
        Err(error) => {
            return Err(error);
        },
    }
    let command = match CommandRef::try_from(projection.command) {
        Ok(command) => command,
        Err(error) => {
            return Err(MappingError::from(error));
        },
    };
    let generation = match generation_of(projection.desired_generation) {
        Ok(generation) => generation,
        Err(error) => {
            return Err(error);
        },
    };
    let fence = match fence_of(projection.fence_epoch) {
        Ok(fence) => fence,
        Err(error) => {
            return Err(error);
        },
    };
    let sequence = match sequence(projection.device_sequence) {
        Ok(sequence) => sequence,
        Err(error) => {
            return Err(error);
        },
    };
    Ok(
        CommandAcknowledgement::new(
            context.coordinates.clone(),
            event,
            command,
            CommandAckPosition::new(
                generation,
                fence,
                sequence,
                UnixTimestamp::new(projection.observed_at),
            ),
            projection.outcome,
        ),
    )
}

/// Maps an ACK event while preserving independent event and command identities.
pub fn map_acknowledgement(context: &MappingContext, event: EventRef, payload: AckPayload) -> (r:
    Result<CommandAcknowledgement, MappingError>)
    ensures
        ack_mapped(context@, event@, ack_view(payload), r),
{
    match payload {
        AckPayload::ReceivedPayload(payload) => ack(
            context,
            event,
            AckProjection {
                device_id: payload.device_id,
                command: payload.command_id,
                desired_generation: payload.desired_generation.get(),
                fence_epoch: payload.fence_epoch.get(),
                device_sequence: payload.device_sequence,
                observed_at: payload.observed_at,
                outcome: CommandAcknowledgementOutcome::Received,
            },
        ),
        AckPayload::RejectedPayload(payload) => {
            let reason = match payload.reason {
                RejectedReason::ArtifactUnavailable => CommandRejectionReason::ArtifactUnavailable,
                RejectedReason::ArtifactDigestMismatch =>
                    CommandRejectionReason::ArtifactDigestMismatch,
                RejectedReason::PolicyRejected => CommandRejectionReason::PolicyRejected,
                RejectedReason::GenerationStale => CommandRejectionReason::GenerationStale,
                RejectedReason::FenceEpochStale => CommandRejectionReason::FenceEpochStale,
                RejectedReason::MalformedCommand => CommandRejectionReason::MalformedCommand,
                RejectedReason::DeviceFailure => CommandRejectionReason::DeviceFailure,
            };
            ack(
                context,
                event,
                AckProjection {
                    device_id: payload.device_id,
                    command: payload.command_id,
                    desired_generation: payload.desired_generation.get(),
                    fence_epoch: payload.fence_epoch.get(),
                    device_sequence: payload.device_sequence,
                    observed_at: payload.observed_at,
                    outcome: CommandAcknowledgementOutcome::Rejected(reason),
                },
            )
        },
    }
}

/// The result of mapping a report: the first of device, sequence, state hash
/// and artifact digest that does not hold up, or the fact itself.
pub open spec fn report_mapped(
    context: ContextView,
    event: Seq<char>,
    payload: ReportPayload,
    result: Result<CredentialReport, MappingError>,
) -> bool {
    if payload.device_id@ != context.expected_device_id {
        result is Err && device_error(
            context.expected_device_id,
            payload.device_id,
            result->Err_0,
        )
    } else if payload.device_sequence < 0 {
        result == Err::<CredentialReport, MappingError>(
            MappingError::NegativeDeviceSequence(payload.device_sequence),
        )
    } else {
        match reference::reference_error("state_hash", payload.state_hash@) {
            Some(error) => result == Err::<CredentialReport, MappingError>(
                MappingError::InvalidProductReference(error),
            ),
            None => match reference::reference_error("artifact_digest", payload.artifact_digest@) {
                Some(error) => result == Err::<CredentialReport, MappingError>(
                    MappingError::InvalidProductReference(error),
                ),
                None => result is Ok && result->Ok_0@ == (ReportView {
                    coordinates: context.coordinates,
                    event,
                    position: ReportPositionView {
                        observed_generation: payload.observed_generation@,
                        fence_epoch: payload.fence_epoch@,
                        device_sequence: payload.device_sequence as u64,
                        observed_at: payload.observed_at,
                    },
                    state_hash: payload.state_hash@,
                    artifact_digest: payload.artifact_digest@,
                    expires_at: payload.expires_at,
                }),
            },
        }
    }
}

/// Maps a reported-state event directly into the product model.
pub fn map_report(context: &MappingContext, event: EventRef, payload: ReportPayload) -> (r: Result<
    CredentialReport,
    MappingError,
>)
    ensures
        report_mapped(context@, event@, payload, r),
{
    match context.require_device(payload.device_id) {
        Ok(()) => {},
        Err(error) => {
            return Err(error);
        },
    }
    let generation = match generation_of(payload.observed_generation.get()) {
        Ok(generation) => generation,
        Err(error) => {
            return Err(error);
        },
    };
    let fence = match fence_of(payload.fence_epoch.get()) {
        Ok(fence) => fence,
        Err(error) => {
            return Err(error);
        },
    };
    let sequence = match sequence(payload.device_sequence) {
        Ok(sequence) => sequence,
        Err(error) => {
            return Err(error);
        },
    };
    let position = ReportPosition::new(
        generation,
        fence,
        sequence,
        UnixTimestamp::new(payload.observed_at),
    );
    let state_hash = match StateHash::try_from(payload.state_hash) {
        Ok(state_hash) => state_hash,
        Err(error) => {
            return Err(MappingError::from(error));
        },
    };
    let artifact_digest = match ArtifactDigest::try_from(payload.artifact_digest) {
        Ok(artifact_digest) => artifact_digest,
        Err(error) => {
            return Err(MappingError::from(error));
        },
    };
    let expires_at = match payload.expires_at {
        Some(expires_at) => Some(UnixTimestamp::new(expires_at)),
        None => None,
    };
    Ok(
        CredentialReport::new(
            context.coordinates.clone(),
            event,
            position,
            state_hash,
            artifact_digest,
            expires_at,
        ),
    )
}

pub open spec fn stale_reason_of(reason: StaleReason) -> ApplicationStaleReason {
    match reason {
        StaleReason::GenerationStale => ApplicationStaleReason::GenerationStale,
        StaleReason::FenceEpochStale => ApplicationStaleReason::FenceEpochStale,
        StaleReason::DeviceSequenceStale => ApplicationStaleReason::DeviceSequenceStale,
    }
}

pub open spec fn receipt_rejection_of(reason: ReceiptRejectionReason) -> ApplicationRejectionReason {
    match reason {
        ReceiptRejectionReason::NotAccepted => ApplicationRejectionReason::NotAccepted,
        ReceiptRejectionReason::SchemaRejected => ApplicationRejectionReason::SchemaRejected,
        ReceiptRejectionReason::ProtocolViolation => ApplicationRejectionReason::ProtocolViolation,
    }
}

pub open spec fn lineage_of(authorization_receipt_id: Uuid, desired_generation: u64) -> LineageView {
    LineageView {
        authorization_receipt: identity::hyphenated(authorization_receipt_id@),
        desired_generation,
    }
}

/// What a receipt carries, whichever of the four it is.
pub struct ReceiptFactView {
    pub device_id: Uuid,
    pub ingress_envelope: Seq<char>,
    pub committed_at: i64,
    pub outcome: ReceiptOutcomeView,
}

pub open spec fn receipt_view(payload: ReceiptPayload) -> ReceiptFactView {
    match payload {
        ReceiptPayload::CommittedPayload(payload) => ReceiptFactView {
            device_id: payload.device_id,
            ingress_envelope: payload.ingress_envelope_id@,
            committed_at: payload.committed_at,
            outcome: ReceiptOutcomeView::Committed(
                lineage_of(payload.authorization_receipt_id, payload.desired_generation@),
            ),
        },
        ReceiptPayload::DuplicatePayload(payload) => ReceiptFactView {
            device_id: payload.device_id,
            ingress_envelope: payload.ingress_envelope_id@,
            committed_at: payload.committed_at,
            outcome: ReceiptOutcomeView::Duplicate(
                lineage_of(payload.authorization_receipt_id, payload.desired_generation@),
            ),
        },
        ReceiptPayload::StalePayload(payload) => ReceiptFactView {
            device_id: payload.device_id,
            ingress_envelope: payload.ingress_envelope_id@,
            committed_at: payload.committed_at,
            outcome: ReceiptOutcomeView::Stale {
                lineage: lineage_of(payload.authorization_receipt_id, payload.desired_generation@),
                reason: stale_reason_of(payload.reason),
            },
        },
        ReceiptPayload::RejectedPayload(payload) => ReceiptFactView {
            device_id: payload.device_id,
            ingress_envelope: payload.ingress_envelope_id@,
            committed_at: payload.committed_at,
            outcome: ReceiptOutcomeView::Rejected(receipt_rejection_of(payload.reason)),
        },
    }
}

/// The result of mapping a receipt: the first of device and envelope
/// reference that does not hold up, or the fact itself.
pub open spec fn receipt_mapped(
    context: ContextView,
    event: Seq<char>,
    payload: ReceiptFactView,
    result: Result<ApplicationReceiptObservation, MappingError>,
) -> bool {
    if payload.device_id@ != context.expected_device_id {
        result is Err && device_error(
            context.expected_device_id,
            payload.device_id,
            result->Err_0,
        )
    } else {
        match reference::reference_error("ingress_envelope_ref", payload.ingress_envelope) {
            Some(error) => result == Err::<ApplicationReceiptObservation, MappingError>(
                MappingError::InvalidProductReference(error),
            ),
            None => result is Ok && result->Ok_0@ == (ReceiptView {
                coordinates: context.coordinates,
                event,
                ingress_envelope: payload.ingress_envelope,
                outcome: payload.outcome,
                committed_at: payload.committed_at,
            }),
        }
    }
}

fn receipt(
    context: &MappingContext,
    event: EventRef,
    device_id: Uuid,
    ingress_envelope: String,
    outcome: ApplicationReceiptOutcome,
    committed_at: i64,
) -> (r: Result<ApplicationReceiptObservation, MappingError>)
    ensures
        receipt_mapped(
            context@,
            event@,
            ReceiptFactView {
                device_id,
                ingress_envelope: ingress_envelope@,
                committed_at,
                outcome: outcome@,
            },
            r,
        ),
{
    match context.require_device(device_id) {
        Ok(()) => {},
        Err(error) => {
            return Err(error);
        },
    }
    match IngressEnvelopeRef::try_from(ingress_envelope) {
        Ok(envelope) => Ok(
            ApplicationReceiptObservation::new(
                context.coordinates.clone(),
                event,
                envelope,
                outcome,
                UnixTimestamp::new(committed_at),
            ),
        ),
        Err(error) => Err(MappingError::from(error)),
    }
}

/// Maps all four canonical receipt branches into the closed product outcome.
pub fn map_receipt(context: &MappingContext, event: EventRef, payload: ReceiptPayload) -> (r:
    Result<ApplicationReceiptObservation, MappingError>)
    ensures
        receipt_mapped(context@, event@, receipt_view(payload), r),
{
    match payload {
        ReceiptPayload::CommittedPayload(payload) => {
            match lineage(payload.authorization_receipt_id, payload.desired_generation.get()) {
                Ok(lineage) => receipt(
                    context,
                    event,
                    payload.device_id,
                    payload.ingress_envelope_id,
                    ApplicationReceiptOutcome::Committed(lineage),
                    payload.committed_at,
                ),
                Err(error) => Err(error),
            }
        },
        ReceiptPayload::DuplicatePayload(payload) => {
            match lineage(payload.authorization_receipt_id, payload.desired_generation.get()) {
                Ok(lineage) => receipt(
                    context,
                    event,
                    payload.device_id,
                    payload.ingress_envelope_id,
                    ApplicationReceiptOutcome::Duplicate(lineage),
                    payload.committed_at,
                ),
                Err(error) => Err(error),
            }
        },
        ReceiptPayload::StalePayload(payload) => {
            let reason = match payload.reason {
                StaleReason::GenerationStale => ApplicationStaleReason::GenerationStale,
                StaleReason::FenceEpochStale => ApplicationStaleReason::FenceEpochStale,
                StaleReason::DeviceSequenceStale => ApplicationStaleReason::DeviceSequenceStale,
            };
            match lineage(payload.authorization_receipt_id, payload.desired_generation.get()) {
                Ok(lineage) => receipt(
                    context,
                    event,
                    payload.device_id,
                    payload.ingress_envelope_id,
                    ApplicationReceiptOutcome::Stale { lineage, reason },
                    payload.committed_at,
                ),
                Err(error) => Err(error),
            }
        },
        ReceiptPayload::RejectedPayload(payload) => {
            let reason = match payload.reason {
                ReceiptRejectionReason::NotAccepted => ApplicationRejectionReason::NotAccepted,
                ReceiptRejectionReason::SchemaRejected =>
                    ApplicationRejectionReason::SchemaRejected,
                ReceiptRejectionReason::ProtocolViolation =>
                    ApplicationRejectionReason::ProtocolViolation,
            };
            receipt(
                context,
                event,
                payload.device_id,
                payload.ingress_envelope_id,
                ApplicationReceiptOutcome::Rejected(reason),
                payload.committed_at,
            )
        },
    }
}

/// A fact about another device never enters the product model, whatever it says.
pub proof fn law_other_devices_are_refused(
    context: ContextView,
    event: Seq<char>,
    acknowledgement: AckPayload,
    report: ReportPayload,
    receipt: ReceiptPayload,
    mapped_acknowledgement: Result<CommandAcknowledgement, MappingError>,
    mapped_report: Result<CredentialReport, MappingError>,
    mapped_receipt: Result<ApplicationReceiptObservation, MappingError>,
)
    requires
        ack_mapped(context, event, ack_view(acknowledgement), mapped_acknowledgement),
        report_mapped(context, event, report, mapped_report),
        receipt_mapped(context, event, receipt_view(receipt), mapped_receipt),
        ack_view(acknowledgement).device_id@ != context.expected_device_id,
        report.device_id@ != context.expected_device_id,
        receipt_view(receipt).device_id@ != context.expected_device_id,
    ensures
        mapped_acknowledgement matches Err(MappingError::DeviceMismatch { .. }),
        mapped_report matches Err(MappingError::DeviceMismatch { .. }),
        mapped_receipt matches Err(MappingError::DeviceMismatch { .. }),
{
}

} // verus!
