//! Verification of a public trace as an external consumer sees it.
//!
//! Only public contract projections are observed: nothing here derives
//! authorization, infers readiness or claims durable server-side state.

use crate::client;
use crate::client::{
    ConditionReason, ConditionStatus, ConditionType, ConditionView, DiagnosticKind, PolicyBody,
    PolicyResponse, PolicyResponseView, StatusProjection, StatusView,
};
use crate::display;
use crate::identity;
use crate::model::{
    AcceptedView, AcknowledgementView, ApplicationReceiptObservation, ApplicationReceiptOutcome,
    CommandAcknowledgement, CommandAcknowledgementOutcome, CommandRejectionReason, CredentialReport,
    ReceiptOutcomeView, ReceiptView, ReportView, RotationAccepted, RotationCoordinates,
};
use crate::reference::AuthorizationReceiptRef;
use crate::text;
use vstd::prelude::*;
use vstd::string::*;

verus! {

/// Closed failures for the disposable external-consumer trace.
#[derive(Clone, Copy, Debug, Eq, PartialEq, Structural)]
pub enum JourneyError {
    /// ACK, report, receipt, or status correlation did not match the accepted generation.
    LineageMismatch,
    /// An ACK was not the expected received outcome.
    ExpectedReceivedAck,
    /// A public Ready condition appeared before an application receipt.
    ReadyBeforeReceipt,
    /// The positive trace did not contain a committed application receipt.
    ExpectedCommittedReceipt,
    /// The final public status did not contain an exact Ready observation.
    MissingReadyObservation,
    /// A stale fact did not remain a closed non-retryable forbidden response.
    ExpectedForbidden,
    /// A revoked artifact did not surface as the public policy-rejected ACK.
    ExpectedRevokedRejection,
    /// A revoked artifact path nevertheless observed Ready.
    ReadyAfterRevocation,
    /// ACK, report, and receipt event identities were not independent.
    EventIdentityCollision,
}

impl JourneyError {
    /// The text that describes the failure.
    pub open spec fn message(self) -> Seq<char> {
        match self {
            JourneyError::LineageMismatch => "external trace lineage mismatch"@,
            JourneyError::ExpectedReceivedAck => "external trace expected a received ACK"@,
            JourneyError::ReadyBeforeReceipt => "external trace observed Ready before receipt"@,
            JourneyError::ExpectedCommittedReceipt =>
                "external trace expected a committed receipt"@,
            JourneyError::MissingReadyObservation =>
                "external trace has no matching Ready observation"@,
            JourneyError::ExpectedForbidden =>
                "external trace expected a closed forbidden response"@,
            JourneyError::ExpectedRevokedRejection =>
                "external trace expected a revoked policy rejection"@,
            JourneyError::ReadyAfterRevocation => "external trace observed Ready after revocation"@,
            JourneyError::EventIdentityCollision => "external trace event identities collide"@,
        }
    }
}

impl core::fmt::Display for JourneyError {
    fn fmt(&self, formatter: &mut core::fmt::Formatter<'_>) -> (r: Result<(), core::fmt::Error>)
        ensures
            r is Ok ==> display::wrote(*old(formatter), *final(formatter), self.message()),
    {
        formatter.write_str(
            match self {
                JourneyError::LineageMismatch => "external trace lineage mismatch",
                JourneyError::ExpectedReceivedAck => "external trace expected a received ACK",
                JourneyError::ReadyBeforeReceipt => "external trace observed Ready before receipt",
                JourneyError::ExpectedCommittedReceipt =>
                    "external trace expected a committed receipt",
                JourneyError::MissingReadyObservation =>
                    "external trace has no matching Ready observation",
                JourneyError::ExpectedForbidden =>
                    "external trace expected a closed forbidden response",
                JourneyError::ExpectedRevokedRejection =>
                    "external trace expected a revoked policy rejection",
                JourneyError::ReadyAfterRevocation =>
                    "external trace observed Ready after revocation",
                JourneyError::EventIdentityCollision => "external trace event identities collide",
            },
        )
    }
}

impl std::error::Error for JourneyError {

}

/// A condition that says Ready for a generation.
pub open spec fn ready_condition(condition: ConditionView, generation: u64) -> bool {
    &&& condition.type_ == ConditionType::Ready
    &&& condition.status == ConditionStatus::True
    &&& condition.reason == ConditionReason::StateMatches
    &&& condition.observed_generation == generation
}

/// A public status that says Ready for the generation it observes.
pub open spec fn ready(status: StatusView) -> bool {
    exists|i: int|
        0 <= i < status.conditions.len() && #[trigger] ready_condition(
            status.conditions[i],
            status.observed_generation,
        )
}

fn is_ready(status: &StatusProjection) -> (r: bool)
    ensures
        r == ready(status@),
{
    let conditions = status.conditions();
    let mut i: usize = 0;
    while i < conditions.len()
        invariant
            i <= conditions@.len(),
            client::conditions_view(conditions@) == status@.conditions,
            forall|j: int|
                0 <= j < i ==> !#[trigger] ready_condition(
                    status@.conditions[j],
                    status@.observed_generation,
                ),
        decreases conditions@.len() - i,
    {
        let condition = &conditions[i];
        assert(status@.conditions[i as int] == condition@);
        if condition.type_() == ConditionType::Ready && condition.status() == ConditionStatus::True
            && condition.reason() == ConditionReason::StateMatches
            && condition.observed_generation() == status.observed_generation() {
            assert(ready_condition(status@.conditions[i as int], status@.observed_generation));
            return true;
        }
        i = i + 1;
    }
    false
}

/// A public status that desires a generation under an authorization receipt.
pub open spec fn desires(status: StatusView, generation: u64, receipt: Seq<char>) -> bool {
    &&& status.desired_generation == Some(generation)
    &&& status.authorization_receipt_id matches Some(id) && identity::hyphenated(id) == receipt
}

/// The first thing wrong with a trace that should run from acceptance to Ready.
pub open spec fn positive_trace_error(
    accepted: AcceptedView,
    acknowledgement: AcknowledgementView,
    status_after_ack: StatusView,
    report: ReportView,
    receipt: ReceiptView,
    final_status: StatusView,
) -> Option<JourneyError> {
    let generation = accepted.accepted_generation;
    if acknowledgement.outcome != CommandAcknowledgementOutcome::Received {
        Some(JourneyError::ExpectedReceivedAck)
    } else if ready(status_after_ack) {
        Some(JourneyError::ReadyBeforeReceipt)
    } else if acknowledgement.coordinates != accepted.coordinates || report.coordinates
        != accepted.coordinates || receipt.coordinates != accepted.coordinates
        || acknowledgement.position.desired_generation != generation
        || report.position.observed_generation != generation || report.position.fence_epoch
        != acknowledgement.position.fence_epoch || !desires(
        status_after_ack,
        generation,
        accepted.authorization_receipt,
    ) {
        Some(JourneyError::LineageMismatch)
    } else {
        match receipt.outcome {
            ReceiptOutcomeView::Committed(lineage) => if lineage.desired_generation != generation
                || lineage.authorization_receipt != accepted.authorization_receipt || !desires(
                final_status,
                generation,
                accepted.authorization_receipt,
            ) || final_status.observed_generation != generation {
                Some(JourneyError::LineageMismatch)
            } else if acknowledgement.event == report.event || acknowledgement.event
                == receipt.event || report.event == receipt.event {
                Some(JourneyError::EventIdentityCollision)
            } else if !ready(final_status) {
                Some(JourneyError::MissingReadyObservation)
            } else {
                None
            },
            _ => Some(JourneyError::ExpectedCommittedReceipt),
        }
    }
}

/// What a check comes to when this is the first thing it finds wrong.
pub open spec fn verdict(error: Option<JourneyError>) -> Result<(), JourneyError> {
    match error {
        Some(error) => Err(error),
        None => Ok(()),
    }
}

fn same_coordinates(a: &RotationCoordinates, b: &RotationCoordinates) -> (r: bool)
    ensures
        r == (a@ == b@),
{
    text::same(a.rotation_id().expose(), b.rotation_id().expose()) && text::same(
        a.tenant().expose(),
        b.tenant().expose(),
    ) && text::same(a.device().expose(), b.device().expose())
}

fn is_desired(status: &StatusProjection, generation: u64, receipt: &AuthorizationReceiptRef) -> (r:
    bool)
    ensures
        r == desires(status@, generation, receipt@),
{
    let desired = match status.desired_generation() {
        Some(desired) => desired == generation,
        None => false,
    };
    if !desired {
        return false;
    }
    match status.authorization_receipt_id() {
        Some(id) => text::same(id.text().as_str(), receipt.expose()),
        None => false,
    }
}

fn is_received(outcome: CommandAcknowledgementOutcome) -> (r: bool)
    ensures
        r == (outcome == CommandAcknowledgementOutcome::Received),
{
    match outcome {
        CommandAcknowledgementOutcome::Received => true,
        CommandAcknowledgementOutcome::Rejected(_) => false,
    }
}

/// Verifies one exact public-contract trace without deriving authoritative state.
pub fn verify_positive_trace(
    accepted: &RotationAccepted,
    acknowledgement: &CommandAcknowledgement,
    status_after_ack: &StatusProjection,
    report: &CredentialReport,
    receipt: &ApplicationReceiptObservation,
    final_status: &StatusProjection,
) -> (r: Result<(), JourneyError>)
    ensures
        r == verdict(
            positive_trace_error(
                accepted@,
                acknowledgement@,
                status_after_ack@,
                report@,
                receipt@,
                final_status@,
            ),
        ),
{
    if !is_received(acknowledgement.outcome()) {
        return Err(JourneyError::ExpectedReceivedAck);
    }
    if is_ready(status_after_ack) {
        return Err(JourneyError::ReadyBeforeReceipt);
    }
    let generation: u64 = accepted.accepted_generation().get();
    if !same_coordinates(acknowledgement.coordinates(), accepted.coordinates())
        || !same_coordinates(report.coordinates(), accepted.coordinates()) || !same_coordinates(
        receipt.coordinates(),
        accepted.coordinates(),
    ) || acknowledgement.desired_generation().get() != generation
        || report.observed_generation().get() != generation || report.fence_epoch().get()
        != acknowledgement.fence_epoch().get() || !is_desired(
        status_after_ack,
        generation,
        accepted.authorization_receipt(),
    ) {
        return Err(JourneyError::LineageMismatch);
    }
    let lineage = match receipt.outcome() {
        ApplicationReceiptOutcome::Committed(lineage) => lineage,
        _ => {
            return Err(JourneyError::ExpectedCommittedReceipt);
        },
    };
    if lineage.desired_generation().get() != generation || !text::same(
        lineage.authorization_receipt().expose(),
        accepted.authorization_receipt().expose(),
    ) || !is_desired(final_status, generation, accepted.authorization_receipt())
        || final_status.observed_generation() != generation {
        return Err(JourneyError::LineageMismatch);
    }
    if text::same(acknowledgement.event().expose(), report.event().expose()) || text::same(
        acknowledgement.event().expose(),
        receipt.event().expose(),
    ) || text::same(report.event().expose(), receipt.event().expose()) {
        return Err(JourneyError::EventIdentityCollision);
    }
    if !is_ready(final_status) {
        return Err(JourneyError::MissingReadyObservation);
    }
    Ok(())
}

/// A closed, non-retryable forbidden response.
pub open spec fn forbidden(response: PolicyResponseView) -> bool {
    match response {
        PolicyResponseView::Rejected(diagnostic) => diagnostic.kind == DiagnosticKind::Forbidden
            && !diagnostic.retryable,
        PolicyResponseView::Accepted(_) => false,
    }
}

/// Verifies the closed public response to a stale fact.
pub fn verify_forbidden(response: &PolicyResponse) -> (r: Result<(), JourneyError>)
    ensures
        forbidden(response@) ==> r is Ok,
        !forbidden(response@) ==> r == Err::<(), JourneyError>(JourneyError::ExpectedForbidden),
{
    match response {
        PolicyResponse::Rejected(diagnostic) => if diagnostic.kind() == DiagnosticKind::Forbidden
            && !diagnostic.retryable() {
            Ok(())
        } else {
            Err(JourneyError::ExpectedForbidden)
        },
        PolicyResponse::Accepted(_) => Err(JourneyError::ExpectedForbidden),
    }
}

/// The first thing wrong with a trace in which a revoked credential must not advance.
pub open spec fn revoked_trace_error(
    acknowledgement: AcknowledgementView,
    status: StatusView,
) -> Option<JourneyError> {
    if acknowledgement.outcome != CommandAcknowledgementOutcome::Rejected(
        CommandRejectionReason::PolicyRejected,
    ) {
        Some(JourneyError::ExpectedRevokedRejection)
    } else if ready(status) {
        Some(JourneyError::ReadyAfterRevocation)
    } else if status.observed_generation >= acknowledgement.position.desired_generation {
        Some(JourneyError::LineageMismatch)
    } else {
        None
    }
}

fn is_policy_rejected(outcome: CommandAcknowledgementOutcome) -> (r: bool)
    ensures
        r == (outcome == CommandAcknowledgementOutcome::Rejected(
            CommandRejectionReason::PolicyRejected,
        )),
{
    match outcome {
        CommandAcknowledgementOutcome::Rejected(CommandRejectionReason::PolicyRejected) => true,
        _ => false,
    }
}

/// Verifies that the public result of a revoked credential cannot advance.
///
/// That a revoked catalog entry is rejected by policy is the agent's own
/// matter; only the public trace is verified here.
pub fn verify_revoked_no_advance(
    acknowledgement: &CommandAcknowledgement,
    status: &StatusProjection,
) -> (r: Result<(), JourneyError>)
    ensures
        r == verdict(revoked_trace_error(acknowledgement@, status@)),
{
    if !is_policy_rejected(acknowledgement.outcome()) {
        return Err(JourneyError::ExpectedRevokedRejection);
    }
    if is_ready(status) {
        return Err(JourneyError::ReadyAfterRevocation);
    }
    if status.observed_generation() >= acknowledgement.desired_generation().get() {
        return Err(JourneyError::LineageMismatch);
    }
    Ok(())
}

/// A trace that passes observes Ready only at its end, after a committed
/// receipt, and every fact in it belongs to the accepted generation and its
/// authorization, under event identities of its own.
pub proof fn law_ready_follows_the_receipt(
    accepted: AcceptedView,
    acknowledgement: AcknowledgementView,
    status_after_ack: StatusView,
    report: ReportView,
    receipt: ReceiptView,
    final_status: StatusView,
)
    requires
        positive_trace_error(
            accepted,
            acknowledgement,
            status_after_ack,
            report,
            receipt,
            final_status,
        ) is None,
    ensures
        !ready(status_after_ack),
        ready(final_status),
        receipt.outcome matches ReceiptOutcomeView::Committed(lineage)
            && lineage.desired_generation == accepted.accepted_generation
            && lineage.authorization_receipt == accepted.authorization_receipt,
        acknowledgement.position.desired_generation == accepted.accepted_generation,
        report.position.observed_generation == accepted.accepted_generation,
        final_status.observed_generation == accepted.accepted_generation,
        acknowledgement.event != report.event,
        acknowledgement.event != receipt.event,
        report.event != receipt.event,
{
}

/// A stale fact is answered by one response only: status 403 is a closed
/// forbidden whatever its body says, and no other status is one.
pub proof fn law_only_a_forbidden_status_is_forbidden(status: u16, body: PolicyBody)
    ensures
        forbidden(client::policy_projection(status, body)) <==> status == 403,
{
}

/// A trace cannot pass both as an advance and as a revoked credential.
pub proof fn law_revoked_credentials_do_not_advance(
    accepted: AcceptedView,
    acknowledgement: AcknowledgementView,
    status_after_ack: StatusView,
    report: ReportView,
    receipt: ReceiptView,
    final_status: StatusView,
)
    requires
        revoked_trace_error(acknowledgement, final_status) is None,
    ensures
        !ready(final_status),
        final_status.observed_generation < acknowledgement.position.desired_generation,
        positive_trace_error(
            accepted,
            acknowledgement,
            status_after_ack,
            report,
            receipt,
            final_status,
        ) is Some,
{
}

} // verus!
