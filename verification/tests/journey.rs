use secure_device_rotation::client::{
    decode_policy_response, decode_status_response, PolicyBody, StatusProjection, StatusResponse,
};
use secure_device_rotation::contract::{
    AckPayload, CanonicalCommandState, CanonicalConditionReason, CanonicalConditionStatus,
    CanonicalConditionType, CommittedReceipt, ConflictError, ConflictResponse, ErrorBody,
    NotFoundResponse, PolicyData, PolicyDataCondition, PolicyPutResponse, ReceiptPayload,
    ReceivedAck, RejectedAck, RejectedReason, ReportPayload, StatusActiveCommand, StatusCondition,
    StatusData, StatusDesired, StatusGetResponse, ValidationResponse,
};
use secure_device_rotation::identity::Uuid;
use secure_device_rotation::journey::{
    verify_forbidden, verify_positive_trace, verify_revoked_no_advance, JourneyError,
};
use secure_device_rotation::mapping::{
    map_acknowledgement, map_policy_success, map_receipt, map_report, MappingContext,
};
use secure_device_rotation::model::RotationCoordinates;
use secure_device_rotation::nonzero::NonZeroU64;
use secure_device_rotation::reference::{DeviceRef, EventRef, RotationId, TenantRef};
use serde_json::Value;

fn id(text: &str) -> Option<Uuid> {
    Some(Uuid::from_u128(text.parse::<uuid::Uuid>().ok()?.as_u128()))
}

fn error_body(value: &Value, code: &str) -> Option<ErrorBody> {
    let error = value.get("error")?;
    if error.get("code")?.as_str()? != code {
        return None;
    }
    Some(ErrorBody {
        request_id: error.get("requestId")?.as_str()?.to_owned(),
        retryable: error.get("retryable")?.as_bool()?,
    })
}

fn accepted(value: &Value) -> Option<PolicyPutResponse> {
    let data = value.get("data")?;
    Some(PolicyPutResponse {
        data: PolicyData {
            accepted_generation: NonZeroU64::new(data.get("acceptedGeneration")?.as_u64()?)?,
            authorization_receipt_id: id(data.get("authorizationReceiptId")?.as_str()?)?,
            condition: match data.get("condition")?.as_str()? {
                "Reconciling" => PolicyDataCondition::Reconciling,
                "PendingDevice" => PolicyDataCondition::PendingDevice,
                _ => return None,
            },
        },
    })
}

fn body(bytes: &[u8]) -> PolicyBody {
    let value: Value = serde_json::from_slice(bytes).unwrap_or(Value::Null);
    let conflict = |code: &str| error_body(&value, code);
    PolicyBody {
        accepted: accepted(&value),
        validation: error_body(&value, "ERR_CORE_VALIDATION")
            .map(|error| ValidationResponse { error }),
        not_found: error_body(&value, "ERR_CORE_NOT_FOUND").map(|error| NotFoundResponse { error }),
        conflict: match (
            conflict("ERR_CORE_VERSION_CONFLICT"),
            conflict("ERR_CORE_CONFLICT"),
        ) {
            (Some(error), _) => Some(ConflictResponse {
                error: ConflictError::ErrCoreVersionConflict {
                    request_id: error.request_id,
                    retryable: error.retryable,
                },
            }),
            (_, Some(error)) => Some(ConflictResponse {
                error: ConflictError::ErrCoreConflict {
                    request_id: error.request_id,
                    retryable: error.retryable,
                },
            }),
            _ => None,
        },
    }
}

fn status_body(bytes: &[u8]) -> Option<StatusGetResponse> {
    let value: Value = serde_json::from_slice(bytes).ok()?;
    let data = value.get("data")?;
    let mut conditions = Vec::new();
    for item in data.get("conditions")?.as_array()? {
        conditions.push(StatusCondition {
            last_transition_at: item.get("lastTransitionAt")?.as_i64()?,
            observed_generation: item.get("observedGeneration")?.as_i64()?,
            reason: match item.get("reason")?.as_str()? {
                "AwaitingDevice" => CanonicalConditionReason::AwaitingDevice,
                "StateMatches" => CanonicalConditionReason::StateMatches,
                _ => return None,
            },
            status: match item.get("status")?.as_str()? {
                "True" => CanonicalConditionStatus::True,
                "False" => CanonicalConditionStatus::False,
                "Unknown" => CanonicalConditionStatus::Unknown,
                _ => return None,
            },
            type_: match item.get("type")?.as_str()? {
                "Ready" => CanonicalConditionType::Ready,
                "PendingDevice" => CanonicalConditionType::PendingDevice,
                _ => return None,
            },
        });
    }
    let desired = data.get("desired")?;
    let active = desired.get("activeCommand")?;
    let active_command = if active.is_null() {
        None
    } else {
        Some(StatusActiveCommand {
            fence_epoch: NonZeroU64::new(active.get("fenceEpoch")?.as_u64()?)?,
            state: match active.get("state")?.as_str()? {
                "queued" => CanonicalCommandState::Queued,
                "published" => CanonicalCommandState::Published,
                "received" => CanonicalCommandState::Received,
                _ => return None,
            },
        })
    };
    Some(StatusGetResponse {
        data: StatusData {
            conditions,
            desired: Some(StatusDesired {
                active_command,
                authorization_receipt_id: id(desired.get("authorizationReceiptId")?.as_str()?)?,
                generation: NonZeroU64::new(desired.get("generation")?.as_u64()?)?,
            }),
            observed_generation: data.get("observedGeneration")?.as_i64()?,
        },
    })
}

const DEVICE: &str = "0198d5f2-70de-7a2d-b3f4-012345678901";
const RECEIPT: &str = "0198d5f2-70de-7a2d-b3f4-0123456789ab";
const HASH: &str = "sha256:0000000000000000000000000000000000000000000000000000000000000000";

#[test]
fn exact_public_trace_requires_receipt_before_an_upstream_ready_observation() {
    let context = context();
    let accepted = map_policy_success(&context, &policy_response(8)).expect("accepted");
    let ack =
        map_acknowledgement(&context, event("ack-event"), received_ack()).expect("received ACK");
    let after_ack = status(&queued_status());
    let report =
        map_report(&context, event("report-event"), report_payload()).expect("matching report");
    let receipt = map_receipt(&context, event("receipt-event"), committed_receipt(8))
        .expect("matching receipt");
    let ready = status(&ready_status());

    verify_positive_trace(&accepted, &ack, &after_ack, &report, &receipt, &ready)
        .expect("closed public trace");

    let premature_ready = status(&ready_status());
    assert_eq!(
        verify_positive_trace(&accepted, &ack, &premature_ready, &report, &receipt, &ready,),
        Err(JourneyError::ReadyBeforeReceipt)
    );
    let wrong_receipt = map_receipt(&context, event("wrong-receipt"), committed_receipt(9))
        .expect("well-shaped mismatched receipt");
    assert_eq!(
        verify_positive_trace(&accepted, &ack, &after_ack, &report, &wrong_receipt, &ready),
        Err(JourneyError::LineageMismatch)
    );
}

#[test]
fn stale_fact_is_a_closed_forbidden_without_an_acceptance() {
    let rejected = decode_policy_response(403, &body(b"provider-secret-bait"));
    verify_forbidden(&rejected).expect("closed forbidden");
    let accepted_body = format!(
        r#"{{"data":{{"acceptedGeneration":8,"authorizationReceiptId":"{RECEIPT}","condition":"Reconciling"}}}}"#
    );
    assert_eq!(
        verify_forbidden(&decode_policy_response(200, &body(accepted_body.as_bytes()))),
        Err(JourneyError::ExpectedForbidden)
    );
}

#[test]
fn revoked_credential_rejection_cannot_advance_or_observe_ready() {
    let context = context();
    let rejected = map_acknowledgement(&context, event("revoked-ack"), revoked_ack())
        .expect("closed policy rejection");
    let pending = status(&queued_status());
    verify_revoked_no_advance(&rejected, &pending).expect("no advance");

    let received =
        map_acknowledgement(&context, event("received-ack"), received_ack()).expect("received");
    assert_eq!(
        verify_revoked_no_advance(&received, &pending),
        Err(JourneyError::ExpectedRevokedRejection)
    );
    assert_eq!(
        verify_revoked_no_advance(&rejected, &status(&ready_status())),
        Err(JourneyError::ReadyAfterRevocation)
    );
}

fn context() -> MappingContext {
    MappingContext::new(
        RotationCoordinates::new(
            RotationId::try_from("rotation-1").expect("rotation"),
            TenantRef::try_from("tenant-1").expect("tenant"),
            DeviceRef::try_from("device-1").expect("device"),
        ),
        parsed(DEVICE),
    )
}

fn event(value: &str) -> EventRef {
    EventRef::try_from(value).expect("event")
}

fn nz(value: u64) -> NonZeroU64 {
    NonZeroU64::new(value).expect("positive")
}

fn parsed(value: &str) -> Uuid {
    id(value).expect("canonical fixture")
}

fn policy_response(generation: u64) -> PolicyPutResponse {
    PolicyPutResponse {
        data: PolicyData {
            accepted_generation: nz(generation),
            authorization_receipt_id: parsed(RECEIPT),
            condition: PolicyDataCondition::Reconciling,
        },
    }
}

fn received_ack() -> AckPayload {
    AckPayload::ReceivedPayload(ReceivedAck {
        command_id: "command-1".to_owned(),
        desired_generation: nz(8),
        device_id: parsed(DEVICE),
        device_sequence: 10,
        fence_epoch: nz(4),
        observed_at: 1700,
    })
}

fn revoked_ack() -> AckPayload {
    AckPayload::RejectedPayload(RejectedAck {
        command_id: "command-1".to_owned(),
        desired_generation: nz(8),
        device_id: parsed(DEVICE),
        device_sequence: 10,
        fence_epoch: nz(4),
        observed_at: 1700,
        reason: RejectedReason::PolicyRejected,
    })
}

fn report_payload() -> ReportPayload {
    ReportPayload {
        artifact_digest: HASH.to_owned(),
        device_id: parsed(DEVICE),
        device_sequence: 11,
        expires_at: Some(1800),
        fence_epoch: nz(4),
        observed_at: 1701,
        observed_generation: nz(8),
        state_hash: HASH.to_owned(),
    }
}

fn committed_receipt(generation: u64) -> ReceiptPayload {
    ReceiptPayload::CommittedPayload(CommittedReceipt {
        authorization_receipt_id: parsed(RECEIPT),
        committed_at: 1702,
        desired_generation: nz(generation),
        device_id: parsed(DEVICE),
        ingress_envelope_id: "ingress-1".to_owned(),
    })
}

fn status(body: &str) -> StatusProjection {
    match decode_status_response(200, &status_body(body.as_bytes())) {
        StatusResponse::Observed(value) => value,
        StatusResponse::Rejected(value) => panic!("unexpected status diagnostic: {value:?}"),
    }
}

fn queued_status() -> String {
    format!(
        r#"{{"data":{{"conditions":[{{"lastTransitionAt":1700,"observedGeneration":7,"reason":"AwaitingDevice","status":"Unknown","type":"PendingDevice"}}],"desired":{{"activeCommand":{{"fenceEpoch":4,"state":"received"}},"authorizationReceiptId":"{RECEIPT}","generation":8}},"observedGeneration":7}}}}"#
    )
}

fn ready_status() -> String {
    format!(
        r#"{{"data":{{"conditions":[{{"lastTransitionAt":1703,"observedGeneration":8,"reason":"StateMatches","status":"True","type":"Ready"}}],"desired":{{"activeCommand":null,"authorizationReceiptId":"{RECEIPT}","generation":8}},"observedGeneration":8}}}}"#
    )
}

#[test]
fn every_fact_of_a_trace_must_belong_to_it() {
    let context = context();
    let accepted = map_policy_success(&context, &policy_response(8)).expect("accepted");
    let ack = map_acknowledgement(&context, event("ack-event"), received_ack()).expect("ACK");
    let after_ack = status(&queued_status());
    let report = map_report(&context, event("report-event"), report_payload()).expect("report");
    let receipt =
        map_receipt(&context, event("receipt-event"), committed_receipt(8)).expect("receipt");
    let ready = status(&ready_status());
    let check = |ack, after, report, receipt, last| {
        verify_positive_trace(&accepted, ack, after, report, receipt, last)
    };
    assert_eq!(check(&ack, &after_ack, &report, &receipt, &ready), Ok(()));

    let revoked = map_acknowledgement(&context, event("ack-event"), revoked_ack()).expect("ACK");
    assert_eq!(
        check(&revoked, &after_ack, &report, &receipt, &ready),
        Err(JourneyError::ExpectedReceivedAck)
    );
    let same_event =
        map_report(&context, event("ack-event"), report_payload()).expect("same event");
    assert_eq!(
        check(&ack, &after_ack, &same_event, &receipt, &ready),
        Err(JourneyError::EventIdentityCollision)
    );
    assert_eq!(
        check(&ack, &after_ack, &report, &receipt, &after_ack),
        Err(JourneyError::LineageMismatch)
    );
    let other = MappingContext::new(
        RotationCoordinates::new(
            RotationId::try_from("rotation-2").expect("rotation"),
            TenantRef::try_from("tenant-1").expect("tenant"),
            DeviceRef::try_from("device-1").expect("device"),
        ),
        parsed(DEVICE),
    );
    let foreign = map_report(&other, event("report-event"), report_payload()).expect("report");
    assert_eq!(
        check(&ack, &after_ack, &foreign, &receipt, &ready),
        Err(JourneyError::LineageMismatch)
    );
    assert_eq!(
        JourneyError::ReadyBeforeReceipt.to_string(),
        "external trace observed Ready before receipt"
    );
}
