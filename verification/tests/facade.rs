use secure_device_rotation::client::{
    decode_policy_response, decode_status_response, policy_put_operation, prepare_policy_put,
    prepare_status_get, status_get_operation, DiagnosticKind, PolicyBody, PolicyPutRequest,
    PolicyResponse, StatusResponse,
};
use secure_device_rotation::contract::{
    CanonicalCommandState, CanonicalConditionReason, CanonicalConditionStatus,
    CanonicalConditionType, ConflictError, ConflictResponse, ErrorBody, NotFoundResponse,
    PolicyData, PolicyDataCondition, PolicyPutResponse, StatusActiveCommand, StatusCondition,
    StatusData, StatusDesired, StatusGetResponse, ValidationResponse,
};
use secure_device_rotation::identity::Uuid;
use secure_device_rotation::model::{KeyUsage, RotationPolicy};
use secure_device_rotation::nonzero::NonZeroU64;
use serde_json::Value;

const DEVICE: &str = "0198d5f2-70de-7a2d-b3f4-012345678901";
const RECEIPT: &str = "0198d5f2-70de-7a2d-b3f4-0123456789ab";

fn id(text: &str) -> Option<Uuid> {
    Some(Uuid::from_u128(text.parse::<uuid::Uuid>().ok()?.as_u128()))
}

fn policy() -> RotationPolicy {
    RotationPolicy::try_new(
        vec![KeyUsage::ClientAuth],
        600,
        vec!["private.device.example".to_owned()],
        3600,
    )
    .expect("valid policy")
}

fn encode(request: &PolicyPutRequest) -> Vec<u8> {
    let mut policy = serde_json::Map::new();
    let usages: Vec<Value> = request
        .key_usages
        .iter()
        .map(|usage| match usage {
            KeyUsage::ClientAuth => Value::from("clientAuth"),
            KeyUsage::ServerAuth => Value::from("serverAuth"),
        })
        .collect();
    policy.insert("keyUsages".to_owned(), Value::from(usages));
    policy.insert(
        "renewBeforeSeconds".to_owned(),
        Value::from(request.renew_before_seconds),
    );
    if let Some(sans) = &request.sans {
        policy.insert("sans".to_owned(), Value::from(sans.clone()));
    }
    policy.insert(
        "validitySeconds".to_owned(),
        Value::from(request.validity_seconds),
    );
    let mut body = serde_json::Map::new();
    body.insert(
        "expectedGeneration".to_owned(),
        Value::from(request.expected_generation),
    );
    body.insert(
        "idempotencyKey".to_owned(),
        Value::from(request.idempotency_key.text()),
    );
    body.insert("policy".to_owned(), Value::from(policy));
    serde_json::to_vec(&body).expect("JSON")
}

fn error_body(value: &Value, code: &str) -> Option<ErrorBody> {
    let error = value.get("error")?;
    if error.get("code")?.as_str()? != code {
        return None;
    }
    Some(ErrorBody {
        request_id: error.get("requestId")?.as_str()?.to_owned(),
        retryable: error.get("retryable")?.as_bool()?,
    })
}

fn accepted(value: &Value) -> Option<PolicyPutResponse> {
    let data = value.get("data")?;
    Some(PolicyPutResponse {
        data: PolicyData {
            accepted_generation: NonZeroU64::new(data.get("acceptedGeneration")?.as_u64()?)?,
            authorization_receipt_id: id(data.get("authorizationReceiptId")?.as_str()?)?,
            condition: match data.get("condition")?.as_str()? {
                "Reconciling" => PolicyDataCondition::Reconciling,
                "PendingDevice" => PolicyDataCondition::PendingDevice,
                _ => return None,
            },
        },
    })
}

fn body(bytes: &[u8]) -> PolicyBody {
    let value: Value = serde_json::from_slice(bytes).unwrap_or(Value::Null);
    let conflict = |code: &str| error_body(&value, code);
    PolicyBody {
        accepted: accepted(&value),
        validation: error_body(&value, "ERR_CORE_VALIDATION")
            .map(|error| ValidationResponse { error }),
        not_found: error_body(&value, "ERR_CORE_NOT_FOUND").map(|error| NotFoundResponse { error }),
        conflict: match (
            conflict("ERR_CORE_VERSION_CONFLICT"),
            conflict("ERR_CORE_CONFLICT"),
        ) {
            (Some(error), _) => Some(ConflictResponse {
                error: ConflictError::ErrCoreVersionConflict {
                    request_id: error.request_id,
                    retryable: error.retryable,
                },
            }),
            (_, Some(error)) => Some(ConflictResponse {
                error: ConflictError::ErrCoreConflict {
                    request_id: error.request_id,
                    retryable: error.retryable,
                },
            }),
            _ => None,
        },
    }
}

fn status_body(bytes: &[u8]) -> Option<StatusGetResponse> {
    let value: Value = serde_json::from_slice(bytes).ok()?;
    let data = value.get("data")?;
    let mut conditions = Vec::new();
    for item in data.get("conditions")?.as_array()? {
        conditions.push(StatusCondition {
            last_transition_at: item.get("lastTransitionAt")?.as_i64()?,
            observed_generation: item.get("observedGeneration")?.as_i64()?,
            reason: match item.get("reason")?.as_str()? {
                "AwaitingDevice" => CanonicalConditionReason::AwaitingDevice,
                "StateMatches" => CanonicalConditionReason::StateMatches,
                _ => return None,
            },
            status: match item.get("status")?.as_str()? {
                "True" => CanonicalConditionStatus::True,
                "False" => CanonicalConditionStatus::False,
                "Unknown" => CanonicalConditionStatus::Unknown,
                _ => return None,
            },
            type_: match item.get("type")?.as_str()? {
                "Ready" => CanonicalConditionType::Ready,
                "PendingDevice" => CanonicalConditionType::PendingDevice,
                _ => return None,
            },
        });
    }
    let desired = data.get("desired")?;
    let active = desired.get("activeCommand")?;
    let active_command = if active.is_null() {
        None
    } else {
        Some(StatusActiveCommand {
            fence_epoch: NonZeroU64::new(active.get("fenceEpoch")?.as_u64()?)?,
            state: match active.get("state")?.as_str()? {
                "queued" => CanonicalCommandState::Queued,
                "published" => CanonicalCommandState::Published,
                "received" => CanonicalCommandState::Received,
                _ => return None,
            },
        })
    };
    Some(StatusGetResponse {
        data: StatusData {
            conditions,
            desired: Some(StatusDesired {
                active_command,
                authorization_receipt_id: id(desired.get("authorizationReceiptId")?.as_str()?)?,
                generation: NonZeroU64::new(desired.get("generation")?.as_u64()?)?,
            }),
            observed_generation: data.get("observedGeneration")?.as_i64()?,
        },
    })
}

#[test]
fn descriptors_and_prepared_requests_are_canonical_and_redacted() {
    assert_eq!(policy_put_operation().method, "PUT");
    assert_eq!(status_get_operation().method, "GET");
    let device = id(DEVICE).expect("device");
    let put = prepare_policy_put(device, 7, Uuid::from_u128(0), &policy()).expect("request");
    let encoded = encode(put.request());
    let request = put.with_body(Some(encoded)).expect("request");
    assert_eq!(
        request.path(),
        format!("/api/v2/identity/devices/{DEVICE}/certificate-policy")
    );
    let body: Value = serde_json::from_slice(request.body().expect("body")).expect("JSON");
    assert_eq!(body["expectedGeneration"], 7);
    assert_eq!(body["policy"]["sans"][0], "private.device.example");
    let debug = format!("{request:?}");
    assert!(debug.contains("REDACTED"));
    assert!(!debug.contains(DEVICE));
    assert!(!debug.contains("private.device.example"));
    let status = prepare_status_get(device);
    assert_eq!(status.method(), "GET");
    assert!(status.body().is_none());
    assert_eq!(
        status.path(),
        format!("/api/v2/identity/devices/{DEVICE}/certificate-status")
    );
}

#[test]
fn requests_that_cannot_be_written_are_refused() {
    let device = id(DEVICE).expect("device");
    let key = Uuid::from_u128(1);
    assert!(prepare_policy_put(device, 1 << 63, key, &policy()).is_err());
    let put = prepare_policy_put(device, (1 << 63) - 1, key, &policy()).expect("request");
    assert!(put.with_body(None).is_err());
}

#[test]
fn policy_decode_is_typed_and_closed_for_all_status_classes() {
    let success = format!(
        r#"{{"data":{{"acceptedGeneration":8,"authorizationReceiptId":"{RECEIPT}","condition":"Reconciling"}}}}"#
    );
    match decode_policy_response(200, &body(success.as_bytes())) {
        PolicyResponse::Accepted(value) => {
            assert_eq!(value.generation(), 8);
            assert_eq!(value.condition().as_str(), "Reconciling");
        }
        other @ PolicyResponse::Rejected(_) => panic!("unexpected {other:?}"),
    }
    let validation = br#"{"error":{"code":"ERR_CORE_VALIDATION","details":[],"message":"validation failed","requestId":"request-400","retryable":false}}"#;
    let not_found = br#"{"error":{"code":"ERR_CORE_NOT_FOUND","details":[],"message":"not found","requestId":"request-404","retryable":false}}"#;
    let conflict = br#"{"error":{"code":"ERR_CORE_VERSION_CONFLICT","details":[],"message":"version conflict","requestId":"request-409","retryable":true}}"#;
    for (status, bytes, kind) in [
        (400, validation.as_slice(), DiagnosticKind::Validation),
        (404, not_found.as_slice(), DiagnosticKind::NotFound),
        (409, conflict.as_slice(), DiagnosticKind::Conflict),
        (
            403,
            b"secret provider reason".as_slice(),
            DiagnosticKind::Forbidden,
        ),
        (429, b"bait".as_slice(), DiagnosticKind::RateLimited),
        (503, b"bait".as_slice(), DiagnosticKind::Upstream),
        (401, b"bait".as_slice(), DiagnosticKind::Unauthorized),
        (418, b"bait".as_slice(), DiagnosticKind::UnknownStatus),
    ] {
        match decode_policy_response(status, &body(bytes)) {
            PolicyResponse::Rejected(value) => {
                assert_eq!(value.kind(), kind);
                assert!(!format!("{value:?}").contains("bait"));
            }
            other @ PolicyResponse::Accepted(_) => panic!("unexpected {other:?}"),
        }
    }
    match decode_policy_response(409, &body(conflict)) {
        PolicyResponse::Rejected(value) => {
            assert!(value.retryable());
            assert_eq!(value.request_id(), Some("request-409"));
        }
        other @ PolicyResponse::Accepted(_) => panic!("unexpected {other:?}"),
    }
    match decode_policy_response(200, &body(b"not-json")) {
        PolicyResponse::Rejected(value) => assert_eq!(value.kind(), DiagnosticKind::Malformed),
        other @ PolicyResponse::Accepted(_) => panic!("unexpected {other:?}"),
    }
}

#[test]
fn status_decode_preserves_canonical_fields_without_ready_inference() {
    let bytes = format!(
        r#"{{"data":{{"conditions":[{{"lastTransitionAt":10,"observedGeneration":4,"reason":"AwaitingDevice","status":"Unknown","type":"PendingDevice"}}],"desired":{{"activeCommand":{{"fenceEpoch":2,"state":"queued"}},"authorizationReceiptId":"{RECEIPT}","generation":5}},"observedGeneration":4}}}}"#
    );
    match decode_status_response(200, &status_body(bytes.as_bytes())) {
        StatusResponse::Observed(value) => {
            assert_eq!(value.desired_generation(), Some(5));
            assert_eq!(value.observed_generation(), 4);
            assert_eq!(value.conditions()[0].type_().as_str(), "PendingDevice");
            assert_eq!(value.conditions()[0].last_transition_at(), 10);
            let active = value.active_command().expect("active command");
            assert_eq!(active.fence_epoch(), 2);
            assert_eq!(active.state().as_str(), "queued");
        }
        other @ StatusResponse::Rejected(_) => panic!("unexpected {other:?}"),
    }
    match decode_status_response(404, &status_body(bytes.as_bytes())) {
        StatusResponse::Rejected(value) => assert!(!value.retryable()),
        other @ StatusResponse::Observed(_) => panic!("unexpected {other:?}"),
    }
    match decode_status_response(200, &None) {
        StatusResponse::Rejected(value) => assert_eq!(value.kind(), DiagnosticKind::Malformed),
        other @ StatusResponse::Observed(_) => panic!("unexpected {other:?}"),
    }
}

#[test]
fn negative_generations_are_malformed_statuses() {
    let bytes = format!(
        r#"{{"data":{{"conditions":[],"desired":{{"activeCommand":null,"authorizationReceiptId":"{RECEIPT}","generation":5}},"observedGeneration":-1}}}}"#
    );
    match decode_status_response(200, &status_body(bytes.as_bytes())) {
        StatusResponse::Rejected(value) => assert_eq!(value.kind(), DiagnosticKind::Malformed),
        other @ StatusResponse::Observed(_) => panic!("unexpected {other:?}"),
    }
}
