use std::path::PathBuf;

use secure_device_rotation::config::{
    ConfigError, ConfigPaths, ConfigV1, InitialConfig, MqttConfig, RuntimeConfig,
};
use secure_device_rotation::contract::{AckPayload, ApplyRequest, RejectedReason};
use secure_device_rotation::identity::{
    AckFact, CommandRejection, CredentialGeneration, DeviceCommand, DeviceIdentity, OutboundFact,
    ReportFact, Uuid,
};
use secure_device_rotation::mqtt::OutboundKind;
use secure_device_rotation::nonzero::NonZeroU64;
use secure_device_rotation::wire::{decode_command, encode_outbound, EncodedPayload, WireError};
use serde_json::Value;

fn id(text: &str) -> Uuid {
    Uuid::from_u128(text.parse::<uuid::Uuid>().expect("UUID").as_u128())
}

fn identity() -> DeviceIdentity {
    DeviceIdentity::new(
        id("00000000-0000-0000-0000-000000000001"),
        id("00000000-0000-0000-0000-000000000101"),
        CredentialGeneration::try_from(7).expect("generation"),
    )
}

const DIGEST_A: &str = "sha256:aaaaaaaaaaaaaaaaaaaaaaaaaaaaaaaaaaaaaaaaaaaaaaaaaaaaaaaaaaaaaaaa";
const DIGEST_B: &str = "sha256:bbbbbbbbbbbbbbbbbbbbbbbbbbbbbbbbbbbbbbbbbbbbbbbbbbbbbbbbbbbbbbbb";
const DIGEST_C: &str = "sha256:cccccccccccccccccccccccccccccccccccccccccccccccccccccccccccccccc";

fn payload(device: &str) -> serde_json::Map<String, Value> {
    let mut fields = serde_json::Map::new();
    for (key, value) in [
        ("artifactDigest", Value::from(DIGEST_A)),
        ("artifactId", Value::from("fixture-device-certificate-0001")),
        (
            "authorizationReceiptId",
            Value::from("0198d5f2-70de-7a2d-b3f4-0123456789ab"),
        ),
        ("deadlineEpochSeconds", Value::from(1_900_000_000_u64)),
        ("desiredGeneration", Value::from(8)),
        ("deviceId", Value::from(device)),
        ("fenceEpoch", Value::from(3)),
        ("intentDigest", Value::from(DIGEST_B)),
        ("policyHash", Value::from(DIGEST_C)),
    ] {
        fields.insert(key.to_owned(), value);
    }
    fields
}

/// Reads the nine fields of a command payload, and no others.
fn request(fields: &serde_json::Map<String, Value>) -> Option<ApplyRequest> {
    let text = |key: &str| Some(fields.get(key)?.as_str()?.to_owned());
    let uuid = |key: &str| Some(Uuid::from_u128(text(key)?.parse::<uuid::Uuid>().ok()?.as_u128()));
    let number = |key: &str| NonZeroU64::new(fields.get(key)?.as_u64()?);
    if fields.len() != 9 {
        return None;
    }
    Some(ApplyRequest {
        artifact_digest: text("artifactDigest")?,
        artifact_id: text("artifactId")?,
        authorization_receipt_id: uuid("authorizationReceiptId")?,
        deadline_epoch_seconds: number("deadlineEpochSeconds")?,
        desired_generation: number("desiredGeneration")?,
        device_id: uuid("deviceId")?,
        fence_epoch: number("fenceEpoch")?,
        intent_digest: text("intentDigest")?,
        policy_hash: text("policyHash")?,
    })
}

fn decode(fields: &serde_json::Map<String, Value>) -> Result<DeviceCommand, WireError> {
    let bytes = serde_json::to_vec(fields).expect("JSON");
    let parsed: serde_json::Map<String, Value> = serde_json::from_slice(&bytes).expect("JSON");
    match request(&parsed) {
        Some(request) => decode_command(&identity(), "command-1", request),
        None => Err(WireError),
    }
}

#[test]
fn canonical_command_is_decoded_without_a_local_wire_copy() {
    let command =
        decode(&payload("00000000-0000-0000-0000-000000000101")).expect("canonical command");

    assert_eq!(command.command_id().expose(), "command-1");
    assert_eq!(command.desired_generation().get(), 8);
    assert_eq!(command.fence_epoch().get(), 3);
    assert_eq!(command.deadline_epoch_seconds().get(), 1_900_000_000);
    assert_eq!(command.artifact_digest().expose(), DIGEST_A);
    assert_eq!(command.intent_digest().expose(), DIGEST_B);
    assert_eq!(command.policy_hash().expose(), DIGEST_C);
}

#[test]
fn canonical_decoder_rejects_unknown_fields_and_cross_device_payloads() {
    let mut fields = payload("00000000-0000-0000-0000-000000000999");
    fields.insert("legacyVersion".to_owned(), Value::from(0));
    assert!(decode(&fields).is_err());
    fields.remove("legacyVersion");
    assert!(decode(&fields).is_err());
}

#[test]
fn commands_with_uncanonical_values_are_refused() {
    let device = "00000000-0000-0000-0000-000000000101";
    for (key, value) in [
        ("artifactDigest", "sha256:aaaa"),
        ("artifactId", "../../private.key"),
        ("intentDigest", "md5:bbbb"),
        ("policyHash", ""),
    ] {
        let mut fields = payload(device);
        fields.insert(key.to_owned(), Value::from(value));
        let error = decode(&fields).expect_err(key);
        assert_eq!(
            error.to_string(),
            "canonical device-security wire value is invalid"
        );
    }
    let request = request(&payload(device)).expect("request");
    assert!(decode_command(&identity(), " ", request).is_err());
}

#[test]
fn acknowledgement_encoding_uses_the_canonical_closed_variant() {
    let encoded = encode_outbound(
        &identity(),
        OutboundFact::CommandAcknowledged {
            event_id: "ack-event".to_owned(),
            payload: AckFact {
                command_id: "command-1".to_owned(),
                desired_generation: 8,
                fence_epoch: 3,
                device_sequence: 4,
                observed_at: 1_800_000_000,
                rejection: Some(CommandRejection::FenceEpochStale),
            },
        },
    )
    .expect("ACK");
    match encoded.payload {
        EncodedPayload::Acknowledgement(AckPayload::RejectedPayload(payload)) => {
            assert_eq!(payload.reason, RejectedReason::FenceEpochStale);
            assert_eq!(payload.command_id, "command-1");
            assert_eq!(payload.device_sequence, 4);
        }
        other => panic!("unexpected {other:?}"),
    }
    assert_eq!(encoded.event_id, "ack-event");
    assert_eq!(encoded.kind, OutboundKind::CommandAcknowledged);
}

#[test]
fn facts_that_do_not_fit_the_contract_are_not_written() {
    let report = |generation, fence, sequence| OutboundFact::CertificateReported {
        event_id: "report-event".to_owned(),
        payload: ReportFact {
            observed_generation: generation,
            fence_epoch: fence,
            device_sequence: sequence,
            observed_at: 1,
            state_hash: DIGEST_A.to_owned(),
            artifact_digest: DIGEST_B.to_owned(),
            expires_at: Some(2),
        },
    };
    assert!(encode_outbound(&identity(), report(0, 1, 1)).is_err());
    assert!(encode_outbound(&identity(), report(1, 0, 1)).is_err());
    assert!(encode_outbound(&identity(), report(1, 1, 1 << 63)).is_err());
    let encoded = encode_outbound(&identity(), report(1, 1, (1 << 63) - 1)).expect("report");
    assert_eq!(encoded.kind, OutboundKind::CertificateReported);
}

fn valid_config() -> ConfigV1 {
    ConfigV1 {
        schema_version: 1,
        tenant_id: id("00000000-0000-0000-0000-000000000001"),
        device_id: id("00000000-0000-0000-0000-000000000101"),
        credential_generation: 1,
        mqtt: MqttConfig {
            host: "localhost".to_owned(),
            port: 8883,
            client_id: "rss-reference-device-00000000-0000-0000-0000-000000000001-00000000-0000-0000-0000-000000000101".to_owned(),
            session_expiry_seconds: 300,
            request_capacity: 16,
            broker_assertion_public_key: "BwcHBwcHBwcHBwcHBwcHBwcHBwcHBwcHBwcHBwcHBwc".to_owned(),
        },
        initial: InitialConfig {
            desired_generation: 1,
            fence_epoch: 1,
            credential_revision: 1,
        },
    }
}

fn load(config: ConfigV1) -> Result<RuntimeConfig, ConfigError> {
    RuntimeConfig::load(
        config,
        Some(ConfigPaths {
            state_directory: PathBuf::from("base/state"),
            artifact_catalog: PathBuf::from("base/catalog.json"),
            ca_certificate: PathBuf::from("base/ca.pem"),
            certificate_chain: PathBuf::from("base/device.pem"),
            private_key: PathBuf::from("base/device-key.pem"),
        }),
    )
}

#[test]
fn valid_coordinates_produce_closed_runtime_configuration() {
    let config = load(valid_config()).expect("configuration");
    assert_eq!(config.mqtt.host(), "localhost");
    assert_eq!(config.mqtt.port(), 8883);
    assert_eq!(config.agent.command_retention_seconds.get(), 300);
    assert_eq!(config.agent.catalog.path(), &PathBuf::from("base/catalog.json"));
    assert_eq!(
        config.agent.initial_credentials.private_key(),
        &PathBuf::from("base/device-key.pem")
    );
}

#[test]
fn configuration_failures_remain_distinguishable() {
    let mut schema = valid_config();
    schema.schema_version = 2;
    assert!(matches!(load(schema), Err(ConfigError::UnsupportedSchema)));

    assert!(matches!(
        RuntimeConfig::load(valid_config(), None),
        Err(ConfigError::MissingBaseDirectory)
    ));

    let mut identity = valid_config();
    identity.tenant_id = id("00000000-0000-0000-0000-000000000000");
    assert!(matches!(load(identity), Err(ConfigError::InvalidIdentity)));

    let mut client = valid_config();
    client.mqtt.client_id = "another-client".to_owned();
    assert!(matches!(
        load(client),
        Err(ConfigError::ClientIdentityMismatch)
    ));

    let mut expiry = valid_config();
    expiry.mqtt.session_expiry_seconds = 0;
    assert!(matches!(
        load(expiry),
        Err(ConfigError::InvalidSessionExpiry)
    ));

    let mut generation = valid_config();
    generation.initial.desired_generation = 0;
    assert!(matches!(
        load(generation),
        Err(ConfigError::InvalidDesiredGeneration)
    ));

    let mut fence = valid_config();
    fence.initial.fence_epoch = 0;
    assert!(matches!(load(fence), Err(ConfigError::InvalidFenceEpoch)));

    let mut revision = valid_config();
    revision.initial.credential_revision = 0;
    assert!(matches!(
        load(revision),
        Err(ConfigError::InvalidCredentialRevision)
    ));

    let mut assertion = valid_config();
    assertion.mqtt.broker_assertion_public_key = "invalid".to_owned();
    assert!(matches!(
        load(assertion),
        Err(ConfigError::InvalidBrokerAssertionKey)
    ));

    let mut capacity = valid_config();
    capacity.mqtt.request_capacity = 0;
    assert!(matches!(
        load(capacity),
        Err(ConfigError::InvalidRequestCapacity)
    ));

    let mut host = valid_config();
    host.mqtt.host = String::new();
    let error = load(host).expect_err("host");
    assert!(matches!(error, ConfigError::InvalidMqtt));
    assert_eq!(error.to_string(), "MQTT connection configuration is invalid");
}
