use base64::engine::general_purpose::URL_SAFE_NO_PAD;
use base64::Engine;
use ring::rand::SystemRandom;
use ring::signature::{Ed25519KeyPair, KeyPair};
use secure_device_rotation::agent::RecoveryCommandScope;
use secure_device_rotation::assertion::{
    canonical_bytes, BrokerAssertionVerifier, BrokerPublishFrame,
};
use secure_device_rotation::identity::{
    AckFact, CredentialGeneration, DeviceIdentity, OutboundFact, ReportFact, TopicSet, Uuid,
};
use secure_device_rotation::mqtt::{
    validate_suback, validate_unsuback, CommandDelivery, ConnectReturnCode, ConnectionError,
    InboundPublish, MqttError, MqttEvent, MqttSession, Packet, SubscribeReasonCode,
    UnsubAckReason,
};
use secure_device_rotation::wire::encode_outbound;
use sha2::{Digest, Sha256};

const VERSION_KEY: &str = "rss.authn.v1.version";
const PRINCIPAL_KEY: &str = "rss.authn.v1.principal";
const SIGNATURE_KEY: &str = "rss.authn.v1.signature";

fn id(text: &str) -> Uuid {
    Uuid::from_u128(text.parse::<uuid::Uuid>().expect("UUID").as_u128())
}

fn identity(generation: u64) -> DeviceIdentity {
    DeviceIdentity::try_new(
        id("00000000-0000-0000-0000-000000000001"),
        id("00000000-0000-0000-0000-000000000101"),
        CredentialGeneration::try_from(generation).expect("generation"),
    )
    .expect("identity")
}

fn keypair() -> Ed25519KeyPair {
    Ed25519KeyPair::from_pkcs8(
        Ed25519KeyPair::generate_pkcs8(&SystemRandom::new())
            .expect("key")
            .as_ref(),
    )
    .expect("keypair")
}

fn signed_properties(
    key: &Ed25519KeyPair,
    identity: &DeviceIdentity,
    frame: &BrokerPublishFrame<'_>,
) -> Vec<(String, String)> {
    let principal = identity.principal_urn();
    let signature = key.sign(&canonical_bytes(&principal, frame).expect("canonical"));
    vec![
        (VERSION_KEY.to_owned(), "1".to_owned()),
        (PRINCIPAL_KEY.to_owned(), principal),
        (
            SIGNATURE_KEY.to_owned(),
            URL_SAFE_NO_PAD.encode(signature.as_ref()),
        ),
    ]
}

#[test]
fn signed_coordinates_are_exact_and_retained_commands_are_rejected() {
    let key = keypair();
    let encoded_key = URL_SAFE_NO_PAD.encode(key.public_key().as_ref());
    let verifier = BrokerAssertionVerifier::from_base64(&encoded_key).expect("verifier");
    let identity = identity(7);
    let topic = TopicSet::new(&identity).command().to_owned();
    let payload = b"payload";
    let correlation = b"command-1";
    let unsigned = BrokerPublishFrame {
        topic: &topic,
        payload,
        correlation,
        qos: 1,
        retain: false,
        properties: &[],
    };
    let properties = signed_properties(&key, &identity, &unsigned);
    let valid = BrokerPublishFrame {
        properties: &properties,
        ..unsigned
    };
    assert!(verifier.verify(&identity, &valid).is_ok());

    for invalid in [
        BrokerPublishFrame {
            payload: b"tampered",
            ..valid
        },
        BrokerPublishFrame {
            retain: true,
            ..valid
        },
        BrokerPublishFrame { qos: 0, ..valid },
    ] {
        assert!(verifier.verify(&identity, &invalid).is_err());
    }

    let other = BrokerPublishFrame {
        correlation: b"command-2",
        ..valid
    };
    assert!(verifier.verify(&identity, &other).is_err());
    let mut doubled = properties.clone();
    doubled.push((VERSION_KEY.to_owned(), "1".to_owned()));
    let ambiguous = BrokerPublishFrame {
        properties: &doubled,
        ..valid
    };
    assert!(verifier.verify(&identity, &ambiguous).is_err());
    let mut reserved = properties.clone();
    reserved.push(("rss.authn.v1.extra".to_owned(), "x".to_owned()));
    let unknown = BrokerPublishFrame {
        properties: &reserved,
        ..valid
    };
    assert!(verifier.verify(&identity, &unknown).is_err());
}

#[test]
fn broker_keys_are_canonical_and_not_zero() {
    let key = [7_u8; 32];
    let text = URL_SAFE_NO_PAD.encode(key);
    assert_eq!(text, "BwcHBwcHBwcHBwcHBwcHBwcHBwcHBwcHBwcHBwcHBwc");
    assert!(BrokerAssertionVerifier::from_base64(&text).is_ok());
    assert!(BrokerAssertionVerifier::from_base64("invalid").is_err());
    assert!(BrokerAssertionVerifier::from_base64(&format!("{text}=")).is_err());
    assert!(BrokerAssertionVerifier::from_base64(&URL_SAFE_NO_PAD.encode([0_u8; 32])).is_err());
    assert!(BrokerAssertionVerifier::from_base64(&URL_SAFE_NO_PAD.encode([7_u8; 31])).is_err());
    let error = BrokerAssertionVerifier::from_base64("invalid").expect_err("invalid key");
    assert_eq!(error.to_string(), "MQTT broker assertion rejected");
    let verifier = BrokerAssertionVerifier::from_base64(&text).expect("verifier");
    assert!(!format!("{verifier:?}").contains('7'));
}

#[test]
fn broker_refusal_retry_policy_separates_capacity_from_authentication() {
    for code in [
        ConnectReturnCode::ServiceUnavailable,
        ConnectReturnCode::ServerUnavailable,
        ConnectReturnCode::ServerBusy,
        ConnectReturnCode::QuotaExceeded,
        ConnectReturnCode::ConnectionRateExceeded,
    ] {
        let error = MqttError::Connection(ConnectionError::ConnectionRefused(code));
        assert!(error.is_retryable(), "{code:?} must retry");
    }
    for code in [
        ConnectReturnCode::BadClientId,
        ConnectReturnCode::BadUserNamePassword,
        ConnectReturnCode::NotAuthorized,
        ConnectReturnCode::Banned,
        ConnectReturnCode::BadAuthenticationMethod,
        ConnectReturnCode::TopicNameInvalid,
    ] {
        let error = MqttError::Connection(ConnectionError::ConnectionRefused(code));
        assert!(!error.is_retryable(), "{code:?} must fail closed");
    }
    assert!(MqttError::Connection(ConnectionError::Timeout).is_retryable());
    assert!(MqttError::Connection(ConnectionError::Io).is_retryable());
    assert!(!MqttError::Connection(ConnectionError::Other).is_retryable());
    assert!(MqttError::Request.is_retryable());
}

#[test]
fn subscription_completion_requires_one_success_reason() {
    assert!(validate_suback(&[SubscribeReasonCode::Success(1)]).is_ok());

    for return_codes in [
        Vec::new(),
        vec![SubscribeReasonCode::NotAuthorized],
        vec![
            SubscribeReasonCode::Success(1),
            SubscribeReasonCode::Success(1),
        ],
        vec![SubscribeReasonCode::Success(0)],
    ] {
        assert!(validate_suback(&return_codes).is_err());
    }

    for (reasons, accepted) in [
        (vec![UnsubAckReason::Success], true),
        (vec![UnsubAckReason::NoSubscriptionExisted], true),
        (vec![UnsubAckReason::NotAuthorized], false),
        (Vec::new(), false),
        (
            vec![UnsubAckReason::Success, UnsubAckReason::Success],
            false,
        ),
    ] {
        assert_eq!(validate_unsuback(&reasons).is_ok(), accepted);
    }
}

#[test]
fn private_transport_queues_only_wire_minted_operations() {
    let mut fixture = SessionFixture::new(None);
    assert_eq!(fixture.session.command_topic(), fixture.topics.command());
    assert_eq!(
        fixture.session.recovery_topic(),
        Err(MqttError::InvalidCommandFrame)
    );

    for (packet, outbound) in [
        (
            1_u16,
            OutboundFact::CommandAcknowledged {
                event_id: "ack-event".to_owned(),
                payload: AckFact {
                    command_id: "command-1".to_owned(),
                    desired_generation: 3,
                    fence_epoch: 2,
                    device_sequence: 1,
                    observed_at: 1_800_000_000,
                    rejection: None,
                },
            },
        ),
        (
            2_u16,
            OutboundFact::CertificateReported {
                event_id: "report-event".to_owned(),
                payload: ReportFact {
                    observed_generation: 3,
                    fence_epoch: 2,
                    device_sequence: 2,
                    observed_at: 1_800_000_001,
                    state_hash:
                        "sha256:aaaaaaaaaaaaaaaaaaaaaaaaaaaaaaaaaaaaaaaaaaaaaaaaaaaaaaaaaaaaaaaa"
                            .to_owned(),
                    artifact_digest:
                        "sha256:bbbbbbbbbbbbbbbbbbbbbbbbbbbbbbbbbbbbbbbbbbbbbbbbbbbbbbbbbbbbbbbb"
                            .to_owned(),
                    expires_at: None,
                },
            },
        ),
    ] {
        let event = outbound.event_id().to_owned();
        let encoded = encode_outbound(&fixture.identity, outbound).expect("canonical outbound");
        let uplink = fixture.session.outbound_topic(encoded.kind).to_owned();
        assert!(uplink.contains("/uplink/identity.device-"));
        fixture.session.publish(encoded.event_id);
        assert!(matches!(
            fixture.session.poll(Packet::OutgoingPublish(packet)),
            Ok(MqttEvent::TransportProgress)
        ));
        match fixture.session.poll(Packet::PubAck(packet)) {
            Ok(MqttEvent::OutboundAcknowledged { event_id }) => assert_eq!(event_id, event),
            other => panic!("unexpected {other:?}"),
        }
        assert!(matches!(
            fixture.session.poll(Packet::PubAck(packet)),
            Err(MqttError::UnknownPubAck)
        ));
    }

    let delivery = fixture.signed_delivery(
        fixture.topics.command().to_owned(),
        &fixture.identity,
        "command-1",
        b"payload",
    );
    assert_eq!(delivery.topic(), fixture.topics.command());
    assert_eq!(delivery.command_id(), "command-1");
    assert_eq!(delivery.payload(), b"payload");
    assert_eq!(delivery.identity(), &fixture.identity);
    assert_eq!(format!("{delivery:?}"), "CommandDelivery(<authenticated>)");
    fixture
        .session
        .acknowledge_command(&delivery, Some("settlement-1".to_owned()));
    match fixture.session.poll(Packet::OutgoingPubAck(7)) {
        Ok(MqttEvent::InboundAcknowledged { settlement_token }) => {
            assert_eq!(settlement_token.as_deref(), Some("settlement-1"));
        }
        other => panic!("unexpected {other:?}"),
    }
}

#[test]
fn recovery_unsubscribe_is_bound_to_the_exact_old_scope() {
    let identity = identity(1);
    let topic = TopicSet::new(&identity).command().to_owned();
    let recovery =
        RecoveryCommandScope::new(identity, topic.clone(), "old-command".to_owned());
    let fixture = SessionFixture::new(Some(recovery));
    assert_eq!(fixture.session.recovery_topic(), Ok(topic.as_str()));
    let delivery = fixture.signed_delivery(topic.clone(), &identity, "old-command", b"old");
    assert_eq!(delivery.identity(), &identity);
    let other = fixture.signed_publish(topic, &identity, "another-command", b"old");
    assert!(fixture.session.command_delivery(other).is_err());
}

#[test]
fn command_frame_validation_rejects_every_unasserted_coordinate() {
    let fixture = SessionFixture::new(None);
    let command_topic = fixture.topics.command().to_owned();
    let publish = |topic: &str, qos: u8, correlation: Option<Vec<u8>>| InboundPublish {
        topic: topic.as_bytes().to_vec(),
        payload: b"payload".to_vec(),
        qos,
        retain: false,
        packet_id: 0,
        correlation,
        user_properties: Vec::new(),
    };
    let mut invalid_utf8_topic = publish(&command_topic, 1, Some(b"command-1".to_vec()));
    invalid_utf8_topic.topic = vec![0xff];
    let cases = [
        invalid_utf8_topic,
        publish(&command_topic, 0, Some(b"command-1".to_vec())),
        publish(&command_topic, 1, None),
        publish(&command_topic, 1, Some(vec![0xff])),
        publish(&command_topic, 1, Some(Vec::new())),
        publish("rss/v1/wrong/topic", 1, Some(b"command-1".to_vec())),
        publish(&command_topic, 1, Some(b"command-1".to_vec())),
    ];

    for publish in cases {
        assert!(fixture.session.command_delivery(publish).is_err());
    }
}

#[test]
fn broker_asserted_command_id_must_still_be_canonical() {
    let fixture = SessionFixture::new(None);
    for command_id in ["contains\ncontrol".to_owned(), "x".repeat(257)] {
        let publish = fixture.signed_publish(
            fixture.topics.command().to_owned(),
            &fixture.identity,
            &command_id,
            b"payload",
        );
        assert!(matches!(
            fixture.session.command_delivery(publish),
            Err(MqttError::InvalidCommandFrame)
        ));
    }
}

#[test]
fn mqtt_errors_are_closed_redacted_and_classified() {
    for (error, kind) in [
        (MqttError::CredentialUnavailable, "credential_unavailable"),
        (MqttError::InvalidCommandFrame, "invalid_command_frame"),
        (MqttError::UnknownPubAck, "unknown_puback"),
        (MqttError::SubscriptionRejected, "subscription_rejected"),
        (MqttError::AssertionRejected, "assertion_rejected"),
    ] {
        assert_eq!(error.kind(), kind);
        assert!(!error.is_retryable());
        assert!(!format!("{error}").is_empty());
        assert_eq!(
            format!("{error:?}"),
            format!("MqttError {{ kind: \"{kind}\" }}")
        );
    }
}

#[test]
fn a_publish_out_of_scope_is_not_a_command() {
    let mut fixture = SessionFixture::new(None);
    let elsewhere = fixture.signed_publish(
        TopicSet::new(&identity(3)).command().to_owned(),
        &identity(3),
        "command-1",
        b"payload",
    );
    assert!(matches!(
        fixture.session.poll(Packet::Publish(elsewhere)),
        Err(MqttError::InvalidCommandFrame)
    ));
    let mut unsigned = fixture.signed_publish(
        fixture.topics.command().to_owned(),
        &fixture.identity,
        "command-1",
        b"payload",
    );
    unsigned.user_properties.clear();
    assert!(matches!(
        fixture.session.poll(Packet::Publish(unsigned)),
        Err(MqttError::AssertionRejected)
    ));
    assert!(matches!(
        fixture.session.poll(Packet::ConnAck),
        Ok(MqttEvent::Connected)
    ));
}

struct SessionFixture {
    key: Ed25519KeyPair,
    identity: DeviceIdentity,
    topics: TopicSet,
    session: MqttSession,
}

impl SessionFixture {
    fn new(recovery: Option<RecoveryCommandScope>) -> Self {
        let key = keypair();
        let verifier = BrokerAssertionVerifier::from_base64(
            &URL_SAFE_NO_PAD.encode(key.public_key().as_ref()),
        )
        .expect("assertion verifier");
        let identity = identity(2);
        let topics = TopicSet::new(&identity);
        let session = MqttSession::new(topics.clone(), recovery, verifier);
        Self {
            key,
            identity,
            topics,
            session,
        }
    }

    fn signed_delivery(
        &self,
        topic: String,
        identity: &DeviceIdentity,
        command_id: &str,
        payload: &[u8],
    ) -> Box<CommandDelivery> {
        let publish = self.signed_publish(topic, identity, command_id, payload);
        Box::new(
            self.session
                .command_delivery(publish)
                .expect("signed command"),
        )
    }

    fn signed_publish(
        &self,
        topic: String,
        identity: &DeviceIdentity,
        command_id: &str,
        payload: &[u8],
    ) -> InboundPublish {
        let principal = identity.principal_urn();
        let signature = self.key.sign(&signed_bytes(
            &principal,
            &topic,
            command_id.as_bytes(),
            payload,
        ));
        InboundPublish {
            topic: topic.into_bytes(),
            payload: payload.to_vec(),
            qos: 1,
            retain: false,
            packet_id: 7,
            correlation: Some(command_id.as_bytes().to_vec()),
            user_properties: vec![
                (VERSION_KEY.to_owned(), "1".to_owned()),
                (PRINCIPAL_KEY.to_owned(), principal),
                (
                    SIGNATURE_KEY.to_owned(),
                    URL_SAFE_NO_PAD.encode(signature.as_ref()),
                ),
            ],
        }
    }
}

fn signed_bytes(principal: &str, topic: &str, correlation: &[u8], payload: &[u8]) -> Vec<u8> {
    let digest = Sha256::digest(payload);
    let mut bytes = b"rss.mqtt.authn.v1\0".to_vec();
    for field in [
        b"1".as_slice(),
        principal.as_bytes(),
        topic.as_bytes(),
        correlation,
        digest.as_slice(),
        &[1],
        &[0],
    ] {
        let length = u32::try_from(field.len()).expect("field length");
        bytes.extend_from_slice(&length.to_be_bytes());
        bytes.extend_from_slice(field);
    }
    bytes
}
