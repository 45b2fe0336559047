use secure_device_rotation::identity::{
    ArtifactId, CommandId, CredentialGeneration, DeviceIdentity, MqttConnectionConfig,
    Sha256Digest, TopicSet, Uuid, ValueError,
};
use secure_device_rotation::nonzero::{NonZeroU32, NonZeroU64, NonZeroUsize};

fn id(text: &str) -> Uuid {
    Uuid::from_u128(text.parse::<uuid::Uuid>().expect("UUID").as_u128())
}

#[test]
fn exact_topics_bind_tenant_device_and_credential_generation() {
    let identity = DeviceIdentity::new(
        id("00000000-0000-0000-0000-000000000001"),
        id("00000000-0000-0000-0000-000000000101"),
        CredentialGeneration::try_from(7).expect("generation"),
    );
    let topics = TopicSet::new(&identity);

    assert_eq!(
        topics.command(),
        "rss/v1/00000000-0000-0000-0000-000000000001/00000000-0000-0000-0000-000000000101/7/downlink/identity.commands.apply-device-certificate"
    );
    assert_eq!(
        topics.command_acknowledged(),
        "rss/v1/00000000-0000-0000-0000-000000000001/00000000-0000-0000-0000-000000000101/7/uplink/identity.device-command-acked"
    );
    assert!(
        !topics
            .command()
            .contains("/identity.apply-device-certificate")
    );
}

#[test]
fn credential_generation_cannot_be_zero() {
    assert!(CredentialGeneration::try_from(0).is_err());
}

#[test]
fn credential_paths_are_not_accepted_as_artifact_ids() {
    assert!(ArtifactId::try_from("../../private.key").is_err());
    assert!(
        ArtifactId::try_from("fixture-device-certificate-0001")
            .is_ok()
    );
}

#[test]
fn mqtt_coordinates_reject_invalid_host_port_and_client_id() {
    let expiry = NonZeroU32::new(60).expect("expiry");
    let capacity = NonZeroUsize::new(1).expect("capacity");
    assert_eq!(
        MqttConnectionConfig::new("", 8883, "client", expiry, capacity),
        Err(ValueError::InvalidHost)
    );
    assert_eq!(
        MqttConnectionConfig::new("localhost", 0, "client", expiry, capacity),
        Err(ValueError::InvalidPort)
    );
    assert_eq!(
        MqttConnectionConfig::new("localhost", 8883, "", expiry, capacity),
        Err(ValueError::InvalidClientId)
    );
}

#[test]
fn nil_coordinates_cannot_be_authenticated() {
    let generation = CredentialGeneration::try_from(1).expect("generation");
    let device = id("00000000-0000-0000-0000-000000000101");
    let nil = Uuid::from_u128(0);
    assert_eq!(
        DeviceIdentity::try_new(nil, device, generation).err(),
        Some(ValueError::Zero)
    );
    assert_eq!(
        DeviceIdentity::try_new(device, nil, generation).err(),
        Some(ValueError::Zero)
    );
    let identity = DeviceIdentity::try_new(device, device, generation).expect("identity");
    assert_eq!(
        identity.principal_urn(),
        "urn:rss:mqtt-device:v1:00000000-0000-0000-0000-000000000101:00000000-0000-0000-0000-000000000101:1"
    );
    assert_eq!(
        identity.mqtt_client_id(),
        "rss-reference-device-00000000-0000-0000-0000-000000000101-00000000-0000-0000-0000-000000000101"
    );
}

#[test]
fn two_devices_share_no_topic_principal_or_client() {
    let generation = CredentialGeneration::try_from(7).expect("generation");
    let tenant = id("00000000-0000-0000-0000-000000000001");
    let one = DeviceIdentity::new(tenant, id("00000000-0000-0000-0000-000000000101"), generation);
    let two = DeviceIdentity::new(tenant, id("00000000-0000-0000-0000-000000000102"), generation);
    assert_ne!(one.principal_urn(), two.principal_urn());
    assert_ne!(one.mqtt_client_id(), two.mqtt_client_id());
    assert_ne!(TopicSet::new(&one).command(), TopicSet::new(&two).command());
    assert!(TopicSet::new(&one).accepts_command(TopicSet::new(&one).command()));
    assert!(!TopicSet::new(&one).accepts_command(TopicSet::new(&two).command()));
    assert!(TopicSet::new(&one)
        .certificate_reported()
        .ends_with("/7/uplink/identity.device-certificate-reported"));
}

#[test]
fn opaque_identifiers_have_exact_shapes() {
    assert!(ArtifactId::try_from("fifteen-charac.").is_err());
    assert!(ArtifactId::try_from("sixteen-characte").is_ok());
    assert_eq!(
        ArtifactId::try_from("fixture..certificate"),
        Err(ValueError::InvalidArtifactId)
    );
    assert!(ArtifactId::try_from("a".repeat(256)).is_ok());
    assert!(ArtifactId::try_from("a".repeat(257)).is_err());
    assert!(CommandId::try_from("").is_err());
    assert!(CommandId::try_from("c".repeat(256)).is_ok());
    assert!(CommandId::try_from("c".repeat(257)).is_err());
    let digest = format!("sha256:{}", "a".repeat(64));
    assert!(Sha256Digest::try_from(digest.as_str()).is_ok());
    assert!(Sha256Digest::try_from(digest.to_uppercase()).is_err());
    assert!(Sha256Digest::try_from(&digest[..70]).is_err());
    assert!(NonZeroU64::new(0).is_none());
    assert_eq!(NonZeroU64::new(3).map(NonZeroU64::get), Some(3));
}

#[test]
fn generations_numbers_and_identifiers_order_by_their_values() {
    let generation = |value| CredentialGeneration::try_from(value).expect("generation");
    assert!(generation(1) < generation(2));
    assert!(generation(2) >= generation(2));
    assert!(generation(u64::MAX) > generation(1));
    assert!(NonZeroU32::new(1) < NonZeroU32::new(2));
    assert!(NonZeroU64::new(9) < NonZeroU64::new(10));
    assert!(NonZeroUsize::new(9) < NonZeroUsize::new(10));
    assert!(
        id("00000000-0000-0000-0000-000000000101") < id("10000000-0000-0000-0000-000000000001")
    );
    assert_eq!(generation(4).max(generation(9)).get(), 9);
    assert_eq!(CredentialGeneration::try_from(0), Err(ValueError::Zero));
}
