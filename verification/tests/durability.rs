use std::cell::RefCell;

use rcgen::{
    date_time_ymd, BasicConstraints, CertificateParams, CertifiedIssuer, ExtendedKeyUsagePurpose,
    IsCa, KeyPair, SanType,
};
use secure_device_rotation::agent::{
    AgentError, CommandStep, DurableCandidate, ReferenceDeviceAgent,
};
use secure_device_rotation::catalog::{
    check_opened_file, compute_artifact_digest_bytes, CatalogEntryV1, CatalogError, CatalogV1,
    ResolvedArtifact,
};
use secure_device_rotation::identity::{
    ApplyOutcome, ArtifactId, CommandId, CommandRejection, CredentialGeneration, DeviceCommand,
    DeviceIdentity, OutboundFact, Sha256Digest, TopicSet, Uuid,
};
use secure_device_rotation::ledger::StoredOutbound;
use secure_device_rotation::material::validate_credential_bytes;
use secure_device_rotation::model::{
    CredentialRevision, FenceEpoch, Generation, InstalledCredentialPosition,
};
use secure_device_rotation::nonzero::{NonZeroU32, NonZeroU64};
use secure_device_rotation::state::{StateV1, StoreError};

const NOW: u64 = 1_800_000_000;
const INTENT: &str = "sha256:1111111111111111111111111111111111111111111111111111111111111111";
const POLICY: &str = "sha256:2222222222222222222222222222222222222222222222222222222222222222";

fn id(text: &str) -> Uuid {
    Uuid::from_u128(text.parse::<uuid::Uuid>().expect("UUID").as_u128())
}

#[derive(Clone)]
struct Material {
    ca: Vec<u8>,
    certificate: Vec<u8>,
    private_key: Vec<u8>,
    private_key_mode: u32,
}

impl Material {
    fn digest(&self) -> String {
        compute_artifact_digest_bytes(&self.ca, &self.certificate, &self.private_key)
            .expect("digest")
            .expose()
            .to_owned()
    }
}

/// The disk of one device: what would survive a restart.
struct Disk {
    state: Option<StateV1>,
    revisions: Vec<u64>,
    writable: bool,
}

struct Fixture {
    disk: RefCell<Disk>,
    catalog: RefCell<CatalogV1>,
    material: RefCell<Material>,
    device: Uuid,
    initial_identity: DeviceIdentity,
    initial: Material,
    artifact_id: String,
    artifact_digest: String,
}

/// An agent over a disk: each candidate is stored before it is adopted.
struct Driver<'a> {
    fixture: &'a Fixture,
    agent: ReferenceDeviceAgent,
}

impl Driver<'_> {
    fn commit(&mut self, candidate: DurableCandidate) -> Result<(), AgentError> {
        let mut disk = self.fixture.disk.borrow_mut();
        if !disk.writable {
            return Err(AgentError::Store(StoreError::Unavailable));
        }
        disk.state = Some(candidate.state().clone());
        self.agent.adopt(candidate);
        Ok(())
    }

    fn run(
        &mut self,
        step: CommandStep,
        command: Option<&DeviceCommand>,
        now: u64,
    ) -> Result<ApplyOutcome, AgentError> {
        match step {
            CommandStep::Answer(outcome) => Ok(outcome),
            CommandStep::Commit { candidate, outcome } => {
                self.commit(candidate)?;
                Ok(outcome)
            }
            CommandStep::Resolve(identity) => {
                let command = command.expect("only commands resolve artifacts");
                let artifact = self.fixture.resolve(&identity, command, now);
                let step = self.agent.apply_artifact(command, &artifact, now)?;
                self.run(step, Some(command), now)
            }
            CommandStep::Install { revision, prepared } => {
                self.fixture.disk.borrow_mut().revisions.push(revision.get());
                self.commit(DurableCandidate::new(prepared)?)?;
                Ok(ApplyOutcome::Accepted)
            }
        }
    }

    fn apply_command(
        &mut self,
        topic: &str,
        command: &DeviceCommand,
        now: u64,
    ) -> Result<ApplyOutcome, AgentError> {
        let step = self.agent.apply_command(topic, command, now)?;
        self.run(step, Some(command), now)
    }

    fn reject_malformed_delivery(
        &mut self,
        topic: &str,
        command_id: &str,
        payload: &[u8],
        now: u64,
    ) -> Result<ApplyOutcome, AgentError> {
        let step = self.agent.reject_malformed_delivery(topic, command_id, payload, now)?;
        self.run(step, None, now)
    }

    fn confirm_outbound(&mut self, event_id: &str) -> Result<(), AgentError> {
        let candidate = self.agent.confirm_outbound(event_id)?;
        self.commit(candidate)
    }

    fn mark_pending_inbound_settled(&mut self, token: &str) -> Result<(), AgentError> {
        let candidate = self.agent.mark_pending_inbound_settled(token)?;
        self.commit(candidate)
    }

    fn mark_pending_inbound_absent(&mut self) -> Result<(), AgentError> {
        let candidate = self.agent.mark_pending_inbound_absent()?;
        self.commit(candidate)
    }

    fn mark_current_credential_connected(
        &mut self,
        revision: CredentialRevision,
    ) -> Result<(), AgentError> {
        let candidate = self.agent.mark_current_credential_connected(revision)?;
        self.commit(candidate)
    }

    fn next_outbound(&self) -> Option<OutboundFact> {
        self.agent.next_outbound()
    }

    fn reconnect_revision(&self) -> Result<Option<CredentialRevision>, AgentError> {
        self.agent.reconnect_revision()
    }

    fn current_identity(&self) -> Result<DeviceIdentity, AgentError> {
        self.agent.current_identity()
    }

    fn rotation_in_flight(&self) -> bool {
        self.agent.rotation_in_flight()
    }

    fn command_intake_open(&self, now: u64) -> bool {
        self.agent.command_intake_open(now)
    }

    fn pending_settlement_token(&self, command: &DeviceCommand) -> Option<&str> {
        self.agent.pending_settlement_token(command)
    }

    fn pending_command_topic(&self) -> Option<&str> {
        self.agent.pending_command_topic()
    }

    fn pending_command_id(&self) -> Option<&str> {
        self.agent.pending_command_id()
    }

    fn pending_inbound_settled(&self) -> bool {
        self.agent.pending_inbound_settled()
    }

    fn delivery_identity(&self, topic: &str, command: &str) -> Result<DeviceIdentity, AgentError> {
        self.agent.delivery_identity(topic, command)
    }
}

impl Fixture {
    fn new() -> Self {
        let tenant = id("00000000-0000-0000-0000-000000000001");
        let device = id("00000000-0000-0000-0000-000000000101");
        let initial_identity = DeviceIdentity::try_new(
            tenant,
            device,
            CredentialGeneration::try_from(1).expect("generation"),
        )
        .expect("identity");
        let next_identity = DeviceIdentity::try_new(
            tenant,
            device,
            CredentialGeneration::try_from(2).expect("generation"),
        )
        .expect("identity");
        let initial = issue_credentials(&initial_identity, false);
        let material = issue_credentials(&next_identity, false);
        let artifact_id = "fixture-device-certificate-0001".to_owned();
        let artifact_digest = material.digest();
        let catalog = CatalogV1 {
            schema_version: 1,
            artifacts: vec![CatalogEntryV1 {
                artifact_id: artifact_id.clone(),
                artifact_digest: artifact_digest.clone(),
                tenant_id: tenant,
                device_id: device,
                credential_generation: 2,
                desired_generation: 2,
                fence_epoch: 2,
                intent_digest: INTENT.to_owned(),
                policy_hash: POLICY.to_owned(),
                ca_path: "material/ca.pem".to_owned(),
                certificate_path: "material/certificate.pem".to_owned(),
                private_key_path: "material/private-key.pem".to_owned(),
                revoked: false,
            }],
        };
        let fixture = Self {
            disk: RefCell::new(Disk {
                state: None,
                revisions: Vec::new(),
                writable: true,
            }),
            catalog: RefCell::new(catalog),
            material: RefCell::new(material),
            device,
            initial_identity,
            initial,
            artifact_id,
            artifact_digest,
        };
        drop(fixture.open_agent());
        fixture
    }

    fn try_open(&self) -> Result<Driver<'_>, AgentError> {
        let retention = NonZeroU32::new(300).expect("retention");
        let stored = self.disk.borrow().state.clone();
        let agent = match stored {
            Some(state) => ReferenceDeviceAgent::resume(state, &self.initial_identity, retention)?,
            None => {
                let credential = validate_credential_bytes(
                    self.initial.ca.clone(),
                    self.initial.certificate.clone(),
                    self.initial.private_key.clone(),
                    &self.initial_identity,
                    NOW,
                )
                .expect("initial credential");
                let digest = Sha256Digest::try_from(self.initial.digest()).expect("digest");
                let agent = ReferenceDeviceAgent::provision(
                    &self.initial_identity,
                    InstalledCredentialPosition::new(
                        Generation::try_from(1).expect("generation"),
                        FenceEpoch::try_from(1).expect("fence"),
                        CredentialRevision::try_from(1).expect("revision"),
                    ),
                    &digest,
                    credential.expires_at,
                    retention,
                );
                agent.confirm_installed(&digest)?;
                let mut disk = self.disk.borrow_mut();
                disk.revisions.push(1);
                disk.state = Some(agent.state().clone());
                agent
            }
        };
        Ok(Driver {
            fixture: self,
            agent,
        })
    }

    fn open_agent(&self) -> Driver<'_> {
        self.try_open().expect("open agent")
    }

    fn resolve(
        &self,
        identity: &DeviceIdentity,
        command: &DeviceCommand,
        now: u64,
    ) -> Result<ResolvedArtifact, CatalogError> {
        let catalog = self.catalog.borrow();
        let entry = catalog.select(identity, command)?;
        let material = self.material.borrow().clone();
        check_opened_file(true, false, 0o644)?;
        check_opened_file(true, true, material.private_key_mode)?;
        entry.resolve(
            identity,
            command,
            material.ca,
            material.certificate,
            material.private_key,
            now,
        )
    }

    fn agent_and_command(&self) -> (Driver<'_>, DeviceCommand) {
        let command = self.command(
            "command-0001",
            &self.artifact_id,
            &self.artifact_digest,
            NOW + 600,
            2,
            2,
        );
        (self.open_agent(), command)
    }

    fn command_topic(&self) -> String {
        TopicSet::new(&self.initial_identity).command().to_owned()
    }

    fn set_catalog_position(&self, generation: u64, fence: u64) {
        let mut catalog = self.catalog.borrow_mut();
        catalog.artifacts[0].desired_generation = generation;
        catalog.artifacts[0].fence_epoch = fence;
    }

    fn set_catalog_revoked(&self, revoked: bool) {
        self.catalog.borrow_mut().artifacts[0].revoked = revoked;
    }

    fn set_catalog_digest(&self, digest: &str) {
        self.catalog.borrow_mut().artifacts[0].artifact_digest = digest.to_owned();
    }

    fn installed(&self, revision: u64) -> bool {
        self.disk.borrow().revisions.contains(&revision)
    }

    fn command(
        &self,
        command_id: &str,
        artifact_id: &str,
        artifact_digest: &str,
        deadline: u64,
        generation: u64,
        fence: u64,
    ) -> DeviceCommand {
        DeviceCommand::new(
            CommandId::try_from(command_id).expect("command id"),
            self.device,
            ArtifactId::try_from(artifact_id.to_owned()).expect("artifact id"),
            Sha256Digest::try_from(artifact_digest.to_owned()).expect("digest"),
            id("0198d5f2-70de-7a2d-b3f4-0123456789ab"),
            NonZeroU64::new(deadline).expect("deadline"),
            Generation::try_from(generation).expect("generation"),
            FenceEpoch::try_from(fence).expect("fence"),
            Sha256Digest::try_from(INTENT).expect("intent"),
            Sha256Digest::try_from(POLICY).expect("policy"),
        )
    }
}

fn issue_credentials(identity: &DeviceIdentity, expired: bool) -> Material {
    let ca_key = KeyPair::generate().expect("CA key");
    let mut ca_params = CertificateParams::new(Vec::<String>::new()).expect("CA params");
    ca_params.is_ca = IsCa::Ca(BasicConstraints::Unconstrained);
    let ca = CertifiedIssuer::self_signed(ca_params, ca_key).expect("CA");

    let key = KeyPair::generate().expect("device key");
    let mut params = CertificateParams::new(Vec::<String>::new()).expect("device params");
    if expired {
        params.not_before = date_time_ymd(2020, 1, 1);
        params.not_after = date_time_ymd(2021, 1, 1);
    }
    params.extended_key_usages = vec![ExtendedKeyUsagePurpose::ClientAuth];
    params.subject_alt_names = vec![SanType::URI(
        identity.principal_urn().try_into().expect("URI SAN"),
    )];
    let certificate = params.signed_by(&key, &ca).expect("device certificate");
    Material {
        ca: ca.pem().into_bytes(),
        certificate: certificate.pem().into_bytes(),
        private_key: key.serialize_pem().into_bytes(),
        private_key_mode: 0o600,
    }
}

#[test]
fn accepted_command_is_durable_and_report_waits_for_ack_and_new_session() {
    let fixture = Fixture::new();
    let (mut agent, command) = fixture.agent_and_command();
    let ack = accept_and_confirm_ack(&fixture, &mut agent, &command);
    drop(agent);
    reconnect_confirm_report_and_replay(&fixture, &command, &ack);
}

fn accept_and_confirm_ack(
    fixture: &Fixture,
    agent: &mut Driver<'_>,
    command: &DeviceCommand,
) -> OutboundFact {
    let command_topic = TopicSet::new(&fixture.initial_identity)
        .command()
        .to_owned();

    assert_eq!(
        agent
            .apply_command(&command_topic, command, NOW)
            .expect("apply"),
        ApplyOutcome::Accepted
    );
    assert!(agent.rotation_in_flight());
    let settlement_token = agent
        .pending_settlement_token(command)
        .expect("settlement token")
        .to_owned();
    agent
        .mark_pending_inbound_settled(&settlement_token)
        .expect("inbound PUBACK outgoing");
    let ack = agent.next_outbound().expect("durable ACK");
    assert!(matches!(ack, OutboundFact::CommandAcknowledged { .. }));
    agent.confirm_outbound(ack.event_id()).expect("confirm ACK");
    assert!(agent.next_outbound().is_none());
    assert_eq!(
        agent
            .reconnect_revision()
            .expect("revision")
            .map(CredentialRevision::get),
        Some(2)
    );
    assert_eq!(
        agent
            .current_identity()
            .expect("identity")
            .credential_generation()
            .get(),
        2
    );

    ack
}

fn reconnect_confirm_report_and_replay(
    fixture: &Fixture,
    command: &DeviceCommand,
    expected_ack: &OutboundFact,
) {
    let mut reopened = fixture.open_agent();
    assert!(reopened.next_outbound().is_none());
    reopened
        .mark_current_credential_connected(CredentialRevision::try_from(2).expect("revision"))
        .expect("new credential connected");
    assert!(reopened.rotation_in_flight());
    let report = reopened.next_outbound().expect("report after reconnect");
    assert!(matches!(report, OutboundFact::CertificateReported { .. }));
    reopened
        .confirm_outbound(report.event_id())
        .expect("confirm report");
    assert!(reopened.next_outbound().is_none());
    assert!(!reopened.rotation_in_flight());

    let current_topic = TopicSet::new(&reopened.current_identity().expect("identity"))
        .command()
        .to_owned();
    assert_eq!(
        reopened
            .apply_command(&current_topic, command, NOW)
            .expect("duplicate"),
        ApplyOutcome::Duplicate
    );
    let replayed = reopened.next_outbound().expect("replayed ACK");
    assert_eq!(&replayed, expected_ack);
}

#[test]
fn committed_rotation_recognizes_only_its_old_delivery_after_restart() {
    let fixture = Fixture::new();
    let (mut agent, command) = fixture.agent_and_command();
    let old_topic = fixture.command_topic();
    agent
        .apply_command(&old_topic, &command, NOW)
        .expect("accept rotation");
    drop(agent);

    let mut reopened = fixture.open_agent();
    assert_eq!(reopened.pending_command_topic(), Some(old_topic.as_str()));
    assert_eq!(reopened.pending_command_id(), Some("command-0001"));
    assert_eq!(
        reopened
            .delivery_identity(&old_topic, "command-0001")
            .expect("durable recovery identity")
            .credential_generation()
            .get(),
        1
    );
    assert!(matches!(
        reopened.delivery_identity(&old_topic, "another-command"),
        Err(AgentError::UnexpectedDelivery)
    ));
    assert_eq!(
        reopened
            .apply_command(&old_topic, &command, NOW)
            .expect("redelivery replay"),
        ApplyOutcome::Duplicate
    );
    reopened
        .mark_pending_inbound_absent()
        .expect("unsubscribe barrier without another redelivery");
    let unrelated = fixture.command(
        "another-command",
        &fixture.artifact_id,
        &fixture.artifact_digest,
        NOW + 600,
        3,
        3,
    );
    assert!(matches!(
        reopened.apply_command(&old_topic, &unrelated, NOW),
        Err(AgentError::RotationInFlight)
    ));

    let ack = reopened.next_outbound().expect("ACK");
    reopened
        .confirm_outbound(ack.event_id())
        .expect("ACK PUBACK");
    reopened
        .mark_current_credential_connected(CredentialRevision::try_from(2).expect("revision"))
        .expect("reconnect");
    let report = reopened.next_outbound().expect("report");
    reopened
        .confirm_outbound(report.event_id())
        .expect("report PUBACK");
    assert!(reopened.pending_command_topic().is_none());
    assert!(matches!(
        reopened.delivery_identity(&old_topic, "command-0001"),
        Err(AgentError::UnexpectedDelivery)
    ));
}

#[test]
fn report_is_durably_blocked_until_exact_inbound_settlement() {
    let fixture = Fixture::new();
    let (mut agent, command) = fixture.agent_and_command();
    agent
        .apply_command(&fixture.command_topic(), &command, NOW)
        .expect("accept rotation");
    let ack = agent.next_outbound().expect("ACK");
    agent.confirm_outbound(ack.event_id()).expect("ACK PUBACK");
    agent
        .mark_current_credential_connected(CredentialRevision::try_from(2).expect("revision"))
        .expect("reconnect");
    assert!(agent.next_outbound().is_none());
    assert!(!agent.pending_inbound_settled());
    assert!(matches!(
        agent.mark_pending_inbound_settled("reference-settlement-wrong"),
        Err(AgentError::UnexpectedDelivery)
    ));

    drop(agent);
    let mut reopened = fixture.open_agent();
    assert!(!reopened.pending_inbound_settled());
    assert!(reopened.next_outbound().is_none());
    reopened
        .mark_pending_inbound_absent()
        .expect("unsubscribe barrier");
    assert!(matches!(
        reopened.next_outbound(),
        Some(OutboundFact::CertificateReported { .. })
    ));
}

#[test]
fn conflicting_replay_redelivery_reuses_one_durable_rejection() {
    let fixture = Fixture::new();
    let (mut agent, accepted) = fixture.agent_and_command();
    let topic = fixture.command_topic();
    agent
        .apply_command(&topic, &accepted, NOW)
        .expect("accept rotation");
    let conflicting = fixture.command(
        "command-0001",
        "different-artifact",
        &fixture.artifact_digest,
        NOW + 600,
        2,
        2,
    );
    for _ in 0..2 {
        assert_eq!(
            agent
                .apply_command(&topic, &conflicting, NOW)
                .expect("stable rejection"),
            ApplyOutcome::Rejected(CommandRejection::MalformedCommand)
        );
    }
    let accepted_ack = agent.next_outbound().expect("accepted ACK");
    agent
        .confirm_outbound(accepted_ack.event_id())
        .expect("accepted ACK PUBACK");
    let rejection = agent.next_outbound().expect("one rejection");
    agent
        .confirm_outbound(rejection.event_id())
        .expect("rejection PUBACK");
    assert!(agent.next_outbound().is_none());
}

#[test]
fn terminal_command_journal_survives_newer_commands_and_restart() {
    let fixture = Fixture::new();
    let mut agent = fixture.open_agent();
    let topic = fixture.command_topic();
    let first = fixture.command(
        "expired-command-first",
        &fixture.artifact_id,
        &fixture.artifact_digest,
        NOW,
        2,
        2,
    );
    let second = fixture.command(
        "expired-command-second",
        &fixture.artifact_id,
        &fixture.artifact_digest,
        NOW,
        2,
        2,
    );

    for command in [&first, &second] {
        assert_eq!(
            agent.apply_command(&topic, command, NOW).expect("reject"),
            ApplyOutcome::Rejected(CommandRejection::PolicyRejected)
        );
        let acknowledgement = agent.next_outbound().expect("ACK");
        agent
            .confirm_outbound(acknowledgement.event_id())
            .expect("ACK PUBACK");
    }
    drop(agent);

    let mut reopened = fixture.open_agent();
    assert_eq!(
        reopened
            .apply_command(&topic, &first, NOW)
            .expect("historic duplicate"),
        ApplyOutcome::Duplicate
    );
}

#[test]
fn malformed_delivery_is_durably_terminal_before_puback() {
    let fixture = Fixture::new();
    let mut agent = fixture.open_agent();
    let topic = fixture.command_topic();

    assert_eq!(
        agent
            .reject_malformed_delivery(&topic, "poison-command", b"{", NOW)
            .expect("durable poison disposition"),
        ApplyOutcome::Rejected(CommandRejection::MalformedCommand)
    );
    let acknowledgement = agent.next_outbound().expect("malformed ACK");
    agent
        .confirm_outbound(acknowledgement.event_id())
        .expect("ACK PUBACK");
    drop(agent);

    let mut reopened = fixture.open_agent();
    assert_eq!(
        reopened
            .reject_malformed_delivery(&topic, "poison-command", b"{", NOW)
            .expect("durable duplicate"),
        ApplyOutcome::Duplicate
    );
}

#[test]
fn rejection_order_and_conflicting_replay_do_not_change_current_credential() {
    let fixture = Fixture::new();
    let (mut agent, accepted) = fixture.agent_and_command();
    let topic = fixture.command_topic();

    let malformed = fixture.command(
        "wrong-topic-command",
        &fixture.artifact_id,
        &fixture.artifact_digest,
        NOW + 600,
        2,
        2,
    );
    let wrong_topic = agent
        .apply_command("rss/v1/wrong", &malformed, NOW)
        .expect("wrong topic rejection");
    assert_eq!(
        wrong_topic,
        ApplyOutcome::Rejected(CommandRejection::MalformedCommand)
    );
    let event = event_of(agent.next_outbound());
    agent
        .confirm_outbound(&event)
        .expect("confirm rejection");

    let expired = fixture.command(
        "expired-command",
        &fixture.artifact_id,
        &fixture.artifact_digest,
        NOW,
        2,
        2,
    );
    assert_eq!(
        agent.apply_command(&topic, &expired, NOW).expect("expired"),
        ApplyOutcome::Rejected(CommandRejection::PolicyRejected)
    );
    let event = event_of(agent.next_outbound());
    agent
        .confirm_outbound(&event)
        .expect("confirm rejection");

    let wrong_digest = fixture.command(
        "digest-command",
        &fixture.artifact_id,
        "sha256:aaaaaaaaaaaaaaaaaaaaaaaaaaaaaaaaaaaaaaaaaaaaaaaaaaaaaaaaaaaaaaaa",
        NOW + 600,
        2,
        2,
    );
    assert_eq!(
        agent
            .apply_command(&topic, &wrong_digest, NOW)
            .expect("digest"),
        ApplyOutcome::Rejected(CommandRejection::ArtifactDigestMismatch)
    );
    let event = event_of(agent.next_outbound());
    agent
        .confirm_outbound(&event)
        .expect("confirm rejection");

    assert_eq!(
        agent.apply_command(&topic, &accepted, NOW).expect("accept"),
        ApplyOutcome::Accepted
    );
    let conflicting = fixture.command(
        "command-0001",
        &fixture.artifact_id,
        &fixture.artifact_digest,
        NOW + 601,
        2,
        2,
    );
    let new_topic = TopicSet::new(&agent.current_identity().expect("identity"))
        .command()
        .to_owned();
    assert_eq!(
        agent
            .apply_command(&new_topic, &conflicting, NOW)
            .expect("conflicting replay"),
        ApplyOutcome::Rejected(CommandRejection::MalformedCommand)
    );
    assert_eq!(
        agent
            .current_identity()
            .expect("identity")
            .credential_generation()
            .get(),
        2
    );
}

#[test]
fn durable_outbox_applies_backpressure_at_the_fixed_limit() {
    let fixture = Fixture::new();
    let mut agent = fixture.open_agent();
    let topic = fixture.command_topic();
    for index in 0..127 {
        let command = fixture.command(
            &format!("missing-command-{index:03}"),
            &format!("missing-artifact-{index:03}"),
            &fixture.artifact_digest,
            NOW + 600,
            2,
            2,
        );
        assert_eq!(
            agent
                .apply_command(&topic, &command, NOW)
                .expect("rejection"),
            ApplyOutcome::Rejected(CommandRejection::ArtifactUnavailable)
        );
    }
    assert!(!agent.command_intake_open(NOW));
    let final_command = fixture.command(
        "missing-command-final",
        "missing-artifact-final",
        &fixture.artifact_digest,
        NOW + 600,
        2,
        2,
    );
    assert_eq!(
        agent
            .apply_command(&topic, &final_command, NOW)
            .expect("final one-slot rejection"),
        ApplyOutcome::Rejected(CommandRejection::ArtifactUnavailable)
    );
    let overflow = fixture.command(
        "missing-command-overflow",
        "missing-artifact-overflow",
        &fixture.artifact_digest,
        NOW + 600,
        2,
        2,
    );
    assert!(matches!(
        agent.apply_command(&topic, &overflow, NOW),
        Err(AgentError::Store(StoreError::OutboxFull))
    ));
    assert_eq!(
        agent
            .current_identity()
            .expect("identity")
            .credential_generation()
            .get(),
        1
    );
}

#[test]
fn stale_fence_is_checked_before_stale_generation() {
    let fixture = Fixture::new();
    let (mut agent, accepted) = fixture.agent_and_command();
    let initial_topic = fixture.command_topic();
    assert_eq!(
        agent
            .apply_command(&initial_topic, &accepted, NOW)
            .expect("accept"),
        ApplyOutcome::Accepted
    );
    let settlement_token = agent
        .pending_settlement_token(&accepted)
        .expect("settlement token")
        .to_owned();
    agent
        .mark_pending_inbound_settled(&settlement_token)
        .expect("inbound PUBACK outgoing");
    let ack = agent.next_outbound().expect("ACK");
    agent.confirm_outbound(ack.event_id()).expect("ACK PUBACK");
    agent
        .mark_current_credential_connected(CredentialRevision::try_from(2).expect("revision"))
        .expect("reconnect");
    let report = agent.next_outbound().expect("report");
    agent
        .confirm_outbound(report.event_id())
        .expect("report PUBACK");
    let current_topic = TopicSet::new(&agent.current_identity().expect("identity"))
        .command()
        .to_owned();

    fixture.set_catalog_position(3, 1);
    let stale_fence = fixture.command(
        "stale-fence-command",
        &fixture.artifact_id,
        &fixture.artifact_digest,
        NOW + 600,
        3,
        1,
    );
    assert_eq!(
        agent
            .apply_command(&current_topic, &stale_fence, NOW)
            .expect("stale fence"),
        ApplyOutcome::Rejected(CommandRejection::FenceEpochStale)
    );

    fixture.set_catalog_position(1, 3);
    let stale_generation = fixture.command(
        "stale-generation-command",
        &fixture.artifact_id,
        &fixture.artifact_digest,
        NOW + 600,
        1,
        3,
    );
    assert_eq!(
        agent
            .apply_command(&current_topic, &stale_generation, NOW)
            .expect("stale generation"),
        ApplyOutcome::Rejected(CommandRejection::GenerationStale)
    );
    assert_eq!(
        agent
            .current_identity()
            .expect("identity")
            .credential_generation()
            .get(),
        2
    );
}

#[test]
fn only_the_accepted_command_ack_can_unlock_credential_reconnect() {
    let fixture = Fixture::new();
    let (mut agent, accepted) = fixture.agent_and_command();
    let rejected = fixture.command(
        "rejected-before-rotation",
        &fixture.artifact_id,
        &fixture.artifact_digest,
        NOW + 600,
        2,
        2,
    );
    assert_eq!(
        agent
            .apply_command("rss/v1/wrong", &rejected, NOW)
            .expect("reject"),
        ApplyOutcome::Rejected(CommandRejection::MalformedCommand)
    );
    assert_eq!(
        agent
            .apply_command(&fixture.command_topic(), &accepted, NOW)
            .expect("accept"),
        ApplyOutcome::Accepted
    );

    let rejection_ack = agent.next_outbound().expect("rejection ACK");
    agent
        .confirm_outbound(rejection_ack.event_id())
        .expect("confirm rejection ACK");
    assert_eq!(agent.reconnect_revision().expect("revision"), None);

    let accepted_ack = agent.next_outbound().expect("accepted ACK");
    agent
        .confirm_outbound(accepted_ack.event_id())
        .expect("confirm accepted ACK");
    assert_eq!(
        agent
            .reconnect_revision()
            .expect("revision")
            .map(CredentialRevision::get),
        Some(2)
    );
}

#[test]
fn revoked_catalog_artifact_is_rejected_without_installing_it() {
    let fixture = Fixture::new();
    fixture.set_catalog_revoked(true);
    let (mut agent, command) = fixture.agent_and_command();

    assert_eq!(
        agent
            .apply_command(&fixture.command_topic(), &command, NOW)
            .expect("revoked rejection"),
        ApplyOutcome::Rejected(CommandRejection::PolicyRejected)
    );
    assert_eq!(
        agent
            .current_identity()
            .expect("identity")
            .credential_generation()
            .get(),
        1
    );
    assert!(!fixture.installed(2));
}

fn event_of(fact: Option<OutboundFact>) -> String {
    fact.expect("ACK").event_id().to_owned()
}

#[test]
fn semantically_corrupt_known_state_fields_fail_closed() {
    let fixture = Fixture::new();
    let (mut agent, command) = fixture.agent_and_command();
    agent
        .apply_command(&fixture.command_topic(), &command, NOW)
        .expect("accept");
    drop(agent);
    match &mut fixture.disk.borrow_mut().state.as_mut().expect("state").outbox[1] {
        StoredOutbound::ReportBlocked { payload, .. } => {
            payload.state_hash =
                "sha256:ffffffffffffffffffffffffffffffffffffffffffffffffffffffffffffffff".to_owned();
        }
        other => panic!("unexpected {other:?}"),
    }

    assert!(matches!(
        fixture.try_open().err(),
        Some(AgentError::Store(StoreError::InvalidState))
    ));
}

#[test]
fn corrupt_event_causality_and_rotation_phase_fail_closed() {
    for mutation in ["event-id", "ack-outcome", "premature-report"] {
        let fixture = Fixture::new();
        let (mut agent, command) = fixture.agent_and_command();
        agent
            .apply_command(&fixture.command_topic(), &command, NOW)
            .expect("accept");
        drop(agent);
        {
            let mut disk = fixture.disk.borrow_mut();
            let outbox = &mut disk.state.as_mut().expect("state").outbox;
            match (mutation, &mut outbox[0]) {
                ("event-id", StoredOutbound::Ack { event_id, .. }) => {
                    *event_id = "reference-ack-ffffffffffffffffffffffffffffffffffffffffffffffffffffffffffffffff".to_owned();
                }
                ("ack-outcome", StoredOutbound::Ack { payload, .. }) => {
                    payload.activates_revision = None;
                }
                ("premature-report", _) => {
                    let report = outbox.pop().expect("report");
                    match report {
                        StoredOutbound::ReportBlocked { event_id, payload } => {
                            outbox.push(StoredOutbound::ReportReady { event_id, payload });
                        }
                        other => panic!("unexpected {other:?}"),
                    }
                }
                _ => unreachable!(),
            }
        }

        let error = fixture.try_open().err().expect("corrupt phase must fail closed");
        assert!(matches!(error, AgentError::Store(StoreError::InvalidState)));
        assert!(error.to_string().contains("malformed"));
    }
}

#[test]
fn insecure_catalog_private_key_permissions_are_rejected() {
    let fixture = Fixture::new();
    fixture.material.borrow_mut().private_key_mode = 0o644;
    let (mut agent, command) = fixture.agent_and_command();

    assert_eq!(
        agent
            .apply_command(&fixture.command_topic(), &command, NOW)
            .expect("permission rejection"),
        ApplyOutcome::Rejected(CommandRejection::DeviceFailure)
    );
    assert!(!fixture.installed(2));
}

#[test]
fn catalog_rejects_wrong_identity_expired_untrusted_and_mismatched_key_material() {
    for case in ["identity", "expired", "untrusted", "key-mismatch"] {
        let fixture = Fixture::new();
        let next = DeviceIdentity::try_new(
            fixture.initial_identity.tenant(),
            fixture.device,
            CredentialGeneration::try_from(2).expect("generation"),
        )
        .expect("identity");
        match case {
            "identity" => {
                let wrong = DeviceIdentity::try_new(
                    fixture.initial_identity.tenant(),
                    id("00000000-0000-0000-0000-000000000999"),
                    CredentialGeneration::try_from(2).expect("generation"),
                )
                .expect("identity");
                *fixture.material.borrow_mut() = issue_credentials(&wrong, false);
            }
            "expired" => *fixture.material.borrow_mut() = issue_credentials(&next, true),
            "untrusted" => {
                let replacement = issue_credentials(&next, false);
                let mut material = fixture.material.borrow_mut();
                material.certificate = replacement.certificate;
                material.private_key = replacement.private_key;
            }
            "key-mismatch" => {
                let replacement = KeyPair::generate().expect("replacement key");
                fixture.material.borrow_mut().private_key =
                    replacement.serialize_pem().into_bytes();
            }
            _ => unreachable!(),
        }
        let digest = fixture.material.borrow().digest();
        fixture.set_catalog_digest(&digest);
        let command = fixture.command(
            "invalid-credential-command",
            &fixture.artifact_id,
            &digest,
            NOW + 600,
            2,
            2,
        );
        let mut agent = fixture.open_agent();
        let outcome = agent
            .apply_command(&fixture.command_topic(), &command, NOW)
            .expect("credential rejection");
        assert!(matches!(
            outcome,
            ApplyOutcome::Rejected(
                CommandRejection::PolicyRejected | CommandRejection::DeviceFailure
            )
        ));
        assert!(!fixture.installed(2));
    }
}

#[test]
fn failed_persistence_does_not_advance_in_memory_protocol_state() {
    let fixture = Fixture::new();
    let (mut agent, command) = fixture.agent_and_command();
    agent
        .apply_command(&fixture.command_topic(), &command, NOW)
        .expect("accept");
    let acknowledgement = agent.next_outbound().expect("ACK");
    fixture.disk.borrow_mut().writable = false;

    let result = agent.confirm_outbound(acknowledgement.event_id());

    assert!(matches!(
        result,
        Err(AgentError::Store(StoreError::Unavailable))
    ));
    assert_eq!(agent.next_outbound(), Some(acknowledgement));
    assert_eq!(agent.reconnect_revision().expect("revision"), None);
}

#[test]
fn installed_orphan_revision_never_becomes_current_after_state_commit_failure() {
    let fixture = Fixture::new();
    let (mut agent, command) = fixture.agent_and_command();
    fixture.disk.borrow_mut().writable = false;

    let result = agent.apply_command(&fixture.command_topic(), &command, NOW);

    fixture.disk.borrow_mut().writable = true;
    assert!(matches!(
        result,
        Err(AgentError::Store(StoreError::Unavailable))
    ));
    assert!(fixture.installed(2));
    assert_eq!(
        agent
            .current_identity()
            .expect("in-memory identity")
            .credential_generation()
            .get(),
        1
    );

    drop(agent);
    let mut reopened = fixture.open_agent();
    assert_eq!(
        reopened
            .current_identity()
            .expect("durable identity")
            .credential_generation()
            .get(),
        1
    );
    assert_eq!(
        reopened
            .apply_command(&fixture.command_topic(), &command, NOW)
            .expect("reuse matching orphan"),
        ApplyOutcome::Accepted
    );
}

#[test]
fn a_state_of_another_device_is_not_resumed() {
    let fixture = Fixture::new();
    let stored = fixture.disk.borrow().state.clone().expect("state");
    let other = DeviceIdentity::try_new(
        fixture.initial_identity.tenant(),
        id("00000000-0000-0000-0000-000000000999"),
        CredentialGeneration::try_from(1).expect("generation"),
    )
    .expect("identity");
    let retention = NonZeroU32::new(300).expect("retention");
    assert!(matches!(
        ReferenceDeviceAgent::resume(stored, &other, retention).err(),
        Some(AgentError::Store(StoreError::InvalidState))
    ));
}

#[test]
fn an_installed_credential_must_be_the_recorded_one() {
    let fixture = Fixture::new();
    let driver = fixture.open_agent();
    let other = Sha256Digest::try_from(INTENT).expect("digest");
    assert!(matches!(
        driver.agent.confirm_installed(&other),
        Err(AgentError::Store(StoreError::InvalidState))
    ));
    assert!(matches!(
        driver.agent.confirm_outbound("no-such-event").err(),
        Some(AgentError::UnknownOutbound)
    ));
    assert!(matches!(
        driver
            .agent
            .mark_current_credential_connected(CredentialRevision::try_from(9).expect("revision"))
            .err(),
        Some(AgentError::UnexpectedReconnect)
    ));
}
