//! The device's command protocol as decisions: each operation says what the
//! next durable state is, and the state only moves on to one that was
//! checked. Whoever drives the agent makes the state durable in between.

use crate::catalog::{ArtifactCatalog, ArtifactView, CatalogError, ResolvedArtifact};
use crate::digest;
use crate::display;
use crate::identity::{
    ApplyOutcome, CommandRejection, CommandView, CredentialFiles, CredentialGeneration,
    DeviceCommand, DeviceIdentity, IdentityView, OutboundFact, Sha256Digest, TopicSet,
};
use crate::material::{CredentialError, ValidatedCredential};
use crate::model::{CredentialRevision, InstalledCredentialPosition};
use crate::nonzero::NonZeroU32;
use crate::state;
use crate::state::{
    AcceptedCommand, AcceptedView, RejectedCommand, RejectedView, StateV1, StateView, StoreError,
    COMMAND_JOURNAL_LIMIT, OUTBOX_LIMIT,
};
use crate::text;
use std::path::PathBuf;
use vstd::prelude::*;
use vstd::string::*;
use vstd::utf8::*;

verus! {

/// Required bootstrap configuration. There is no insecure or clean-session variant.
#[derive(Debug)]
pub struct AgentConfig {
    pub identity: DeviceIdentity,
    pub state_directory: PathBuf,
    pub catalog: ArtifactCatalog,
    pub initial_position: InstalledCredentialPosition,
    pub initial_credentials: CredentialFiles,
    pub command_retention_seconds: NonZeroU32,
}

impl AgentConfig {
    #[must_use]
    pub fn new(
        identity: DeviceIdentity,
        state_directory: PathBuf,
        catalog: ArtifactCatalog,
        initial_position: InstalledCredentialPosition,
        initial_credentials: CredentialFiles,
        command_retention_seconds: NonZeroU32,
    ) -> (r: Self)
        ensures
            r == (AgentConfig {
                identity,
                state_directory,
                catalog,
                initial_position,
                initial_credentials,
                command_retention_seconds,
            }),
    {
        AgentConfig {
            identity,
            state_directory,
            catalog,
            initial_position,
            initial_credentials,
            command_retention_seconds,
        }
    }
}

#[derive(Clone, Copy, Debug, PartialEq, Eq, Structural)]
pub enum AgentError {
    Store(StoreError),
    Credential(CredentialError),
    InitialArtifactUnavailable,
    UnknownOutbound,
    UnexpectedReconnect,
    UnexpectedDelivery,
    RotationInFlight,
}

impl AgentError {
    /// The text that describes the failure.
    pub open spec fn message(self) -> Seq<char> {
        match self {
            AgentError::Store(error) => error.message(),
            AgentError::Credential(error) => error.message(),
            AgentError::InitialArtifactUnavailable =>
                "initial credential artifact is unavailable"@,
            AgentError::UnknownOutbound => "outbound event does not exist or is not publishable"@,
            AgentError::UnexpectedReconnect =>
                "reconnect does not match the committed credential revision"@,
            AgentError::UnexpectedDelivery =>
                "MQTT delivery is outside the current or pending settlement scope"@,
            AgentError::RotationInFlight =>
                "credential rotation is in flight; command intake is backpressured"@,
        }
    }
}

impl core::fmt::Display for AgentError {
    fn fmt(&self, formatter: &mut core::fmt::Formatter<'_>) -> (r: Result<(), core::fmt::Error>)
        ensures
            r is Ok ==> display::wrote(*old(formatter), *final(formatter), self.message()),
    {
        formatter.write_str(
            match self {
                AgentError::Store(error) => error.text(),
                AgentError::Credential(error) => error.text(),
                AgentError::InitialArtifactUnavailable =>
                    "initial credential artifact is unavailable",
                AgentError::UnknownOutbound =>
                    "outbound event does not exist or is not publishable",
                AgentError::UnexpectedReconnect =>
                    "reconnect does not match the committed credential revision",
                AgentError::UnexpectedDelivery =>
                    "MQTT delivery is outside the current or pending settlement scope",
                AgentError::RotationInFlight =>
                    "credential rotation is in flight; command intake is backpressured",
            },
        )
    }
}

impl std::error::Error for AgentError {

}

/// The time of an observation as it is reported.
pub open spec fn observed_time(now: u64) -> i64 {
    if now <= i64::MAX {
        now as i64
    } else {
        i64::MAX
    }
}

fn observation(now_epoch_seconds: u64) -> (r: i64)
    ensures
        r == observed_time(now_epoch_seconds),
        r >= 0,
{
    if now_epoch_seconds <= 9_223_372_036_854_775_807 {
        now_epoch_seconds as i64
    } else {
        9_223_372_036_854_775_807
    }
}

/// Until when a command observed at a time is remembered.
pub open spec fn retention_deadline(observed_at: i64, retention: u32) -> u64 {
    (observed_at + retention) as u64
}

/// The bytes whose digest tells one command's content from another's.
pub open spec fn command_bytes(command: CommandView) -> Seq<u8> {
    encode_utf8("rss.reference-device-agent.command.v1\0"@) + encode_utf8(command.command_id)
        + seq![0u8] + encode_utf8(command.artifact_id) + seq![0u8] + encode_utf8(
        command.artifact_digest,
    ) + seq![0u8] + encode_utf8(command.intent_digest) + seq![0u8] + encode_utf8(
        command.policy_hash,
    ) + seq![0u8] + text::be_bytes(command.device_id as nat, 16) + text::be_bytes(
        command.authorization_receipt_id as nat,
        16,
    ) + text::be_bytes(command.deadline_epoch_seconds as nat, 8) + text::be_bytes(
        command.desired_generation as nat,
        8,
    ) + text::be_bytes(command.fence_epoch as nat, 8)
}

pub open spec fn command_fingerprint_of(command: CommandView) -> Seq<char> {
    digest::digest_text_of(command_bytes(command))
}

pub fn command_fingerprint(command: &DeviceCommand) -> (r: String)
    ensures
        r@ == command_fingerprint_of(command@),
        digest::is_digest_text(r@),
{
    let mut bytes: Vec<u8> = Vec::new();
    text::push_text(&mut bytes, "rss.reference-device-agent.command.v1\0");
    text::push_text(&mut bytes, command.command_id().expose());
    bytes.push(0);
    text::push_text(&mut bytes, command.artifact_id().expose());
    bytes.push(0);
    text::push_text(&mut bytes, command.artifact_digest().expose());
    bytes.push(0);
    text::push_text(&mut bytes, command.intent_digest().expose());
    bytes.push(0);
    text::push_text(&mut bytes, command.policy_hash().expose());
    bytes.push(0);
    text::push_be(&mut bytes, command.device_id().as_u128(), 16);
    text::push_be(&mut bytes, command.authorization_receipt_id().as_u128(), 16);
    text::push_be(&mut bytes, command.deadline_epoch_seconds().get() as u128, 8);
    text::push_be(&mut bytes, command.desired_generation().get() as u128, 8);
    text::push_be(&mut bytes, command.fence_epoch().get() as u128, 8);
    assert(bytes@ =~= command_bytes(command@));
    digest::digest_text(bytes.as_slice())
}

/// The bytes whose digest stands for an undecodable delivery.
pub open spec fn malformed_bytes(topic: Seq<char>, command_id: Seq<char>, payload: Seq<u8>) -> Seq<
    u8,
> {
    encode_utf8("rss.reference-device-agent.malformed-command.v1\0"@) + encode_utf8(topic)
        + seq![0u8] + encode_utf8(command_id) + seq![0u8] + digest::sha256_of(payload)
}

pub open spec fn malformed_fingerprint_of(
    topic: Seq<char>,
    command_id: Seq<char>,
    payload: Seq<u8>,
) -> Seq<char> {
    digest::digest_text_of(malformed_bytes(topic, command_id, payload))
}

pub fn malformed_fingerprint(topic: &str, command_id: &str, payload: &[u8]) -> (r: String)
    ensures
        r@ == malformed_fingerprint_of(topic@, command_id@, payload@),
        digest::is_digest_text(r@),
{
    let mut bytes: Vec<u8> = Vec::new();
    text::push_text(&mut bytes, "rss.reference-device-agent.malformed-command.v1\0");
    text::push_text(&mut bytes, topic);
    bytes.push(0);
    text::push_text(&mut bytes, command_id);
    bytes.push(0);
    let hashed = digest::sha256(payload);
    text::push_bytes(&mut bytes, hashed.as_slice());
    assert(bytes@ =~= malformed_bytes(topic@, command_id@, payload@));
    digest::digest_text(bytes.as_slice())
}

/// How a catalog failure is answered.
pub open spec fn catalog_rejection_of(error: CatalogError) -> CommandRejection {
    match error {
        CatalogError::NotFound | CatalogError::Unavailable =>
            CommandRejection::ArtifactUnavailable,
        CatalogError::DigestMismatch => CommandRejection::ArtifactDigestMismatch,
        CatalogError::BindingMismatch | CatalogError::Revoked => CommandRejection::PolicyRejected,
        CatalogError::Malformed => CommandRejection::MalformedCommand,
        CatalogError::Credential(error) => match error {
            CredentialError::Untrusted | CredentialError::IdentityMismatch =>
                CommandRejection::PolicyRejected,
            CredentialError::Unavailable
            | CredentialError::Malformed
            | CredentialError::InsecurePrivateKey => CommandRejection::DeviceFailure,
        },
    }
}

pub fn catalog_rejection(error: CatalogError) -> (r: CommandRejection)
    ensures
        r == catalog_rejection_of(error),
{
    match error {
        CatalogError::NotFound | CatalogError::Unavailable =>
            CommandRejection::ArtifactUnavailable,
        CatalogError::DigestMismatch => CommandRejection::ArtifactDigestMismatch,
        CatalogError::BindingMismatch | CatalogError::Revoked => CommandRejection::PolicyRejected,
        CatalogError::Malformed => CommandRejection::MalformedCommand,
        CatalogError::Credential(error) => match error {
            CredentialError::Untrusted | CredentialError::IdentityMismatch =>
                CommandRejection::PolicyRejected,
            CredentialError::Unavailable
            | CredentialError::Malformed
            | CredentialError::InsecurePrivateKey => CommandRejection::DeviceFailure,
        },
    }
}

/// Takes what a credential's files were validated and digested to; a failed
/// validation is reported before a missing digest.
pub fn require_material(
    credential: Result<ValidatedCredential, CredentialError>,
    digest: Option<Sha256Digest>,
) -> (r: Result<(ValidatedCredential, Sha256Digest), AgentError>)
    ensures
        match credential {
            Err(error) => r == Err::<(ValidatedCredential, Sha256Digest), AgentError>(
                AgentError::Credential(error),
            ),
            Ok(credential) => match digest {
                None => r == Err::<(ValidatedCredential, Sha256Digest), AgentError>(
                    AgentError::InitialArtifactUnavailable,
                ),
                Some(digest) => r == Ok::<(ValidatedCredential, Sha256Digest), AgentError>(
                    (credential, digest),
                ),
            },
        },
{
    match credential {
        Err(error) => Err(AgentError::Credential(error)),
        Ok(credential) => match digest {
            None => Err(AgentError::InitialArtifactUnavailable),
            Some(digest) => Ok((credential, digest)),
        },
    }
}

/// A state that was found valid and may be made durable.
#[derive(Debug)]
pub struct DurableCandidate {
    state: StateV1,
}

impl View for DurableCandidate {
    type V = StateView;

    closed spec fn view(&self) -> StateView {
        self.state@
    }
}

impl DurableCandidate {
    #[verifier::type_invariant]
    spec fn inv(self) -> bool {
        self.state@.valid()
    }

    pub fn new(state: StateV1) -> (r: Result<Self, AgentError>)
        ensures
            state@.valid() ==> r is Ok && r->Ok_0@ == state@,
            !state@.valid() ==> r == Err::<Self, AgentError>(
                AgentError::Store(StoreError::InvalidState),
            ),
    {
        match state.validate() {
            Ok(()) => Ok(DurableCandidate { state }),
            Err(error) => Err(AgentError::Store(error)),
        }
    }

    pub fn state(&self) -> (r: &StateV1)
        ensures
            r@ == self@,
            self@.valid(),
    {
        proof {
            use_type_invariant(self);
        }
        &self.state
    }
}

/// What an operation asks for next.
pub enum StepView {
    /// The operation is refused and nothing changes.
    Refuse(AgentError),
    /// The command has its answer already and nothing changes.
    Answer(ApplyOutcome),
    /// The command's artifact has to be looked up for this identity.
    Resolve(IdentityView),
    /// The state has to be made durable and then taken over.
    Commit { state: StateView, outcome: ApplyOutcome },
    /// The credential has to be installed under the revision before the
    /// state is checked, made durable and taken over.
    Install { revision: u64, state: StateView },
}

pub enum CommandStep {
    Answer(ApplyOutcome),
    Resolve(DeviceIdentity),
    Commit { candidate: DurableCandidate, outcome: ApplyOutcome },
    Install { revision: CredentialRevision, prepared: StateV1 },
}

/// The step that an operation's result stands for.
pub open spec fn step_of(result: Result<CommandStep, AgentError>) -> StepView {
    match result {
        Err(error) => StepView::Refuse(error),
        Ok(CommandStep::Answer(outcome)) => StepView::Answer(outcome),
        Ok(CommandStep::Resolve(identity)) => StepView::Resolve(identity@),
        Ok(CommandStep::Commit { candidate, outcome }) => StepView::Commit {
            state: candidate@,
            outcome,
        },
        Ok(CommandStep::Install { revision, prepared }) => StepView::Install {
            revision: revision@,
            state: prepared@,
        },
    }
}

/// A state is committed only if it is valid.
pub open spec fn sealed(state: StateView, outcome: ApplyOutcome) -> StepView {
    if state.valid() {
        StepView::Commit { state, outcome }
    } else {
        StepView::Refuse(AgentError::Store(StoreError::InvalidState))
    }
}

pub open spec fn outbox_full() -> StepView {
    StepView::Refuse(AgentError::Store(StoreError::OutboxFull))
}

/// The step for a command identity that the journal knows: the remembered
/// answer again, or one rejection for other content under the same identity.
pub open spec fn known_step(
    s: StateView,
    command_id: Seq<char>,
    fingerprint: Seq<char>,
    generation: u64,
    fence: u64,
    now: u64,
) -> StepView {
    let i = choose|i: int| s.is_live_at(i, command_id, now);
    if s.journal[i].fingerprint == fingerprint {
        if s.has_command_ack(command_id) {
            StepView::Answer(ApplyOutcome::Duplicate)
        } else if s.outbox.len() + 1 > OUTBOX_LIMIT {
            outbox_full()
        } else {
            let j = choose|j: int| s.is_journalled_at(j, command_id, fingerprint);
            sealed(s.replay(j), ApplyOutcome::Duplicate)
        }
    } else if s.has_event(StateView::conflict_event(command_id, fingerprint)) {
        StepView::Answer(ApplyOutcome::Rejected(CommandRejection::MalformedCommand))
    } else if s.outbox.len() + 1 > OUTBOX_LIMIT {
        outbox_full()
    } else {
        sealed(
            s.reject_conflicting_replay(
                command_id,
                fingerprint,
                generation,
                fence,
                observed_time(now),
            ),
            ApplyOutcome::Rejected(CommandRejection::MalformedCommand),
        )
    }
}

/// The step that answers a command with a rejection, after the journal was
/// cleared of what had expired at `expiry`.
pub open spec fn rejection_step(s: StateView, command: RejectedView, expiry: u64) -> StepView {
    let e = s.expire(expiry);
    if e.outbox.len() + 1 > OUTBOX_LIMIT {
        outbox_full()
    } else if e.journal.len() >= COMMAND_JOURNAL_LIMIT {
        StepView::Refuse(AgentError::Store(StoreError::CommandJournalFull))
    } else {
        sealed(e.reject(command), ApplyOutcome::Rejected(command.rejection))
    }
}

pub open spec fn rejected(
    command: CommandView,
    rejection: CommandRejection,
    now: u64,
    retention: u32,
) -> RejectedView {
    RejectedView {
        command_id: command.command_id,
        fingerprint: command_fingerprint_of(command),
        generation: command.desired_generation,
        fence: command.fence_epoch,
        rejection,
        observed_at: observed_time(now),
        retain_until_epoch_seconds: retention_deadline(observed_time(now), retention),
    }
}

/// What a command is answered with before its artifact is looked at.
pub open spec fn first_step(
    s: StateView,
    topic: Seq<char>,
    command: CommandView,
    now: u64,
    retention: u32,
) -> StepView {
    let expiry = observed_time(now) as u64;
    if s.has_live(command.command_id, now) {
        known_step(
            s,
            command.command_id,
            command_fingerprint_of(command),
            command.desired_generation,
            command.fence_epoch,
            now,
        )
    } else if s.rotation_in_flight() {
        StepView::Refuse(AgentError::RotationInFlight)
    } else if !s.identity_usable() {
        StepView::Refuse(AgentError::Store(StoreError::InvalidState))
    } else if topic != s.identity.command_topic() || command.device_id != s.identity.device {
        rejection_step(
            s,
            rejected(command, CommandRejection::MalformedCommand, now, retention),
            expiry,
        )
    } else if command.deadline_epoch_seconds <= now {
        rejection_step(
            s,
            rejected(command, CommandRejection::PolicyRejected, now, retention),
            expiry,
        )
    } else {
        StepView::Resolve(s.identity)
    }
}

/// Why a command with a usable artifact is still rejected: the fence is
/// looked at before the generation.
pub open spec fn position_rejection(
    s: StateView,
    command: CommandView,
    artifact: ArtifactView,
) -> Option<CommandRejection> {
    if command.fence_epoch < s.current.fence_epoch {
        Some(CommandRejection::FenceEpochStale)
    } else if command.desired_generation < s.current.desired_generation {
        Some(CommandRejection::GenerationStale)
    } else if command.desired_generation == s.current.desired_generation
        || artifact.credential_generation <= s.identity.credential_generation {
        Some(CommandRejection::MalformedCommand)
    } else {
        None
    }
}

pub open spec fn accepted(
    command: CommandView,
    artifact: ArtifactView,
    revision: u64,
    now: u64,
    retention: u32,
) -> AcceptedView {
    AcceptedView {
        command_id: command.command_id,
        fingerprint: command_fingerprint_of(command),
        generation: command.desired_generation,
        fence: command.fence_epoch,
        credential_generation: artifact.credential_generation,
        revision,
        artifact_digest: artifact.digest,
        expires_at: artifact.expires_at,
        observed_at: observed_time(now),
        retain_until_epoch_seconds: retention_deadline(observed_time(now), retention),
    }
}

/// The step that installs an accepted artifact under the next revision.
pub open spec fn install_step(
    s: StateView,
    command: CommandView,
    artifact: ArtifactView,
    now: u64,
    retention: u32,
) -> StepView {
    let e = s.expire(observed_time(now) as u64);
    if e.outbox.len() + 2 > OUTBOX_LIMIT {
        outbox_full()
    } else if e.journal.len() >= COMMAND_JOURNAL_LIMIT {
        StepView::Refuse(AgentError::Store(StoreError::CommandJournalFull))
    } else if e.current.credential_revision == u64::MAX || !e.identity_usable() {
        StepView::Refuse(AgentError::Store(StoreError::InvalidState))
    } else {
        let revision = (e.current.credential_revision + 1) as u64;
        StepView::Install {
            revision,
            state: e.accept(accepted(command, artifact, revision, now, retention)),
        }
    }
}

/// What a command is answered with once its artifact was looked up.
pub open spec fn second_step(
    s: StateView,
    command: CommandView,
    artifact: Result<ArtifactView, CatalogError>,
    now: u64,
    retention: u32,
) -> StepView {
    let expiry = observed_time(now) as u64;
    match artifact {
        Err(error) => rejection_step(
            s,
            rejected(command, catalog_rejection_of(error), now, retention),
            expiry,
        ),
        Ok(artifact) => match position_rejection(s, command, artifact) {
            Some(rejection) => rejection_step(
                s,
                rejected(command, rejection, now, retention),
                expiry,
            ),
            None => install_step(s, command, artifact, now, retention),
        },
    }
}

/// What an undecodable delivery is answered with.
pub open spec fn malformed_step(
    s: StateView,
    topic: Seq<char>,
    command_id: Seq<char>,
    payload: Seq<u8>,
    now: u64,
    retention: u32,
) -> StepView {
    let fingerprint = malformed_fingerprint_of(topic, command_id, payload);
    if !s.identity_usable() {
        StepView::Refuse(AgentError::Store(StoreError::InvalidState))
    } else if topic != s.identity.command_topic() && !(s.pending matches Some(pending)
        && pending.topic == topic) {
        StepView::Refuse(AgentError::UnexpectedDelivery)
    } else if s.has_live(command_id, now) {
        known_step(
            s,
            command_id,
            fingerprint,
            s.current.desired_generation,
            s.current.fence_epoch,
            now,
        )
    } else {
        rejection_step(
            s,
            RejectedView {
                command_id,
                fingerprint,
                generation: s.current.desired_generation,
                fence: s.current.fence_epoch,
                rejection: CommandRejection::MalformedCommand,
                observed_at: observed_time(now),
                retain_until_epoch_seconds: retention_deadline(observed_time(now), retention),
            },
            now,
        )
    }
}

proof fn lemma_live_unique(s: StateView, i: int, j: int, command_id: Seq<char>, now: u64)
    requires
        s.is_live_at(i, command_id, now),
        s.is_live_at(j, command_id, now),
    ensures
        i == j,
{
    if i < j {
        assert(!state::live(s.journal[i], command_id, now));
    } else if j < i {
        assert(!state::live(s.journal[j], command_id, now));
    }
}

proof fn lemma_journalled_unique(
    s: StateView,
    i: int,
    j: int,
    command_id: Seq<char>,
    fingerprint: Seq<char>,
)
    requires
        s.is_journalled_at(i, command_id, fingerprint),
        s.is_journalled_at(j, command_id, fingerprint),
    ensures
        i == j,
{
    if i < j {
        assert(!(s.journal[i].command_id == command_id && s.journal[i].fingerprint == fingerprint));
    } else if j < i {
        assert(!(s.journal[j].command_id == command_id && s.journal[j].fingerprint == fingerprint));
    }
}

/// The exact old scope that may be redelivered during recovery.
#[derive(Debug, PartialEq, Eq)]
pub struct RecoveryCommandScope {
    identity: DeviceIdentity,
    topic: String,
    command_id: String,
}

/// What a recovery scope names.
pub struct RecoveryScopeView {
    pub identity: IdentityView,
    pub topic: Seq<char>,
    pub command_id: Seq<char>,
}

impl View for RecoveryCommandScope {
    type V = RecoveryScopeView;

    closed spec fn view(&self) -> RecoveryScopeView {
        RecoveryScopeView {
            identity: self.identity@,
            topic: self.topic@,
            command_id: self.command_id@,
        }
    }
}

impl RecoveryCommandScope {
    #[must_use]
    pub fn new(identity: DeviceIdentity, topic: String, command_id: String) -> (r: Self)
        ensures
            r@ == (RecoveryScopeView {
                identity: identity@,
                topic: topic@,
                command_id: command_id@,
            }),
    {
        RecoveryCommandScope { identity, topic, command_id }
    }

    #[must_use]
    pub fn identity(&self) -> (r: &DeviceIdentity)
        ensures
            r@ == self@.identity,
    {
        &self.identity
    }

    #[must_use]
    pub fn topic(&self) -> (r: &str)
        ensures
            r@ == self@.topic,
    {
        self.topic.as_str()
    }

    #[must_use]
    pub fn command_id(&self) -> (r: &str)
        ensures
            r@ == self@.command_id,
    {
        self.command_id.as_str()
    }
}

/// Product-specific device state machine.
pub struct ReferenceDeviceAgent {
    state: StateV1,
    command_retention_seconds: NonZeroU32,
}

impl View for ReferenceDeviceAgent {
    type V = StateView;

    closed spec fn view(&self) -> StateView {
        self.state@
    }
}

impl core::fmt::Debug for ReferenceDeviceAgent {
    fn fmt(&self, formatter: &mut core::fmt::Formatter<'_>) -> (r: Result<(), core::fmt::Error>)
        ensures
            r is Ok ==> display::wrote(
                *old(formatter),
                *final(formatter),
                "ReferenceDeviceAgent(<durable>)"@,
            ),
    {
        formatter.write_str("ReferenceDeviceAgent(<durable>)")
    }
}

impl ReferenceDeviceAgent {
    pub closed spec fn retention(self) -> u32 {
        self.command_retention_seconds@
    }

    /// An agent over a state that was read back, if the state belongs to the device.
    pub fn resume(
        state: StateV1,
        identity: &DeviceIdentity,
        command_retention_seconds: NonZeroU32,
    ) -> (r: Result<Self, AgentError>)
        ensures
            state@.valid_for(identity@.tenant, identity@.device) && state@.identity_usable()
                ==> r is Ok && r->Ok_0@ == state@ && r->Ok_0.retention()
                == command_retention_seconds@,
            !(state@.valid_for(identity@.tenant, identity@.device) && state@.identity_usable())
                ==> r == Err::<Self, AgentError>(AgentError::Store(StoreError::InvalidState)),
    {
        match state.verify(identity) {
            Ok(()) => {},
            Err(error) => {
                return Err(AgentError::Store(error));
            },
        }
        match state.current_identity() {
            Ok(_) => Ok(ReferenceDeviceAgent { state, command_retention_seconds }),
            Err(error) => Err(AgentError::Store(error)),
        }
    }

    /// An agent over the state of a freshly provisioned device.
    pub fn provision(
        identity: &DeviceIdentity,
        position: InstalledCredentialPosition,
        digest: &Sha256Digest,
        expires_at: i64,
        command_retention_seconds: NonZeroU32,
    ) -> (r: Self)
        ensures
            r@ == StateView::initial(identity@, position@, digest@, expires_at),
            r.retention() == command_retention_seconds@,
    {
        ReferenceDeviceAgent {
            state: StateV1::initial(identity, position, digest, expires_at),
            command_retention_seconds,
        }
    }

    /// The installed files are the ones that the state speaks of.
    pub fn confirm_installed(&self, digest: &Sha256Digest) -> (r: Result<(), AgentError>)
        ensures
            digest@ == self@.current.artifact_digest ==> r is Ok,
            digest@ != self@.current.artifact_digest ==> r == Err::<(), AgentError>(
                AgentError::Store(StoreError::InvalidState),
            ),
    {
        if text::same(digest.expose(), self.state.current_artifact_digest()) {
            Ok(())
        } else {
            Err(AgentError::Store(StoreError::InvalidState))
        }
    }

    pub fn state(&self) -> (r: &StateV1)
        ensures
            r@ == self@,
    {
        &self.state
    }

    /// Takes over a state once it is durable.
    pub fn adopt(&mut self, candidate: DurableCandidate)
        ensures
            final(self)@ == candidate@,
            final(self)@.valid(),
            final(self).retention() == old(self).retention(),
    {
        proof {
            use_type_invariant(&candidate);
        }
        self.state = candidate.state;
    }

    fn deadline(&self, observed_at: i64) -> (r: u64)
        requires
            observed_at >= 0,
        ensures
            r == retention_deadline(observed_at, self.retention()),
    {
        (observed_at as u64) + (self.command_retention_seconds.get() as u64)
    }

    fn commit_step(candidate: StateV1, outcome: ApplyOutcome) -> (r: Result<
        CommandStep,
        AgentError,
    >)
        ensures
            step_of(r) == sealed(candidate@, outcome),
    {
        match DurableCandidate::new(candidate) {
            Ok(candidate) => Ok(CommandStep::Commit { candidate, outcome }),
            Err(error) => Err(error),
        }
    }

    /// Answers a command identity that the journal may know.
    fn answer_known(
        &self,
        command_id: &str,
        fingerprint: &str,
        generation: u64,
        fence: u64,
        now_epoch_seconds: u64,
    ) -> (r: Option<Result<CommandStep, AgentError>>)
        ensures
            self@.has_live(command_id@, now_epoch_seconds) ==> r is Some && step_of(r->0)
                == known_step(
                self@,
                command_id@,
                fingerprint@,
                generation,
                fence,
                now_epoch_seconds,
            ),
            !self@.has_live(command_id@, now_epoch_seconds) ==> r is None,
    {
        let ghost s = self@;
        let same_payload = match self.state.command_match(
            command_id,
            fingerprint,
            now_epoch_seconds,
        ) {
            Some(same_payload) => same_payload,
            None => {
                return None;
            },
        };
        let ghost i = choose|i: int|
            #[trigger] s.is_live_at(i, command_id@, now_epoch_seconds) && same_payload == (
            s.journal[i].fingerprint == fingerprint@);
        proof {
            assert(state::live(s.journal[i], command_id@, now_epoch_seconds));
            let k = choose|k: int| s.is_live_at(k, command_id@, now_epoch_seconds);
            lemma_live_unique(s, i, k, command_id@, now_epoch_seconds);
        }
        if same_payload {
            if self.state.has_command_ack(command_id) {
                return Some(Ok(CommandStep::Answer(ApplyOutcome::Duplicate)));
            }
            let mut candidate = self.state.clone();
            match candidate.reserve_outbox(1) {
                Ok(()) => {},
                Err(error) => {
                    return Some(Err(AgentError::Store(error)));
                },
            }
            let replayed = candidate.replay_command(command_id, fingerprint);
            proof {
                assert(s.journal[i].command_id == command_id@ && s.journal[i].fingerprint
                    == fingerprint@);
                assert(s.in_journal(command_id@, fingerprint@));
                let j = choose|j: int|
                    #[trigger] s.is_journalled_at(j, command_id@, fingerprint@) && candidate@
                        == s.replay(j);
                let k = choose|k: int| s.is_journalled_at(k, command_id@, fingerprint@);
                lemma_journalled_unique(s, j, k, command_id@, fingerprint@);
            }
            return match replayed {
                Ok(()) => Some(Self::commit_step(candidate, ApplyOutcome::Duplicate)),
                Err(error) => Some(Err(AgentError::Store(error))),
            };
        }
        if self.state.has_conflicting_replay(command_id, fingerprint) {
            return Some(
                Ok(
                    CommandStep::Answer(
                        ApplyOutcome::Rejected(CommandRejection::MalformedCommand),
                    ),
                ),
            );
        }
        let mut candidate = self.state.clone();
        match candidate.reserve_outbox(1) {
            Ok(()) => {},
            Err(error) => {
                return Some(Err(AgentError::Store(error)));
            },
        }
        candidate.reject_conflicting_replay(
            command_id.to_owned(),
            fingerprint,
            generation,
            fence,
            observation(now_epoch_seconds),
        );
        Some(
            Self::commit_step(
                candidate,
                ApplyOutcome::Rejected(CommandRejection::MalformedCommand),
            ),
        )
    }

    fn record_rejection(&self, command: RejectedCommand, expiry: u64) -> (r: Result<
        CommandStep,
        AgentError,
    >)
        ensures
            step_of(r) == rejection_step(self@, command@, expiry),
    {
        let mut candidate = self.state.clone();
        candidate.expire_command_journal(expiry);
        match candidate.reserve_outbox(1) {
            Ok(()) => {},
            Err(error) => {
                return Err(AgentError::Store(error));
            },
        }
        match candidate.reserve_command_journal() {
            Ok(()) => {},
            Err(error) => {
                return Err(AgentError::Store(error));
            },
        }
        let rejection = command.rejection;
        candidate.reject(command);
        Self::commit_step(candidate, ApplyOutcome::Rejected(rejection))
    }

    fn reject_command(
        &self,
        command: &DeviceCommand,
        rejection: CommandRejection,
        now_epoch_seconds: u64,
    ) -> (r: Result<CommandStep, AgentError>)
        ensures
            step_of(r) == rejection_step(
                self@,
                rejected(command@, rejection, now_epoch_seconds, self.retention()),
                observed_time(now_epoch_seconds) as u64,
            ),
    {
        let observed_at: i64 = observation(now_epoch_seconds);
        self.record_rejection(
            RejectedCommand {
                command_id: command.command_id().expose().to_owned(),
                fingerprint: command_fingerprint(command),
                generation: command.desired_generation().get(),
                fence: command.fence_epoch().get(),
                rejection,
                observed_at,
                retain_until_epoch_seconds: self.deadline(observed_at),
            },
            observed_at as u64,
        )
    }

    /// Answers one authenticated canonical command as far as that is
    /// possible without its artifact.
    pub fn apply_command(
        &self,
        topic: &str,
        command: &DeviceCommand,
        now_epoch_seconds: u64,
    ) -> (r: Result<CommandStep, AgentError>)
        ensures
            step_of(r) == first_step(
                self@,
                topic@,
                command@,
                now_epoch_seconds,
                self.retention(),
            ),
    {
        let fingerprint = command_fingerprint(command);
        match self.answer_known(
            command.command_id().expose(),
            fingerprint.as_str(),
            command.desired_generation().get(),
            command.fence_epoch().get(),
            now_epoch_seconds,
        ) {
            Some(answer) => {
                return answer;
            },
            None => {},
        }
        if self.state.rotation_in_flight() {
            return Err(AgentError::RotationInFlight);
        }
        let identity = match self.current_identity() {
            Ok(identity) => identity,
            Err(error) => {
                return Err(error);
            },
        };
        if !TopicSet::new(&identity).accepts_command(topic) || !command.device_id().same(
            identity.device(),
        ) {
            return self.reject_command(
                command,
                CommandRejection::MalformedCommand,
                now_epoch_seconds,
            );
        }
        if command.deadline_epoch_seconds().get() <= now_epoch_seconds {
            return self.reject_command(
                command,
                CommandRejection::PolicyRejected,
                now_epoch_seconds,
            );
        }
        Ok(CommandStep::Resolve(identity))
    }

    /// Answers the command whose artifact was looked up.
    pub fn apply_artifact(
        &self,
        command: &DeviceCommand,
        artifact: &Result<ResolvedArtifact, CatalogError>,
        now_epoch_seconds: u64,
    ) -> (r: Result<CommandStep, AgentError>)
        ensures
            step_of(r) == second_step(
                self@,
                command@,
                match artifact {
                    Ok(artifact) => Ok(artifact@),
                    Err(error) => Err(*error),
                },
                now_epoch_seconds,
                self.retention(),
            ),
    {
        let artifact = match artifact {
            Ok(artifact) => artifact,
            Err(error) => {
                return self.reject_command(command, catalog_rejection(*error), now_epoch_seconds);
            },
        };
        if command.fence_epoch().get() < self.state.current_fence() {
            return self.reject_command(
                command,
                CommandRejection::FenceEpochStale,
                now_epoch_seconds,
            );
        }
        let generation: u64 = command.desired_generation().get();
        if generation < self.state.current_generation() {
            return self.reject_command(
                command,
                CommandRejection::GenerationStale,
                now_epoch_seconds,
            );
        }
        if generation == self.state.current_generation() || artifact.credential_generation.get()
            <= self.state.current_credential_generation() {
            return self.reject_command(
                command,
                CommandRejection::MalformedCommand,
                now_epoch_seconds,
            );
        }
        self.prepare(command, artifact, now_epoch_seconds)
    }

    fn prepare(
        &self,
        command: &DeviceCommand,
        artifact: &ResolvedArtifact,
        now_epoch_seconds: u64,
    ) -> (r: Result<CommandStep, AgentError>)
        ensures
            step_of(r) == install_step(
                self@,
                command@,
                artifact@,
                now_epoch_seconds,
                self.retention(),
            ),
    {
        let observed_at: i64 = observation(now_epoch_seconds);
        let mut prepared = self.state.clone();
        prepared.expire_command_journal(observed_at as u64);
        match prepared.reserve_outbox(2) {
            Ok(()) => {},
            Err(error) => {
                return Err(AgentError::Store(error));
            },
        }
        match prepared.reserve_command_journal() {
            Ok(()) => {},
            Err(error) => {
                return Err(AgentError::Store(error));
            },
        }
        let revision = match state::next_revision(&prepared) {
            Ok(revision) => revision,
            Err(error) => {
                return Err(AgentError::Store(error));
            },
        };
        match prepared.accept(
            AcceptedCommand {
                command_id: command.command_id().expose().to_owned(),
                fingerprint: command_fingerprint(command),
                generation: command.desired_generation().get(),
                fence: command.fence_epoch().get(),
                credential_generation: artifact.credential_generation.get(),
                revision: revision.get(),
                artifact_digest: artifact.digest.expose().to_owned(),
                expires_at: artifact.credential.expires_at,
                observed_at,
                retain_until_epoch_seconds: self.deadline(observed_at),
            },
        ) {
            Ok(()) => Ok(CommandStep::Install { revision, prepared }),
            Err(error) => Err(AgentError::Store(error)),
        }
    }

    /// Classifies one broker-authenticated but undecodable command.
    pub fn reject_malformed_delivery(
        &self,
        topic: &str,
        command_id: &str,
        payload: &[u8],
        now_epoch_seconds: u64,
    ) -> (r: Result<CommandStep, AgentError>)
        ensures
            step_of(r) == malformed_step(
                self@,
                topic@,
                command_id@,
                payload@,
                now_epoch_seconds,
                self.retention(),
            ),
    {
        let identity = match self.current_identity() {
            Ok(identity) => identity,
            Err(error) => {
                return Err(error);
            },
        };
        if !TopicSet::new(&identity).accepts_command(topic) && !self.pending_on(topic) {
            return Err(AgentError::UnexpectedDelivery);
        }
        let fingerprint = malformed_fingerprint(topic, command_id, payload);
        match self.answer_known(
            command_id,
            fingerprint.as_str(),
            self.state.current_generation(),
            self.state.current_fence(),
            now_epoch_seconds,
        ) {
            Some(answer) => {
                return answer;
            },
            None => {},
        }
        let observed_at: i64 = observation(now_epoch_seconds);
        self.record_rejection(
            RejectedCommand {
                command_id: command_id.to_owned(),
                fingerprint,
                generation: self.state.current_generation(),
                fence: self.state.current_fence(),
                rejection: CommandRejection::MalformedCommand,
                observed_at,
                retain_until_epoch_seconds: self.deadline(observed_at),
            },
            now_epoch_seconds,
        )
    }

    fn pending_on(&self, topic: &str) -> (r: bool)
        ensures
            r == (self@.pending matches Some(pending) && pending.topic == topic@),
    {
        match self.state.pending_inbound() {
            Some((pending_topic, _, _, _, _)) => text::same(pending_topic, topic),
            None => false,
        }
    }

    #[must_use]
    pub fn next_outbound(&self) -> (r: Option<OutboundFact>)
        ensures
            match r {
                Some(fact) => exists|i: int|
                    #[trigger] self@.is_next(i) && self@.outbox[i].ready_fact() == Some(fact@),
                None => forall|i: int| !#[trigger] self@.offered(i),
            },
    {
        let next = self.state.next_outbound();
        proof {
            let s = self@;
            assert(s == self.state@);
            if next is Some {
                let i = choose|i: int|
                    #[trigger] s.is_next(i) && s.outbox[i].ready_fact() == Some(next->0@);
                assert(self@.is_next(i));
            }
        }
        next
    }

    /// The state after the broker's acknowledgement of one outbound fact.
    pub fn confirm_outbound(&self, event_id: &str) -> (r: Result<DurableCandidate, AgentError>)
        ensures
            match r {
                Ok(candidate) => exists|i: int|
                    #[trigger] self@.first_event(i, event_id@) && self@.confirmable(i)
                        && candidate@ == self@.confirm(i) && candidate@.valid(),
                Err(AgentError::UnknownOutbound) => !self@.has_event(event_id@) || exists|i: int|
                    #[trigger] self@.first_event(i, event_id@) && !self@.confirmable(i),
                Err(error) => error == AgentError::Store(StoreError::InvalidState) && exists|i: int|
                    #[trigger] self@.first_event(i, event_id@) && self@.confirmable(i)
                        && !self@.confirm(i).valid(),
            },
    {
        let mut candidate = self.state.clone();
        if !candidate.confirm_outbound(event_id) {
            return Err(AgentError::UnknownOutbound);
        }
        proof {
            let s = self@;
            let i = choose|i: int|
                #[trigger] s.first_event(i, event_id@) && s.confirmable(i) && candidate@
                    == s.confirm(i);
            assert(self@.first_event(i, event_id@));
        }
        DurableCandidate::new(candidate)
    }

    /// The committed revision that must establish the next MQTT session.
    pub fn reconnect_revision(&self) -> (r: Result<Option<CredentialRevision>, AgentError>)
        ensures
            match self@.reconnect_revision {
                None => r == Ok::<Option<CredentialRevision>, AgentError>(None),
                Some(revision) => if revision == 0 {
                    r == Err::<Option<CredentialRevision>, AgentError>(
                        AgentError::Store(StoreError::InvalidState),
                    )
                } else {
                    r matches Ok(Some(found)) && found@ == revision
                },
            },
    {
        match self.state.reconnect_revision() {
            None => Ok(None),
            Some(revision) => match CredentialRevision::try_from(revision) {
                Ok(revision) => Ok(Some(revision)),
                Err(_) => Err(AgentError::Store(StoreError::InvalidState)),
            },
        }
    }

    /// Reports whether an accepted rotation is waiting for ACK settlement or reconnect.
    #[must_use]
    pub fn rotation_in_flight(&self) -> (r: bool)
        ensures
            r == self@.rotation_in_flight(),
    {
        self.state.rotation_in_flight()
    }

    /// Whether a newly delivered command can reserve the worst-case durable state transition.
    #[must_use]
    pub fn command_intake_open(&self, now_epoch_seconds: u64) -> (r: bool)
        ensures
            r == (self@.outbox.len() + 2 <= OUTBOX_LIMIT && self@.journal_has_capacity(
                now_epoch_seconds,
            )),
    {
        self.state.reserve_outbox(2).is_ok() && self.state.command_journal_has_capacity(
            now_epoch_seconds,
        )
    }

    /// The identity of the device under an earlier credential generation.
    fn identity_at(&self, generation: u64) -> (r: Result<DeviceIdentity, AgentError>)
        ensures
            self@.identity_usable() && generation > 0 ==> r is Ok && r->Ok_0@ == (IdentityView {
                credential_generation: generation,
                ..self@.identity
            }),
            !(self@.identity_usable() && generation > 0) ==> r == Err::<
                DeviceIdentity,
                AgentError,
            >(AgentError::Store(StoreError::InvalidState)),
    {
        let current = match self.current_identity() {
            Ok(current) => current,
            Err(error) => {
                return Err(error);
            },
        };
        match CredentialGeneration::try_from(generation) {
            Err(_) => Err(AgentError::Store(StoreError::InvalidState)),
            Ok(generation) => match DeviceIdentity::try_new(
                current.tenant(),
                current.device(),
                generation,
            ) {
                Ok(identity) => Ok(identity),
                Err(_) => Err(AgentError::Store(StoreError::InvalidState)),
            },
        }
    }

    /// The exact old command scope that may be redelivered during recovery.
    pub fn pending_command_scope(&self) -> (r: Result<Option<RecoveryCommandScope>, AgentError>)
        ensures
            match self@.pending {
                None => r == Ok::<Option<RecoveryCommandScope>, AgentError>(None),
                Some(pending) => if self@.identity_usable() && pending.credential_generation > 0 {
                    r matches Ok(Some(scope)) && scope@ == (RecoveryScopeView {
                        identity: IdentityView {
                            credential_generation: pending.credential_generation,
                            ..self@.identity
                        },
                        topic: pending.topic,
                        command_id: pending.command_id,
                    })
                } else {
                    r == Err::<Option<RecoveryCommandScope>, AgentError>(
                        AgentError::Store(StoreError::InvalidState),
                    )
                },
            },
    {
        match self.state.pending_inbound() {
            None => Ok(None),
            Some((topic, command_id, generation, _, _)) => match self.identity_at(generation) {
                Ok(identity) => Ok(
                    Some(
                        RecoveryCommandScope::new(identity, topic.to_owned(), command_id.to_owned()),
                    ),
                ),
                Err(error) => Err(error),
            },
        }
    }

    #[must_use]
    pub fn pending_command_topic(&self) -> (r: Option<&str>)
        ensures
            match self@.pending {
                Some(pending) => r is Some && r->0@ == pending.topic,
                None => r is None,
            },
    {
        match self.state.pending_inbound() {
            Some((topic, _, _, _, _)) => Some(topic),
            None => None,
        }
    }

    #[must_use]
    pub fn pending_command_id(&self) -> (r: Option<&str>)
        ensures
            match self@.pending {
                Some(pending) => r is Some && r->0@ == pending.command_id,
                None => r is None,
            },
    {
        match self.state.pending_inbound() {
            Some((_, command_id, _, _, _)) => Some(command_id),
            None => None,
        }
    }

    #[must_use]
    pub fn pending_inbound_settled(&self) -> (r: bool)
        ensures
            r == (self@.pending matches Some(pending) ==> pending.settled),
    {
        match self.state.pending_inbound() {
            Some((_, _, _, _, settled)) => settled,
            None => true,
        }
    }

    #[must_use]
    pub fn pending_settlement_token(&self, command: &DeviceCommand) -> (r: Option<&str>)
        ensures
            match self@.pending {
                Some(pending) => if pending.command_id == command@.command_id
                    && pending.fingerprint == command_fingerprint_of(command@) {
                    r is Some && r->0@ == pending.settlement_token
                } else {
                    r is None
                },
                None => r is None,
            },
    {
        let fingerprint = command_fingerprint(command);
        self.state.pending_settlement_token(command.command_id().expose(), fingerprint.as_str())
    }

    /// The settlement token for the exact durable recovery delivery.
    #[must_use]
    pub fn pending_delivery_settlement_token(&self, topic: &str, command_id: &str) -> (r: Option<
        &str,
    >)
        ensures
            match self@.pending {
                Some(pending) => if pending.topic == topic@ && pending.command_id == command_id@ {
                    r is Some && r->0@ == pending.settlement_token
                } else {
                    r is None
                },
                None => r is None,
            },
    {
        match self.state.pending_inbound() {
            Some((pending_topic, pending_command, _, token, _)) => if text::same(
                pending_topic,
                topic,
            ) && text::same(pending_command, command_id) {
                Some(token)
            } else {
                None
            },
            None => None,
        }
    }

    fn settle(&self, token: Option<&str>) -> (r: Result<DurableCandidate, AgentError>)
        ensures
            ({
                let known = self@.pending matches Some(pending) && (token matches Some(token)
                    ==> token@ == pending.settlement_token);
                if !known {
                    r == Err::<DurableCandidate, AgentError>(AgentError::UnexpectedDelivery)
                } else if self@.settle().valid() {
                    r is Ok && r->Ok_0@ == self@.settle()
                } else {
                    r == Err::<DurableCandidate, AgentError>(
                        AgentError::Store(StoreError::InvalidState),
                    )
                }
            }),
    {
        let mut candidate = self.state.clone();
        if !candidate.mark_inbound_settled(token) {
            return Err(AgentError::UnexpectedDelivery);
        }
        DurableCandidate::new(candidate)
    }

    /// The state after the exact outgoing PUBACK for the pending old delivery.
    pub fn mark_pending_inbound_settled(&self, token: &str) -> (r: Result<
        DurableCandidate,
        AgentError,
    >)
        ensures
            if !(self@.pending matches Some(pending) && pending.settlement_token == token@) {
                r == Err::<DurableCandidate, AgentError>(AgentError::UnexpectedDelivery)
            } else if self@.settle().valid() {
                r is Ok && r->Ok_0@ == self@.settle()
            } else {
                r == Err::<DurableCandidate, AgentError>(
                    AgentError::Store(StoreError::InvalidState),
                )
            },
    {
        self.settle(Some(token))
    }

    /// The state after the recovery unsubscribe barrier completed without a redelivery.
    pub fn mark_pending_inbound_absent(&self) -> (r: Result<DurableCandidate, AgentError>)
        ensures
            if self@.pending is None {
                r == Err::<DurableCandidate, AgentError>(AgentError::UnexpectedDelivery)
            } else if self@.settle().valid() {
                r is Ok && r->Ok_0@ == self@.settle()
            } else {
                r == Err::<DurableCandidate, AgentError>(
                    AgentError::Store(StoreError::InvalidState),
                )
            },
    {
        self.settle(None)
    }

    /// The exact identity permitted to decode a current or recovery delivery.
    pub fn delivery_identity(&self, topic: &str, command_id: &str) -> (r: Result<
        DeviceIdentity,
        AgentError,
    >)
        ensures
            if !self@.identity_usable() {
                r == Err::<DeviceIdentity, AgentError>(AgentError::Store(StoreError::InvalidState))
            } else if topic@ == self@.identity.command_topic() {
                r is Ok && r->Ok_0@ == self@.identity
            } else if !(self@.pending matches Some(pending) && pending.topic == topic@
                && pending.command_id == command_id@) {
                r == Err::<DeviceIdentity, AgentError>(AgentError::UnexpectedDelivery)
            } else if self@.pending->0.credential_generation == 0 {
                r == Err::<DeviceIdentity, AgentError>(AgentError::Store(StoreError::InvalidState))
            } else {
                r is Ok && r->Ok_0@ == (IdentityView {
                    credential_generation: self@.pending->0.credential_generation,
                    ..self@.identity
                })
            },
    {
        let current = match self.current_identity() {
            Ok(current) => current,
            Err(error) => {
                return Err(error);
            },
        };
        if TopicSet::new(&current).accepts_command(topic) {
            return Ok(current);
        }
        match self.state.pending_inbound() {
            None => Err(AgentError::UnexpectedDelivery),
            Some((pending_topic, pending_command, generation, _, _)) => {
                if !text::same(pending_topic, topic) || !text::same(pending_command, command_id) {
                    return Err(AgentError::UnexpectedDelivery);
                }
                self.identity_at(generation)
            },
        }
    }

    /// The state after the committed credential revision established its MQTT session.
    pub fn mark_current_credential_connected(&self, revision: CredentialRevision) -> (r: Result<
        DurableCandidate,
        AgentError,
    >)
        ensures
            if self@.reconnect_revision != Some(revision@) {
                r == Err::<DurableCandidate, AgentError>(AgentError::UnexpectedReconnect)
            } else if self@.reconnected().valid() {
                r is Ok && r->Ok_0@ == self@.reconnected()
            } else {
                r == Err::<DurableCandidate, AgentError>(
                    AgentError::Store(StoreError::InvalidState),
                )
            },
    {
        let mut candidate = self.state.clone();
        if !candidate.mark_reconnected(revision.get()) {
            return Err(AgentError::UnexpectedReconnect);
        }
        DurableCandidate::new(candidate)
    }

    /// The current installed device identity.
    pub fn current_identity(&self) -> (r: Result<DeviceIdentity, AgentError>)
        ensures
            self@.identity_usable() ==> r is Ok && r->Ok_0@ == self@.identity,
            !self@.identity_usable() ==> r == Err::<DeviceIdentity, AgentError>(
                AgentError::Store(StoreError::InvalidState),
            ),
    {
        match self.state.current_identity() {
            Ok(identity) => Ok(identity),
            Err(error) => Err(AgentError::Store(error)),
        }
    }

    /// The revision whose files are the installed credential.
    #[must_use]
    pub fn current_credentials(&self) -> (r: u64)
        ensures
            r == self@.current.credential_revision,
    {
        self.state.current_revision()
    }
}

} // verus!
