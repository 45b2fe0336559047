//! The records that a device keeps durably: the entries of the command
//! journal and of the outbox, what makes each of them meaningful, and the
//! digests that bind them together.

use crate::digest;
use crate::identity::{
    AckFact, AckFactView, CommandRejection, OutboundFact, OutboundFactView, ReportFact,
    ReportFactView, Uuid,
};
use crate::text;
use vstd::prelude::*;
use vstd::string::*;
use vstd::utf8::*;

verus! {

/// The bytes whose digest identifies an event.
pub open spec fn event_bytes(kind: Seq<char>, source: Seq<char>) -> Seq<u8> {
    encode_utf8("rss.reference-device-agent.event.v1\0"@) + encode_utf8(kind) + seq![0u8]
        + encode_utf8(source)
}

/// The stable identity of the event of the given kind with the given source.
pub open spec fn event_id_of(kind: Seq<char>, source: Seq<char>) -> Seq<char> {
    "reference-"@ + kind + "-"@ + text::hex(digest::sha256_of(event_bytes(kind, source)))
}

pub fn event_id(kind: &str, source: &str) -> (r: String)
    ensures
        r@ == event_id_of(kind@, source@),
{
    let mut bytes: Vec<u8> = Vec::new();
    text::push_text(&mut bytes, "rss.reference-device-agent.event.v1\0");
    text::push_text(&mut bytes, kind);
    bytes.push(0);
    text::push_text(&mut bytes, source);
    assert(bytes@ =~= event_bytes(kind@, source@));
    let hashed = digest::sha256(bytes.as_slice());
    String::from_str("reference-").concat(kind).concat("-").concat(
        text::hex_text(hashed.as_slice()).as_str(),
    )
}

/// Two texts joined by a NUL.
pub open spec fn joined(a: Seq<char>, b: Seq<char>) -> Seq<char> {
    a + "\0"@ + b
}

pub fn join(a: &str, b: &str) -> (r: String)
    ensures
        r@ == joined(a@, b@),
{
    String::from_str(a).concat("\0").concat(b)
}

/// The token that settles exactly one inbound delivery.
pub open spec fn settlement_token_of(
    topic: Seq<char>,
    command_id: Seq<char>,
    fingerprint: Seq<char>,
) -> Seq<char> {
    event_id_of("settlement"@, joined(joined(topic, command_id), fingerprint))
}

pub fn settlement_token(topic: &str, command_id: &str, fingerprint: &str) -> (r: String)
    ensures
        r@ == settlement_token_of(topic@, command_id@, fingerprint@),
{
    let source = join(join(topic, command_id).as_str(), fingerprint);
    event_id("settlement", source.as_str())
}

/// The bytes whose digest witnesses an installed credential.
pub open spec fn state_bytes(
    tenant: u128,
    device: u128,
    credential_generation: u64,
    desired_generation: u64,
    fence: u64,
    revision: u64,
    artifact_digest: Seq<char>,
) -> Seq<u8> {
    encode_utf8("rss.reference-device-agent.state.v1\0"@) + text::be_bytes(tenant as nat, 16)
        + text::be_bytes(device as nat, 16) + text::be_bytes(credential_generation as nat, 8)
        + text::be_bytes(desired_generation as nat, 8) + text::be_bytes(fence as nat, 8)
        + text::be_bytes(revision as nat, 8) + encode_utf8(artifact_digest)
}

pub open spec fn state_hash_of(
    tenant: u128,
    device: u128,
    credential_generation: u64,
    desired_generation: u64,
    fence: u64,
    revision: u64,
    artifact_digest: Seq<char>,
) -> Seq<char> {
    digest::digest_text_of(
        state_bytes(
            tenant,
            device,
            credential_generation,
            desired_generation,
            fence,
            revision,
            artifact_digest,
        ),
    )
}

pub fn state_hash(
    tenant: Uuid,
    device: Uuid,
    credential_generation: u64,
    desired_generation: u64,
    fence: u64,
    revision: u64,
    artifact_digest: &str,
) -> (r: String)
    ensures
        r@ == state_hash_of(
            tenant@,
            device@,
            credential_generation,
            desired_generation,
            fence,
            revision,
            artifact_digest@,
        ),
        digest::is_digest_text(r@),
{
    let mut bytes: Vec<u8> = Vec::new();
    text::push_text(&mut bytes, "rss.reference-device-agent.state.v1\0");
    text::push_be(&mut bytes, tenant.as_u128(), 16);
    text::push_be(&mut bytes, device.as_u128(), 16);
    text::push_be(&mut bytes, credential_generation as u128, 8);
    text::push_be(&mut bytes, desired_generation as u128, 8);
    text::push_be(&mut bytes, fence as u128, 8);
    text::push_be(&mut bytes, revision as u128, 8);
    text::push_text(&mut bytes, artifact_digest);
    assert(bytes@ =~= state_bytes(
        tenant@,
        device@,
        credential_generation,
        desired_generation,
        fence,
        revision,
        artifact_digest@,
    ));
    digest::digest_text(bytes.as_slice())
}

/// The rejection space as it is kept in durable state.
#[derive(Clone, Copy, Debug, PartialEq, Eq, Structural)]
pub enum StoredRejection {
    ArtifactUnavailable,
    ArtifactDigestMismatch,
    PolicyRejected,
    GenerationStale,
    FenceEpochStale,
    MalformedCommand,
    DeviceFailure,
}

pub open spec fn stored_rejection(value: CommandRejection) -> StoredRejection {
    match value {
        CommandRejection::ArtifactUnavailable => StoredRejection::ArtifactUnavailable,
        CommandRejection::ArtifactDigestMismatch => StoredRejection::ArtifactDigestMismatch,
        CommandRejection::PolicyRejected => StoredRejection::PolicyRejected,
        CommandRejection::GenerationStale => StoredRejection::GenerationStale,
        CommandRejection::FenceEpochStale => StoredRejection::FenceEpochStale,
        CommandRejection::MalformedCommand => StoredRejection::MalformedCommand,
        CommandRejection::DeviceFailure => StoredRejection::DeviceFailure,
    }
}

pub open spec fn restored_rejection(value: StoredRejection) -> CommandRejection {
    match value {
        StoredRejection::ArtifactUnavailable => CommandRejection::ArtifactUnavailable,
        StoredRejection::ArtifactDigestMismatch => CommandRejection::ArtifactDigestMismatch,
        StoredRejection::PolicyRejected => CommandRejection::PolicyRejected,
        StoredRejection::GenerationStale => CommandRejection::GenerationStale,
        StoredRejection::FenceEpochStale => CommandRejection::FenceEpochStale,
        StoredRejection::MalformedCommand => CommandRejection::MalformedCommand,
        StoredRejection::DeviceFailure => CommandRejection::DeviceFailure,
    }
}

impl From<CommandRejection> for StoredRejection {
    fn from(value: CommandRejection) -> (r: Self) {
        match value {
            CommandRejection::ArtifactUnavailable => StoredRejection::ArtifactUnavailable,
            CommandRejection::ArtifactDigestMismatch => StoredRejection::ArtifactDigestMismatch,
            CommandRejection::PolicyRejected => StoredRejection::PolicyRejected,
            CommandRejection::GenerationStale => StoredRejection::GenerationStale,
            CommandRejection::FenceEpochStale => StoredRejection::FenceEpochStale,
            CommandRejection::MalformedCommand => StoredRejection::MalformedCommand,
            CommandRejection::DeviceFailure => StoredRejection::DeviceFailure,
        }
    }
}

impl vstd::std_specs::convert::FromSpecImpl<CommandRejection> for StoredRejection {
    open spec fn obeys_from_spec() -> bool {
        true
    }

    open spec fn from_spec(value: CommandRejection) -> Self {
        stored_rejection(value)
    }
}

impl From<StoredRejection> for CommandRejection {
    fn from(value: StoredRejection) -> (r: Self) {
        match value {
            StoredRejection::ArtifactUnavailable => CommandRejection::ArtifactUnavailable,
            StoredRejection::ArtifactDigestMismatch => CommandRejection::ArtifactDigestMismatch,
            StoredRejection::PolicyRejected => CommandRejection::PolicyRejected,
            StoredRejection::GenerationStale => CommandRejection::GenerationStale,
            StoredRejection::FenceEpochStale => CommandRejection::FenceEpochStale,
            StoredRejection::MalformedCommand => CommandRejection::MalformedCommand,
            StoredRejection::DeviceFailure => CommandRejection::DeviceFailure,
        }
    }
}

impl vstd::std_specs::convert::FromSpecImpl<StoredRejection> for CommandRejection {
    open spec fn obeys_from_spec() -> bool {
        true
    }

    open spec fn from_spec(value: StoredRejection) -> Self {
        restored_rejection(value)
    }
}

/// A rejection survives being stored and read back, in either direction.
pub proof fn law_rejection_round_trip(fresh: CommandRejection, stored: StoredRejection)
    ensures
        restored_rejection(stored_rejection(fresh)) == fresh,
        stored_rejection(restored_rejection(stored)) == stored,
{
}

/// What a stored acknowledgement says.
pub struct StoredAckView {
    pub command_id: Seq<char>,
    pub event_cause: Seq<char>,
    pub desired_generation: u64,
    pub fence_epoch: u64,
    pub device_sequence: u64,
    pub observed_at: i64,
    pub rejection: Option<StoredRejection>,
    pub activates_revision: Option<u64>,
    pub settled_replay: bool,
}

impl StoredAckView {
    /// An acknowledgement is exactly one of a rejection, the acceptance that
    /// activates a revision, and the replay of a settled acceptance.
    pub open spec fn semantic_valid(self) -> bool {
        &&& self.command_id.len() > 0
        &&& self.event_cause.len() > 0
        &&& self.desired_generation > 0
        &&& self.fence_epoch > 0
        &&& self.device_sequence > 0
        &&& self.observed_at >= 0
        &&& self.activates_revision matches Some(revision) ==> revision > 0
        &&& match (self.rejection, self.activates_revision, self.settled_replay) {
            (Some(_), None, false) => true,
            (None, Some(_), false) => true,
            (None, None, true) => true,
            _ => false,
        }
    }

    /// The fact that is published for it.
    pub open spec fn fact(self) -> AckFactView {
        AckFactView {
            command_id: self.command_id,
            desired_generation: self.desired_generation,
            fence_epoch: self.fence_epoch,
            device_sequence: self.device_sequence,
            observed_at: self.observed_at,
            rejection: match self.rejection {
                Some(rejection) => Some(restored_rejection(rejection)),
                None => None,
            },
        }
    }

    /// The acknowledgement as it is repeated for a redelivered command: a
    /// rejection stays what it was, an acceptance activates nothing again.
    pub open spec fn replayed(self) -> StoredAckView {
        if self.rejection is None {
            StoredAckView { activates_revision: None, settled_replay: true, ..self }
        } else {
            self
        }
    }
}

#[derive(Debug)]
pub struct StoredAck {
    pub command_id: String,
    pub event_cause: String,
    pub desired_generation: u64,
    pub fence_epoch: u64,
    pub device_sequence: u64,
    pub observed_at: i64,
    pub rejection: Option<StoredRejection>,
    pub activates_revision: Option<u64>,
    pub settled_replay: bool,
}

impl View for StoredAck {
    type V = StoredAckView;

    open spec fn view(&self) -> StoredAckView {
        StoredAckView {
            command_id: self.command_id@,
            event_cause: self.event_cause@,
            desired_generation: self.desired_generation,
            fence_epoch: self.fence_epoch,
            device_sequence: self.device_sequence,
            observed_at: self.observed_at,
            rejection: self.rejection,
            activates_revision: self.activates_revision,
            settled_replay: self.settled_replay,
        }
    }
}

impl Clone for StoredAck {
    fn clone(&self) -> (r: Self)
        ensures
            r == *self,
    {
        StoredAck {
            command_id: self.command_id.clone(),
            event_cause: self.event_cause.clone(),
            desired_generation: self.desired_generation,
            fence_epoch: self.fence_epoch,
            device_sequence: self.device_sequence,
            observed_at: self.observed_at,
            rejection: self.rejection,
            activates_revision: self.activates_revision,
            settled_replay: self.settled_replay,
        }
    }
}

impl StoredAck {
    pub fn semantic_valid(&self) -> (r: bool)
        ensures
            r == self@.semantic_valid(),
    {
        if self.command_id.as_str().is_empty() || self.event_cause.as_str().is_empty()
            || self.desired_generation == 0 || self.fence_epoch == 0 || self.device_sequence == 0
            || self.observed_at < 0 {
            return false;
        }
        match (self.rejection, self.activates_revision, self.settled_replay) {
            (Some(_), None, false) => true,
            (None, Some(revision), false) => revision > 0,
            (None, None, true) => true,
            _ => false,
        }
    }

    pub fn fact(&self) -> (r: AckFact)
        ensures
            r@ == self@.fact(),
    {
        AckFact {
            command_id: self.command_id.clone(),
            desired_generation: self.desired_generation,
            fence_epoch: self.fence_epoch,
            device_sequence: self.device_sequence,
            observed_at: self.observed_at,
            rejection: match self.rejection {
                Some(rejection) => Some(CommandRejection::from(rejection)),
                None => None,
            },
        }
    }
}

/// What a stored report says.
pub struct StoredReportView {
    pub command_id: Seq<char>,
    pub observed_generation: u64,
    pub fence_epoch: u64,
    pub device_sequence: u64,
    pub observed_at: i64,
    pub state_hash: Seq<char>,
    pub artifact_digest: Seq<char>,
    pub expires_at: Option<i64>,
    pub credential_generation: u64,
    pub credential_revision: u64,
}

impl StoredReportView {
    pub open spec fn semantic_valid(self) -> bool {
        &&& self.command_id.len() > 0
        &&& self.observed_generation > 0
        &&& self.fence_epoch > 0
        &&& self.device_sequence > 0
        &&& self.observed_at >= 0
        &&& self.expires_at matches Some(expires_at) && expires_at > 0
        &&& self.credential_generation > 0
        &&& self.credential_revision > 0
        &&& digest::is_digest_text(self.artifact_digest)
        &&& digest::is_digest_text(self.state_hash)
    }

    /// The fact that is published for it.
    pub open spec fn fact(self) -> ReportFactView {
        ReportFactView {
            observed_generation: self.observed_generation,
            fence_epoch: self.fence_epoch,
            device_sequence: self.device_sequence,
            observed_at: self.observed_at,
            state_hash: self.state_hash,
            artifact_digest: self.artifact_digest,
            expires_at: self.expires_at,
        }
    }
}

#[derive(Debug)]
pub struct StoredReport {
    pub command_id: String,
    pub observed_generation: u64,
    pub fence_epoch: u64,
    pub device_sequence: u64,
    pub observed_at: i64,
    pub state_hash: String,
    pub artifact_digest: String,
    pub expires_at: Option<i64>,
    pub credential_generation: u64,
    pub credential_revision: u64,
}

impl View for StoredReport {
    type V = StoredReportView;

    open spec fn view(&self) -> StoredReportView {
        StoredReportView {
            command_id: self.command_id@,
            observed_generation: self.observed_generation,
            fence_epoch: self.fence_epoch,
            device_sequence: self.device_sequence,
            observed_at: self.observed_at,
            state_hash: self.state_hash@,
            artifact_digest: self.artifact_digest@,
            expires_at: self.expires_at,
            credential_generation: self.credential_generation,
            credential_revision: self.credential_revision,
        }
    }
}

impl Clone for StoredReport {
    fn clone(&self) -> (r: Self)
        ensures
            r == *self,
    {
        StoredReport {
            command_id: self.command_id.clone(),
            observed_generation: self.observed_generation,
            fence_epoch: self.fence_epoch,
            device_sequence: self.device_sequence,
            observed_at: self.observed_at,
            state_hash: self.state_hash.clone(),
            artifact_digest: self.artifact_digest.clone(),
            expires_at: self.expires_at,
            credential_generation: self.credential_generation,
            credential_revision: self.credential_revision,
        }
    }
}

impl StoredReport {
    pub fn semantic_valid(&self) -> (r: bool)
        ensures
            r == self@.semantic_valid(),
    {
        let expiry_valid = match self.expires_at {
            Some(expires_at) => expires_at > 0,
            None => false,
        };
        expiry_valid && !self.command_id.as_str().is_empty() && self.observed_generation > 0
            && self.fence_epoch > 0 && self.device_sequence > 0 && self.observed_at >= 0
            && self.credential_generation > 0 && self.credential_revision > 0
            && digest::digest_shaped(self.artifact_digest.as_str()) && digest::digest_shaped(
            self.state_hash.as_str(),
        )
    }

    pub fn fact(&self) -> (r: ReportFact)
        ensures
            r@ == self@.fact(),
    {
        ReportFact {
            observed_generation: self.observed_generation,
            fence_epoch: self.fence_epoch,
            device_sequence: self.device_sequence,
            observed_at: self.observed_at,
            state_hash: self.state_hash.clone(),
            artifact_digest: self.artifact_digest.clone(),
            expires_at: self.expires_at,
        }
    }
}

/// What one entry of the command journal remembers.
pub struct StoredCommandView {
    pub command_id: Seq<char>,
    pub fingerprint: Seq<char>,
    pub acknowledgement: StoredAckView,
    pub retain_until_epoch_seconds: u64,
}

impl StoredCommandView {
    pub open spec fn semantic_valid(self) -> bool {
        &&& self.command_id == self.acknowledgement.command_id
        &&& self.command_id.len() > 0
        &&& digest::is_digest_text(self.fingerprint)
        &&& self.acknowledgement.semantic_valid()
        &&& self.retain_until_epoch_seconds > 0
    }
}

#[derive(Debug)]
pub struct StoredCommand {
    pub command_id: String,
    pub fingerprint: String,
    pub acknowledgement: StoredAck,
    pub retain_until_epoch_seconds: u64,
}

impl View for StoredCommand {
    type V = StoredCommandView;

    open spec fn view(&self) -> StoredCommandView {
        StoredCommandView {
            command_id: self.command_id@,
            fingerprint: self.fingerprint@,
            acknowledgement: self.acknowledgement@,
            retain_until_epoch_seconds: self.retain_until_epoch_seconds,
        }
    }
}

impl Clone for StoredCommand {
    fn clone(&self) -> (r: Self)
        ensures
            r == *self,
    {
        StoredCommand {
            command_id: self.command_id.clone(),
            fingerprint: self.fingerprint.clone(),
            acknowledgement: self.acknowledgement.clone(),
            retain_until_epoch_seconds: self.retain_until_epoch_seconds,
        }
    }
}

impl StoredCommand {
    pub fn semantic_valid(&self) -> (r: bool)
        ensures
            r == self@.semantic_valid(),
    {
        self.command_id == self.acknowledgement.command_id && !self.command_id.as_str().is_empty()
            && digest::digest_shaped(self.fingerprint.as_str())
            && self.acknowledgement.semantic_valid() && self.retain_until_epoch_seconds > 0
    }
}

/// What one entry of the outbox holds.
#[allow(inconsistent_fields)]
pub enum StoredOutboundView {
    Ack { event_id: Seq<char>, payload: StoredAckView },
    ReportBlocked { event_id: Seq<char>, payload: StoredReportView },
    ReportReady { event_id: Seq<char>, payload: StoredReportView },
}

impl StoredOutboundView {
    pub open spec fn event_id(self) -> Seq<char> {
        match self {
            StoredOutboundView::Ack { event_id, .. } => event_id,
            StoredOutboundView::ReportBlocked { event_id, .. } => event_id,
            StoredOutboundView::ReportReady { event_id, .. } => event_id,
        }
    }

    pub open spec fn sequence(self) -> u64 {
        match self {
            StoredOutboundView::Ack { payload, .. } => payload.device_sequence,
            StoredOutboundView::ReportBlocked { payload, .. } => payload.device_sequence,
            StoredOutboundView::ReportReady { payload, .. } => payload.device_sequence,
        }
    }

    pub open spec fn report(self) -> Option<StoredReportView> {
        match self {
            StoredOutboundView::Ack { .. } => None,
            StoredOutboundView::ReportBlocked { payload, .. } => Some(payload),
            StoredOutboundView::ReportReady { payload, .. } => Some(payload),
        }
    }

    pub open spec fn is_report(self) -> bool {
        self.report() is Some
    }

    /// The acknowledgement of an acceptance that has yet to be confirmed.
    pub open spec fn activates(self) -> Option<u64> {
        match self {
            StoredOutboundView::Ack { payload, .. } => payload.activates_revision,
            _ => None,
        }
    }

    /// The event identity is the one that the payload causes.
    pub open spec fn event_valid(self) -> bool {
        match self {
            StoredOutboundView::Ack { event_id, payload } => event_id == event_id_of(
                if payload.event_cause == payload.command_id {
                    "ack"@
                } else {
                    "rejected"@
                },
                payload.event_cause,
            ),
            StoredOutboundView::ReportBlocked { event_id, payload } => event_id == event_id_of(
                "report"@,
                payload.command_id,
            ),
            StoredOutboundView::ReportReady { event_id, payload } => event_id == event_id_of(
                "report"@,
                payload.command_id,
            ),
        }
    }

    pub open spec fn semantic_valid(self) -> bool {
        &&& self.event_valid()
        &&& match self {
            StoredOutboundView::Ack { payload, .. } => payload.semantic_valid(),
            StoredOutboundView::ReportBlocked { payload, .. } => payload.semantic_valid(),
            StoredOutboundView::ReportReady { payload, .. } => payload.semantic_valid(),
        }
    }

    /// The fact that may be published for the entry; a blocked report has none.
    pub open spec fn ready_fact(self) -> Option<OutboundFactView> {
        match self {
            StoredOutboundView::Ack { event_id, payload } => Some(
                OutboundFactView::CommandAcknowledged { event_id, payload: payload.fact() },
            ),
            StoredOutboundView::ReportReady { event_id, payload } => Some(
                OutboundFactView::CertificateReported { event_id, payload: payload.fact() },
            ),
            StoredOutboundView::ReportBlocked { .. } => None,
        }
    }

    /// The entry once the session under the new credential is up.
    pub open spec fn released(self) -> StoredOutboundView {
        match self {
            StoredOutboundView::ReportBlocked { event_id, payload } =>
                StoredOutboundView::ReportReady { event_id, payload },
            _ => self,
        }
    }
}

#[allow(inconsistent_fields)]
#[derive(Debug)]
pub enum StoredOutbound {
    Ack { event_id: String, payload: StoredAck },
    ReportBlocked { event_id: String, payload: StoredReport },
    ReportReady { event_id: String, payload: StoredReport },
}

impl View for StoredOutbound {
    type V = StoredOutboundView;

    open spec fn view(&self) -> StoredOutboundView {
        match self {
            StoredOutbound::Ack { event_id, payload } => StoredOutboundView::Ack {
                event_id: event_id@,
                payload: payload@,
            },
            StoredOutbound::ReportBlocked { event_id, payload } =>
                StoredOutboundView::ReportBlocked { event_id: event_id@, payload: payload@ },
            StoredOutbound::ReportReady { event_id, payload } => StoredOutboundView::ReportReady {
                event_id: event_id@,
                payload: payload@,
            },
        }
    }
}

impl Clone for StoredOutbound {
    fn clone(&self) -> (r: Self)
        ensures
            r == *self,
    {
        match self {
            StoredOutbound::Ack { event_id, payload } => StoredOutbound::Ack {
                event_id: event_id.clone(),
                payload: payload.clone(),
            },
            StoredOutbound::ReportBlocked { event_id, payload } => StoredOutbound::ReportBlocked {
                event_id: event_id.clone(),
                payload: payload.clone(),
            },
            StoredOutbound::ReportReady { event_id, payload } => StoredOutbound::ReportReady {
                event_id: event_id.clone(),
                payload: payload.clone(),
            },
        }
    }
}

impl StoredOutbound {
    pub fn event_id(&self) -> (r: &str)
        ensures
            r@ == self@.event_id(),
    {
        match self {
            StoredOutbound::Ack { event_id, .. } => event_id.as_str(),
            StoredOutbound::ReportBlocked { event_id, .. } => event_id.as_str(),
            StoredOutbound::ReportReady { event_id, .. } => event_id.as_str(),
        }
    }

    pub fn ready_fact(&self) -> (r: Option<OutboundFact>)
        ensures
            match self@.ready_fact() {
                Some(fact) => r is Some && r->0@ == fact,
                None => r is None,
            },
    {
        match self {
            StoredOutbound::Ack { event_id, payload } => Some(
                OutboundFact::CommandAcknowledged {
                    event_id: event_id.clone(),
                    payload: payload.fact(),
                },
            ),
            StoredOutbound::ReportReady { event_id, payload } => Some(
                OutboundFact::CertificateReported {
                    event_id: event_id.clone(),
                    payload: payload.fact(),
                },
            ),
            StoredOutbound::ReportBlocked { .. } => None,
        }
    }

    pub fn sequence(&self) -> (r: u64)
        ensures
            r == self@.sequence(),
    {
        match self {
            StoredOutbound::Ack { payload, .. } => payload.device_sequence,
            StoredOutbound::ReportBlocked { payload, .. } => payload.device_sequence,
            StoredOutbound::ReportReady { payload, .. } => payload.device_sequence,
        }
    }

    pub fn semantic_valid(&self) -> (r: bool)
        ensures
            r == self@.semantic_valid(),
    {
        match self {
            StoredOutbound::Ack { event_id: actual, payload } => {
                let kind = if payload.event_cause == payload.command_id {
                    "ack"
                } else {
                    "rejected"
                };
                *actual == event_id(kind, payload.event_cause.as_str()) && payload.semantic_valid()
            },
            StoredOutbound::ReportBlocked { event_id: actual, payload } => {
                *actual == event_id("report", payload.command_id.as_str())
                    && payload.semantic_valid()
            },
            StoredOutbound::ReportReady { event_id: actual, payload } => {
                *actual == event_id("report", payload.command_id.as_str())
                    && payload.semantic_valid()
            },
        }
    }

    pub fn report_payload(&self) -> (r: Option<&StoredReport>)
        ensures
            match self@.report() {
                Some(report) => r is Some && r->0@ == report,
                None => r is None,
            },
    {
        match self {
            StoredOutbound::Ack { .. } => None,
            StoredOutbound::ReportBlocked { payload, .. } => Some(payload),
            StoredOutbound::ReportReady { payload, .. } => Some(payload),
        }
    }
}

/// The inbound delivery whose settlement the report waits for.
pub struct SettlementView {
    pub topic: Seq<char>,
    pub command_id: Seq<char>,
    pub fingerprint: Seq<char>,
    pub credential_generation: u64,
    pub settlement_token: Seq<char>,
    pub settled: bool,
}

#[derive(Debug)]
pub struct StoredInboundSettlement {
    pub topic: String,
    pub command_id: String,
    pub fingerprint: String,
    pub credential_generation: u64,
    pub settlement_token: String,
    pub settled: bool,
}

impl View for StoredInboundSettlement {
    type V = SettlementView;

    open spec fn view(&self) -> SettlementView {
        SettlementView {
            topic: self.topic@,
            command_id: self.command_id@,
            fingerprint: self.fingerprint@,
            credential_generation: self.credential_generation,
            settlement_token: self.settlement_token@,
            settled: self.settled,
        }
    }
}

impl Clone for StoredInboundSettlement {
    fn clone(&self) -> (r: Self)
        ensures
            r == *self,
    {
        StoredInboundSettlement {
            topic: self.topic.clone(),
            command_id: self.command_id.clone(),
            fingerprint: self.fingerprint.clone(),
            credential_generation: self.credential_generation,
            settlement_token: self.settlement_token.clone(),
            settled: self.settled,
        }
    }
}

/// The credential that is installed.
pub struct CurrentView {
    pub desired_generation: u64,
    pub fence_epoch: u64,
    pub credential_revision: u64,
    pub artifact_digest: Seq<char>,
    pub expires_at: i64,
}

#[derive(Debug)]
pub struct StoredCurrent {
    pub desired_generation: u64,
    pub fence_epoch: u64,
    pub credential_revision: u64,
    pub artifact_digest: String,
    pub expires_at: i64,
}

impl View for StoredCurrent {
    type V = CurrentView;

    open spec fn view(&self) -> CurrentView {
        CurrentView {
            desired_generation: self.desired_generation,
            fence_epoch: self.fence_epoch,
            credential_revision: self.credential_revision,
            artifact_digest: self.artifact_digest@,
            expires_at: self.expires_at,
        }
    }
}

impl Clone for StoredCurrent {
    fn clone(&self) -> (r: Self)
        ensures
            r == *self,
    {
        StoredCurrent {
            desired_generation: self.desired_generation,
            fence_epoch: self.fence_epoch,
            credential_revision: self.credential_revision,
            artifact_digest: self.artifact_digest.clone(),
            expires_at: self.expires_at,
        }
    }
}

} // verus!
