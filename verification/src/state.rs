//! The durable state of one device: its installed credential, the journal of
//! commands it has answered, and the outbox of facts it still has to publish.

use crate::digest;
use crate::display;
use crate::identity::{
    CommandRejection, CredentialGeneration, DeviceIdentity, IdentityView, OutboundFact,
    Sha256Digest, TopicSet, Uuid,
};
use crate::ledger;
use crate::ledger::{
    CurrentView, SettlementView, StoredAck, StoredAckView, StoredCommand, StoredCommandView,
    StoredCurrent, StoredInboundSettlement, StoredOutbound, StoredOutboundView, StoredRejection,
    StoredReport, StoredReportView,
};
use crate::model::{CredentialRevision, InstalledCredentialPosition, PositionView};
use crate::soundness;
use crate::text;
use vstd::prelude::*;
use vstd::string::*;

verus! {

pub const OUTBOX_LIMIT: usize = 128;

pub const COMMAND_JOURNAL_LIMIT: usize = 1024;

#[derive(Clone, Copy, Debug, PartialEq, Eq, Structural)]
pub enum StoreError {
    Unavailable,
    InvalidState,
    OutboxFull,
    RevisionConflict,
    AlreadyOpen,
    CommandJournalFull,
}

impl StoreError {
    /// The text that describes the failure.
    pub open spec fn message(self) -> Seq<char> {
        match self {
            StoreError::Unavailable => "device state is unavailable"@,
            StoreError::InvalidState =>
                "device state is malformed, unsupported, or bound to another identity"@,
            StoreError::OutboxFull => "durable outbox is full"@,
            StoreError::RevisionConflict =>
                "credential revision already exists with different material"@,
            StoreError::AlreadyOpen => "device state is already owned by another process"@,
            StoreError::CommandJournalFull => "durable command journal is full"@,
        }
    }

    pub fn text(self) -> (r: &'static str)
        ensures
            r@ == self.message(),
    {
        match self {
            StoreError::Unavailable => "device state is unavailable",
            StoreError::InvalidState =>
                "device state is malformed, unsupported, or bound to another identity",
            StoreError::OutboxFull => "durable outbox is full",
            StoreError::RevisionConflict =>
                "credential revision already exists with different material",
            StoreError::AlreadyOpen => "device state is already owned by another process",
            StoreError::CommandJournalFull => "durable command journal is full",
        }
    }
}

impl core::fmt::Display for StoreError {
    fn fmt(&self, formatter: &mut core::fmt::Formatter<'_>) -> (r: Result<(), core::fmt::Error>)
        ensures
            r is Ok ==> display::wrote(*old(formatter), *final(formatter), self.message()),
    {
        formatter.write_str(self.text())
    }
}

impl std::error::Error for StoreError {

}

/// What an accepted command installs.
pub struct AcceptedView {
    pub command_id: Seq<char>,
    pub fingerprint: Seq<char>,
    pub generation: u64,
    pub fence: u64,
    pub credential_generation: u64,
    pub revision: u64,
    pub artifact_digest: Seq<char>,
    pub expires_at: i64,
    pub observed_at: i64,
    pub retain_until_epoch_seconds: u64,
}

pub struct AcceptedCommand {
    pub command_id: String,
    pub fingerprint: String,
    pub generation: u64,
    pub fence: u64,
    pub credential_generation: u64,
    pub revision: u64,
    pub artifact_digest: String,
    pub expires_at: i64,
    pub observed_at: i64,
    pub retain_until_epoch_seconds: u64,
}

impl View for AcceptedCommand {
    type V = AcceptedView;

    open spec fn view(&self) -> AcceptedView {
        AcceptedView {
            command_id: self.command_id@,
            fingerprint: self.fingerprint@,
            generation: self.generation,
            fence: self.fence,
            credential_generation: self.credential_generation,
            revision: self.revision,
            artifact_digest: self.artifact_digest@,
            expires_at: self.expires_at,
            observed_at: self.observed_at,
            retain_until_epoch_seconds: self.retain_until_epoch_seconds,
        }
    }
}

/// What a rejected command is answered with.
pub struct RejectedView {
    pub command_id: Seq<char>,
    pub fingerprint: Seq<char>,
    pub generation: u64,
    pub fence: u64,
    pub rejection: CommandRejection,
    pub observed_at: i64,
    pub retain_until_epoch_seconds: u64,
}

pub struct RejectedCommand {
    pub command_id: String,
    pub fingerprint: String,
    pub generation: u64,
    pub fence: u64,
    pub rejection: CommandRejection,
    pub observed_at: i64,
    pub retain_until_epoch_seconds: u64,
}

impl View for RejectedCommand {
    type V = RejectedView;

    open spec fn view(&self) -> RejectedView {
        RejectedView {
            command_id: self.command_id@,
            fingerprint: self.fingerprint@,
            generation: self.generation,
            fence: self.fence,
            rejection: self.rejection,
            observed_at: self.observed_at,
            retain_until_epoch_seconds: self.retain_until_epoch_seconds,
        }
    }
}

/// The next number of a counter that stays at its greatest value.
pub open spec fn saturating_next(n: u64) -> u64 {
    if n == u64::MAX {
        n
    } else {
        (n + 1) as u64
    }
}

pub struct StateView {
    pub schema_version: u8,
    pub identity: IdentityView,
    pub current: CurrentView,
    pub device_sequence: u64,
    pub journal: Seq<StoredCommandView>,
    pub outbox: Seq<StoredOutboundView>,
    pub reconnect_revision: Option<u64>,
    pub pending: Option<SettlementView>,
}

impl StateView {
    // ---- What makes a state meaningful ----

    pub open spec fn coordinates_valid(self, tenant: u128, device: u128) -> bool {
        &&& self.schema_version == 1
        &&& self.identity.tenant == tenant
        &&& self.identity.device == device
        &&& self.identity.credential_generation > 0
        &&& self.current.desired_generation > 0
        &&& self.current.fence_epoch > 0
        &&& self.current.credential_revision > 0
        &&& self.current.expires_at > 0
        &&& digest::is_digest_text(self.current.artifact_digest)
        &&& self.outbox.len() <= OUTBOX_LIMIT
        &&& self.journal.len() <= COMMAND_JOURNAL_LIMIT
    }

    /// A report speaks of the installed credential and carries its witness.
    pub open spec fn report_matches(self, report: StoredReportView) -> bool {
        &&& report.state_hash == ledger::state_hash_of(
            self.identity.tenant,
            self.identity.device,
            report.credential_generation,
            report.observed_generation,
            report.fence_epoch,
            report.credential_revision,
            report.artifact_digest,
        )
        &&& report.credential_revision == self.current.credential_revision
        &&& report.observed_generation == self.current.desired_generation
        &&& report.fence_epoch == self.current.fence_epoch
        &&& report.artifact_digest == self.current.artifact_digest
    }

    pub open spec fn entry_valid(self, entry: StoredOutboundView) -> bool {
        &&& 0 < entry.sequence() <= self.device_sequence
        &&& entry.semantic_valid()
        &&& entry.report() matches Some(report) ==> self.report_matches(report)
    }

    pub open spec fn outbox_valid(self) -> bool {
        &&& forall|i: int| 0 <= i < self.outbox.len() ==> self.entry_valid(#[trigger] self.outbox[i])
        &&& forall|i: int, j: int|
            0 <= i < j < self.outbox.len() ==> (#[trigger] self.outbox[i]).event_id() != (
            #[trigger] self.outbox[j]).event_id()
        &&& forall|i: int, j: int|
            0 <= i < j < self.outbox.len() ==> (#[trigger] self.outbox[i]).sequence() != (
            #[trigger] self.outbox[j]).sequence()
    }

    pub open spec fn journal_valid(self) -> bool {
        &&& forall|i: int|
            0 <= i < self.journal.len() ==> (#[trigger] self.journal[i]).semantic_valid()
        &&& forall|i: int, j: int|
            0 <= i < j < self.journal.len() ==> (#[trigger] self.journal[i]).command_id != (
            #[trigger] self.journal[j]).command_id
    }

    pub open spec fn in_journal(self, command_id: Seq<char>, fingerprint: Seq<char>) -> bool {
        exists|i: int|
            0 <= i < self.journal.len() && (#[trigger] self.journal[i]).command_id == command_id
                && self.journal[i].fingerprint == fingerprint
    }

    /// The awaited delivery is the journalled command, on the command topic
    /// of the credential it was delivered under.
    pub open spec fn pending_valid(self) -> bool {
        match self.pending {
            None => true,
            Some(pending) => {
                &&& pending.credential_generation > 0
                &&& self.identity.tenant != 0
                &&& self.identity.device != 0
                &&& pending.command_id.len() > 0
                &&& digest::is_digest_text(pending.fingerprint)
                &&& pending.topic == (IdentityView {
                    credential_generation: pending.credential_generation,
                    ..self.identity
                }).command_topic()
                &&& pending.settlement_token == ledger::settlement_token_of(
                    pending.topic,
                    pending.command_id,
                    pending.fingerprint,
                )
                &&& self.in_journal(pending.command_id, pending.fingerprint)
            },
        }
    }

    /// A rotation is in flight while its report has not been confirmed.
    pub open spec fn rotation_in_flight(self) -> bool {
        exists|i: int| 0 <= i < self.outbox.len() && (#[trigger] self.outbox[i]).is_report()
    }

    pub open spec fn single_report(self) -> bool {
        forall|i: int, j: int|
            0 <= i < j < self.outbox.len() ==> !((#[trigger] self.outbox[i]).is_report() && (
            #[trigger] self.outbox[j]).is_report())
    }

    pub open spec fn has_blocked_report(self, revision: u64, command_id: Seq<char>) -> bool {
        exists|j: int|
            0 <= j < self.outbox.len() && blocks(#[trigger] self.outbox[j], revision, command_id)
    }

    pub open spec fn has_activation(self, revision: u64, command_id: Seq<char>) -> bool {
        exists|j: int|
            0 <= j < self.outbox.len() && activates_for(
                #[trigger] self.outbox[j],
                revision,
                command_id,
            )
    }

    /// Where in a rotation the device stands: an unconfirmed acceptance
    /// keeps its report blocked, a confirmed one waits for the reconnect,
    /// and a ready report waits for nothing on the session side.
    pub open spec fn phase_valid_at(self, entry: StoredOutboundView) -> bool {
        match entry {
            StoredOutboundView::Ack { payload, .. } => {
                payload.activates_revision matches Some(revision) ==> {
                    &&& revision == self.current.credential_revision
                    &&& self.has_blocked_report(revision, payload.command_id)
                    &&& self.reconnect_revision is None
                }
            },
            StoredOutboundView::ReportBlocked { payload, .. } => {
                &&& self.has_activation(payload.credential_revision, payload.command_id) != (
                self.reconnect_revision is Some)
                &&& self.reconnect_revision matches Some(revision) ==> revision
                    == payload.credential_revision
            },
            StoredOutboundView::ReportReady { .. } => self.reconnect_revision is None,
        }
    }

    pub open spec fn phase_valid(self) -> bool {
        &&& self.single_report()
        &&& (self.pending is Some) == self.rotation_in_flight()
        &&& forall|i: int|
            0 <= i < self.outbox.len() ==> self.phase_valid_at(#[trigger] self.outbox[i])
        &&& self.reconnect_revision matches Some(revision) ==> self.rotation_in_flight() && revision
            == self.current.credential_revision
    }

    /// The state can be used by the given device.
    pub open spec fn valid_for(self, tenant: u128, device: u128) -> bool {
        &&& self.coordinates_valid(tenant, device)
        &&& self.outbox_valid()
        &&& self.journal_valid()
        &&& self.pending_valid()
        &&& self.phase_valid()
    }

    /// The identity that the state names can be authenticated.
    pub open spec fn identity_usable(self) -> bool {
        &&& self.identity.credential_generation > 0
        &&& self.identity.tenant != 0
        &&& self.identity.device != 0
    }

    pub open spec fn valid(self) -> bool {
        self.identity_usable() && self.valid_for(self.identity.tenant, self.identity.device)
    }

    // ---- What the operations do ----

    pub open spec fn initial(
        identity: IdentityView,
        position: PositionView,
        artifact_digest: Seq<char>,
        expires_at: i64,
    ) -> StateView {
        StateView {
            schema_version: 1,
            identity,
            current: CurrentView {
                desired_generation: position.desired_generation,
                fence_epoch: position.fence_epoch,
                credential_revision: position.credential_revision,
                artifact_digest,
                expires_at,
            },
            device_sequence: 0,
            journal: Seq::empty(),
            outbox: Seq::empty(),
            reconnect_revision: None,
            pending: None,
        }
    }

    pub open spec fn acceptance(self, command: AcceptedView) -> StoredAckView {
        StoredAckView {
            command_id: command.command_id,
            event_cause: command.command_id,
            desired_generation: command.generation,
            fence_epoch: command.fence,
            device_sequence: saturating_next(self.device_sequence),
            observed_at: command.observed_at,
            rejection: None,
            activates_revision: Some(command.revision),
            settled_replay: false,
        }
    }

    pub open spec fn acceptance_report(self, command: AcceptedView) -> StoredReportView {
        StoredReportView {
            command_id: command.command_id,
            observed_generation: command.generation,
            fence_epoch: command.fence,
            device_sequence: saturating_next(saturating_next(self.device_sequence)),
            observed_at: command.observed_at,
            state_hash: ledger::state_hash_of(
                self.identity.tenant,
                self.identity.device,
                command.credential_generation,
                command.generation,
                command.fence,
                command.revision,
                command.artifact_digest,
            ),
            artifact_digest: command.artifact_digest,
            expires_at: Some(command.expires_at),
            credential_generation: command.credential_generation,
            credential_revision: command.revision,
        }
    }

    /// Installs the credential, remembers the command, and queues its
    /// acknowledgement with the blocked report behind it.
    pub open spec fn accept(self, command: AcceptedView) -> StateView {
        let topic = self.identity.command_topic();
        StateView {
            identity: IdentityView {
                credential_generation: command.credential_generation,
                ..self.identity
            },
            current: CurrentView {
                desired_generation: command.generation,
                fence_epoch: command.fence,
                credential_revision: command.revision,
                artifact_digest: command.artifact_digest,
                expires_at: command.expires_at,
            },
            device_sequence: saturating_next(saturating_next(self.device_sequence)),
            journal: self.journal.push(
                StoredCommandView {
                    command_id: command.command_id,
                    fingerprint: command.fingerprint,
                    acknowledgement: self.acceptance(command),
                    retain_until_epoch_seconds: command.retain_until_epoch_seconds,
                },
            ),
            outbox: self.outbox.push(
                StoredOutboundView::Ack {
                    event_id: ledger::event_id_of("ack"@, command.command_id),
                    payload: self.acceptance(command),
                },
            ).push(
                StoredOutboundView::ReportBlocked {
                    event_id: ledger::event_id_of("report"@, command.command_id),
                    payload: self.acceptance_report(command),
                },
            ),
            pending: Some(
                SettlementView {
                    topic,
                    command_id: command.command_id,
                    fingerprint: command.fingerprint,
                    credential_generation: self.identity.credential_generation,
                    settlement_token: ledger::settlement_token_of(
                        topic,
                        command.command_id,
                        command.fingerprint,
                    ),
                    settled: false,
                },
            ),
            ..self
        }
    }

    pub open spec fn refusal(self, command: RejectedView) -> StoredAckView {
        StoredAckView {
            command_id: command.command_id,
            event_cause: command.command_id,
            desired_generation: command.generation,
            fence_epoch: command.fence,
            device_sequence: saturating_next(self.device_sequence),
            observed_at: command.observed_at,
            rejection: Some(ledger::stored_rejection(command.rejection)),
            activates_revision: None,
            settled_replay: false,
        }
    }

    /// Remembers the command and queues its rejection.
    pub open spec fn reject(self, command: RejectedView) -> StateView {
        StateView {
            device_sequence: saturating_next(self.device_sequence),
            journal: self.journal.push(
                StoredCommandView {
                    command_id: command.command_id,
                    fingerprint: command.fingerprint,
                    acknowledgement: self.refusal(command),
                    retain_until_epoch_seconds: command.retain_until_epoch_seconds,
                },
            ),
            outbox: self.outbox.push(
                StoredOutboundView::Ack {
                    event_id: ledger::event_id_of("ack"@, command.command_id),
                    payload: self.refusal(command),
                },
            ),
            ..self
        }
    }

    pub open spec fn conflict_event(command_id: Seq<char>, fingerprint: Seq<char>) -> Seq<char> {
        ledger::event_id_of("rejected"@, ledger::joined(command_id, fingerprint))
    }

    /// Queues the rejection of a known command identity with other content;
    /// the journal keeps the first content.
    pub open spec fn reject_conflicting_replay(
        self,
        command_id: Seq<char>,
        fingerprint: Seq<char>,
        generation: u64,
        fence: u64,
        observed_at: i64,
    ) -> StateView {
        StateView {
            device_sequence: saturating_next(self.device_sequence),
            outbox: self.outbox.push(
                StoredOutboundView::Ack {
                    event_id: Self::conflict_event(command_id, fingerprint),
                    payload: StoredAckView {
                        command_id,
                        event_cause: ledger::joined(command_id, fingerprint),
                        desired_generation: generation,
                        fence_epoch: fence,
                        device_sequence: saturating_next(self.device_sequence),
                        observed_at,
                        rejection: Some(StoredRejection::MalformedCommand),
                        activates_revision: None,
                        settled_replay: false,
                    },
                },
            ),
            ..self
        }
    }

    pub open spec fn has_event(self, event_id: Seq<char>) -> bool {
        exists|i: int|
            0 <= i < self.outbox.len() && (#[trigger] self.outbox[i]).event_id() == event_id
    }

    pub open spec fn has_command_ack(self, command_id: Seq<char>) -> bool {
        exists|i: int|
            0 <= i < self.outbox.len() && acknowledges(#[trigger] self.outbox[i], command_id)
    }

    /// The first journal entry with this identity and content.
    pub open spec fn is_journalled_at(
        self,
        i: int,
        command_id: Seq<char>,
        fingerprint: Seq<char>,
    ) -> bool {
        &&& 0 <= i < self.journal.len()
        &&& self.journal[i].command_id == command_id
        &&& self.journal[i].fingerprint == fingerprint
        &&& forall|j: int|
            0 <= j < i ==> !((#[trigger] self.journal[j]).command_id == command_id
                && self.journal[j].fingerprint == fingerprint)
    }

    /// Queues the remembered acknowledgement of entry `i` once more.
    pub open spec fn replay(self, i: int) -> StateView {
        StateView {
            outbox: self.outbox.push(
                StoredOutboundView::Ack {
                    event_id: ledger::event_id_of("ack"@, self.journal[i].command_id),
                    payload: self.journal[i].acknowledgement.replayed(),
                },
            ),
            ..self
        }
    }

    pub open spec fn settled(self) -> bool {
        self.pending matches Some(pending) && pending.settled
    }

    /// Entry `i` may be published: a blocked report never, a ready report
    /// only once its inbound delivery is settled.
    pub open spec fn offered(self, i: int) -> bool {
        &&& 0 <= i < self.outbox.len()
        &&& match self.outbox[i] {
            StoredOutboundView::Ack { .. } => true,
            StoredOutboundView::ReportBlocked { .. } => false,
            StoredOutboundView::ReportReady { .. } => self.settled(),
        }
    }

    pub open spec fn is_next(self, i: int) -> bool {
        self.offered(i) && forall|j: int| 0 <= j < i ==> !#[trigger] self.offered(j)
    }

    pub open spec fn first_event(self, i: int, event_id: Seq<char>) -> bool {
        &&& 0 <= i < self.outbox.len()
        &&& self.outbox[i].event_id() == event_id
        &&& forall|j: int| 0 <= j < i ==> (#[trigger] self.outbox[j]).event_id() != event_id
    }

    /// Entry `i` can be confirmed: a ready report not before settlement.
    pub open spec fn confirmable(self, i: int) -> bool {
        self.outbox[i] is ReportReady ==> self.settled()
    }

    pub open spec fn unlocks_reconnect(self, i: int) -> Option<u64> {
        match self.outbox[i].activates() {
            Some(revision) => if exists|j: int|
                0 <= j < self.outbox.remove(i).len() && blocks_revision(
                    #[trigger] self.outbox.remove(i)[j],
                    revision,
                ) {
                Some(revision)
            } else {
                None
            },
            None => None,
        }
    }

    /// Takes entry `i` out: a confirmed acceptance asks for the reconnect, a
    /// confirmed report ends the rotation.
    pub open spec fn confirm(self, i: int) -> StateView {
        StateView {
            outbox: self.outbox.remove(i),
            reconnect_revision: match self.unlocks_reconnect(i) {
                Some(revision) => Some(revision),
                None => self.reconnect_revision,
            },
            pending: if self.outbox[i] is ReportReady {
                None
            } else {
                self.pending
            },
            ..self
        }
    }

    /// The session under the new credential is up: its report is released.
    pub open spec fn reconnected(self) -> StateView {
        StateView {
            outbox: self.outbox.map_values(|entry: StoredOutboundView| entry.released()),
            reconnect_revision: None,
            ..self
        }
    }

    pub open spec fn settle(self) -> StateView {
        StateView {
            pending: match self.pending {
                Some(pending) => Some(SettlementView { settled: true, ..pending }),
                None => None,
            },
            ..self
        }
    }

    /// A journal entry outlives its deadline only while its own delivery is awaited.
    pub open spec fn retains(self, entry: StoredCommandView, now: u64) -> bool {
        entry.retain_until_epoch_seconds > now || (self.pending matches Some(pending)
            && pending.command_id == entry.command_id)
    }

    pub open spec fn expire(self, now: u64) -> StateView {
        StateView {
            journal: self.journal.filter(|entry: StoredCommandView| self.retains(entry, now)),
            ..self
        }
    }

    /// The live journal entry for a command identity.
    pub open spec fn is_live_at(self, i: int, command_id: Seq<char>, now: u64) -> bool {
        &&& 0 <= i < self.journal.len()
        &&& live(self.journal[i], command_id, now)
        &&& forall|j: int| 0 <= j < i ==> !live(#[trigger] self.journal[j], command_id, now)
    }

    pub open spec fn has_live(self, command_id: Seq<char>, now: u64) -> bool {
        exists|i: int|
            0 <= i < self.journal.len() && live(#[trigger] self.journal[i], command_id, now)
    }

    /// There is room for one more journal entry, if need be after expiry.
    pub open spec fn journal_has_capacity(self, now: u64) -> bool {
        self.journal.len() < COMMAND_JOURNAL_LIMIT || exists|i: int|
            0 <= i < self.journal.len() && !self.retains(#[trigger] self.journal[i], now)
    }
}

pub open spec fn live(entry: StoredCommandView, command_id: Seq<char>, now: u64) -> bool {
    entry.command_id == command_id && entry.retain_until_epoch_seconds > now
}

pub open spec fn blocks_revision(entry: StoredOutboundView, revision: u64) -> bool {
    entry matches StoredOutboundView::ReportBlocked { payload, .. } && payload.credential_revision
        == revision
}

pub open spec fn blocks(entry: StoredOutboundView, revision: u64, command_id: Seq<char>) -> bool {
    entry matches StoredOutboundView::ReportBlocked { payload, .. } && payload.credential_revision
        == revision && payload.command_id == command_id
}

pub open spec fn activates_for(
    entry: StoredOutboundView,
    revision: u64,
    command_id: Seq<char>,
) -> bool {
    entry matches StoredOutboundView::Ack { payload, .. } && payload.activates_revision == Some(
        revision,
    ) && payload.command_id == command_id
}

pub open spec fn acknowledges(entry: StoredOutboundView, command_id: Seq<char>) -> bool {
    entry matches StoredOutboundView::Ack { payload, .. } && payload.command_id == command_id
}

/// The identity as it is kept in durable state.
#[derive(Clone, Copy, Debug, PartialEq, Eq, Structural)]
pub struct StoredIdentity {
    pub tenant_id: Uuid,
    pub device_id: Uuid,
    pub credential_generation: u64,
}

impl View for StoredIdentity {
    type V = IdentityView;

    open spec fn view(&self) -> IdentityView {
        IdentityView {
            tenant: self.tenant_id@,
            device: self.device_id@,
            credential_generation: self.credential_generation,
        }
    }
}

impl StoredIdentity {
    pub fn from_identity(identity: &DeviceIdentity) -> (r: Self)
        ensures
            r@ == identity@,
    {
        StoredIdentity {
            tenant_id: identity.tenant(),
            device_id: identity.device(),
            credential_generation: identity.credential_generation().get(),
        }
    }
}

#[derive(Debug)]
pub struct StateV1 {
    pub schema_version: u8,
    pub identity: StoredIdentity,
    pub current: StoredCurrent,
    pub device_sequence: u64,
    pub command_journal: Vec<StoredCommand>,
    pub outbox: Vec<StoredOutbound>,
    pub reconnect_revision: Option<u64>,
    pub pending_inbound: Option<StoredInboundSettlement>,
}

pub open spec fn journal_view(journal: Seq<StoredCommand>) -> Seq<StoredCommandView> {
    journal.map_values(|command: StoredCommand| command@)
}

pub open spec fn outbox_view(outbox: Seq<StoredOutbound>) -> Seq<StoredOutboundView> {
    outbox.map_values(|entry: StoredOutbound| entry@)
}

pub open spec fn pending_view(pending: Option<StoredInboundSettlement>) -> Option<SettlementView> {
    match pending {
        Some(pending) => Some(pending@),
        None => None,
    }
}

impl View for StateV1 {
    type V = StateView;

    open spec fn view(&self) -> StateView {
        StateView {
            schema_version: self.schema_version,
            identity: self.identity@,
            current: self.current@,
            device_sequence: self.device_sequence,
            journal: journal_view(self.command_journal@),
            outbox: outbox_view(self.outbox@),
            reconnect_revision: self.reconnect_revision,
            pending: pending_view(self.pending_inbound),
        }
    }
}

impl Clone for StateV1 {
    fn clone(&self) -> (r: Self)
        ensures
            r@ == self@,
    {
        let command_journal = self.command_journal.clone();
        let outbox = self.outbox.clone();
        assert(command_journal@ =~= self.command_journal@);
        assert(outbox@ =~= self.outbox@);
        StateV1 {
            schema_version: self.schema_version,
            identity: self.identity,
            current: self.current.clone(),
            device_sequence: self.device_sequence,
            command_journal,
            outbox,
            reconnect_revision: self.reconnect_revision,
            pending_inbound: match &self.pending_inbound {
                Some(pending) => Some(pending.clone()),
                None => None,
            },
        }
    }
}

impl StateV1 {
    pub fn initial(
        identity: &DeviceIdentity,
        position: InstalledCredentialPosition,
        digest: &Sha256Digest,
        expires_at: i64,
    ) -> (r: Self)
        ensures
            r@ == StateView::initial(identity@, position@, digest@, expires_at),
    {
        let r = StateV1 {
            schema_version: 1,
            identity: StoredIdentity::from_identity(identity),
            current: StoredCurrent {
                desired_generation: position.desired_generation().get(),
                fence_epoch: position.fence_epoch().get(),
                credential_revision: position.credential_revision().get(),
                artifact_digest: digest.expose().to_owned(),
                expires_at,
            },
            device_sequence: 0,
            command_journal: Vec::new(),
            outbox: Vec::new(),
            reconnect_revision: None,
            pending_inbound: None,
        };
        assert(r@.journal =~= Seq::empty());
        assert(r@.outbox =~= Seq::empty());
        r
    }

    fn verify_coordinates(&self, identity: &DeviceIdentity) -> (r: bool)
        ensures
            r == self@.coordinates_valid(identity@.tenant, identity@.device),
    {
        self.schema_version == 1 && self.identity.tenant_id.same(identity.tenant())
            && self.identity.device_id.same(identity.device())
            && self.identity.credential_generation > 0 && self.current.desired_generation > 0
            && self.current.fence_epoch > 0 && self.current.credential_revision > 0
            && self.current.expires_at > 0 && digest::digest_shaped(
            self.current.artifact_digest.as_str(),
        ) && self.outbox.len() <= OUTBOX_LIMIT && self.command_journal.len()
            <= COMMAND_JOURNAL_LIMIT
    }

    fn verify_entry(&self, entry: &StoredOutbound) -> (r: bool)
        ensures
            r == self@.entry_valid(entry@),
    {
        let sequence: u64 = entry.sequence();
        if sequence == 0 || sequence > self.device_sequence || !entry.semantic_valid() {
            return false;
        }
        match entry.report_payload() {
            None => true,
            Some(report) => {
                let expected = ledger::state_hash(
                    self.identity.tenant_id,
                    self.identity.device_id,
                    report.credential_generation,
                    report.observed_generation,
                    report.fence_epoch,
                    report.credential_revision,
                    report.artifact_digest.as_str(),
                );
                report.state_hash == expected && report.credential_revision
                    == self.current.credential_revision && report.observed_generation
                    == self.current.desired_generation && report.fence_epoch
                    == self.current.fence_epoch && report.artifact_digest
                    == self.current.artifact_digest
            },
        }
    }

    fn verify_outbox(&self) -> (r: bool)
        ensures
            r == self@.outbox_valid(),
    {
        let ghost all = self@.outbox;
        let mut i: usize = 0;
        while i < self.outbox.len()
            invariant
                all == self@.outbox,
                i <= self.outbox@.len() == all.len(),
                forall|a: int| 0 <= a < i ==> self@.entry_valid(#[trigger] all[a]),
                forall|a: int, b: int|
                    0 <= a < b < i ==> (#[trigger] all[a]).event_id() != (
                    #[trigger] all[b]).event_id(),
                forall|a: int, b: int|
                    0 <= a < b < i ==> (#[trigger] all[a]).sequence() != (
                    #[trigger] all[b]).sequence(),
            decreases self.outbox@.len() - i,
        {
            assert(all[i as int] == self.outbox@[i as int]@);
            if !self.verify_entry(&self.outbox[i]) {
                return false;
            }
            let mut j: usize = 0;
            while j < i
                invariant
                    all == self@.outbox,
                    j <= i < self.outbox@.len() == all.len(),
                    forall|a: int|
                        0 <= a < j ==> (#[trigger] all[a]).event_id() != all[i as int].event_id()
                            && all[a].sequence() != all[i as int].sequence(),
                decreases i - j,
            {
                assert(all[i as int] == self.outbox@[i as int]@);
                assert(all[j as int] == self.outbox@[j as int]@);
                if text::same(self.outbox[j].event_id(), self.outbox[i].event_id())
                    || self.outbox[j].sequence() == self.outbox[i].sequence() {
                    return false;
                }
                j = j + 1;
            }
            i = i + 1;
        }
        true
    }

    fn verify_journal(&self) -> (r: bool)
        ensures
            r == self@.journal_valid(),
    {
        let ghost all = self@.journal;
        let mut i: usize = 0;
        while i < self.command_journal.len()
            invariant
                all == self@.journal,
                i <= self.command_journal@.len() == all.len(),
                forall|a: int| 0 <= a < i ==> (#[trigger] all[a]).semantic_valid(),
                forall|a: int, b: int|
                    0 <= a < b < i ==> (#[trigger] all[a]).command_id != (
                    #[trigger] all[b]).command_id,
            decreases self.command_journal@.len() - i,
        {
            assert(all[i as int] == self.command_journal@[i as int]@);
            if !self.command_journal[i].semantic_valid() {
                return false;
            }
            let mut j: usize = 0;
            while j < i
                invariant
                    all == self@.journal,
                    j <= i < self.command_journal@.len() == all.len(),
                    forall|a: int|
                        0 <= a < j ==> (#[trigger] all[a]).command_id != all[i as int].command_id,
                decreases i - j,
            {
                assert(all[i as int] == self.command_journal@[i as int]@);
                assert(all[j as int] == self.command_journal@[j as int]@);
                if self.command_journal[j].command_id == self.command_journal[i].command_id {
                    return false;
                }
                j = j + 1;
            }
            i = i + 1;
        }
        true
    }

    fn journal_holds(&self, command_id: &str, fingerprint: &str) -> (r: bool)
        ensures
            r == self@.in_journal(command_id@, fingerprint@),
    {
        let mut i: usize = 0;
        while i < self.command_journal.len()
            invariant
                i <= self.command_journal@.len() == self@.journal.len(),
                forall|a: int|
                    0 <= a < i ==> !((#[trigger] self@.journal[a]).command_id == command_id@
                        && self@.journal[a].fingerprint == fingerprint@),
            decreases self.command_journal@.len() - i,
        {
            assert(self@.journal[i as int] == self.command_journal@[i as int]@);
            if text::same(self.command_journal[i].command_id.as_str(), command_id) && text::same(
                self.command_journal[i].fingerprint.as_str(),
                fingerprint,
            ) {
                return true;
            }
            i = i + 1;
        }
        false
    }

    fn verify_pending(&self) -> (r: bool)
        ensures
            r == self@.pending_valid(),
    {
        match &self.pending_inbound {
            None => true,
            Some(pending) => {
                let generation = match CredentialGeneration::try_from(
                    pending.credential_generation,
                ) {
                    Ok(generation) => generation,
                    Err(_) => {
                        return false;
                    },
                };
                let identity = match DeviceIdentity::try_new(
                    self.identity.tenant_id,
                    self.identity.device_id,
                    generation,
                ) {
                    Ok(identity) => identity,
                    Err(_) => {
                        return false;
                    },
                };
                assert(identity@ == (IdentityView {
                    credential_generation: pending.credential_generation,
                    ..self@.identity
                }));
                let topics = TopicSet::new(&identity);
                !pending.command_id.as_str().is_empty() && digest::digest_shaped(
                    pending.fingerprint.as_str(),
                ) && topics.accepts_command(pending.topic.as_str()) && text::same(
                    pending.settlement_token.as_str(),
                    ledger::settlement_token(
                        pending.topic.as_str(),
                        pending.command_id.as_str(),
                        pending.fingerprint.as_str(),
                    ).as_str(),
                ) && self.journal_holds(pending.command_id.as_str(), pending.fingerprint.as_str())
            },
        }
    }

    fn verify_single_report(&self) -> (r: bool)
        ensures
            r == self@.single_report(),
    {
        let ghost all = self@.outbox;
        let mut found: Option<usize> = None;
        let mut i: usize = 0;
        while i < self.outbox.len()
            invariant
                all == self@.outbox,
                i <= self.outbox@.len() == all.len(),
                match found {
                    Some(k) => k < i && all[k as int].is_report() && forall|a: int|
                        0 <= a < i && a != k ==> !(#[trigger] all[a]).is_report(),
                    None => forall|a: int| 0 <= a < i ==> !(#[trigger] all[a]).is_report(),
                },
            decreases self.outbox@.len() - i,
        {
            assert(all[i as int] == self.outbox@[i as int]@);
            if self.outbox[i].report_payload().is_some() {
                if found.is_some() {
                    return false;
                }
                found = Some(i);
            }
            i = i + 1;
        }
        true
    }

    fn blocked_report_present(&self, revision: u64, command_id: &str) -> (r: bool)
        ensures
            r == self@.has_blocked_report(revision, command_id@),
    {
        let mut i: usize = 0;
        while i < self.outbox.len()
            invariant
                i <= self.outbox@.len() == self@.outbox.len(),
                forall|a: int|
                    0 <= a < i ==> !blocks(#[trigger] self@.outbox[a], revision, command_id@),
            decreases self.outbox@.len() - i,
        {
            assert(self@.outbox[i as int] == self.outbox@[i as int]@);
            match &self.outbox[i] {
                StoredOutbound::ReportBlocked { payload, .. } => {
                    if payload.credential_revision == revision && text::same(
                        payload.command_id.as_str(),
                        command_id,
                    ) {
                        return true;
                    }
                },
                _ => {},
            }
            i = i + 1;
        }
        false
    }

    fn activation_present(&self, revision: u64, command_id: &str) -> (r: bool)
        ensures
            r == self@.has_activation(revision, command_id@),
    {
        let mut i: usize = 0;
        while i < self.outbox.len()
            invariant
                i <= self.outbox@.len() == self@.outbox.len(),
                forall|a: int|
                    0 <= a < i ==> !activates_for(
                        #[trigger] self@.outbox[a],
                        revision,
                        command_id@,
                    ),
            decreases self.outbox@.len() - i,
        {
            assert(self@.outbox[i as int] == self.outbox@[i as int]@);
            match &self.outbox[i] {
                StoredOutbound::Ack { payload, .. } => {
                    let activates = match payload.activates_revision {
                        Some(other) => other == revision,
                        None => false,
                    };
                    if activates && text::same(payload.command_id.as_str(), command_id) {
                        return true;
                    }
                },
                _ => {},
            }
            i = i + 1;
        }
        false
    }

    fn verify_phase_at(&self, entry: &StoredOutbound) -> (r: bool)
        ensures
            r == self@.phase_valid_at(entry@),
    {
        match entry {
            StoredOutbound::Ack { payload, .. } => match payload.activates_revision {
                None => true,
                Some(revision) => revision == self.current.credential_revision
                    && self.blocked_report_present(revision, payload.command_id.as_str())
                    && self.reconnect_revision.is_none(),
            },
            StoredOutbound::ReportBlocked { payload, .. } => {
                let activation = self.activation_present(
                    payload.credential_revision,
                    payload.command_id.as_str(),
                );
                match self.reconnect_revision {
                    None => activation,
                    Some(revision) => !activation && revision == payload.credential_revision,
                }
            },
            StoredOutbound::ReportReady { .. } => self.reconnect_revision.is_none(),
        }
    }

    fn verify_phase(&self) -> (r: bool)
        ensures
            r == self@.phase_valid(),
    {
        if !self.verify_single_report() {
            return false;
        }
        let in_flight = self.rotation_in_flight();
        if self.pending_inbound.is_some() != in_flight {
            return false;
        }
        let mut i: usize = 0;
        while i < self.outbox.len()
            invariant
                i <= self.outbox@.len() == self@.outbox.len(),
                forall|a: int| 0 <= a < i ==> self@.phase_valid_at(#[trigger] self@.outbox[a]),
            decreases self.outbox@.len() - i,
        {
            assert(self@.outbox[i as int] == self.outbox@[i as int]@);
            if !self.verify_phase_at(&self.outbox[i]) {
                return false;
            }
            i = i + 1;
        }
        match self.reconnect_revision {
            None => true,
            Some(revision) => in_flight && revision == self.current.credential_revision,
        }
    }

    /// Accepts the state for the given device or refuses it as a whole.
    pub fn verify(&self, identity: &DeviceIdentity) -> (r: Result<(), StoreError>)
        ensures
            r is Ok == self@.valid_for(identity@.tenant, identity@.device),
            r is Err ==> r == Err::<(), StoreError>(StoreError::InvalidState),
    {
        if self.verify_coordinates(identity) && self.verify_outbox() && self.verify_journal()
            && self.verify_pending() && self.verify_phase() {
            Ok(())
        } else {
            Err(StoreError::InvalidState)
        }
    }

    pub fn validate(&self) -> (r: Result<(), StoreError>)
        ensures
            r is Ok == self@.valid(),
            r is Err ==> r == Err::<(), StoreError>(StoreError::InvalidState),
    {
        match self.current_identity() {
            Ok(identity) => self.verify(&identity),
            Err(error) => Err(error),
        }
    }

    pub fn current_generation(&self) -> (r: u64)
        ensures
            r == self@.current.desired_generation,
    {
        self.current.desired_generation
    }

    pub fn current_fence(&self) -> (r: u64)
        ensures
            r == self@.current.fence_epoch,
    {
        self.current.fence_epoch
    }

    pub fn current_revision(&self) -> (r: u64)
        ensures
            r == self@.current.credential_revision,
    {
        self.current.credential_revision
    }

    pub fn current_artifact_digest(&self) -> (r: &str)
        ensures
            r@ == self@.current.artifact_digest,
    {
        self.current.artifact_digest.as_str()
    }

    pub fn current_credential_generation(&self) -> (r: u64)
        ensures
            r == self@.identity.credential_generation,
    {
        self.identity.credential_generation
    }

    pub fn current_identity(&self) -> (r: Result<DeviceIdentity, StoreError>)
        ensures
            self@.identity_usable() ==> r is Ok && r->Ok_0@ == self@.identity,
            !self@.identity_usable() ==> r == Err::<DeviceIdentity, StoreError>(
                StoreError::InvalidState,
            ),
    {
        match CredentialGeneration::try_from(self.identity.credential_generation) {
            Err(_) => Err(StoreError::InvalidState),
            Ok(generation) => match DeviceIdentity::try_new(
                self.identity.tenant_id,
                self.identity.device_id,
                generation,
            ) {
                Ok(identity) => Ok(identity),
                Err(_) => Err(StoreError::InvalidState),
            },
        }
    }

    pub fn reconnect_revision(&self) -> (r: Option<u64>)
        ensures
            r == self@.reconnect_revision,
    {
        self.reconnect_revision
    }

    pub fn rotation_in_flight(&self) -> (r: bool)
        ensures
            r == self@.rotation_in_flight(),
    {
        let mut i: usize = 0;
        while i < self.outbox.len()
            invariant
                i <= self.outbox@.len() == self@.outbox.len(),
                forall|a: int| 0 <= a < i ==> !(#[trigger] self@.outbox[a]).is_report(),
            decreases self.outbox@.len() - i,
        {
            assert(self@.outbox[i as int] == self.outbox@[i as int]@);
            if self.outbox[i].report_payload().is_some() {
                return true;
            }
            i = i + 1;
        }
        false
    }

    /// The awaited inbound delivery: its topic, command identity, credential
    /// generation and settlement token, and whether it is settled.
    pub fn pending_inbound(&self) -> (r: Option<(&str, &str, u64, &str, bool)>)
        ensures
            match self@.pending {
                Some(pending) => {
                    &&& r matches Some((topic, command_id, generation, token, settled))
                    &&& topic@ == pending.topic
                    &&& command_id@ == pending.command_id
                    &&& generation == pending.credential_generation
                    &&& token@ == pending.settlement_token
                    &&& settled == pending.settled
                },
                None => r is None,
            },
    {
        match &self.pending_inbound {
            Some(pending) => Some(
                (
                    pending.topic.as_str(),
                    pending.command_id.as_str(),
                    pending.credential_generation,
                    pending.settlement_token.as_str(),
                    pending.settled,
                ),
            ),
            None => None,
        }
    }

    pub fn pending_settlement_token(&self, command_id: &str, fingerprint: &str) -> (r: Option<&str>)
        ensures
            match self@.pending {
                Some(pending) => if pending.command_id == command_id@ && pending.fingerprint
                    == fingerprint@ {
                    r is Some && r->0@ == pending.settlement_token
                } else {
                    r is None
                },
                None => r is None,
            },
    {
        match &self.pending_inbound {
            Some(pending) => if text::same(pending.command_id.as_str(), command_id) && text::same(
                pending.fingerprint.as_str(),
                fingerprint,
            ) {
                Some(pending.settlement_token.as_str())
            } else {
                None
            },
            None => None,
        }
    }

    /// Whether a command identity is known, and if so whether with this content.
    pub fn command_match(&self, command_id: &str, fingerprint: &str, now_epoch_seconds: u64) -> (r:
        Option<bool>)
        ensures
            match r {
                None => !self@.has_live(command_id@, now_epoch_seconds),
                Some(matching) => exists|i: int|
                    #[trigger] self@.is_live_at(i, command_id@, now_epoch_seconds) && matching == (
                    self@.journal[i].fingerprint == fingerprint@),
            },
    {
        let mut i: usize = 0;
        while i < self.command_journal.len()
            invariant
                i <= self.command_journal@.len() == self@.journal.len(),
                forall|a: int|
                    0 <= a < i ==> !live(
                        #[trigger] self@.journal[a],
                        command_id@,
                        now_epoch_seconds,
                    ),
            decreases self.command_journal@.len() - i,
        {
            assert(self@.journal[i as int] == self.command_journal@[i as int]@);
            if self.command_journal[i].retain_until_epoch_seconds > now_epoch_seconds && text::same(
                self.command_journal[i].command_id.as_str(),
                command_id,
            ) {
                assert(self@.is_live_at(i as int, command_id@, now_epoch_seconds));
                return Some(text::same(self.command_journal[i].fingerprint.as_str(), fingerprint));
            }
            i = i + 1;
        }
        None
    }

    fn retains(&self, entry: &StoredCommand, now_epoch_seconds: u64) -> (r: bool)
        ensures
            r == self@.retains(entry@, now_epoch_seconds),
    {
        if entry.retain_until_epoch_seconds > now_epoch_seconds {
            return true;
        }
        match &self.pending_inbound {
            Some(pending) => pending.command_id == entry.command_id,
            None => false,
        }
    }

    pub fn expire_command_journal(&mut self, now_epoch_seconds: u64)
        ensures
            final(self)@ == old(self)@.expire(now_epoch_seconds),
    {
        let ghost before = *self;
        let ghost keep = |entry: StoredCommandView| before@.retains(entry, now_epoch_seconds);
        let mut kept: Vec<StoredCommand> = Vec::new();
        let mut i: usize = 0;
        while i < self.command_journal.len()
            invariant
                *self == before,
                keep == (|entry: StoredCommandView| before@.retains(entry, now_epoch_seconds)),
                i <= self.command_journal@.len() == before@.journal.len(),
                journal_view(kept@) == before@.journal.take(i as int).filter(keep),
            decreases self.command_journal@.len() - i,
        {
            assert(before@.journal[i as int] == self.command_journal@[i as int]@);
            proof {
                assert(before@.journal.take(i + 1).drop_last() =~= before@.journal.take(i as int));
                reveal(Seq::filter);
            }
            let ghost had = kept@;
            if self.retains(&self.command_journal[i], now_epoch_seconds) {
                kept.push(self.command_journal[i].clone());
                assert(journal_view(kept@) =~= journal_view(had).push(before@.journal[i as int]));
            }
            i = i + 1;
        }
        assert(before@.journal.take(i as int) =~= before@.journal);
        self.command_journal = kept;
    }

    pub fn reserve_command_journal(&self) -> (r: Result<(), StoreError>)
        ensures
            self@.journal.len() < COMMAND_JOURNAL_LIMIT ==> r is Ok,
            self@.journal.len() >= COMMAND_JOURNAL_LIMIT ==> r == Err::<(), StoreError>(
                StoreError::CommandJournalFull,
            ),
    {
        if self.command_journal.len() < COMMAND_JOURNAL_LIMIT {
            Ok(())
        } else {
            Err(StoreError::CommandJournalFull)
        }
    }

    pub fn command_journal_has_capacity(&self, now_epoch_seconds: u64) -> (r: bool)
        ensures
            r == self@.journal_has_capacity(now_epoch_seconds),
    {
        if self.command_journal.len() < COMMAND_JOURNAL_LIMIT {
            return true;
        }
        let mut i: usize = 0;
        while i < self.command_journal.len()
            invariant
                i <= self.command_journal@.len() == self@.journal.len(),
                forall|a: int|
                    0 <= a < i ==> self@.retains(#[trigger] self@.journal[a], now_epoch_seconds),
            decreases self.command_journal@.len() - i,
        {
            assert(self@.journal[i as int] == self.command_journal@[i as int]@);
            if !self.retains(&self.command_journal[i], now_epoch_seconds) {
                return true;
            }
            i = i + 1;
        }
        false
    }

    pub fn reserve_outbox(&self, count: usize) -> (r: Result<(), StoreError>)
        ensures
            self@.outbox.len() + count <= OUTBOX_LIMIT ==> r is Ok,
            self@.outbox.len() + count > OUTBOX_LIMIT ==> r == Err::<(), StoreError>(
                StoreError::OutboxFull,
            ),
    {
        if count <= OUTBOX_LIMIT && self.outbox.len() <= OUTBOX_LIMIT - count {
            Ok(())
        } else {
            Err(StoreError::OutboxFull)
        }
    }

    fn next_sequence(&mut self) -> (r: u64)
        ensures
            r == saturating_next(old(self).device_sequence),
            *final(self) == (StateV1 { device_sequence: r, ..*old(self) }),
    {
        if self.device_sequence < u64::MAX {
            self.device_sequence = self.device_sequence + 1;
        }
        self.device_sequence
    }

    fn remember(
        &mut self,
        command_id: &str,
        fingerprint: &str,
        acknowledgement: &StoredAck,
        retain_until_epoch_seconds: u64,
    )
        ensures
            final(self)@ == (StateView {
                journal: old(self)@.journal.push(
                    StoredCommandView {
                        command_id: command_id@,
                        fingerprint: fingerprint@,
                        acknowledgement: acknowledgement@,
                        retain_until_epoch_seconds,
                    },
                ),
                ..old(self)@
            }),
    {
        let ghost before = self.command_journal@;
        self.command_journal.push(
            StoredCommand {
                command_id: command_id.to_owned(),
                fingerprint: fingerprint.to_owned(),
                acknowledgement: acknowledgement.clone(),
                retain_until_epoch_seconds,
            },
        );
        assert(journal_view(self.command_journal@) =~= journal_view(before).push(
            self.command_journal@.last()@,
        ));
    }

    fn enqueue(&mut self, entry: StoredOutbound)
        ensures
            final(self)@ == (StateView {
                outbox: old(self)@.outbox.push(entry@),
                ..old(self)@
            }),
    {
        let ghost before = self.outbox@;
        self.outbox.push(entry);
        assert(outbox_view(self.outbox@) =~= outbox_view(before).push(entry@));
    }

    /// Commits an accepted command to the in-memory state; a state whose
    /// identity is unusable is left as it was.
    pub fn accept(&mut self, command: AcceptedCommand) -> (r: Result<(), StoreError>)
        ensures
            old(self)@.identity_usable() ==> r is Ok && final(self)@ == old(self)@.accept(command@),
            !old(self)@.identity_usable() ==> r == Err::<(), StoreError>(StoreError::InvalidState)
                && final(self)@ == old(self)@,
            old(self)@.sound() && old(self)@.acceptable(command@) ==> final(self)@.sound(),
    {
        let previous = match self.current_identity() {
            Ok(identity) => identity,
            Err(error) => {
                return Err(error);
            },
        };
        let ghost before = self@;
        let ack_sequence: u64 = self.next_sequence();
        let report_sequence: u64 = self.next_sequence();
        let state_hash = ledger::state_hash(
            self.identity.tenant_id,
            self.identity.device_id,
            command.credential_generation,
            command.generation,
            command.fence,
            command.revision,
            command.artifact_digest.as_str(),
        );
        self.identity.credential_generation = command.credential_generation;
        self.current = StoredCurrent {
            desired_generation: command.generation,
            fence_epoch: command.fence,
            credential_revision: command.revision,
            artifact_digest: command.artifact_digest.clone(),
            expires_at: command.expires_at,
        };
        let acknowledgement = StoredAck {
            command_id: command.command_id.clone(),
            event_cause: command.command_id.clone(),
            desired_generation: command.generation,
            fence_epoch: command.fence,
            device_sequence: ack_sequence,
            observed_at: command.observed_at,
            rejection: None,
            activates_revision: Some(command.revision),
            settled_replay: false,
        };
        assert(acknowledgement@ == before.acceptance(command@));
        self.remember(
            command.command_id.as_str(),
            command.fingerprint.as_str(),
            &acknowledgement,
            command.retain_until_epoch_seconds,
        );
        let topics = TopicSet::new(&previous);
        let topic = topics.command().to_owned();
        self.pending_inbound = Some(
            StoredInboundSettlement {
                settlement_token: ledger::settlement_token(
                    topic.as_str(),
                    command.command_id.as_str(),
                    command.fingerprint.as_str(),
                ),
                topic,
                command_id: command.command_id.clone(),
                fingerprint: command.fingerprint.clone(),
                credential_generation: previous.credential_generation().get(),
                settled: false,
            },
        );
        self.enqueue(
            StoredOutbound::Ack {
                event_id: ledger::event_id("ack", command.command_id.as_str()),
                payload: acknowledgement,
            },
        );
        self.enqueue(
            StoredOutbound::ReportBlocked {
                event_id: ledger::event_id("report", command.command_id.as_str()),
                payload: StoredReport {
                    command_id: command.command_id,
                    observed_generation: command.generation,
                    fence_epoch: command.fence,
                    device_sequence: report_sequence,
                    observed_at: command.observed_at,
                    state_hash,
                    artifact_digest: command.artifact_digest,
                    expires_at: Some(command.expires_at),
                    credential_generation: command.credential_generation,
                    credential_revision: command.revision,
                },
            },
        );
        assert(self@ == before.accept(command@));
        proof {
            if before.sound() && before.acceptable(command@) {
                soundness::lemma_accept_sound(before, command@);
            }
        }
        Ok(())
    }

    pub fn reject(&mut self, command: RejectedCommand)
        ensures
            final(self)@ == old(self)@.reject(command@),
    {
        let ghost before = self@;
        let sequence: u64 = self.next_sequence();
        let acknowledgement = StoredAck {
            command_id: command.command_id.clone(),
            event_cause: command.command_id.clone(),
            desired_generation: command.generation,
            fence_epoch: command.fence,
            device_sequence: sequence,
            observed_at: command.observed_at,
            rejection: Some(StoredRejection::from(command.rejection)),
            activates_revision: None,
            settled_replay: false,
        };
        assert(acknowledgement@ == before.refusal(command@));
        self.remember(
            command.command_id.as_str(),
            command.fingerprint.as_str(),
            &acknowledgement,
            command.retain_until_epoch_seconds,
        );
        self.enqueue(
            StoredOutbound::Ack {
                event_id: ledger::event_id("ack", command.command_id.as_str()),
                payload: acknowledgement,
            },
        );
        assert(self@ == before.reject(command@));
    }

    pub fn reject_conflicting_replay(
        &mut self,
        command_id: String,
        fingerprint: &str,
        generation: u64,
        fence: u64,
        observed_at: i64,
    )
        ensures
            final(self)@ == old(self)@.reject_conflicting_replay(
                command_id@,
                fingerprint@,
                generation,
                fence,
                observed_at,
            ),
    {
        let sequence: u64 = self.next_sequence();
        let source = ledger::join(command_id.as_str(), fingerprint);
        self.enqueue(
            StoredOutbound::Ack {
                event_id: ledger::event_id("rejected", source.as_str()),
                payload: StoredAck {
                    command_id,
                    event_cause: source,
                    desired_generation: generation,
                    fence_epoch: fence,
                    device_sequence: sequence,
                    observed_at,
                    rejection: Some(StoredRejection::MalformedCommand),
                    activates_revision: None,
                    settled_replay: false,
                },
            },
        );
    }

    /// The first outbox entry under an event identity.
    fn position_of(&self, event_id: &str) -> (r: Option<usize>)
        ensures
            match r {
                Some(i) => self@.first_event(i as int, event_id@),
                None => !self@.has_event(event_id@),
            },
    {
        let mut i: usize = 0;
        while i < self.outbox.len()
            invariant
                i <= self.outbox@.len() == self@.outbox.len(),
                forall|a: int| 0 <= a < i ==> (#[trigger] self@.outbox[a]).event_id() != event_id@,
            decreases self.outbox@.len() - i,
        {
            assert(self@.outbox[i as int] == self.outbox@[i as int]@);
            if text::same(self.outbox[i].event_id(), event_id) {
                return Some(i);
            }
            i = i + 1;
        }
        None
    }

    pub fn has_conflicting_replay(&self, command_id: &str, fingerprint: &str) -> (r: bool)
        ensures
            r == self@.has_event(StateView::conflict_event(command_id@, fingerprint@)),
    {
        let source = ledger::join(command_id, fingerprint);
        let expected = ledger::event_id("rejected", source.as_str());
        self.position_of(expected.as_str()).is_some()
    }

    pub fn has_command_ack(&self, command_id: &str) -> (r: bool)
        ensures
            r == self@.has_command_ack(command_id@),
    {
        let mut i: usize = 0;
        while i < self.outbox.len()
            invariant
                i <= self.outbox@.len() == self@.outbox.len(),
                forall|a: int| 0 <= a < i ==> !acknowledges(#[trigger] self@.outbox[a], command_id@),
            decreases self.outbox@.len() - i,
        {
            assert(self@.outbox[i as int] == self.outbox@[i as int]@);
            match &self.outbox[i] {
                StoredOutbound::Ack { payload, .. } => {
                    if text::same(payload.command_id.as_str(), command_id) {
                        return true;
                    }
                },
                _ => {},
            }
            i = i + 1;
        }
        false
    }

    /// Queues the remembered acknowledgement of a redelivered command.
    pub fn replay_command(&mut self, command_id: &str, fingerprint: &str) -> (r: Result<
        (),
        StoreError,
    >)
        ensures
            match r {
                Ok(()) => exists|i: int|
                    #[trigger] old(self)@.is_journalled_at(i, command_id@, fingerprint@)
                        && final(self)@ == old(self)@.replay(i),
                Err(error) => {
                    &&& error == StoreError::InvalidState
                    &&& !old(self)@.in_journal(command_id@, fingerprint@)
                    &&& final(self)@ == old(self)@
                },
            },
    {
        let ghost before = self@;
        let mut i: usize = 0;
        while i < self.command_journal.len()
            invariant
                self@ == before,
                before == old(self)@,
                i <= self.command_journal@.len() == self@.journal.len(),
                forall|a: int|
                    0 <= a < i ==> !((#[trigger] self@.journal[a]).command_id == command_id@
                        && self@.journal[a].fingerprint == fingerprint@),
            decreases self.command_journal@.len() - i,
        {
            assert(self@.journal[i as int] == self.command_journal@[i as int]@);
            if text::same(self.command_journal[i].command_id.as_str(), command_id) && text::same(
                self.command_journal[i].fingerprint.as_str(),
                fingerprint,
            ) {
                let mut acknowledgement = self.command_journal[i].acknowledgement.clone();
                if acknowledgement.rejection.is_none() {
                    acknowledgement.activates_revision = None;
                    acknowledgement.settled_replay = true;
                }
                assert(acknowledgement@ == before.journal[i as int].acknowledgement.replayed());
                let event_id = ledger::event_id(
                    "ack",
                    self.command_journal[i].command_id.as_str(),
                );
                self.enqueue(StoredOutbound::Ack { event_id, payload: acknowledgement });
                assert(before.is_journalled_at(i as int, command_id@, fingerprint@));
                assert(self@ == before.replay(i as int));
                return Ok(());
            }
            i = i + 1;
        }
        Err(StoreError::InvalidState)
    }

    fn inbound_settled(&self) -> (r: bool)
        ensures
            r == self@.settled(),
    {
        match &self.pending_inbound {
            Some(pending) => pending.settled,
            None => false,
        }
    }

    /// The first entry that may be published.
    pub fn next_outbound(&self) -> (r: Option<OutboundFact>)
        ensures
            match r {
                Some(fact) => exists|i: int|
                    #[trigger] self@.is_next(i) && self@.outbox[i].ready_fact() == Some(fact@),
                None => forall|i: int| !#[trigger] self@.offered(i),
            },
    {
        let settled = self.inbound_settled();
        let mut i: usize = 0;
        while i < self.outbox.len()
            invariant
                settled == self@.settled(),
                i <= self.outbox@.len() == self@.outbox.len(),
                forall|a: int| 0 <= a < i ==> !#[trigger] self@.offered(a),
            decreases self.outbox@.len() - i,
        {
            assert(self@.outbox[i as int] == self.outbox@[i as int]@);
            let held = match &self.outbox[i] {
                StoredOutbound::ReportReady { .. } => !settled,
                _ => false,
            };
            if !held {
                let fact = self.outbox[i].ready_fact();
                if fact.is_some() {
                    assert(self@.is_next(i as int));
                    return fact;
                }
            }
            i = i + 1;
        }
        None
    }

    fn revision_blocked(&self, revision: u64) -> (r: bool)
        ensures
            r == exists|j: int|
                0 <= j < self@.outbox.len() && blocks_revision(
                    #[trigger] self@.outbox[j],
                    revision,
                ),
    {
        let mut i: usize = 0;
        while i < self.outbox.len()
            invariant
                i <= self.outbox@.len() == self@.outbox.len(),
                forall|a: int| 0 <= a < i ==> !blocks_revision(#[trigger] self@.outbox[a], revision),
            decreases self.outbox@.len() - i,
        {
            assert(self@.outbox[i as int] == self.outbox@[i as int]@);
            match &self.outbox[i] {
                StoredOutbound::ReportBlocked { payload, .. } => {
                    if payload.credential_revision == revision {
                        return true;
                    }
                },
                _ => {},
            }
            i = i + 1;
        }
        false
    }

    /// Takes the confirmed entry out of the outbox and moves the rotation on.
    pub fn confirm_outbound(&mut self, event_id: &str) -> (r: bool)
        ensures
            r ==> exists|i: int|
                #[trigger] old(self)@.first_event(i, event_id@) && old(self)@.confirmable(i)
                    && final(self)@ == old(self)@.confirm(i),
            !r ==> final(self)@ == old(self)@ && (!old(self)@.has_event(event_id@) || exists|i: int|
                #[trigger] old(self)@.first_event(i, event_id@) && !old(self)@.confirmable(i)),
    {
        let ghost before = self@;
        let index: usize = match self.position_of(event_id) {
            Some(index) => index,
            None => {
                return false;
            },
        };
        assert(before.first_event(index as int, event_id@));
        assert(before.outbox[index as int] == self.outbox@[index as int]@);
        let ready = match &self.outbox[index] {
            StoredOutbound::ReportReady { .. } => true,
            _ => false,
        };
        if ready && !self.inbound_settled() {
            return false;
        }
        let confirmed = self.outbox.remove(index);
        assert(self@.outbox =~= before.outbox.remove(index as int));
        match &confirmed {
            StoredOutbound::Ack { payload, .. } => {
                match payload.activates_revision {
                    Some(revision) => {
                        if self.revision_blocked(revision) {
                            self.reconnect_revision = Some(revision);
                        }
                    },
                    None => {},
                }
            },
            _ => {},
        }
        if ready {
            self.pending_inbound = None;
        }
        assert(self@ == before.confirm(index as int));
        true
    }

    /// Releases the blocked report once the session under `revision` is up.
    pub fn mark_reconnected(&mut self, revision: u64) -> (r: bool)
        ensures
            r == (old(self)@.reconnect_revision == Some(revision)),
            r ==> final(self)@ == old(self)@.reconnected(),
            !r ==> final(self)@ == old(self)@,
    {
        let expected = match self.reconnect_revision {
            Some(awaited) => awaited == revision,
            None => false,
        };
        if !expected {
            return false;
        }
        let ghost before = self@;
        let mut i: usize = 0;
        while i < self.outbox.len()
            invariant
                i <= self.outbox@.len() == before.outbox.len(),
                self@ == (StateView { outbox: self@.outbox, ..before }),
                forall|a: int| 0 <= a < i ==> #[trigger] self@.outbox[a] == before.outbox[a].released(),
                forall|a: int|
                    i <= a < before.outbox.len() ==> #[trigger] self@.outbox[a] == before.outbox[a],
            decreases self.outbox@.len() - i,
        {
            let ghost start = self.outbox@;
            assert(self@.outbox[i as int] == self.outbox@[i as int]@);
            let entry = match &self.outbox[i] {
                StoredOutbound::ReportBlocked { event_id, payload } => StoredOutbound::ReportReady {
                    event_id: event_id.clone(),
                    payload: payload.clone(),
                },
                other => other.clone(),
            };
            assert(entry@ == before.outbox[i as int].released());
            self.outbox.set(i, entry);
            assert(outbox_view(self.outbox@) =~= outbox_view(start).update(i as int, entry@));
            i = i + 1;
        }
        self.reconnect_revision = None;
        assert(self@.outbox =~= before.reconnected().outbox);
        true
    }

    /// Records that the awaited inbound delivery is settled with the broker;
    /// a token, where one is given, must be the one that was issued.
    pub fn mark_inbound_settled(&mut self, token: Option<&str>) -> (r: bool)
        ensures
            r == (old(self)@.pending matches Some(pending) && (token matches Some(token)
                ==> token@ == pending.settlement_token)),
            r ==> final(self)@ == old(self)@.settle(),
            !r ==> final(self)@ == old(self)@,
    {
        let ghost before = self@;
        let mut pending = match &self.pending_inbound {
            Some(pending) => pending.clone(),
            None => {
                return false;
            },
        };
        match token {
            Some(token) => {
                if !text::same(token, pending.settlement_token.as_str()) {
                    return false;
                }
            },
            None => {},
        }
        pending.settled = true;
        self.pending_inbound = Some(pending);
        assert(self@ == before.settle());
        true
    }
}

/// The revision that the next credential is installed under.
pub fn next_revision(state: &StateV1) -> (r: Result<CredentialRevision, StoreError>)
    ensures
        state@.current.credential_revision < u64::MAX ==> r is Ok && r->Ok_0@
            == state@.current.credential_revision + 1,
        state@.current.credential_revision == u64::MAX ==> r == Err::<
            CredentialRevision,
            StoreError,
        >(StoreError::InvalidState),
{
    let current: u64 = state.current_revision();
    if current == u64::MAX {
        return Err(StoreError::InvalidState);
    }
    match CredentialRevision::try_from(current + 1) {
        Ok(revision) => Ok(revision),
        Err(_) => Err(StoreError::InvalidState),
    }
}

} // verus!
