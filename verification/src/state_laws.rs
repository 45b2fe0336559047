//! Laws of the durable state and its entries: what each operation adds,
//! takes away or leaves alone.

use crate::agent;
use crate::agent::{
    AgentConfig, AgentError, DurableCandidate, RecoveryCommandScope, ReferenceDeviceAgent,
};
use crate::catalog::{ArtifactCatalog, CatalogError};
use crate::command_laws::same_reason;
use crate::digest;
use crate::identity::{
    AckFact, CommandRejection, CommandView, CredentialFiles, DeviceCommand, DeviceIdentity,
    OutboundFact, ReportFact, Sha256Digest, Uuid,
};
use crate::ledger;
use crate::ledger::{
    StoredAck, StoredAckView, StoredCommand, StoredCommandView, StoredOutbound, StoredOutboundView,
    StoredRejection, StoredReport,
};
use crate::material::{CredentialError, ValidatedCredential};
use crate::model::{CredentialRevision, InstalledCredentialPosition};
use crate::nonzero::NonZeroU32;
use crate::state;
use crate::state::{
    AcceptedCommand, RejectedCommand, StateV1, StateView, StoreError, StoredIdentity,
};
use crate::text;
use crate::value_laws::names_digest;
use std::path::PathBuf;
use vstd::prelude::*;
use vstd::utf8::*;

verus! {

// ---- Names of events, deliveries and states ----

/// The name of an event: its kind, and the digest of its kind and source
/// under the domain of events.
pub open spec fn event_name(kind: Seq<char>, source: Seq<char>) -> Seq<char> {
    "reference-"@ + kind + "-"@ + text::hex(
        digest::sha256_of(
            encode_utf8("rss.reference-device-agent.event.v1\0"@) + encode_utf8(kind) + seq![0u8]
                + encode_utf8(source),
        ),
    )
}

/// Events are named after their kind and source, and a settlement after the
/// whole of its delivery.
pub proof fn law_events_are_named_by_kind_and_source(
    kind: &str,
    source: &str,
    event: String,
    a: &str,
    b: &str,
    both: String,
    topic: &str,
    command_id: &str,
    fingerprint: &str,
    token: String,
)
    requires
        call_ensures(ledger::event_id, (kind, source), event),
        call_ensures(ledger::join, (a, b), both),
        call_ensures(ledger::settlement_token, (topic, command_id, fingerprint), token),
    ensures
        event@ == event_name(kind@, source@),
        both@ == a@ + "\0"@ + b@,
        token@ == event_name(
            "settlement"@,
            topic@ + "\0"@ + command_id@ + "\0"@ + fingerprint@,
        ),
{
}

/// The witness of an installed credential is the digest, under the domain of
/// states, of whose it is, where it stands and what it is.
pub proof fn law_states_are_witnessed_by_their_coordinates(
    tenant: Uuid,
    device: Uuid,
    credential_generation: u64,
    desired_generation: u64,
    fence: u64,
    revision: u64,
    artifact_digest: &str,
    r: String,
)
    requires
        call_ensures(
            ledger::state_hash,
            (
                tenant,
                device,
                credential_generation,
                desired_generation,
                fence,
                revision,
                artifact_digest,
            ),
            r,
        ),
    ensures
        r@ == "sha256:"@ + text::hex(
            digest::sha256_of(
                encode_utf8("rss.reference-device-agent.state.v1\0"@) + text::be_bytes(
                    tenant@ as nat,
                    16,
                ) + text::be_bytes(device@ as nat, 16) + text::be_bytes(
                    credential_generation as nat,
                    8,
                ) + text::be_bytes(desired_generation as nat, 8) + text::be_bytes(fence as nat, 8)
                    + text::be_bytes(revision as nat, 8) + encode_utf8(artifact_digest@),
            ),
        ),
{
}

/// What a command is told apart by: every value it carries.
pub open spec fn command_told_by(command: CommandView) -> Seq<u8> {
    encode_utf8("rss.reference-device-agent.command.v1\0"@) + encode_utf8(command.command_id)
        + seq![0u8] + encode_utf8(command.artifact_id) + seq![0u8] + encode_utf8(
        command.artifact_digest,
    ) + seq![0u8] + encode_utf8(command.intent_digest) + seq![0u8] + encode_utf8(
        command.policy_hash,
    ) + seq![0u8] + text::be_bytes(command.device_id as nat, 16) + text::be_bytes(
        command.authorization_receipt_id as nat,
        16,
    ) + text::be_bytes(command.deadline_epoch_seconds as nat, 8) + text::be_bytes(
        command.desired_generation as nat,
        8,
    ) + text::be_bytes(command.fence_epoch as nat, 8)
}

/// A command's fingerprint is the digest of every value it carries; that of
/// an undecodable delivery is the digest of its topic, identity and content.
pub proof fn law_fingerprints_cover_the_whole_command(
    command: &DeviceCommand,
    r: String,
    topic: &str,
    command_id: &str,
    payload: &[u8],
    s: String,
)
    requires
        call_ensures(agent::command_fingerprint, (command,), r),
        call_ensures(agent::malformed_fingerprint, (topic, command_id, payload), s),
    ensures
        r@ == "sha256:"@ + text::hex(digest::sha256_of(command_told_by(command@))),
        s@ == "sha256:"@ + text::hex(
            digest::sha256_of(
                encode_utf8("rss.reference-device-agent.malformed-command.v1\0"@) + encode_utf8(
                    topic@,
                ) + seq![0u8] + encode_utf8(command_id@) + seq![0u8] + digest::sha256_of(payload@),
            ),
        ),
{
}

// ---- Entries ----

/// Rejections are kept and told back under their own names.
pub proof fn law_rejections_keep_their_names(
    fresh: CommandRejection,
    kept: StoredRejection,
    stored: StoredRejection,
    told: CommandRejection,
)
    requires
        call_ensures(<StoredRejection as From<CommandRejection>>::from, (fresh,), kept),
        call_ensures(<CommandRejection as From<StoredRejection>>::from, (stored,), told),
    ensures
        same_reason(kept, fresh),
        same_reason(stored, told),
{
}

/// A catalog failure is answered by what it means for the command: nothing
/// to install, another artifact than meant, not allowed, or no command at
/// all; material that cannot be read is the device's own failure.
pub proof fn law_catalog_failures_are_answered_by_meaning(error: CatalogError, r: CommandRejection)
    requires
        call_ensures(agent::catalog_rejection, (error,), r),
    ensures
        r is ArtifactUnavailable <==> error is NotFound || error is Unavailable,
        r is ArtifactDigestMismatch <==> error is DigestMismatch,
        r is MalformedCommand <==> error is Malformed,
        error is BindingMismatch || error is Revoked ==> r is PolicyRejected,
        error matches CatalogError::Credential(cause) ==> {
            &&& r is PolicyRejected <==> cause is Untrusted || cause is IdentityMismatch
            &&& r is DeviceFailure <==> cause is Unavailable || cause is Malformed
                || cause is InsecurePrivateKey
        },
        !(r is GenerationStale) && !(r is FenceEpochStale),
{
}

/// An acknowledgement holds together: everything named and numbered, and
/// exactly one of a rejection, an acceptance that activates a revision, and
/// the repetition of a settled acceptance.
pub open spec fn ack_holds(ack: StoredAck) -> bool {
    &&& ack.command_id@.len() > 0
    &&& ack.event_cause@.len() > 0
    &&& ack.desired_generation > 0
    &&& ack.fence_epoch > 0
    &&& ack.device_sequence > 0
    &&& ack.observed_at >= 0
    &&& ack.activates_revision != Some(0u64)
    &&& ack.rejection is Some ==> ack.activates_revision is None && !ack.settled_replay
    &&& ack.activates_revision is Some ==> !ack.settled_replay
    &&& ack.rejection is Some || ack.activates_revision is Some || ack.settled_replay
}

/// A report holds together: everything named, numbered and dated, with two digests.
pub open spec fn report_holds(report: StoredReport) -> bool {
    &&& report.command_id@.len() > 0
    &&& report.observed_generation > 0
    &&& report.fence_epoch > 0
    &&& report.device_sequence > 0
    &&& report.observed_at >= 0
    &&& report.expires_at is Some && report.expires_at->0 > 0
    &&& report.credential_generation > 0
    &&& report.credential_revision > 0
    &&& names_digest(report.artifact_digest@)
    &&& names_digest(report.state_hash@)
}

/// Acknowledgements, reports and remembered commands are valid exactly if
/// they hold together.
pub proof fn law_entries_hold_together(
    ack: &StoredAck,
    a: bool,
    report: &StoredReport,
    b: bool,
    command: &StoredCommand,
    c: bool,
)
    requires
        call_ensures(StoredAck::semantic_valid, (ack,), a),
        call_ensures(StoredReport::semantic_valid, (report,), b),
        call_ensures(StoredCommand::semantic_valid, (command,), c),
    ensures
        a <==> ack_holds(*ack),
        b <==> report_holds(*report),
        c <==> {
            &&& command.command_id@ == command.acknowledgement.command_id@
            &&& names_digest(command.fingerprint@)
            &&& ack_holds(command.acknowledgement)
            &&& command.retain_until_epoch_seconds > 0
        },
{
    crate::value_laws::lemma_names(report.artifact_digest@);
    crate::value_laws::lemma_names(report.state_hash@);
    crate::value_laws::lemma_names(command.fingerprint@);
}

/// The facts that are published tell what was stored, value for value.
pub proof fn law_stored_facts_are_told_as_stored(
    ack: &StoredAck,
    a: AckFact,
    report: &StoredReport,
    b: ReportFact,
)
    requires
        call_ensures(StoredAck::fact, (ack,), a),
        call_ensures(StoredReport::fact, (report,), b),
    ensures
        a.command_id@ == ack.command_id@,
        a.desired_generation == ack.desired_generation,
        a.fence_epoch == ack.fence_epoch,
        a.device_sequence == ack.device_sequence,
        a.observed_at == ack.observed_at,
        a.rejection is Some <==> ack.rejection is Some,
        ack.rejection is Some ==> same_reason(ack.rejection->0, a.rejection->0),
        b.observed_generation == report.observed_generation,
        b.fence_epoch == report.fence_epoch,
        b.device_sequence == report.device_sequence,
        b.observed_at == report.observed_at,
        b.state_hash@ == report.state_hash@,
        b.artifact_digest@ == report.artifact_digest@,
        b.expires_at == report.expires_at,
{
}

/// An entry goes by its own event and number, is a report exactly if it is
/// one, and only a blocked report has no fact yet.
pub proof fn law_entries_tell_what_they_are(
    entry: &StoredOutbound,
    event: &str,
    number: u64,
    fact: Option<OutboundFact>,
    report: Option<&StoredReport>,
)
    requires
        call_ensures(StoredOutbound::event_id, (entry,), event),
        call_ensures(StoredOutbound::sequence, (entry,), number),
        call_ensures(StoredOutbound::ready_fact, (entry,), fact),
        call_ensures(StoredOutbound::report_payload, (entry,), report),
    ensures
        *entry matches StoredOutbound::Ack { event_id, payload } ==> {
            &&& event@ == event_id@
            &&& number == payload.device_sequence
            &&& report is None
            &&& fact is Some && fact->0 is CommandAcknowledged
        },
        *entry matches StoredOutbound::ReportBlocked { event_id, payload } ==> {
            &&& event@ == event_id@
            &&& number == payload.device_sequence
            &&& report is Some && report->0@ == payload@
            &&& fact is None
        },
        *entry matches StoredOutbound::ReportReady { event_id, payload } ==> {
            &&& event@ == event_id@
            &&& number == payload.device_sequence
            &&& report is Some && report->0@ == payload@
            &&& fact is Some && fact->0 is CertificateReported
        },
        fact is Some ==> crate::fact_laws::tells(entry@, fact->0),
{
}

/// An entry is valid exactly if its payload holds together and its event is
/// the one that the payload causes.
pub proof fn law_entries_bear_the_event_they_cause(entry: &StoredOutbound, r: bool)
    requires
        call_ensures(StoredOutbound::semantic_valid, (entry,), r),
    ensures
        *entry matches StoredOutbound::Ack { event_id, payload } ==> (r <==> ack_holds(payload)
            && event_id@ == (if payload.event_cause@ == payload.command_id@ {
            event_name("ack"@, payload.event_cause@)
        } else {
            event_name("rejected"@, payload.event_cause@)
        })),
        *entry matches StoredOutbound::ReportBlocked { event_id, payload } ==> (r <==> report_holds(
            payload,
        ) && event_id@ == event_name("report"@, payload.command_id@)),
        *entry matches StoredOutbound::ReportReady { event_id, payload } ==> (r <==> report_holds(
            payload,
        ) && event_id@ == event_name("report"@, payload.command_id@)),
{
    match *entry {
        StoredOutbound::Ack { payload, .. } => {},
        StoredOutbound::ReportBlocked { payload, .. } => {
            crate::value_laws::lemma_names(payload.artifact_digest@);
            crate::value_laws::lemma_names(payload.state_hash@);
        },
        StoredOutbound::ReportReady { payload, .. } => {
            crate::value_laws::lemma_names(payload.artifact_digest@);
            crate::value_laws::lemma_names(payload.state_hash@);
        },
    }
}

// ---- The state ----

/// What an operation on the queues leaves alone.
pub open spec fn same_installation(a: StateView, b: StateView) -> bool {
    &&& a.schema_version == b.schema_version
    &&& a.identity == b.identity
    &&& a.current == b.current
    &&& a.reconnect_revision == b.reconnect_revision
    &&& a.pending == b.pending
}

/// The number after a number; the greatest one stays.
pub open spec fn following(number: u64) -> int {
    if number < u64::MAX {
        number + 1
    } else {
        number as int
    }
}

/// A fresh state names the device and its installed credential, and nothing else.
pub proof fn law_fresh_states_are_empty(
    identity: &DeviceIdentity,
    position: InstalledCredentialPosition,
    digest: &Sha256Digest,
    expires_at: i64,
    r: StateV1,
)
    requires
        call_ensures(StateV1::initial, (identity, position, digest, expires_at), r),
    ensures
        r@.schema_version == 1,
        r@.identity == identity@,
        r@.current.desired_generation == position@.desired_generation,
        r@.current.fence_epoch == position@.fence_epoch,
        r@.current.credential_revision == position@.credential_revision,
        r@.current.artifact_digest == digest@,
        r@.current.expires_at == expires_at,
        r@.device_sequence == 0,
        r@.journal.len() == 0,
        r@.outbox.len() == 0,
        r@.reconnect_revision is None,
        r@.pending is None,
{
}

/// A state keeps the identity it was given.
pub proof fn law_stored_identities_are_the_device(identity: &DeviceIdentity, r: StoredIdentity)
    requires
        call_ensures(StoredIdentity::from_identity, (identity,), r),
    ensures
        r@.tenant == identity@.tenant,
        r@.device == identity@.device,
        r@.credential_generation == identity@.credential_generation,
{
}

/// What is read of a state is what it holds.
pub proof fn law_states_are_read_as_they_are(
    state: &StateV1,
    generation: u64,
    fence: u64,
    revision: u64,
    artifact: &str,
    credential: u64,
    reconnect: Option<u64>,
    rotating: bool,
    who: Result<DeviceIdentity, StoreError>,
)
    requires
        call_ensures(StateV1::current_generation, (state,), generation),
        call_ensures(StateV1::current_fence, (state,), fence),
        call_ensures(StateV1::current_revision, (state,), revision),
        call_ensures(StateV1::current_artifact_digest, (state,), artifact),
        call_ensures(StateV1::current_credential_generation, (state,), credential),
        call_ensures(StateV1::reconnect_revision, (state,), reconnect),
        call_ensures(StateV1::rotation_in_flight, (state,), rotating),
        call_ensures(StateV1::current_identity, (state,), who),
    ensures
        generation == state@.current.desired_generation,
        fence == state@.current.fence_epoch,
        revision == state@.current.credential_revision,
        artifact@ == state@.current.artifact_digest,
        credential == state@.identity.credential_generation,
        reconnect == state@.reconnect_revision,
        rotating <==> exists|i: int|
            0 <= i < state@.outbox.len() && !((#[trigger] state@.outbox[i]) is Ack),
        who is Ok <==> state@.identity.credential_generation > 0 && state@.identity.tenant != 0
            && state@.identity.device != 0,
        who is Ok ==> who->Ok_0@ == state@.identity,
        who is Err ==> who->Err_0 is InvalidState,
{
    if rotating {
        let i = choose|i: int|
            0 <= i < state@.outbox.len() && (#[trigger] state@.outbox[i]).is_report();
        assert(!(state@.outbox[i] is Ack));
    }
    if exists|i: int| 0 <= i < state@.outbox.len() && !((#[trigger] state@.outbox[i]) is Ack) {
        let i = choose|i: int|
            0 <= i < state@.outbox.len() && !((#[trigger] state@.outbox[i]) is Ack);
        assert(state@.outbox[i].is_report());
    }
}

/// The awaited delivery is told whole; its token is given out only for its
/// own command and content.
pub proof fn law_the_awaited_delivery_is_told_whole(
    state: &StateV1,
    command_id: &str,
    fingerprint: &str,
    all: Option<(&str, &str, u64, &str, bool)>,
    token: Option<&str>,
)
    requires
        call_ensures(StateV1::pending_inbound, (state,), all),
        call_ensures(StateV1::pending_settlement_token, (state, command_id, fingerprint), token),
    ensures
        all is Some <==> state@.pending is Some,
        all matches Some((topic, command, generation, own, settled)) ==> {
            let pending = state@.pending->0;
            &&& topic@ == pending.topic
            &&& command@ == pending.command_id
            &&& generation == pending.credential_generation
            &&& own@ == pending.settlement_token
            &&& settled == pending.settled
        },
        token is Some <==> state@.pending is Some && state@.pending->0.command_id == command_id@
            && state@.pending->0.fingerprint == fingerprint@,
        token is Some ==> token->0@ == state@.pending->0.settlement_token,
{
}

/// A command is known while its memory lasts, and matches if the content is
/// the one that was remembered first.
pub proof fn law_commands_are_known_while_remembered(
    state: &StateV1,
    command_id: &str,
    fingerprint: &str,
    now: u64,
    r: Option<bool>,
)
    requires
        call_ensures(StateV1::command_match, (state, command_id, fingerprint, now), r),
    ensures
        r is None <==> forall|i: int|
            0 <= i < state@.journal.len() ==> !((#[trigger] state@.journal[i]).command_id
                == command_id@ && state@.journal[i].retain_until_epoch_seconds > now),
        forall|i: int|
            #![trigger state@.journal[i]]
            0 <= i < state@.journal.len() && state@.journal[i].command_id == command_id@
                && state@.journal[i].retain_until_epoch_seconds > now && (forall|j: int|
                0 <= j < i ==> !((#[trigger] state@.journal[j]).command_id == command_id@
                    && state@.journal[j].retain_until_epoch_seconds > now)) ==> r == Some(
                state@.journal[i].fingerprint == fingerprint@,
            ),
{
    let s = state@;
    if r is None {
        assert forall|i: int| 0 <= i < s.journal.len() implies !((
        #[trigger] s.journal[i]).command_id == command_id@
            && s.journal[i].retain_until_epoch_seconds > now) by {
            assert(!state::live(s.journal[i], command_id@, now));
        }
    } else {
        let k = choose|k: int|
            #[trigger] s.is_live_at(k, command_id@, now) && r->0 == (s.journal[k].fingerprint
                == fingerprint@);
        assert(s.journal[k].command_id == command_id@);
        assert forall|i: int|
            #![trigger s.journal[i]]
            0 <= i < s.journal.len() && s.journal[i].command_id == command_id@
                && s.journal[i].retain_until_epoch_seconds > now && (forall|j: int|
                0 <= j < i ==> !((#[trigger] s.journal[j]).command_id == command_id@
                    && s.journal[j].retain_until_epoch_seconds > now)) implies r == Some(
            s.journal[i].fingerprint == fingerprint@,
        ) by {
            if k < i {
                assert(!(s.journal[k].command_id == command_id@
                    && s.journal[k].retain_until_epoch_seconds > now));
            } else if i < k {
                assert(!state::live(s.journal[i], command_id@, now));
            }
        }
    }
}

/// Expiry forgets exactly the commands whose time is over, but for the one
/// whose delivery is awaited.
pub proof fn law_expiry_forgets_commands_that_are_over(state: &mut StateV1, now: u64)
    requires
        call_ensures(StateV1::expire_command_journal, (state, now), ()),
    ensures
        forall|entry: StoredCommandView|
            #![trigger final(state)@.journal.contains(entry)]
            final(state)@.journal.contains(entry) <==> old(state)@.journal.contains(entry) && (
            entry.retain_until_epoch_seconds > now || (old(state)@.pending is Some
                && old(state)@.pending->0.command_id == entry.command_id)),
        same_installation(old(state)@, final(state)@),
        final(state)@.outbox == old(state)@.outbox,
        final(state)@.device_sequence == old(state)@.device_sequence,
{
    crate::fact_laws::law_expiry_forgets_what_is_over(*old(state), *final(state), now);
}

/// There is room in the journal and the outbox below their limits, and in
/// the journal also where an entry can be forgotten.
pub proof fn law_room_is_kept_within_the_limits(
    state: &StateV1,
    count: usize,
    now: u64,
    journal: Result<(), StoreError>,
    outbox: Result<(), StoreError>,
    open: bool,
)
    requires
        call_ensures(StateV1::reserve_command_journal, (state,), journal),
        call_ensures(StateV1::reserve_outbox, (state, count), outbox),
        call_ensures(StateV1::command_journal_has_capacity, (state, now), open),
    ensures
        journal is Ok <==> state@.journal.len() < 1024,
        journal is Err ==> journal->Err_0 is CommandJournalFull,
        outbox is Ok <==> state@.outbox.len() + count <= 128,
        outbox is Err ==> outbox->Err_0 is OutboxFull,
        state@.journal.len() < 1024 ==> open,
        forall|i: int|
            0 <= i < state@.journal.len() && (#[trigger]
            state@.journal[i]).retain_until_epoch_seconds <= now && state@.pending is None ==> open,
        state@.journal.len() >= 1024 && (forall|i: int|
            0 <= i < state@.journal.len() ==> (#[trigger]
            state@.journal[i]).retain_until_epoch_seconds > now) ==> !open,
{
    let s = state@;
    assert forall|i: int|
        0 <= i < s.journal.len() && (#[trigger] s.journal[i]).retain_until_epoch_seconds <= now
            && s.pending is None implies open by {
        assert(!s.retains(s.journal[i], now));
    }
}

/// An acceptance installs the credential that the command brings, remembers
/// the command, queues the acknowledgement and behind it the blocked report,
/// and awaits the delivery on the topic of the credential it came under.
pub proof fn law_acceptances_install_and_await(
    state: &mut StateV1,
    command: AcceptedCommand,
    r: Result<(), StoreError>,
)
    requires
        call_ensures(StateV1::accept, (state, command), r),
    ensures
        r is Ok <==> old(state)@.identity.credential_generation > 0 && old(state)@.identity.tenant
            != 0 && old(state)@.identity.device != 0,
        r is Err ==> r->Err_0 is InvalidState && final(state)@ == old(state)@,
        r is Ok ==> ({
            let s = old(state)@;
            let t = final(state)@;
            let first = following(s.device_sequence);
            let second = following(first as u64);
            &&& t.current.desired_generation == command.generation
            &&& t.current.fence_epoch == command.fence
            &&& t.current.credential_revision == command.revision
            &&& t.current.artifact_digest == command.artifact_digest@
            &&& t.current.expires_at == command.expires_at
            &&& t.identity.tenant == s.identity.tenant
            &&& t.identity.device == s.identity.device
            &&& t.identity.credential_generation == command.credential_generation
            &&& t.device_sequence == second
            &&& t.reconnect_revision == s.reconnect_revision
            &&& t.journal.drop_last() == s.journal
            &&& t.journal.last().command_id == command.command_id@
            &&& t.journal.last().fingerprint == command.fingerprint@
            &&& t.journal.last().retain_until_epoch_seconds == command.retain_until_epoch_seconds
            &&& t.outbox.len() == s.outbox.len() + 2
            &&& t.outbox.take(s.outbox.len() as int) == s.outbox
            &&& t.outbox[s.outbox.len() as int] matches StoredOutboundView::Ack {
                event_id,
                payload,
            } && {
                &&& event_id == event_name("ack"@, command.command_id@)
                &&& payload.command_id == command.command_id@
                &&& payload.event_cause == command.command_id@
                &&& payload.desired_generation == command.generation
                &&& payload.fence_epoch == command.fence
                &&& payload.device_sequence == first
                &&& payload.observed_at == command.observed_at
                &&& payload.rejection is None
                &&& payload.activates_revision == Some(command.revision)
                &&& !payload.settled_replay
                &&& t.journal.last().acknowledgement == payload
            }
            &&& t.outbox[(s.outbox.len() + 1) as int] matches StoredOutboundView::ReportBlocked {
                event_id,
                payload,
            } && {
                &&& event_id == event_name("report"@, command.command_id@)
                &&& payload.command_id == command.command_id@
                &&& payload.observed_generation == command.generation
                &&& payload.fence_epoch == command.fence
                &&& payload.device_sequence == second
                &&& payload.observed_at == command.observed_at
                &&& payload.artifact_digest == command.artifact_digest@
                &&& payload.expires_at == Some(command.expires_at)
                &&& payload.credential_generation == command.credential_generation
                &&& payload.credential_revision == command.revision
            }
            &&& t.pending matches Some(pending) && {
                &&& pending.topic == s.identity.command_topic()
                &&& pending.command_id == command.command_id@
                &&& pending.fingerprint == command.fingerprint@
                &&& pending.credential_generation == s.identity.credential_generation
                &&& !pending.settled
            }
        }),
{
    if r is Ok {
        let s = old(state)@;
        let t = final(state)@;
        assert(t.journal.drop_last() =~= s.journal);
        assert(t.outbox.take(s.outbox.len() as int) =~= s.outbox);
    }
}

/// One acknowledgement more is queued, and nothing is installed.
pub open spec fn one_more_ack(s: StateView, t: StateView, payload: StoredAckView) -> bool {
    &&& same_installation(s, t)
    &&& t.outbox.len() == s.outbox.len() + 1
    &&& t.outbox.drop_last() == s.outbox
    &&& t.outbox.last() is Ack
    &&& t.outbox.last()->Ack_payload == payload
}

/// A rejection remembers the command and queues its acknowledgement with the
/// reason, under the next number.
pub proof fn law_rejections_are_remembered_and_queued(
    state: &mut StateV1,
    command: RejectedCommand,
    payload: StoredAckView,
)
    requires
        call_ensures(StateV1::reject, (state, command), ()),
        payload == final(state)@.outbox.last()->Ack_payload,
    ensures
        one_more_ack(old(state)@, final(state)@, payload),
        final(state)@.device_sequence == following(old(state)@.device_sequence),
        payload.command_id == command.command_id@,
        payload.event_cause == command.command_id@,
        payload.desired_generation == command.generation,
        payload.fence_epoch == command.fence,
        payload.device_sequence == following(old(state)@.device_sequence),
        payload.observed_at == command.observed_at,
        payload.rejection is Some && same_reason(payload.rejection->0, command.rejection),
        payload.activates_revision is None,
        !payload.settled_replay,
        final(state)@.outbox.last()->Ack_event_id == event_name("ack"@, command.command_id@),
        final(state)@.journal.drop_last() == old(state)@.journal,
        final(state)@.journal.last().command_id == command.command_id@,
        final(state)@.journal.last().fingerprint == command.fingerprint@,
        final(state)@.journal.last().acknowledgement == payload,
        final(state)@.journal.last().retain_until_epoch_seconds
            == command.retain_until_epoch_seconds,
{
    assert(final(state)@.outbox.drop_last() =~= old(state)@.outbox);
    assert(final(state)@.journal.drop_last() =~= old(state)@.journal);
}

/// A known identity with other content is rejected as malformed, once under
/// an event of its own, and what was remembered stays.
pub proof fn law_conflicting_content_is_malformed(
    state: &mut StateV1,
    command_id: String,
    fingerprint: &str,
    generation: u64,
    fence: u64,
    observed_at: i64,
    payload: StoredAckView,
)
    requires
        call_ensures(
            StateV1::reject_conflicting_replay,
            (state, command_id, fingerprint, generation, fence, observed_at),
            (),
        ),
        payload == final(state)@.outbox.last()->Ack_payload,
    ensures
        one_more_ack(old(state)@, final(state)@, payload),
        final(state)@.journal == old(state)@.journal,
        final(state)@.device_sequence == following(old(state)@.device_sequence),
        final(state)@.outbox.last()->Ack_event_id == event_name(
            "rejected"@,
            command_id@ + "\0"@ + fingerprint@,
        ),
        payload.command_id == command_id@,
        payload.event_cause == command_id@ + "\0"@ + fingerprint@,
        payload.desired_generation == generation,
        payload.fence_epoch == fence,
        payload.device_sequence == following(old(state)@.device_sequence),
        payload.observed_at == observed_at,
        payload.rejection == Some(StoredRejection::MalformedCommand),
        payload.activates_revision is None,
        !payload.settled_replay,
{
    assert(final(state)@.outbox.drop_last() =~= old(state)@.outbox);
}

/// A conflict is known by its own event, an acknowledgement by its command.
pub proof fn law_queued_answers_are_found(
    state: &StateV1,
    command_id: &str,
    fingerprint: &str,
    conflict: bool,
    ack: bool,
)
    requires
        call_ensures(StateV1::has_conflicting_replay, (state, command_id, fingerprint), conflict),
        call_ensures(StateV1::has_command_ack, (state, command_id), ack),
    ensures
        conflict <==> exists|i: int|
            0 <= i < state@.outbox.len() && (#[trigger] state@.outbox[i]).event_id() == event_name(
                "rejected"@,
                command_id@ + "\0"@ + fingerprint@,
            ),
        ack <==> exists|i: int|
            0 <= i < state@.outbox.len() && (#[trigger] state@.outbox[i]) is Ack
                && state@.outbox[i]->Ack_payload.command_id == command_id@,
{
    let s = state@;
    if ack {
        let i = choose|i: int|
            0 <= i < s.outbox.len() && state::acknowledges(#[trigger] s.outbox[i], command_id@);
        assert(s.outbox[i] is Ack && s.outbox[i]->Ack_payload.command_id == command_id@);
    }
    if exists|i: int|
        0 <= i < s.outbox.len() && (#[trigger] s.outbox[i]) is Ack
            && s.outbox[i]->Ack_payload.command_id == command_id@ {
        let i = choose|i: int|
            0 <= i < s.outbox.len() && (#[trigger] s.outbox[i]) is Ack
                && s.outbox[i]->Ack_payload.command_id == command_id@;
        assert(state::acknowledges(s.outbox[i], command_id@));
    }
    let event = event_name("rejected"@, command_id@ + "\0"@ + fingerprint@);
    assert(StateView::conflict_event(command_id@, fingerprint@) == event);
}

/// A remembered answer is repeated under its event: a rejection as it was,
/// an acceptance as one that is settled and activates nothing. Nothing else
/// changes, and a command that is not remembered has no answer.
pub proof fn law_remembered_answers_are_repeated(
    state: &mut StateV1,
    command_id: &str,
    fingerprint: &str,
    r: Result<(), StoreError>,
)
    requires
        call_ensures(StateV1::replay_command, (state, command_id, fingerprint), r),
    ensures
        r is Err ==> r->Err_0 is InvalidState && final(state)@ == old(state)@,
        r is Err <==> forall|i: int|
            0 <= i < old(state)@.journal.len() ==> !((#[trigger]
            old(state)@.journal[i]).command_id == command_id@ && old(state)@.journal[i].fingerprint
                == fingerprint@),
        r is Ok ==> ({
            let s = old(state)@;
            let t = final(state)@;
            &&& same_installation(s, t)
            &&& t.journal == s.journal
            &&& t.device_sequence == s.device_sequence
            &&& t.outbox.len() == s.outbox.len() + 1
            &&& t.outbox.drop_last() == s.outbox
            &&& exists|i: int|
                0 <= i < s.journal.len() && (#[trigger] s.journal[i]).command_id == command_id@
                    && s.journal[i].fingerprint == fingerprint@ && repeats(
                    s.journal[i].acknowledgement,
                    t.outbox.last(),
                    command_id@,
                )
        }),
{
    let s = old(state)@;
    let t = final(state)@;
    if r is Ok {
        let i = choose|i: int|
            #[trigger] s.is_journalled_at(i, command_id@, fingerprint@) && t == s.replay(i);
        assert(t.outbox.drop_last() =~= s.outbox);
        assert(s.journal[i].command_id == command_id@);
        assert(repeats(s.journal[i].acknowledgement, t.outbox.last(), command_id@));
    } else {
        assert forall|i: int| 0 <= i < s.journal.len() implies !((
        #[trigger] s.journal[i]).command_id == command_id@ && s.journal[i].fingerprint
            == fingerprint@) by {}
    }
}

/// The entry repeats what was answered.
pub open spec fn repeats(
    answer: StoredAckView,
    entry: StoredOutboundView,
    command_id: Seq<char>,
) -> bool {
    &&& entry matches StoredOutboundView::Ack { event_id, payload }
    &&& event_id == event_name("ack"@, command_id)
    &&& payload.command_id == answer.command_id
    &&& payload.event_cause == answer.event_cause
    &&& payload.desired_generation == answer.desired_generation
    &&& payload.fence_epoch == answer.fence_epoch
    &&& payload.device_sequence == answer.device_sequence
    &&& payload.observed_at == answer.observed_at
    &&& payload.rejection == answer.rejection
    &&& answer.rejection is None ==> payload.activates_revision is None && payload.settled_replay
    &&& answer.rejection is Some ==> payload == answer
}

/// The next revision is one more, and there is none after the last.
pub proof fn law_revisions_rise_by_one(
    state: &StateV1,
    r: Result<CredentialRevision, StoreError>,
)
    requires
        call_ensures(state::next_revision, (state,), r),
    ensures
        r is Ok <==> state@.current.credential_revision < u64::MAX,
        r is Ok ==> r->Ok_0@ == state@.current.credential_revision + 1,
        r is Err ==> r->Err_0 is InvalidState,
{
}

/// Only the awaited revision is marked as connected, and that releases the
/// blocked report as it is.
pub proof fn law_only_the_awaited_revision_reconnects(state: &mut StateV1, revision: u64, r: bool)
    requires
        call_ensures(StateV1::mark_reconnected, (state, revision), r),
    ensures
        r <==> old(state)@.reconnect_revision == Some(revision),
        !r ==> final(state)@ == old(state)@,
        r ==> ({
            let s = old(state)@;
            let t = final(state)@;
            &&& t.reconnect_revision is None
            &&& t.identity == s.identity
            &&& t.current == s.current
            &&& t.pending == s.pending
            &&& t.journal == s.journal
            &&& t.device_sequence == s.device_sequence
            &&& t.outbox.len() == s.outbox.len()
            &&& forall|i: int|
                #![trigger t.outbox[i]]
                0 <= i < s.outbox.len() ==> {
                    &&& s.outbox[i] is ReportBlocked ==> t.outbox[i] is ReportReady
                        && t.outbox[i]->ReportReady_payload == s.outbox[i]->ReportBlocked_payload
                        && t.outbox[i]->ReportReady_event_id == s.outbox[i]->ReportBlocked_event_id
                    &&& !(s.outbox[i] is ReportBlocked) ==> t.outbox[i] == s.outbox[i]
                }
        }),
{
    if r {
        let s = old(state)@;
        let t = final(state)@;
        assert forall|i: int|
            #![trigger t.outbox[i]]
            0 <= i < s.outbox.len() implies t.outbox[i] == s.outbox[i].released() by {}
    }
}

/// The awaited delivery is settled by its own token, or by its absence; that
/// changes nothing else.
pub proof fn law_deliveries_are_settled_once_awaited(
    state: &mut StateV1,
    token: Option<&str>,
    r: bool,
)
    requires
        call_ensures(StateV1::mark_inbound_settled, (state, token), r),
    ensures
        r <==> old(state)@.pending is Some && (token is Some ==> token->0@
            == old(state)@.pending->0.settlement_token),
        !r ==> final(state)@ == old(state)@,
        r ==> crate::fact_laws::only_settles(old(state)@, final(state)@),
{
}

/// A confirmation takes out the first entry under the event, but never a
/// released report whose delivery is open, and nothing when there is none.
pub proof fn law_confirmations_take_the_event_out(state: &mut StateV1, event_id: &str, r: bool)
    requires
        call_ensures(StateV1::confirm_outbound, (state, event_id), r),
    ensures
        !r ==> final(state)@ == old(state)@,
        r ==> exists|i: int|
            #[trigger] crate::fact_laws::first_under(old(state)@, i, event_id@)
                && final(state)@.outbox == old(state)@.outbox.remove(i) && (
            old(state)@.outbox[i] is ReportReady ==> crate::fact_laws::delivery_settled(
                old(state)@,
            ) && final(state)@.pending is None) && (!(old(state)@.outbox[i] is ReportReady)
                ==> final(state)@.pending == old(state)@.pending),
        r ==> final(state)@.current == old(state)@.current && final(state)@.identity == old(
            state,
        )@.identity && final(state)@.journal == old(state)@.journal,
        forall|i: int|
            #[trigger] crate::fact_laws::first_under(old(state)@, i, event_id@)
                && crate::fact_laws::goes_out(old(state)@, i) ==> r,
{
    let s = old(state)@;
    if r {
        let i = choose|i: int|
            #[trigger] s.first_event(i, event_id@) && s.confirmable(i) && final(state)@
                == s.confirm(i);
        assert(crate::fact_laws::first_under(s, i, event_id@));
    }
    assert forall|i: int|
        #[trigger] crate::fact_laws::first_under(s, i, event_id@) && crate::fact_laws::goes_out(
            s,
            i,
        ) implies r by {
        crate::fact_laws::lemma_first_unique(s, event_id@, i);
    }
}

// ---- Around the state ----

/// An agent is configured with what it is given.
pub proof fn law_agents_are_configured_as_given(
    identity: DeviceIdentity,
    directory: PathBuf,
    catalog: ArtifactCatalog,
    position: InstalledCredentialPosition,
    files: CredentialFiles,
    retention: NonZeroU32,
    r: AgentConfig,
)
    requires
        call_ensures(
            AgentConfig::new,
            (identity, directory, catalog, position, files, retention),
            r,
        ),
    ensures
        r.identity == identity,
        r.state_directory == directory,
        r.catalog == catalog,
        r.initial_position == position,
        r.initial_credentials == files,
        r.command_retention_seconds == retention,
{
}

/// The catalog lies where it was said to.
pub proof fn law_catalogs_lie_where_said(path: PathBuf, r: ArtifactCatalog, told: &PathBuf)
    requires
        call_ensures(ArtifactCatalog::new, (path,), r),
        call_ensures(ArtifactCatalog::path, (&r,), told),
    ensures
        *told == path,
{
}

/// A device is provisioned with the credential it was given, unless that was
/// refused or no artifact of it is known.
pub proof fn law_provisioning_needs_credential_and_artifact(
    credential: Result<ValidatedCredential, CredentialError>,
    digest: Option<Sha256Digest>,
    r: Result<(ValidatedCredential, Sha256Digest), AgentError>,
)
    requires
        call_ensures(agent::require_material, (credential, digest), r),
    ensures
        r is Ok <==> credential is Ok && digest is Some,
        r is Ok ==> r->Ok_0 == (credential->Ok_0, digest->0),
        credential is Err ==> r->Err_0 == AgentError::Credential(credential->Err_0),
        credential is Ok && digest is None ==> r->Err_0 is InitialArtifactUnavailable,
{
}

/// A recovery scope tells the identity, topic and command it was made for.
pub proof fn law_recovery_scopes_tell_their_command(
    identity: DeviceIdentity,
    topic: String,
    command_id: String,
    made: RecoveryCommandScope,
    who: &DeviceIdentity,
    wherefrom: &str,
    which: &str,
)
    requires
        call_ensures(RecoveryCommandScope::new, (identity, topic, command_id), made),
        call_ensures(RecoveryCommandScope::identity, (&made,), who),
        call_ensures(RecoveryCommandScope::topic, (&made,), wherefrom),
        call_ensures(RecoveryCommandScope::command_id, (&made,), which),
    ensures
        who@ == identity@,
        wherefrom@ == topic@,
        which@ == command_id@,
{
}

/// An agent takes over a candidate whole and keeps its retention.
pub proof fn law_candidates_are_adopted_whole(
    agent: &mut ReferenceDeviceAgent,
    candidate: DurableCandidate,
    state: &StateV1,
)
    requires
        call_ensures(ReferenceDeviceAgent::adopt, (agent, candidate), ()),
        call_ensures(DurableCandidate::state, (&candidate,), state),
    ensures
        final(agent)@ == candidate@,
        state@ == candidate@,
        final(agent).retention() == old(agent).retention(),
{
}

/// What is read of an agent is what its state holds.
pub proof fn law_agents_are_read_as_their_state(
    agent: &ReferenceDeviceAgent,
    state: &StateV1,
    reconnect: Result<Option<CredentialRevision>, AgentError>,
    rotating: bool,
    topic: Option<&str>,
    command_id: Option<&str>,
    who: Result<DeviceIdentity, AgentError>,
    credentials: u64,
)
    requires
        call_ensures(ReferenceDeviceAgent::state, (agent,), state),
        call_ensures(ReferenceDeviceAgent::reconnect_revision, (agent,), reconnect),
        call_ensures(ReferenceDeviceAgent::rotation_in_flight, (agent,), rotating),
        call_ensures(ReferenceDeviceAgent::pending_command_topic, (agent,), topic),
        call_ensures(ReferenceDeviceAgent::pending_command_id, (agent,), command_id),
        call_ensures(ReferenceDeviceAgent::current_identity, (agent,), who),
        call_ensures(ReferenceDeviceAgent::current_credentials, (agent,), credentials),
    ensures
        state@ == agent@,
        reconnect is Err <==> agent@.reconnect_revision == Some(0u64),
        agent@.reconnect_revision is None ==> reconnect == Ok::<
            Option<CredentialRevision>,
            AgentError,
        >(None),
        reconnect is Ok && agent@.reconnect_revision is Some ==> reconnect->Ok_0 is Some
            && reconnect->Ok_0->0@ == agent@.reconnect_revision->0,
        rotating <==> exists|i: int|
            0 <= i < agent@.outbox.len() && !((#[trigger] agent@.outbox[i]) is Ack),
        topic is Some <==> agent@.pending is Some,
        command_id is Some <==> agent@.pending is Some,
        agent@.pending is Some ==> topic->0@ == agent@.pending->0.topic,
        agent@.pending is Some ==> command_id->0@ == agent@.pending->0.command_id,
        who is Ok <==> agent@.identity.credential_generation > 0 && agent@.identity.tenant != 0
            && agent@.identity.device != 0,
        who is Ok ==> who->Ok_0@ == agent@.identity,
        credentials == agent@.current.credential_revision,
{
    let s = agent@;
    if rotating {
        let i = choose|i: int| 0 <= i < s.outbox.len() && (#[trigger] s.outbox[i]).is_report();
        assert(!(s.outbox[i] is Ack));
    }
    if exists|i: int| 0 <= i < s.outbox.len() && !((#[trigger] s.outbox[i]) is Ack) {
        let i = choose|i: int| 0 <= i < s.outbox.len() && !((#[trigger] s.outbox[i]) is Ack);
        assert(s.outbox[i].is_report());
    }
}

} // verus!
