//! Laws of the queued facts: what is published of an entry, what a
//! confirmation, a reconnect and a settlement take away or release, and what
//! a state that was accepted is known to hold.

use crate::agent;
use crate::agent::{AgentError, DurableCandidate, RecoveryCommandScope, ReferenceDeviceAgent};
use crate::command_laws;
use crate::digest;
use crate::identity::{DeviceCommand, DeviceIdentity, OutboundFact, Sha256Digest};
use crate::ledger;
use crate::ledger::{StoredAckView, StoredCommandView, StoredOutboundView, StoredReportView};
use crate::model::{CredentialRevision, InstalledCredentialPosition};
use crate::nonzero::NonZeroU32;
use crate::soundness;
use crate::state::{StateV1, StateView, StoreError};
use vstd::prelude::*;

verus! {

/// The delivery of the last accepted command is settled.
pub open spec fn delivery_settled(s: StateView) -> bool {
    s.pending is Some && s.pending->0.settled
}

/// Entry `i` may go out: an acknowledgement at any time, a released report
/// once the delivery is settled, a blocked report never.
pub open spec fn goes_out(s: StateView, i: int) -> bool {
    s.outbox[i] is Ack || (s.outbox[i] is ReportReady && delivery_settled(s))
}

/// The fact tells exactly what the entry holds.
pub open spec fn tells(entry: StoredOutboundView, fact: OutboundFact) -> bool {
    match fact {
        OutboundFact::CommandAcknowledged { event_id, payload } => {
            &&& entry matches StoredOutboundView::Ack { event_id: kept_id, payload: kept }
            &&& event_id@ == kept_id
            &&& payload.command_id@ == kept.command_id
            &&& payload.desired_generation == kept.desired_generation
            &&& payload.fence_epoch == kept.fence_epoch
            &&& payload.device_sequence == kept.device_sequence
            &&& payload.observed_at == kept.observed_at
            &&& payload.rejection is Some <==> kept.rejection is Some
            &&& kept.rejection is Some ==> command_laws::same_reason(
                kept.rejection->0,
                payload.rejection->0,
            )
        },
        OutboundFact::CertificateReported { event_id, payload } => {
            &&& entry matches StoredOutboundView::ReportReady { event_id: kept_id, payload: kept }
            &&& event_id@ == kept_id
            &&& payload.observed_generation == kept.observed_generation
            &&& payload.fence_epoch == kept.fence_epoch
            &&& payload.device_sequence == kept.device_sequence
            &&& payload.observed_at == kept.observed_at
            &&& payload.state_hash@ == kept.state_hash
            &&& payload.artifact_digest@ == kept.artifact_digest
            &&& payload.expires_at == kept.expires_at
        },
    }
}

/// The fact that goes out next is the oldest entry that may go out, and it
/// tells exactly what the entry holds.
pub proof fn law_the_oldest_open_fact_goes_out(
    agent: &ReferenceDeviceAgent,
    r: Option<OutboundFact>,
)
    requires
        call_ensures(ReferenceDeviceAgent::next_outbound, (agent,), r),
    ensures
        match r {
            Some(fact) => exists|i: int|
                0 <= i < agent@.outbox.len() && goes_out(agent@, i) && tells(
                    #[trigger] agent@.outbox[i],
                    fact,
                ) && forall|j: int| 0 <= j < i ==> !#[trigger] goes_out(agent@, j),
            None => forall|i: int| 0 <= i < agent@.outbox.len() ==> !#[trigger] goes_out(agent@, i),
        },
{
    let s = agent@;
    match r {
        Some(fact) => {
            let i = choose|i: int|
                #[trigger] s.is_next(i) && s.outbox[i].ready_fact() == Some(fact@);
            assert(goes_out(s, i));
            assert(tells(s.outbox[i], fact));
            assert forall|j: int| 0 <= j < i implies !#[trigger] goes_out(s, j) by {
                assert(!s.offered(j));
            }
        },
        None => {
            assert forall|i: int| 0 <= i < s.outbox.len() implies !#[trigger] goes_out(s, i) by {
                assert(!s.offered(i));
            }
        },
    }
}

/// `i` is the first entry under the event.
pub open spec fn first_under(s: StateView, i: int, event_id: Seq<char>) -> bool {
    &&& 0 <= i < s.outbox.len()
    &&& s.outbox[i].event_id() == event_id
    &&& forall|j: int| 0 <= j < i ==> (#[trigger] s.outbox[j]).event_id() != event_id
}

/// A confirmation takes out the one entry under the event and no other. A
/// confirmed acceptance whose report is still blocked asks for the session
/// under its revision; a confirmed report ends the wait for its delivery;
/// nothing else moves.
pub proof fn law_confirmations_take_one_fact(
    agent: &ReferenceDeviceAgent,
    event_id: &str,
    r: Result<DurableCandidate, AgentError>,
)
    requires
        call_ensures(ReferenceDeviceAgent::confirm_outbound, (agent, event_id), r),
    ensures
        ({
            let s = agent@;
            &&& r matches Ok(candidate) ==> exists|i: int|
                #![trigger s.outbox.remove(i)]
                first_under(s, i, event_id@) && {
                    let t = candidate@;
                    &&& t.outbox == s.outbox.remove(i)
                    &&& t.current == s.current
                    &&& t.identity == s.identity
                    &&& t.journal == s.journal
                    &&& t.device_sequence == s.device_sequence
                    &&& s.outbox[i] is ReportReady ==> delivery_settled(s) && t.pending is None
                        && t.reconnect_revision == s.reconnect_revision
                    &&& s.outbox[i] is Ack ==> t.pending == s.pending
                    &&& (s.outbox[i] is Ack && s.outbox[i]->Ack_payload.activates_revision is None)
                        ==> t.reconnect_revision == s.reconnect_revision
                    &&& (s.sound() && s.outbox[i] is Ack
                        && s.outbox[i]->Ack_payload.activates_revision is Some)
                        ==> t.reconnect_revision == s.outbox[i]->Ack_payload.activates_revision
                }
            &&& (forall|i: int|
                0 <= i < s.outbox.len() ==> (#[trigger] s.outbox[i]).event_id() != event_id@)
                ==> r == Err::<DurableCandidate, AgentError>(AgentError::UnknownOutbound)
            &&& forall|i: int|
                first_under(s, i, event_id@) && #[trigger] s.outbox[i] is ReportReady
                    && !delivery_settled(s) ==> r == Err::<DurableCandidate, AgentError>(
                    AgentError::UnknownOutbound,
                )
            &&& forall|i: int|
                s.sound() && first_under(s, i, event_id@) && #[trigger] goes_out(s, i) ==> r is Ok
        }),
{
    let s = agent@;
    if let Ok(candidate) = r {
        let i = choose|i: int|
            #[trigger] s.first_event(i, event_id@) && s.confirmable(i) && candidate@ == s.confirm(
                i,
            );
        assert(first_under(s, i, event_id@));
        assert(candidate@.outbox == s.outbox.remove(i));
        if s.sound() && s.outbox[i] is Ack && s.outbox[i]->Ack_payload.activates_revision is Some {
            let revision = s.outbox[i]->Ack_payload.activates_revision->0;
            assert(s.phase_valid_at(s.outbox[i]));
            let command_id = s.outbox[i]->Ack_payload.command_id;
            let k = choose|k: int|
                0 <= k < s.outbox.len() && crate::state::blocks(
                    #[trigger] s.outbox[k],
                    revision,
                    command_id,
                );
            let at = if k < i {
                k
            } else {
                k - 1
            };
            assert(s.outbox.remove(i)[at] == s.outbox[k]);
            assert(crate::state::blocks_revision(s.outbox.remove(i)[at], revision));
        }
    }
    assert forall|i: int|
        first_under(s, i, event_id@) && #[trigger] s.outbox[i] is ReportReady && !delivery_settled(
            s,
        ) implies r == Err::<DurableCandidate, AgentError>(AgentError::UnknownOutbound) by {
        lemma_first_unique(s, event_id@, i);
    }
    assert forall|i: int|
        s.sound() && first_under(s, i, event_id@) && #[trigger] goes_out(s, i) implies r is Ok by {
        lemma_first_unique(s, event_id@, i);
        soundness::law_confirm_keeps_sound(s, i);
        assert(s.has_event(event_id@));
    }
}

pub(crate) proof fn lemma_first_unique(s: StateView, event_id: Seq<char>, i: int)
    requires
        first_under(s, i, event_id),
    ensures
        s.first_event(i, event_id),
        forall|k: int| #[trigger] s.first_event(k, event_id) ==> k == i,
        s.has_event(event_id),
{
    assert(s.outbox[i].event_id() == event_id);
    assert forall|k: int| #[trigger] s.first_event(k, event_id) implies k == i by {
        if k < i {
            assert(s.outbox[k].event_id() != event_id);
        } else if i < k {
            assert(s.outbox[i].event_id() != event_id);
        }
    }
}

/// The session under the awaited revision releases the blocked report as it
/// is, and nothing else; a session under any other revision changes nothing.
pub proof fn law_the_awaited_session_releases_the_report(
    agent: &ReferenceDeviceAgent,
    revision: CredentialRevision,
    r: Result<DurableCandidate, AgentError>,
)
    requires
        call_ensures(
            ReferenceDeviceAgent::mark_current_credential_connected,
            (agent, revision),
            r,
        ),
    ensures
        agent@.reconnect_revision != Some(revision@) <==> r == Err::<DurableCandidate, AgentError>(
            AgentError::UnexpectedReconnect,
        ),
        agent@.sound() && agent@.reconnect_revision == Some(revision@) ==> r is Ok,
        r matches Ok(candidate) ==> {
            let s = agent@;
            let t = candidate@;
            &&& t.reconnect_revision is None
            &&& t.current == s.current
            &&& t.identity == s.identity
            &&& t.journal == s.journal
            &&& t.pending == s.pending
            &&& t.device_sequence == s.device_sequence
            &&& t.outbox.len() == s.outbox.len()
            &&& forall|i: int|
                #![trigger t.outbox[i]]
                0 <= i < s.outbox.len() ==> {
                    &&& !(t.outbox[i] is ReportBlocked)
                    &&& s.outbox[i] is Ack ==> t.outbox[i] == s.outbox[i]
                    &&& s.outbox[i] is ReportReady ==> t.outbox[i] == s.outbox[i]
                    &&& s.outbox[i] is ReportBlocked ==> t.outbox[i] is ReportReady
                        && t.outbox[i].event_id() == s.outbox[i].event_id()
                        && t.outbox[i]->ReportReady_payload == s.outbox[i]->ReportBlocked_payload
                }
        },
{
    let s = agent@;
    if s.sound() && s.reconnect_revision == Some(revision@) {
        soundness::law_reconnect_keeps_sound(s);
    }
    if let Ok(candidate) = r {
        let t = candidate@;
        assert forall|i: int|
            #![trigger t.outbox[i]]
            0 <= i < s.outbox.len() implies t.outbox[i] == s.outbox[i].released() by {}
    }
}

/// `t` is `s` with the awaited delivery settled and nothing else changed.
pub open spec fn only_settles(s: StateView, t: StateView) -> bool {
    &&& s.pending is Some
    &&& t.pending is Some
    &&& t.pending->0.settled
    &&& t.pending->0.topic == s.pending->0.topic
    &&& t.pending->0.command_id == s.pending->0.command_id
    &&& t.pending->0.fingerprint == s.pending->0.fingerprint
    &&& t.pending->0.credential_generation == s.pending->0.credential_generation
    &&& t.pending->0.settlement_token == s.pending->0.settlement_token
    &&& t.outbox == s.outbox
    &&& t.journal == s.journal
    &&& t.current == s.current
    &&& t.identity == s.identity
    &&& t.reconnect_revision == s.reconnect_revision
    &&& t.device_sequence == s.device_sequence
}

/// A delivery is settled by its own token alone, or by its proven absence,
/// and settling it changes nothing else.
pub proof fn law_only_the_awaited_delivery_is_settled(
    agent: &ReferenceDeviceAgent,
    token: &str,
    settled: Result<DurableCandidate, AgentError>,
    absent: Result<DurableCandidate, AgentError>,
)
    requires
        call_ensures(
            ReferenceDeviceAgent::mark_pending_inbound_settled,
            (agent, token),
            settled,
        ),
        call_ensures(ReferenceDeviceAgent::mark_pending_inbound_absent, (agent,), absent),
    ensures
        ({
            let s = agent@;
            let own = s.pending is Some && s.pending->0.settlement_token == token@;
            &&& !own <==> settled == Err::<DurableCandidate, AgentError>(
                AgentError::UnexpectedDelivery,
            )
            &&& settled matches Ok(candidate) ==> only_settles(s, candidate@)
            &&& s.pending is None <==> absent == Err::<DurableCandidate, AgentError>(
                AgentError::UnexpectedDelivery,
            )
            &&& absent matches Ok(candidate) ==> only_settles(s, candidate@)
            &&& s.sound() && own ==> settled is Ok
            &&& s.sound() && s.pending is Some ==> absent is Ok
        }),
{
    if agent@.sound() {
        soundness::law_settlement_keeps_sound(agent@);
    }
}

/// A delivery is decoded under the installed identity on the installed
/// topic, and under the earlier credential only for the very command that is
/// awaited on the earlier topic.
pub proof fn law_deliveries_are_read_under_their_own_identity(
    agent: &ReferenceDeviceAgent,
    topic: &str,
    command_id: &str,
    r: Result<DeviceIdentity, AgentError>,
)
    requires
        call_ensures(ReferenceDeviceAgent::delivery_identity, (agent, topic, command_id), r),
        agent@.valid(),
    ensures
        ({
            let s = agent@;
            let current = topic@ == s.identity.command_topic();
            let awaited = s.pending is Some && s.pending->0.topic == topic@
                && s.pending->0.command_id == command_id@;
            &&& current ==> r is Ok && r->Ok_0@ == s.identity
            &&& !current && awaited ==> {
                &&& r is Ok
                &&& r->Ok_0@.tenant == s.identity.tenant
                &&& r->Ok_0@.device == s.identity.device
                &&& r->Ok_0@.credential_generation == s.pending->0.credential_generation
                &&& topic@ == r->Ok_0@.command_topic()
            }
            &&& !current && !awaited ==> r == Err::<DeviceIdentity, AgentError>(
                AgentError::UnexpectedDelivery,
            )
        }),
{
}

/// What is subscribed to during recovery is the awaited delivery: its topic,
/// its command, and the identity it was delivered under.
pub proof fn law_recovery_asks_for_the_awaited_delivery(
    agent: &ReferenceDeviceAgent,
    command: &DeviceCommand,
    topic: &str,
    command_id: &str,
    scope: Result<Option<RecoveryCommandScope>, AgentError>,
    settled: bool,
    by_command: Option<&str>,
    by_delivery: Option<&str>,
)
    requires
        call_ensures(ReferenceDeviceAgent::pending_command_scope, (agent,), scope),
        call_ensures(ReferenceDeviceAgent::pending_inbound_settled, (agent,), settled),
        call_ensures(ReferenceDeviceAgent::pending_settlement_token, (agent, command), by_command),
        call_ensures(
            ReferenceDeviceAgent::pending_delivery_settlement_token,
            (agent, topic, command_id),
            by_delivery,
        ),
        agent@.valid(),
    ensures
        ({
            let s = agent@;
            &&& settled <==> s.pending is None || s.pending->0.settled
            &&& s.pending is None ==> {
                &&& scope == Ok::<Option<RecoveryCommandScope>, AgentError>(None)
                &&& by_command is None
                &&& by_delivery is None
            }
            &&& s.pending is Some ==> {
                let pending = s.pending->0;
                &&& scope is Ok
                &&& scope->Ok_0 is Some
                &&& scope->Ok_0->0@.topic == pending.topic
                &&& scope->Ok_0->0@.command_id == pending.command_id
                &&& scope->Ok_0->0@.identity.tenant == s.identity.tenant
                &&& scope->Ok_0->0@.identity.device == s.identity.device
                &&& scope->Ok_0->0@.identity.credential_generation
                    == pending.credential_generation
                &&& by_command is Some <==> pending.command_id == command@.command_id
                    && pending.fingerprint == agent::command_fingerprint_of(command@)
                &&& by_command is Some ==> by_command->0@ == pending.settlement_token
                &&& by_delivery is Some <==> pending.topic == topic@ && pending.command_id
                    == command_id@
                &&& by_delivery is Some ==> by_delivery->0@ == pending.settlement_token
            }
        }),
{
}

/// Expiry forgets exactly the entries whose time is over, except the one
/// whose delivery is still awaited, and keeps the others as they are.
pub proof fn law_expiry_forgets_what_is_over(state: StateV1, expired: StateV1, now: u64)
    requires
        expired@ == state@.expire(now),
    ensures
        forall|entry: StoredCommandView|
            #![trigger expired@.journal.contains(entry)]
            expired@.journal.contains(entry) <==> state@.journal.contains(entry) && (
            entry.retain_until_epoch_seconds > now || (state@.pending is Some
                && state@.pending->0.command_id == entry.command_id)),
        expired@.outbox == state@.outbox,
        expired@.current == state@.current,
        expired@.identity == state@.identity,
        expired@.pending == state@.pending,
        expired@.device_sequence == state@.device_sequence,
{
    let s = state@;
    let keep = |entry: StoredCommandView| s.retains(entry, now);
    assert forall|entry: StoredCommandView|
        #![trigger expired@.journal.contains(entry)]
        expired@.journal.contains(entry) <==> s.journal.contains(entry) && (
        entry.retain_until_epoch_seconds > now || (s.pending is Some && s.pending->0.command_id
            == entry.command_id)) by {
        lemma_filter_contains(s.journal, keep, entry);
    }
}

proof fn lemma_filter_contains<A>(s: Seq<A>, keep: spec_fn(A) -> bool, x: A)
    ensures
        s.filter(keep).contains(x) <==> s.contains(x) && keep(x),
    decreases s.len(),
{
    reveal(Seq::filter);
    if s.len() > 0 {
        let front = s.drop_last();
        let last = s.last();
        lemma_filter_contains(front, keep, x);
        assert(s =~= front.push(last));
        assert(s.contains(x) <==> front.contains(x) || last == x) by {
            if front.contains(x) {
                let i = choose|i: int| 0 <= i < front.len() && front[i] == x;
                assert(s[i] == x);
            }
            if last == x {
                assert(s[s.len() - 1] == x);
            }
            if s.contains(x) {
                let i = choose|i: int| 0 <= i < s.len() && s[i] == x;
                if i < front.len() {
                    assert(front[i] == x);
                }
            }
        }
        let kept = front.filter(keep);
        if keep(last) {
            assert(s.filter(keep) == kept.push(last));
            assert(kept.push(last).contains(x) <==> kept.contains(x) || last == x) by {
                if kept.contains(x) {
                    let i = choose|i: int| 0 <= i < kept.len() && kept[i] == x;
                    assert(kept.push(last)[i] == x);
                }
                if last == x {
                    assert(kept.push(last)[kept.len() as int] == x);
                }
                if kept.push(last).contains(x) {
                    let i = choose|i: int|
                        0 <= i < kept.push(last).len() && kept.push(last)[i] == x;
                    if i < kept.len() {
                        assert(kept[i] == x);
                    }
                }
            }
        }
    }
}

/// Intake is open exactly while both facts of a command would find room and
/// the journal has a place for it, if need be one that expiry frees.
pub proof fn law_intake_is_open_while_there_is_room(
    agent: &ReferenceDeviceAgent,
    now: u64,
    r: bool,
)
    requires
        call_ensures(ReferenceDeviceAgent::command_intake_open, (agent, now), r),
    ensures
        r <==> {
            &&& agent@.outbox.len() <= 126
            &&& agent@.journal.len() < 1024 || exists|i: int|
                0 <= i < agent@.journal.len() && (#[trigger] agent@.journal[i]).retain_until_epoch_seconds
                    <= now && (agent@.pending is Some ==> agent@.pending->0.command_id
                    != agent@.journal[i].command_id)
        },
{
    let s = agent@;
    if s.journal_has_capacity(now) && s.journal.len() >= 1024 {
        let i = choose|i: int|
            0 <= i < s.journal.len() && !s.retains(#[trigger] s.journal[i], now);
        assert(s.journal[i].retain_until_epoch_seconds <= now);
    }
    if exists|i: int|
        0 <= i < s.journal.len() && (#[trigger] s.journal[i]).retain_until_epoch_seconds <= now && (
        s.pending is Some ==> s.pending->0.command_id != s.journal[i].command_id) {
        let i = choose|i: int|
            0 <= i < s.journal.len() && (#[trigger] s.journal[i]).retain_until_epoch_seconds
                <= now && (s.pending is Some ==> s.pending->0.command_id
                != s.journal[i].command_id);
        assert(!s.retains(s.journal[i], now));
    }
}

/// What an acknowledgement that may be kept looks like: exactly one of a
/// rejection, an activation, and a repeated acceptance.
pub open spec fn meaningful_ack(ack: StoredAckView) -> bool {
    &&& ack.command_id.len() > 0
    &&& ack.event_cause.len() > 0
    &&& ack.desired_generation > 0
    &&& ack.fence_epoch > 0
    &&& ack.device_sequence > 0
    &&& ack.observed_at >= 0
    &&& ack.rejection is Some ==> ack.activates_revision is None && !ack.settled_replay
    &&& ack.activates_revision is Some ==> ack.rejection is None && !ack.settled_replay
        && ack.activates_revision->0 > 0
    &&& ack.settled_replay ==> ack.rejection is None && ack.activates_revision is None
    &&& ack.rejection is Some || ack.activates_revision is Some || ack.settled_replay
}

/// What a report that may be kept looks like: it speaks of the installed
/// credential, carries its witness, and tells when it ends.
pub open spec fn meaningful_report(s: StateView, report: StoredReportView) -> bool {
    &&& report.command_id.len() > 0
    &&& report.device_sequence > 0
    &&& report.observed_at >= 0
    &&& report.expires_at is Some
    &&& report.expires_at->0 > 0
    &&& report.credential_generation > 0
    &&& report.observed_generation == s.current.desired_generation
    &&& report.fence_epoch == s.current.fence_epoch
    &&& report.credential_revision == s.current.credential_revision
    &&& report.artifact_digest == s.current.artifact_digest
    &&& digest::is_digest_text(report.state_hash)
    &&& report.state_hash == ledger::state_hash_of(
        s.identity.tenant,
        s.identity.device,
        report.credential_generation,
        report.observed_generation,
        report.fence_epoch,
        report.credential_revision,
        report.artifact_digest,
    )
}

/// What a state that is read back must hold before it is used.
pub open spec fn trustworthy(s: StateView, tenant: u128, device: u128) -> bool {
    &&& s.schema_version == 1
    &&& s.identity.tenant == tenant
    &&& s.identity.device == device
    &&& s.identity.credential_generation > 0
    &&& s.current.desired_generation > 0
    &&& s.current.fence_epoch > 0
    &&& s.current.credential_revision > 0
    &&& s.current.expires_at > 0
    &&& digest::is_digest_text(s.current.artifact_digest)
    &&& s.outbox.len() <= 128
    &&& s.journal.len() <= 1024
    &&& forall|i: int| 0 <= i < s.outbox.len() ==> entry_trusted(s, #[trigger] s.outbox[i])
    &&& forall|i: int, j: int|
        0 <= i < j < s.outbox.len() ==> (#[trigger] s.outbox[i]).event_id() != (
        #[trigger] s.outbox[j]).event_id() && s.outbox[i].sequence() != s.outbox[j].sequence()
    &&& forall|i: int, j: int|
        0 <= i < j < s.outbox.len() ==> (#[trigger] s.outbox[i]) is Ack || (
        #[trigger] s.outbox[j]) is Ack
    &&& forall|i: int| 0 <= i < s.journal.len() ==> journal_trusted(#[trigger] s.journal[i])
    &&& forall|i: int, j: int|
        0 <= i < j < s.journal.len() ==> (#[trigger] s.journal[i]).command_id != (
        #[trigger] s.journal[j]).command_id
    &&& s.pending is Some <==> exists|i: int|
        0 <= i < s.outbox.len() && !((#[trigger] s.outbox[i]) is Ack)
    &&& s.pending is Some ==> {
        let pending = s.pending->0;
        &&& pending.credential_generation > 0
        &&& tenant != 0
        &&& device != 0
        &&& pending.command_id.len() > 0
        &&& digest::is_digest_text(pending.fingerprint)
        &&& pending.topic == crate::value_laws::topics_under(
            tenant,
            device,
            pending.credential_generation,
        ) + "downlink/identity.commands.apply-device-certificate"@
        &&& pending.settlement_token == ledger::settlement_token_of(
            pending.topic,
            pending.command_id,
            pending.fingerprint,
        )
        &&& exists|i: int|
            0 <= i < s.journal.len() && (#[trigger] s.journal[i]).command_id == pending.command_id
                && s.journal[i].fingerprint == pending.fingerprint
    }
    &&& s.reconnect_revision is Some ==> s.reconnect_revision->0 == s.current.credential_revision
        && s.pending is Some
}

pub open spec fn journal_trusted(entry: StoredCommandView) -> bool {
    &&& entry.command_id == entry.acknowledgement.command_id
    &&& digest::is_digest_text(entry.fingerprint)
    &&& entry.retain_until_epoch_seconds > 0
    &&& meaningful_ack(entry.acknowledgement)
}

pub open spec fn entry_trusted(s: StateView, entry: StoredOutboundView) -> bool {
    match entry {
        StoredOutboundView::Ack { event_id, payload } => {
            &&& meaningful_ack(payload)
            &&& payload.device_sequence <= s.device_sequence
            &&& payload.event_cause == payload.command_id ==> event_id == ledger::event_id_of(
                "ack"@,
                payload.command_id,
            )
            &&& payload.event_cause != payload.command_id ==> event_id == ledger::event_id_of(
                "rejected"@,
                payload.event_cause,
            )
            &&& payload.activates_revision is Some ==> payload.activates_revision->0
                == s.current.credential_revision && s.reconnect_revision is None && exists|j: int|
                0 <= j < s.outbox.len() && (#[trigger] s.outbox[j]) is ReportBlocked
                    && s.outbox[j]->ReportBlocked_payload.command_id == payload.command_id
        },
        StoredOutboundView::ReportBlocked { event_id, payload } => {
            &&& meaningful_report(s, payload)
            &&& payload.device_sequence <= s.device_sequence
            &&& event_id == ledger::event_id_of("report"@, payload.command_id)
            &&& s.reconnect_revision is None <==> exists|j: int|
                0 <= j < s.outbox.len() && (#[trigger] s.outbox[j]) is Ack
                    && s.outbox[j]->Ack_payload.activates_revision == Some(
                    s.current.credential_revision,
                ) && s.outbox[j]->Ack_payload.command_id == payload.command_id
        },
        StoredOutboundView::ReportReady { event_id, payload } => {
            &&& meaningful_report(s, payload)
            &&& payload.device_sequence <= s.device_sequence
            &&& event_id == ledger::event_id_of("report"@, payload.command_id)
            &&& s.reconnect_revision is None
        },
    }
}

proof fn lemma_trusted_entry(s: StateView, i: int)
    requires
        0 <= i < s.outbox.len(),
        s.current.desired_generation > 0,
        s.current.fence_epoch > 0,
        s.current.credential_revision > 0,
        digest::is_digest_text(s.current.artifact_digest),
        s.reconnect_revision is Some ==> s.reconnect_revision->0 == s.current.credential_revision,
        forall|j: int|
            0 <= j < s.outbox.len() && (#[trigger] s.outbox[j]).report() is Some
                ==> s.outbox[j].report()->0.credential_revision == s.current.credential_revision,
    ensures
        entry_trusted(s, s.outbox[i]) <==> s.entry_valid(s.outbox[i]) && s.phase_valid_at(
            s.outbox[i],
        ),
{
    let entry = s.outbox[i];
    assert(entry.report() is Some ==> entry.report()->0.credential_revision
        == s.current.credential_revision);
    match entry {
        StoredOutboundView::Ack { payload, .. } => {
            if payload.activates_revision is Some {
                let revision = payload.activates_revision->0;
                if s.has_blocked_report(revision, payload.command_id) {
                    let j = choose|j: int|
                        0 <= j < s.outbox.len() && crate::state::blocks(
                            #[trigger] s.outbox[j],
                            revision,
                            payload.command_id,
                        );
                    assert(s.outbox[j] is ReportBlocked);
                }
                if revision == s.current.credential_revision && exists|j: int|
                    0 <= j < s.outbox.len() && (#[trigger] s.outbox[j]) is ReportBlocked
                        && s.outbox[j]->ReportBlocked_payload.command_id == payload.command_id {
                    let j = choose|j: int|
                        0 <= j < s.outbox.len() && (#[trigger] s.outbox[j]) is ReportBlocked
                            && s.outbox[j]->ReportBlocked_payload.command_id == payload.command_id;
                    assert(s.outbox[j].report() is Some);
                    assert(crate::state::blocks(s.outbox[j], revision, payload.command_id));
                }
            }
        },
        StoredOutboundView::ReportBlocked { payload, .. } => {
            let revision = payload.credential_revision;
            if s.has_activation(revision, payload.command_id) {
                let j = choose|j: int|
                    0 <= j < s.outbox.len() && crate::state::activates_for(
                        #[trigger] s.outbox[j],
                        revision,
                        payload.command_id,
                    );
                assert(s.outbox[j] is Ack);
            }
            if exists|j: int|
                0 <= j < s.outbox.len() && (#[trigger] s.outbox[j]) is Ack
                    && s.outbox[j]->Ack_payload.activates_revision == Some(revision)
                    && s.outbox[j]->Ack_payload.command_id == payload.command_id {
                let j = choose|j: int|
                    0 <= j < s.outbox.len() && (#[trigger] s.outbox[j]) is Ack
                        && s.outbox[j]->Ack_payload.activates_revision == Some(revision)
                        && s.outbox[j]->Ack_payload.command_id == payload.command_id;
                assert(crate::state::activates_for(s.outbox[j], revision, payload.command_id));
            }
        },
        StoredOutboundView::ReportReady { .. } => {},
    }
}

proof fn lemma_in_flight(s: StateView)
    ensures
        s.rotation_in_flight() <==> exists|i: int|
            0 <= i < s.outbox.len() && !((#[trigger] s.outbox[i]) is Ack),
{
    if s.rotation_in_flight() {
        let i = choose|i: int| 0 <= i < s.outbox.len() && (#[trigger] s.outbox[i]).is_report();
        assert(!(s.outbox[i] is Ack));
    }
    if exists|i: int| 0 <= i < s.outbox.len() && !((#[trigger] s.outbox[i]) is Ack) {
        let i = choose|i: int| 0 <= i < s.outbox.len() && !((#[trigger] s.outbox[i]) is Ack);
        assert(s.outbox[i].is_report());
    }
}

proof fn lemma_trustworthy(s: StateView, tenant: u128, device: u128)
    ensures
        trustworthy(s, tenant, device) <==> s.valid_for(tenant, device),
{
    lemma_in_flight(s);
    if s.valid_for(tenant, device) {
        assert forall|j: int| 0 <= j < s.outbox.len() && (#[trigger] s.outbox[j]).report()
            is Some implies s.outbox[j].report()->0.credential_revision
            == s.current.credential_revision by {
            assert(s.entry_valid(s.outbox[j]));
        }
        assert forall|i: int| 0 <= i < s.outbox.len() implies entry_trusted(
            s,
            #[trigger] s.outbox[i],
        ) by {
            assert(s.entry_valid(s.outbox[i]));
            assert(s.phase_valid_at(s.outbox[i]));
            lemma_trusted_entry(s, i);
        }
        assert forall|i: int, j: int| 0 <= i < j < s.outbox.len() implies (
        #[trigger] s.outbox[i]) is Ack || (#[trigger] s.outbox[j]) is Ack by {
            assert(!(s.outbox[i].is_report() && s.outbox[j].is_report()));
        }
        assert forall|i: int| 0 <= i < s.journal.len() implies journal_trusted(
            #[trigger] s.journal[i],
        ) by {
            assert(s.journal[i].semantic_valid());
        }
    }
    if trustworthy(s, tenant, device) {
        assert forall|j: int| 0 <= j < s.outbox.len() && (#[trigger] s.outbox[j]).report()
            is Some implies s.outbox[j].report()->0.credential_revision
            == s.current.credential_revision by {
            assert(entry_trusted(s, s.outbox[j]));
        }
        assert forall|i: int| 0 <= i < s.outbox.len() implies s.entry_valid(
            #[trigger] s.outbox[i],
        ) && s.phase_valid_at(s.outbox[i]) by {
            assert(entry_trusted(s, s.outbox[i]));
            lemma_trusted_entry(s, i);
        }
        assert forall|i: int, j: int| 0 <= i < j < s.outbox.len() implies !((
        #[trigger] s.outbox[i]).is_report() && (#[trigger] s.outbox[j]).is_report()) by {
            assert(s.outbox[i] is Ack || s.outbox[j] is Ack);
        }
        assert forall|i: int| 0 <= i < s.journal.len() implies (
        #[trigger] s.journal[i]).semantic_valid() by {
            assert(journal_trusted(s.journal[i]));
        }
    }
}

/// A state is accepted for a device exactly if it belongs to it and hangs
/// together: every entry is meaningful and its own, at most one report is
/// queued, the report speaks of the installed credential, and a delivery is
/// awaited exactly while the report is queued.
pub proof fn law_accepted_states_hang_together(
    state: &StateV1,
    identity: &DeviceIdentity,
    r: Result<(), StoreError>,
    own: Result<(), StoreError>,
)
    requires
        call_ensures(StateV1::verify, (state, identity), r),
        call_ensures(StateV1::validate, (state,), own),
    ensures
        r is Ok <==> trustworthy(state@, identity@.tenant, identity@.device),
        r is Err ==> r == Err::<(), StoreError>(StoreError::InvalidState),
        own is Ok <==> {
            &&& state@.identity.tenant != 0
            &&& state@.identity.device != 0
            &&& trustworthy(state@, state@.identity.tenant, state@.identity.device)
        },
        own is Err ==> own == Err::<(), StoreError>(StoreError::InvalidState),
{
    lemma_trustworthy(state@, identity@.tenant, identity@.device);
    lemma_trustworthy(state@, state@.identity.tenant, state@.identity.device);
}

/// What is made durable was accepted first.
pub proof fn law_candidates_were_accepted(
    state: StateV1,
    r: Result<DurableCandidate, AgentError>,
)
    requires
        call_ensures(DurableCandidate::new, (state,), r),
    ensures
        r is Ok <==> {
            &&& state@.identity.tenant != 0
            &&& state@.identity.device != 0
            &&& trustworthy(state@, state@.identity.tenant, state@.identity.device)
        },
        r matches Ok(candidate) ==> candidate@ == state@,
{
    lemma_trustworthy(state@, state@.identity.tenant, state@.identity.device);
}

/// A device starts with what it was provisioned with, and with nothing to
/// say and nothing remembered.
pub proof fn law_a_provisioned_device_starts_empty(
    identity: &DeviceIdentity,
    position: InstalledCredentialPosition,
    digest: &Sha256Digest,
    expires_at: i64,
    retention: NonZeroU32,
    r: ReferenceDeviceAgent,
)
    requires
        call_ensures(
            ReferenceDeviceAgent::provision,
            (identity, position, digest, expires_at, retention),
            r,
        ),
    ensures
        r@.identity == identity@,
        r@.current.desired_generation == position@.desired_generation,
        r@.current.fence_epoch == position@.fence_epoch,
        r@.current.credential_revision == position@.credential_revision,
        r@.current.artifact_digest == digest@,
        r@.current.expires_at == expires_at,
        r@.outbox.len() == 0,
        r@.journal.len() == 0,
        r@.pending is None,
        r@.reconnect_revision is None,
        r@.device_sequence == 0,
        r@.schema_version == 1,
        r.retention() == retention@,
{
}

/// A state that was read back is taken up only by the device it belongs to,
/// and only over the files it speaks of.
pub proof fn law_a_device_resumes_its_own_state(
    state: StateV1,
    identity: &DeviceIdentity,
    retention: NonZeroU32,
    r: Result<ReferenceDeviceAgent, AgentError>,
    digest: &Sha256Digest,
    confirmed: Result<(), AgentError>,
)
    requires
        call_ensures(ReferenceDeviceAgent::resume, (state, identity, retention), r),
        r is Ok ==> call_ensures(
            ReferenceDeviceAgent::confirm_installed,
            (&r->Ok_0, digest),
            confirmed,
        ),
    ensures
        r is Ok ==> {
            &&& r->Ok_0@ == state@
            &&& r->Ok_0.retention() == retention@
            &&& state@.identity.tenant == identity@.tenant
            &&& state@.identity.device == identity@.device
            &&& state@.identity.tenant != 0
            &&& state@.identity.device != 0
            &&& confirmed is Ok <==> digest@ == state@.current.artifact_digest
        },
        r is Err ==> r == Err::<ReferenceDeviceAgent, AgentError>(
            AgentError::Store(StoreError::InvalidState),
        ),
        state@.valid() && state@.identity.tenant == identity@.tenant && state@.identity.device
            == identity@.device ==> r is Ok,
{
}

} // verus!
