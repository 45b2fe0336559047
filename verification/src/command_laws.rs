//! Laws of a delivered command: what each answer of the agent says about the
//! command, the device and the time, and what an installation leaves behind.
//! Each law speaks of every call of the operation and of whatever it returned.

use crate::agent;
use crate::agent::{AgentError, CommandStep, ReferenceDeviceAgent};
use crate::catalog::{CatalogEntryV1, CatalogError, CatalogV1, ResolvedArtifact};
use crate::digest;
use crate::identity::{ApplyOutcome, CommandRejection, CommandView, DeviceCommand, DeviceIdentity};
use crate::ledger;
use crate::ledger::{StoredCommandView, StoredOutboundView, StoredRejection};
use crate::material::CredentialError;
use crate::soundness;
use crate::state;
use crate::state::{RejectedView, StateView, StoreError};
use crate::state_laws;
use vstd::prelude::*;

verus! {

/// The journal does not remember the command: no entry under its identity
/// is still to be kept.
pub open spec fn unknown(s: StateView, command_id: Seq<char>, now: u64) -> bool {
    forall|i: int|
        0 <= i < s.journal.len() ==> (#[trigger] s.journal[i]).command_id != command_id
            || s.journal[i].retain_until_epoch_seconds <= now
}

/// Nothing but acknowledgements is queued: no rotation waits for its report.
pub open spec fn idle(s: StateView) -> bool {
    forall|i: int| 0 <= i < s.outbox.len() ==> (#[trigger] s.outbox[i]) is Ack
}

/// The state names a device that can be authenticated.
pub open spec fn named(s: StateView) -> bool {
    s.identity.tenant != 0 && s.identity.device != 0 && s.identity.credential_generation > 0
}

/// There is room for the answer to a command, and nothing of the command is
/// left over in the outbox.
pub open spec fn answerable(s: StateView, command: CommandView, now: u64) -> bool {
    &&& s.sound()
    &&& s.outbox.len() < 128
    &&& s.journal.len() < 1024
    &&& s.device_sequence < u64::MAX
    &&& 0 < now <= i64::MAX
    &&& command.command_id.len() > 0
    &&& command.desired_generation > 0
    &&& command.fence_epoch > 0
    &&& digest::is_digest_text(agent::command_fingerprint_of(command))
    &&& forall|i: int|
        0 <= i < s.outbox.len() ==> (#[trigger] s.outbox[i]).event_id() != ledger::event_id_of(
            "ack"@,
            command.command_id,
        )
}

/// The rejection as it is kept with an acknowledgement.
pub open spec fn same_reason(kept: StoredRejection, reason: CommandRejection) -> bool {
    match kept {
        StoredRejection::ArtifactUnavailable => reason is ArtifactUnavailable,
        StoredRejection::ArtifactDigestMismatch => reason is ArtifactDigestMismatch,
        StoredRejection::PolicyRejected => reason is PolicyRejected,
        StoredRejection::GenerationStale => reason is GenerationStale,
        StoredRejection::FenceEpochStale => reason is FenceEpochStale,
        StoredRejection::MalformedCommand => reason is MalformedCommand,
        StoredRejection::DeviceFailure => reason is DeviceFailure,
    }
}

/// `t` is `s` with one more acknowledgement queued and remembered: it
/// rejects what came under the identity for the reason, under the next
/// number and the time, and is remembered for the retention.
pub open spec fn refusal_recorded(
    s: StateView,
    t: StateView,
    told: RejectedView,
    now: u64,
    retention: u32,
) -> bool {
    &&& t.identity == s.identity
    &&& t.current == s.current
    &&& t.pending == s.pending
    &&& t.reconnect_revision == s.reconnect_revision
    &&& t.device_sequence == s.device_sequence + 1
    &&& t.outbox.len() == s.outbox.len() + 1
    &&& forall|i: int| 0 <= i < s.outbox.len() ==> #[trigger] t.outbox[i] == s.outbox[i]
    &&& t.outbox.last() matches StoredOutboundView::Ack { event_id, payload } && {
        &&& event_id == ledger::event_id_of("ack"@, told.command_id)
        &&& payload.command_id == told.command_id
        &&& payload.event_cause == told.command_id
        &&& payload.desired_generation == told.generation
        &&& payload.fence_epoch == told.fence
        &&& payload.device_sequence == s.device_sequence + 1
        &&& payload.observed_at == now
        &&& payload.rejection matches Some(kept) && same_reason(kept, told.rejection)
        &&& payload.activates_revision is None
        &&& !payload.settled_replay
        &&& t.journal.len() > 0
        &&& t.journal.last().command_id == told.command_id
        &&& t.journal.last().fingerprint == told.fingerprint
        &&& t.journal.last().acknowledgement == payload
        &&& t.journal.last().retain_until_epoch_seconds == now + retention
    }
}

/// The rejection of the command is recorded at its own position and with its
/// own content.
pub open spec fn rejection_recorded(
    s: StateView,
    t: StateView,
    command: CommandView,
    reason: CommandRejection,
    now: u64,
    retention: u32,
) -> bool {
    exists|told: RejectedView| #[trigger]
        refusal_recorded(s, t, told, now, retention) && told.command_id == command.command_id
            && told.fingerprint == agent::command_fingerprint_of(command) && told.generation
            == command.desired_generation && told.fence == command.fence_epoch && told.rejection
            == reason
}

/// The command is answered with a rejection for the reason, and that answer
/// is what is to be made durable.
pub open spec fn rejects(
    s: StateView,
    command: CommandView,
    reason: CommandRejection,
    now: u64,
    retention: u32,
    r: Result<CommandStep, AgentError>,
) -> bool {
    &&& r matches Ok(CommandStep::Commit { candidate, outcome })
    &&& outcome == ApplyOutcome::Rejected(reason)
    &&& rejection_recorded(s, candidate@, command, reason, now, retention)
}

proof fn lemma_unknown(s: StateView, command_id: Seq<char>, now: u64)
    requires
        unknown(s, command_id, now),
    ensures
        !s.has_live(command_id, now),
{
}

proof fn lemma_idle(s: StateView)
    requires
        idle(s),
    ensures
        !s.rotation_in_flight(),
{
}

proof fn lemma_gone<A>(s: Seq<A>, keep: spec_fn(A) -> bool)
    ensures
        s.filter(keep).len() <= s.len(),
        forall|k: int|
            0 <= k < s.filter(keep).len() ==> keep(#[trigger] s.filter(keep)[k]) && s.contains(
                s.filter(keep)[k],
            ),
    decreases s.len(),
{
    reveal(Seq::filter);
    if s.len() > 0 {
        let front = s.drop_last();
        lemma_gone(front, keep);
        assert forall|k: int| 0 <= k < s.filter(keep).len() implies keep(
            #[trigger] s.filter(keep)[k],
        ) && s.contains(s.filter(keep)[k]) by {
            if k < front.filter(keep).len() {
                let x = front.filter(keep)[k];
                assert(s.filter(keep)[k] == x);
                assert(front.contains(x));
                let at = choose|at: int| 0 <= at < front.len() && front[at] == x;
                assert(s[at] == x);
            } else {
                assert(s.filter(keep)[k] == s[s.len() - 1]);
            }
        }
    }
}

/// Where there is room, a rejection is recorded.
proof fn lemma_refusal_commits(s: StateView, told: RejectedView, now: u64, retention: u32)
    requires
        s.sound(),
        s.outbox.len() < 128,
        s.journal.len() < 1024,
        s.device_sequence < u64::MAX,
        0 < now <= i64::MAX,
        unknown(s, told.command_id, now),
        !(s.pending is Some && s.pending->0.command_id == told.command_id),
        forall|i: int|
            0 <= i < s.outbox.len() ==> (#[trigger] s.outbox[i]).event_id() != ledger::event_id_of(
                "ack"@,
                told.command_id,
            ),
        told.command_id.len() > 0,
        digest::is_digest_text(told.fingerprint),
        told.generation > 0,
        told.fence > 0,
        told.observed_at == agent::observed_time(now),
        told.retain_until_epoch_seconds == agent::retention_deadline(
            agent::observed_time(now),
            retention,
        ),
    ensures
        agent::rejection_step(s, told, now) == (agent::StepView::Commit {
            state: s.expire(now).reject(told),
            outcome: ApplyOutcome::Rejected(told.rejection),
        }),
        refusal_recorded(s, s.expire(now).reject(told), told, now, retention),
{
    let e = s.expire(now);
    soundness::law_expiry_keeps_sound(s, now);
    lemma_gone(s.journal, |entry: StoredCommandView| s.retains(entry, now));
    assert(!e.journalled(told.command_id)) by {
        if e.journalled(told.command_id) {
            let k = choose|k: int|
                0 <= k < e.journal.len() && (#[trigger] e.journal[k]).command_id == told.command_id;
            let entry = e.journal[k];
            assert(s.journal.contains(entry));
            let at = choose|at: int| 0 <= at < s.journal.len() && s.journal[at] == entry;
            assert(s.journal[at].command_id == told.command_id);
        }
    }
    assert(!e.has_event(ledger::event_id_of("ack"@, told.command_id)));
    assert(e.rejectable(told));
    soundness::law_reject_keeps_sound(e, told);
    let t = e.reject(told);
    assert(t.outbox.last() == t.outbox[t.outbox.len() - 1]);
    assert(t.journal.last() == t.journal[t.journal.len() - 1]);
}

proof fn lemma_rejection_commits(
    s: StateView,
    command: CommandView,
    reason: CommandRejection,
    now: u64,
    retention: u32,
)
    requires
        answerable(s, command, now),
        unknown(s, command.command_id, now),
        idle(s),
    ensures
        ({
            let told = agent::rejected(command, reason, now, retention);
            let e = s.expire(agent::observed_time(now) as u64);
            &&& agent::rejection_step(s, told, agent::observed_time(now) as u64)
                == (agent::StepView::Commit {
                state: e.reject(told),
                outcome: ApplyOutcome::Rejected(reason),
            })
            &&& rejection_recorded(s, e.reject(told), command, reason, now, retention)
        }),
{
    lemma_idle(s);
    soundness::lemma_idle(s);
    lemma_refusal_commits(s, agent::rejected(command, reason, now, retention), now, retention);
}

/// A command that has passed its deadline is never looked up, whatever it
/// names and wherever it comes from.
pub proof fn law_expired_commands_are_never_resolved(
    agent: &ReferenceDeviceAgent,
    topic: &str,
    command: &DeviceCommand,
    now: u64,
    r: Result<CommandStep, AgentError>,
)
    requires
        call_ensures(ReferenceDeviceAgent::apply_command, (agent, topic, command, now), r),
        command@.deadline_epoch_seconds <= now,
    ensures
        !(r matches Ok(CommandStep::Resolve(_))),
        !(r matches Ok(CommandStep::Install { .. })),
{
}

/// An expired command on the device's own topic is rejected by policy.
pub proof fn law_expired_commands_are_rejected_by_policy(
    agent: &ReferenceDeviceAgent,
    topic: &str,
    command: &DeviceCommand,
    now: u64,
    r: Result<CommandStep, AgentError>,
)
    requires
        call_ensures(ReferenceDeviceAgent::apply_command, (agent, topic, command, now), r),
        unknown(agent@, command@.command_id, now),
        idle(agent@),
        answerable(agent@, command@, now),
        topic@ == agent@.identity.command_topic(),
        command@.device_id == agent@.identity.device,
        command@.deadline_epoch_seconds <= now,
    ensures
        rejects(
            agent@,
            command@,
            CommandRejection::PolicyRejected,
            now,
            agent.retention(),
            r,
        ),
{
    lemma_unknown(agent@, command@.command_id, now);
    lemma_idle(agent@);
    lemma_rejection_commits(
        agent@,
        command@,
        CommandRejection::PolicyRejected,
        now,
        agent.retention(),
    );
}

/// A command on another topic, or for another device, is malformed to this
/// device, whatever its deadline.
pub proof fn law_foreign_commands_are_malformed(
    agent: &ReferenceDeviceAgent,
    topic: &str,
    command: &DeviceCommand,
    now: u64,
    r: Result<CommandStep, AgentError>,
)
    requires
        call_ensures(ReferenceDeviceAgent::apply_command, (agent, topic, command, now), r),
        unknown(agent@, command@.command_id, now),
        topic@ != agent@.identity.command_topic() || command@.device_id != agent@.identity.device,
    ensures
        !(r matches Ok(CommandStep::Resolve(_))),
        idle(agent@) && answerable(agent@, command@, now) ==> rejects(
            agent@,
            command@,
            CommandRejection::MalformedCommand,
            now,
            agent.retention(),
            r,
        ),
{
    lemma_unknown(agent@, command@.command_id, now);
    if idle(agent@) && answerable(agent@, command@, now) {
        lemma_idle(agent@);
        lemma_rejection_commits(
            agent@,
            command@,
            CommandRejection::MalformedCommand,
            now,
            agent.retention(),
        );
    }
}

/// The artifact of a command is looked up exactly for a fresh command of
/// this device, on its own topic, before the deadline, while no rotation is
/// in flight; and it is looked up for the installed identity.
pub proof fn law_timely_commands_of_the_device_are_resolved(
    agent: &ReferenceDeviceAgent,
    topic: &str,
    command: &DeviceCommand,
    now: u64,
    r: Result<CommandStep, AgentError>,
)
    requires
        call_ensures(ReferenceDeviceAgent::apply_command, (agent, topic, command, now), r),
    ensures
        r matches Ok(CommandStep::Resolve(_)) <==> {
            &&& unknown(agent@, command@.command_id, now)
            &&& idle(agent@)
            &&& named(agent@)
            &&& topic@ == agent@.identity.command_topic()
            &&& command@.device_id == agent@.identity.device
            &&& now < command@.deadline_epoch_seconds
        },
        r matches Ok(CommandStep::Resolve(identity)) ==> identity@ == agent@.identity,
{
    let s = agent@;
    if r matches Ok(CommandStep::Resolve(_)) {
        assert(!s.has_live(command@.command_id, now));
        assert forall|i: int| 0 <= i < s.journal.len() implies (
        #[trigger] s.journal[i]).command_id != command@.command_id
            || s.journal[i].retain_until_epoch_seconds <= now by {
            assert(!state::live(s.journal[i], command@.command_id, now));
        }
        assert forall|i: int| 0 <= i < s.outbox.len() implies (#[trigger] s.outbox[i]) is Ack by {
            assert(!s.outbox[i].is_report());
        }
    }
    if unknown(s, command@.command_id, now) {
        lemma_unknown(s, command@.command_id, now);
    }
    if idle(s) {
        lemma_idle(s);
    }
}

/// While a rotation waits for its report, a fresh command is turned away
/// without an answer.
pub proof fn law_commands_wait_for_the_rotation(
    agent: &ReferenceDeviceAgent,
    topic: &str,
    command: &DeviceCommand,
    now: u64,
    r: Result<CommandStep, AgentError>,
)
    requires
        call_ensures(ReferenceDeviceAgent::apply_command, (agent, topic, command, now), r),
        unknown(agent@, command@.command_id, now),
        !idle(agent@),
    ensures
        r == Err::<CommandStep, AgentError>(AgentError::RotationInFlight),
{
    let s = agent@;
    lemma_unknown(s, command@.command_id, now);
    let i = choose|i: int| 0 <= i < s.outbox.len() && !((#[trigger] s.outbox[i]) is Ack);
    assert(s.outbox[i].is_report());
}

/// Nothing in the outbox answers the remembered entry `k` yet: no
/// acknowledgement of its identity where the content is the remembered one,
/// no rejection of this very content where it is not.
pub open spec fn unanswered(s: StateView, k: int, fingerprint: Seq<char>) -> bool {
    let id = s.journal[k].command_id;
    forall|i: int|
        0 <= i < s.outbox.len() ==> if s.journal[k].fingerprint == fingerprint {
            !((#[trigger] s.outbox[i]) matches StoredOutboundView::Ack { payload, .. }
                && payload.command_id == id)
        } else {
            s.outbox[i].event_id() != ledger::event_id_of("rejected"@, id + "\0"@ + fingerprint)
        }
}

/// What the remembered entry `k` is answered with when it comes again. What
/// is queued already is not queued twice; otherwise one acknowledgement
/// joins the outbox, which repeats the remembered answer or rejects the other
/// content, and nothing else changes.
pub open spec fn told_again(
    s: StateView,
    k: int,
    fingerprint: Seq<char>,
    generation: u64,
    fence: u64,
    now: u64,
    r: Result<CommandStep, AgentError>,
) -> bool {
    let id = s.journal[k].command_id;
    let repeated = s.journal[k].fingerprint == fingerprint;
    let expected = if repeated {
        ApplyOutcome::Duplicate
    } else {
        ApplyOutcome::Rejected(CommandRejection::MalformedCommand)
    };
    match r {
        Ok(CommandStep::Answer(outcome)) => !unanswered(s, k, fingerprint) && outcome == expected,
        Ok(CommandStep::Commit { candidate, outcome }) => {
            let t = candidate@;
            &&& unanswered(s, k, fingerprint)
            &&& outcome == expected
            &&& s.outbox.len() < 128
            &&& t.current == s.current
            &&& t.identity == s.identity
            &&& t.journal == s.journal
            &&& t.pending == s.pending
            &&& t.outbox.len() == s.outbox.len() + 1
            &&& t.outbox.drop_last() == s.outbox
            &&& if repeated {
                &&& t.device_sequence == s.device_sequence
                &&& state_laws::repeats(s.journal[k].acknowledgement, t.outbox.last(), id)
                &&& t.outbox.last() matches StoredOutboundView::Ack { payload, .. }
                    && payload.activates_revision is None
            } else {
                &&& s.device_sequence < u64::MAX ==> t.device_sequence == s.device_sequence + 1
                &&& t.outbox.last() matches StoredOutboundView::Ack { event_id, payload } && {
                    &&& event_id == ledger::event_id_of("rejected"@, payload.event_cause)
                    &&& payload.event_cause == id + "\0"@ + fingerprint
                    &&& payload.command_id == id
                    &&& payload.desired_generation == generation
                    &&& payload.fence_epoch == fence
                    &&& payload.device_sequence == t.device_sequence
                    &&& now <= i64::MAX ==> payload.observed_at == now
                    &&& payload.rejection == Some(StoredRejection::MalformedCommand)
                    &&& payload.activates_revision is None
                }
            }
        },
        Err(error) => {
            &&& unanswered(s, k, fingerprint)
            &&& error == AgentError::Store(StoreError::OutboxFull) <==> s.outbox.len() >= 128
            &&& error == AgentError::Store(StoreError::OutboxFull) || error == AgentError::Store(
                StoreError::InvalidState,
            )
        },
        _ => false,
    }
}

/// The remembered entry `k` can be answered once more: the state is sound,
/// with room in the outbox and a number left, and the answer has a name that
/// is not taken.
pub open spec fn answerable_again(
    s: StateView,
    k: int,
    fingerprint: Seq<char>,
    generation: u64,
    fence: u64,
) -> bool {
    &&& s.sound()
    &&& s.outbox.len() < 128
    &&& if s.journal[k].fingerprint == fingerprint {
        forall|i: int|
            0 <= i < s.outbox.len() ==> (#[trigger] s.outbox[i]).event_id() != ledger::event_id_of(
                "ack"@,
                s.journal[k].command_id,
            )
    } else {
        s.device_sequence < u64::MAX && generation > 0 && fence > 0
    }
}

proof fn lemma_told_again(
    s: StateView,
    k: int,
    fingerprint: Seq<char>,
    generation: u64,
    fence: u64,
    now: u64,
    r: Result<CommandStep, AgentError>,
)
    requires
        s.valid(),
        0 <= k < s.journal.len(),
        s.journal[k].retain_until_epoch_seconds > now,
        s.has_live(s.journal[k].command_id, now) ==> agent::step_of(r) == agent::known_step(
            s,
            s.journal[k].command_id,
            fingerprint,
            generation,
            fence,
            now,
        ),
    ensures
        s.has_live(s.journal[k].command_id, now),
        told_again(s, k, fingerprint, generation, fence, now, r),
        answerable_again(s, k, fingerprint, generation, fence) ==> r is Ok,
{
    let id = s.journal[k].command_id;
    assert(state::live(s.journal[k], id, now));
    assert(s.has_live(id, now));
    assert forall|j: int| 0 <= j < s.journal.len() && j != k implies (
    #[trigger] s.journal[j]).command_id != id by {
        if j < k {
            assert(s.journal[j].command_id != s.journal[k].command_id);
        } else {
            assert(s.journal[k].command_id != s.journal[j].command_id);
        }
    }
    assert(s.is_live_at(k, id, now));
    let i = choose|i: int| s.is_live_at(i, id, now);
    assert(i == k);
    assert(s.journal[k].semantic_valid());
    if s.journal[k].fingerprint == fingerprint {
        assert(s.is_journalled_at(k, id, fingerprint));
        let j = choose|j: int| s.is_journalled_at(j, id, fingerprint);
        assert(j == k);
        if s.has_command_ack(id) {
            let q = choose|q: int|
                0 <= q < s.outbox.len() && state::acknowledges(#[trigger] s.outbox[q], id);
            assert(!unanswered(s, k, fingerprint));
        } else {
            assert forall|q: int| 0 <= q < s.outbox.len() implies !((
            #[trigger] s.outbox[q]) matches StoredOutboundView::Ack { payload, .. }
                && payload.command_id == id) by {
                assert(!state::acknowledges(s.outbox[q], id));
            }
            assert(unanswered(s, k, fingerprint));
            assert(s.replay(k).outbox.drop_last() =~= s.outbox);
            if answerable_again(s, k, fingerprint, generation, fence) {
                soundness::law_replay_keeps_sound(s, k);
            }
        }
    } else {
        let event = ledger::event_id_of("rejected"@, id + "\0"@ + fingerprint);
        if s.has_event(event) {
            let q = choose|q: int|
                0 <= q < s.outbox.len() && (#[trigger] s.outbox[q]).event_id() == event;
            assert(!unanswered(s, k, fingerprint));
        } else {
            assert(unanswered(s, k, fingerprint));
            let t = s.reject_conflicting_replay(
                id,
                fingerprint,
                generation,
                fence,
                agent::observed_time(now),
            );
            assert(t.outbox.drop_last() =~= s.outbox);
            if answerable_again(s, k, fingerprint, generation, fence) {
                soundness::law_conflicting_replay_keeps_sound(
                    s,
                    id,
                    fingerprint,
                    generation,
                    fence,
                    agent::observed_time(now),
                );
            }
        }
    }
}

/// A remembered command is never looked up or installed again: with the
/// remembered content it is a duplicate, with any other it is malformed, and
/// an answer that waits in the outbox is not queued twice.
pub proof fn law_remembered_commands_are_only_answered(
    agent: &ReferenceDeviceAgent,
    topic: &str,
    command: &DeviceCommand,
    now: u64,
    k: int,
    r: Result<CommandStep, AgentError>,
)
    requires
        call_ensures(ReferenceDeviceAgent::apply_command, (agent, topic, command, now), r),
        agent@.valid(),
        0 <= k < agent@.journal.len(),
        agent@.journal[k].command_id == command@.command_id,
        agent@.journal[k].retain_until_epoch_seconds > now,
    ensures
        ({
            let s = agent@;
            let fingerprint = agent::command_fingerprint_of(command@);
            let generation = command@.desired_generation;
            let fence = command@.fence_epoch;
            &&& told_again(s, k, fingerprint, generation, fence, now, r)
            &&& answerable_again(s, k, fingerprint, generation, fence) ==> r is Ok
        }),
{
    lemma_told_again(
        agent@,
        k,
        agent::command_fingerprint_of(command@),
        command@.desired_generation,
        command@.fence_epoch,
        now,
        r,
    );
}

/// An undecodable delivery under the identity of a remembered command is
/// answered as that command would be, at the device's own position.
pub proof fn law_remembered_deliveries_are_only_answered(
    agent: &ReferenceDeviceAgent,
    topic: &str,
    command_id: &str,
    payload: &[u8],
    now: u64,
    k: int,
    r: Result<CommandStep, AgentError>,
)
    requires
        call_ensures(
            ReferenceDeviceAgent::reject_malformed_delivery,
            (agent, topic, command_id, payload, now),
            r,
        ),
        agent@.valid(),
        topic@ == agent@.identity.command_topic() || (agent@.pending is Some
            && agent@.pending->0.topic == topic@),
        0 <= k < agent@.journal.len(),
        agent@.journal[k].command_id == command_id@,
        agent@.journal[k].retain_until_epoch_seconds > now,
    ensures
        ({
            let s = agent@;
            let fingerprint = agent::malformed_fingerprint_of(topic@, command_id@, payload@);
            let generation = s.current.desired_generation;
            let fence = s.current.fence_epoch;
            &&& told_again(s, k, fingerprint, generation, fence, now, r)
            &&& answerable_again(s, k, fingerprint, generation, fence) ==> r is Ok
        }),
{
    lemma_told_again(
        agent@,
        k,
        agent::malformed_fingerprint_of(topic@, command_id@, payload@),
        agent@.current.desired_generation,
        agent@.current.fence_epoch,
        now,
        r,
    );
}

/// Why a failed lookup is answered as it is: an artifact that is not there is
/// unavailable, one with other bytes has another digest, one for another
/// purpose or without trust is against policy, an unreadable catalog makes
/// the command malformed, and unusable files are the device's failure.
pub open spec fn lookup_reason(error: CatalogError, reason: CommandRejection) -> bool {
    &&& reason is ArtifactUnavailable <==> error is NotFound || error is Unavailable
    &&& reason is ArtifactDigestMismatch <==> error is DigestMismatch
    &&& reason is PolicyRejected <==> {
        ||| error is BindingMismatch
        ||| error is Revoked
        ||| error == CatalogError::Credential(CredentialError::Untrusted)
        ||| error == CatalogError::Credential(CredentialError::IdentityMismatch)
    }
    &&& reason is MalformedCommand <==> error is Malformed
    &&& reason is DeviceFailure <==> {
        ||| error == CatalogError::Credential(CredentialError::Unavailable)
        ||| error == CatalogError::Credential(CredentialError::Malformed)
        ||| error == CatalogError::Credential(CredentialError::InsecurePrivateKey)
    }
}

/// A failed lookup never installs anything; it is answered with the reason
/// that fits the failure.
pub proof fn law_failed_lookups_are_rejected(
    agent: &ReferenceDeviceAgent,
    command: &DeviceCommand,
    error: CatalogError,
    now: u64,
    r: Result<CommandStep, AgentError>,
)
    requires
        call_ensures(
            ReferenceDeviceAgent::apply_artifact,
            (agent, command, &Err::<ResolvedArtifact, CatalogError>(error), now),
            r,
        ),
    ensures
        !(r matches Ok(CommandStep::Install { .. })),
        r matches Ok(CommandStep::Commit { candidate, outcome }) ==> {
            &&& outcome matches ApplyOutcome::Rejected(reason)
            &&& lookup_reason(error, reason)
        },
        unknown(agent@, command@.command_id, now) && idle(agent@) && answerable(
            agent@,
            command@,
            now,
        ) ==> exists|reason: CommandRejection|
            lookup_reason(error, reason) && #[trigger] rejects(
                agent@,
                command@,
                reason,
                now,
                agent.retention(),
                r,
            ),
{
    let reason = agent::catalog_rejection_of(error);
    if unknown(agent@, command@.command_id, now) && idle(agent@) && answerable(
        agent@,
        command@,
        now,
    ) {
        lemma_rejection_commits(agent@, command@, reason, now, agent.retention());
        assert(rejects(agent@, command@, reason, now, agent.retention(), r));
    }
}

/// Why a command with its artifact is not installed: the fence first, then
/// the generation, then whatever would not move the device forward.
pub open spec fn position_reason(
    s: StateView,
    command: CommandView,
    artifact: ResolvedArtifact,
    reason: CommandRejection,
) -> bool {
    let artifact_generation = artifact.credential_generation@;
    &&& reason is FenceEpochStale <==> command.fence_epoch < s.current.fence_epoch
    &&& reason is GenerationStale <==> command.fence_epoch >= s.current.fence_epoch
        && command.desired_generation < s.current.desired_generation
    &&& reason is MalformedCommand <==> {
        &&& command.fence_epoch >= s.current.fence_epoch
        &&& command.desired_generation >= s.current.desired_generation
        &&& command.desired_generation == s.current.desired_generation || artifact_generation
            <= s.identity.credential_generation
    }
}

/// The command moves every coordinate of the device forward.
pub open spec fn advances(s: StateView, command: CommandView, artifact: ResolvedArtifact) -> bool {
    &&& command.fence_epoch >= s.current.fence_epoch
    &&& command.desired_generation > s.current.desired_generation
    &&& artifact.credential_generation@ > s.identity.credential_generation
}

/// A command that does not move the device forward is rejected for the
/// coordinate that stands in its way.
pub proof fn law_stale_commands_are_rejected(
    agent: &ReferenceDeviceAgent,
    command: &DeviceCommand,
    artifact: ResolvedArtifact,
    now: u64,
    r: Result<CommandStep, AgentError>,
)
    requires
        call_ensures(
            ReferenceDeviceAgent::apply_artifact,
            (agent, command, &Ok::<ResolvedArtifact, CatalogError>(artifact), now),
            r,
        ),
        !advances(agent@, command@, artifact),
    ensures
        !(r matches Ok(CommandStep::Install { .. })),
        r matches Ok(CommandStep::Commit { candidate, outcome }) ==> {
            &&& outcome matches ApplyOutcome::Rejected(reason)
            &&& position_reason(agent@, command@, artifact, reason)
        },
        unknown(agent@, command@.command_id, now) && idle(agent@) && answerable(
            agent@,
            command@,
            now,
        ) ==> exists|reason: CommandRejection|
            position_reason(agent@, command@, artifact, reason) && #[trigger] rejects(
                agent@,
                command@,
                reason,
                now,
                agent.retention(),
                r,
            ),
{
    let reason = agent::position_rejection(agent@, command@, artifact@)->0;
    if unknown(agent@, command@.command_id, now) && idle(agent@) && answerable(
        agent@,
        command@,
        now,
    ) {
        lemma_rejection_commits(agent@, command@, reason, now, agent.retention());
        assert(rejects(agent@, command@, reason, now, agent.retention(), r));
    }
}

/// `t` is `s` with the artifact of the command installed: the credential is
/// the artifact's, down to the end of its validity; the command is
/// remembered with its acknowledgement; the acknowledgement is queued with
/// the report behind it, and the report tells what was installed.
pub open spec fn installed(
    s: StateView,
    t: StateView,
    command: CommandView,
    artifact: ResolvedArtifact,
    now: u64,
    retention: u32,
) -> bool {
    let n = s.outbox.len() as int;
    let revision = s.current.credential_revision + 1;
    &&& t.identity.tenant == s.identity.tenant
    &&& t.identity.device == s.identity.device
    &&& t.identity.credential_generation == artifact.credential_generation@
    &&& t.current.desired_generation == command.desired_generation
    &&& t.current.fence_epoch == command.fence_epoch
    &&& t.current.credential_revision == revision
    &&& t.current.artifact_digest == artifact.digest@
    &&& t.current.expires_at == artifact.credential.expires_at
    &&& t.schema_version == s.schema_version
    &&& t.reconnect_revision == s.reconnect_revision
    &&& t.outbox.len() == n + 2
    &&& forall|i: int| 0 <= i < n ==> #[trigger] t.outbox[i] == s.outbox[i]
    &&& t.outbox[n] matches StoredOutboundView::Ack { payload, .. } && {
        &&& payload.command_id == command.command_id
        &&& payload.event_cause == command.command_id
        &&& payload.desired_generation == command.desired_generation
        &&& payload.fence_epoch == command.fence_epoch
        &&& payload.rejection is None
        &&& payload.activates_revision == Some(revision as u64)
        &&& !payload.settled_replay
        &&& now <= i64::MAX ==> payload.observed_at == now
        &&& s.device_sequence < u64::MAX - 1 ==> payload.device_sequence == s.device_sequence + 1
        &&& t.journal.len() > 0
        &&& t.journal.last().command_id == command.command_id
        &&& t.journal.last().fingerprint == agent::command_fingerprint_of(command)
        &&& t.journal.last().acknowledgement == payload
        &&& now <= i64::MAX ==> t.journal.last().retain_until_epoch_seconds == now + retention
    }
    &&& t.outbox[n + 1] matches StoredOutboundView::ReportBlocked { payload, .. } && {
        &&& payload.command_id == command.command_id
        &&& payload.observed_generation == command.desired_generation
        &&& payload.fence_epoch == command.fence_epoch
        &&& payload.artifact_digest == artifact.digest@
        &&& payload.expires_at == Some(artifact.credential.expires_at)
        &&& payload.credential_generation == artifact.credential_generation@
        &&& payload.credential_revision == revision
        &&& payload.state_hash == ledger::state_hash_of(
            s.identity.tenant,
            s.identity.device,
            artifact.credential_generation@,
            command.desired_generation,
            command.fence_epoch,
            revision as u64,
            artifact.digest@,
        )
        &&& now <= i64::MAX ==> payload.observed_at == now
        &&& s.device_sequence < u64::MAX - 1 ==> payload.device_sequence == s.device_sequence + 2
    }
    &&& t.pending matches Some(pending) && {
        &&& pending.topic == s.identity.command_topic()
        &&& pending.command_id == command.command_id
        &&& pending.fingerprint == agent::command_fingerprint_of(command)
        &&& pending.credential_generation == s.identity.credential_generation
        &&& !pending.settled
    }
}

/// What is installed is the artifact of the command: the stored credential
/// and the queued report carry its digest, its generation and the end of its
/// validity, whatever the time of the installation.
pub proof fn law_installations_carry_the_artifact(
    agent: &ReferenceDeviceAgent,
    command: &DeviceCommand,
    artifact: ResolvedArtifact,
    now: u64,
    r: Result<CommandStep, AgentError>,
)
    requires
        call_ensures(
            ReferenceDeviceAgent::apply_artifact,
            (agent, command, &Ok::<ResolvedArtifact, CatalogError>(artifact), now),
            r,
        ),
    ensures
        r matches Ok(CommandStep::Install { revision, prepared }) ==> {
            &&& advances(agent@, command@, artifact)
            &&& revision@ == agent@.current.credential_revision + 1
            &&& installed(agent@, prepared@, command@, artifact, now, agent.retention())
        },
{
    let s = agent@;
    if let Ok(CommandStep::Install { revision, prepared }) = r {
        let t = prepared@;
        let n = s.outbox.len() as int;
        assert(t.outbox[n] is Ack);
        assert(t.outbox[n + 1] is ReportBlocked);
        assert(t.journal.last() == t.journal[t.journal.len() - 1]);
    }
}

/// A command that moves the device forward is installed wherever there is
/// room for it, and never refused for what it says.
pub proof fn law_advancing_commands_are_installed(
    agent: &ReferenceDeviceAgent,
    command: &DeviceCommand,
    artifact: ResolvedArtifact,
    now: u64,
    r: Result<CommandStep, AgentError>,
)
    requires
        call_ensures(
            ReferenceDeviceAgent::apply_artifact,
            (agent, command, &Ok::<ResolvedArtifact, CatalogError>(artifact), now),
            r,
        ),
        advances(agent@, command@, artifact),
        named(agent@),
        agent@.outbox.len() <= 126,
        agent@.journal.len() < 1024,
        agent@.current.credential_revision < u64::MAX,
    ensures
        r matches Ok(CommandStep::Install { .. }),
{
    lemma_gone(
        agent@.journal,
        |entry: StoredCommandView|
            agent@.retains(entry, agent::observed_time(now) as u64),
    );
}

/// An undecodable delivery is answered on the command topics alone, as
/// malformed, and leaves the credential and the rotation as they are.
pub proof fn law_undecodable_deliveries_change_nothing(
    agent: &ReferenceDeviceAgent,
    topic: &str,
    command_id: &str,
    payload: &[u8],
    now: u64,
    r: Result<CommandStep, AgentError>,
)
    requires
        call_ensures(
            ReferenceDeviceAgent::reject_malformed_delivery,
            (agent, topic, command_id, payload, now),
            r,
        ),
    ensures
        ({
            let s = agent@;
            let awaited = s.pending matches Some(pending) && pending.topic == topic@;
            let own = topic@ == s.identity.command_topic();
            &&& named(s) && !own && !awaited ==> r == Err::<CommandStep, AgentError>(
                AgentError::UnexpectedDelivery,
            )
            &&& r == Err::<CommandStep, AgentError>(AgentError::UnexpectedDelivery) ==> !own
                && !awaited
            &&& !(r matches Ok(CommandStep::Resolve(_)))
            &&& !(r matches Ok(CommandStep::Install { .. }))
            &&& r matches Ok(CommandStep::Commit { candidate, outcome }) ==> {
                &&& candidate@.current == s.current
                &&& candidate@.identity == s.identity
                &&& candidate@.pending == s.pending
                &&& unknown(s, command_id@, now) ==> {
                    &&& outcome == ApplyOutcome::Rejected(CommandRejection::MalformedCommand)
                    &&& candidate@.outbox.len() == s.outbox.len() + 1
                    &&& candidate@.outbox.last() matches StoredOutboundView::Ack { payload: told, .. } && {
                        &&& told.command_id == command_id@
                        &&& told.desired_generation == s.current.desired_generation
                        &&& told.fence_epoch == s.current.fence_epoch
                        &&& told.rejection == Some(StoredRejection::MalformedCommand)
                        &&& now <= i64::MAX ==> told.observed_at == now
                    }
                }
            }
        }),
{
    if unknown(agent@, command_id@, now) {
        lemma_unknown(agent@, command_id@, now);
    }
}

/// An undecodable delivery that the journal does not remember is recorded as
/// malformed, at the device's own position, wherever there is room for it.
pub proof fn law_undecodable_deliveries_are_recorded(
    agent: &ReferenceDeviceAgent,
    topic: &str,
    command_id: &str,
    payload: &[u8],
    now: u64,
    r: Result<CommandStep, AgentError>,
)
    requires
        call_ensures(
            ReferenceDeviceAgent::reject_malformed_delivery,
            (agent, topic, command_id, payload, now),
            r,
        ),
        unknown(agent@, command_id@, now),
        topic@ == agent@.identity.command_topic() || (agent@.pending is Some
            && agent@.pending->0.topic == topic@),
    ensures
        !(r matches Ok(CommandStep::Answer(_))),
        ({
            let s = agent@;
            let fingerprint = agent::malformed_fingerprint_of(topic@, command_id@, payload@);
            &&& s.sound()
            &&& s.outbox.len() < 128
            &&& s.journal.len() < 1024
            &&& s.device_sequence < u64::MAX
            &&& 0 < now <= i64::MAX
            &&& command_id@.len() > 0
            &&& digest::is_digest_text(fingerprint)
            &&& !(s.pending is Some && s.pending->0.command_id == command_id@)
            &&& forall|i: int|
                0 <= i < s.outbox.len() ==> (#[trigger] s.outbox[i]).event_id()
                    != ledger::event_id_of("ack"@, command_id@)
        }) ==> {
            &&& r matches Ok(CommandStep::Commit { candidate, outcome })
            &&& outcome == ApplyOutcome::Rejected(CommandRejection::MalformedCommand)
            &&& exists|told: RejectedView| #[trigger]
                refusal_recorded(agent@, candidate@, told, now, agent.retention())
                    && told.command_id == command_id@ && told.fingerprint
                    == agent::malformed_fingerprint_of(topic@, command_id@, payload@)
                    && told.generation == agent@.current.desired_generation && told.fence
                    == agent@.current.fence_epoch && told.rejection is MalformedCommand
        },
{
    let s = agent@;
    lemma_unknown(s, command_id@, now);
    let told = RejectedView {
        command_id: command_id@,
        fingerprint: agent::malformed_fingerprint_of(topic@, command_id@, payload@),
        generation: s.current.desired_generation,
        fence: s.current.fence_epoch,
        rejection: CommandRejection::MalformedCommand,
        observed_at: agent::observed_time(now),
        retain_until_epoch_seconds: agent::retention_deadline(
            agent::observed_time(now),
            agent.retention(),
        ),
    };
    if s.sound() && s.outbox.len() < 128 && s.journal.len() < 1024 && s.device_sequence < u64::MAX
        && 0 < now <= i64::MAX && command_id@.len() > 0 && digest::is_digest_text(told.fingerprint)
        && !(s.pending is Some && s.pending->0.command_id == command_id@) && (forall|i: int|
        0 <= i < s.outbox.len() ==> (#[trigger] s.outbox[i]).event_id() != ledger::event_id_of(
            "ack"@,
            command_id@,
        )) {
        lemma_refusal_commits(s, told, now, agent.retention());
    }
}

/// Every entry of the journal is still to be kept.
pub open spec fn remembers_all(s: StateView, now: u64) -> bool {
    forall|i: int|
        0 <= i < s.journal.len() ==> (#[trigger] s.journal[i]).retain_until_epoch_seconds > now
}

proof fn lemma_kept<A>(s: Seq<A>, keep: spec_fn(A) -> bool)
    requires
        forall|i: int| 0 <= i < s.len() ==> keep(#[trigger] s[i]),
    ensures
        s.filter(keep) == s,
    decreases s.len(),
{
    reveal(Seq::filter);
    if s.len() > 0 {
        lemma_kept(s.drop_last(), keep);
        assert(s =~= s.drop_last().push(s.last()));
    }
}

proof fn lemma_remembers_all(s: StateView, now: u64)
    ensures
        remembers_all(s, now) ==> s.expire(now).journal == s.journal && s.expire(
            agent::observed_time(now) as u64,
        ).journal == s.journal,
        s.expire(now).journal.len() <= s.journal.len(),
        s.expire(agent::observed_time(now) as u64).journal.len() <= s.journal.len(),
{
    let seen = agent::observed_time(now) as u64;
    lemma_gone(s.journal, |entry: StoredCommandView| s.retains(entry, now));
    lemma_gone(s.journal, |entry: StoredCommandView| s.retains(entry, seen));
    if remembers_all(s, now) {
        lemma_kept(s.journal, |entry: StoredCommandView| s.retains(entry, now));
        lemma_kept(s.journal, |entry: StoredCommandView| s.retains(entry, seen));
    }
}

/// A fresh delivery that would be answered with `facts` more outbox entries
/// is refused for want of room: for the outbox exactly if they do not fit,
/// and else for the journal if it is full of what is still to be kept.
pub open spec fn refused_for_room(
    s: StateView,
    facts: nat,
    now: u64,
    r: Result<CommandStep, AgentError>,
) -> bool {
    let journal_full = Err::<CommandStep, AgentError>(
        AgentError::Store(StoreError::CommandJournalFull),
    );
    &&& r == Err::<CommandStep, AgentError>(AgentError::Store(StoreError::OutboxFull)) <==> s.outbox.len()
        + facts > 128
    &&& s.outbox.len() + facts <= 128 && s.journal.len() >= 1024 && remembers_all(s, now) ==> r
        == journal_full
    &&& s.journal.len() < 1024 ==> r != journal_full
}

/// Commands that are turned down are refused only for want of room, and an
/// outbox or a journal that is full is told apart.
pub proof fn law_turned_down_commands_need_room(
    agent: &ReferenceDeviceAgent,
    topic: &str,
    command: &DeviceCommand,
    now: u64,
    r: Result<CommandStep, AgentError>,
)
    requires
        call_ensures(ReferenceDeviceAgent::apply_command, (agent, topic, command, now), r),
        unknown(agent@, command@.command_id, now),
        idle(agent@),
        named(agent@),
        topic@ != agent@.identity.command_topic() || command@.device_id != agent@.identity.device
            || command@.deadline_epoch_seconds <= now,
    ensures
        refused_for_room(agent@, 1, now, r),
{
    lemma_unknown(agent@, command@.command_id, now);
    lemma_idle(agent@);
    lemma_remembers_all(agent@, now);
}

/// A looked-up command needs room for its acknowledgement, and for a report
/// too where it is installed.
pub proof fn law_looked_up_commands_need_room(
    agent: &ReferenceDeviceAgent,
    command: &DeviceCommand,
    artifact: Result<ResolvedArtifact, CatalogError>,
    now: u64,
    r: Result<CommandStep, AgentError>,
)
    requires
        call_ensures(ReferenceDeviceAgent::apply_artifact, (agent, command, &artifact, now), r),
    ensures
        artifact is Ok && advances(agent@, command@, artifact->Ok_0) ==> refused_for_room(
            agent@,
            2,
            now,
            r,
        ),
        !(artifact is Ok && advances(agent@, command@, artifact->Ok_0)) ==> refused_for_room(
            agent@,
            1,
            now,
            r,
        ),
{
    lemma_remembers_all(agent@, now);
}

/// An undecodable delivery needs room for its acknowledgement.
pub proof fn law_undecodable_deliveries_need_room(
    agent: &ReferenceDeviceAgent,
    topic: &str,
    command_id: &str,
    payload: &[u8],
    now: u64,
    r: Result<CommandStep, AgentError>,
)
    requires
        call_ensures(
            ReferenceDeviceAgent::reject_malformed_delivery,
            (agent, topic, command_id, payload, now),
            r,
        ),
        unknown(agent@, command_id@, now),
        named(agent@),
        topic@ == agent@.identity.command_topic() || (agent@.pending is Some
            && agent@.pending->0.topic == topic@),
    ensures
        refused_for_room(agent@, 1, now, r),
{
    lemma_unknown(agent@, command_id@, now);
    lemma_remembers_all(agent@, now);
}

/// An entry is selected only if it was made for this device and for
/// everything that the command asks for, and is not revoked.
pub proof fn law_selected_entries_are_bound_to_the_command(
    catalog: &CatalogV1,
    identity: &DeviceIdentity,
    command: &DeviceCommand,
    r: Result<&CatalogEntryV1, CatalogError>,
)
    requires
        call_ensures(CatalogV1::select, (catalog, identity, command), r),
    ensures
        r matches Ok(entry) ==> {
            &&& catalog.schema_version == 1
            &&& catalog.artifacts@.contains(*entry)
            &&& entry.artifact_id@ == command@.artifact_id
            &&& entry.tenant_id@ == identity@.tenant
            &&& entry.device_id@ == identity@.device
            &&& entry.desired_generation == command@.desired_generation
            &&& entry.fence_epoch == command@.fence_epoch
            &&& entry.intent_digest@ == command@.intent_digest
            &&& entry.policy_hash@ == command@.policy_hash
            &&& !entry.revoked
        },
{
    if let Ok(entry) = r {
        let i = choose|i: int|
            #![trigger catalog.is_entry_for(i, command@.artifact_id)]
            catalog.is_entry_for(i, command@.artifact_id) && *entry == catalog.artifacts@[i];
        assert(catalog.artifacts@[i] == *entry);
    }
}

/// The first entry under a command's artifact decides: one that was made for
/// another tenant, device, position, intent or policy mismatches, whether it
/// is revoked or not; a revoked one for this command is revoked; any other is
/// the one that is selected.
pub proof fn law_the_named_entry_decides(
    catalog: &CatalogV1,
    identity: &DeviceIdentity,
    command: &DeviceCommand,
    k: int,
    r: Result<&CatalogEntryV1, CatalogError>,
)
    requires
        call_ensures(CatalogV1::select, (catalog, identity, command), r),
        catalog.schema_version == 1,
        0 <= k < catalog.artifacts@.len(),
        catalog.artifacts@[k].artifact_id@ == command@.artifact_id,
        forall|j: int|
            0 <= j < k ==> (#[trigger] catalog.artifacts@[j]).artifact_id@ != command@.artifact_id,
    ensures
        ({
            let entry = catalog.artifacts@[k];
            let foreign = {
                ||| entry.tenant_id@ != identity@.tenant
                ||| entry.device_id@ != identity@.device
                ||| entry.desired_generation != command@.desired_generation
                ||| entry.fence_epoch != command@.fence_epoch
                ||| entry.intent_digest@ != command@.intent_digest
                ||| entry.policy_hash@ != command@.policy_hash
            };
            &&& foreign ==> r == Err::<&CatalogEntryV1, CatalogError>(CatalogError::BindingMismatch)
            &&& !foreign && entry.revoked ==> r == Err::<&CatalogEntryV1, CatalogError>(
                CatalogError::Revoked,
            )
            &&& !foreign && !entry.revoked ==> r is Ok && *r->Ok_0 == entry
        }),
{
    assert(catalog.has_entry_for(command@.artifact_id));
    assert(catalog.is_entry_for(k, command@.artifact_id));
    let i = choose|i: int|
        #![trigger catalog.is_entry_for(i, command@.artifact_id)]
        catalog.is_entry_for(i, command@.artifact_id) && match CatalogV1::entry_error(
            catalog.artifacts@[i]@,
            identity@,
            command@,
        ) {
            Some(error) => r == Err::<&CatalogEntryV1, CatalogError>(error),
            None => r is Ok && *r->Ok_0 == catalog.artifacts@[i],
        };
    if i < k {
        assert(catalog.artifacts@[i].artifact_id@ != command@.artifact_id);
    } else if k < i {
        assert(catalog.artifacts@[k].artifact_id@ != command@.artifact_id);
    }
}

/// A catalog without the artifact finds nothing; a catalog of another
/// version is not read at all.
pub proof fn law_missing_entries_are_not_found(
    catalog: &CatalogV1,
    identity: &DeviceIdentity,
    command: &DeviceCommand,
    r: Result<&CatalogEntryV1, CatalogError>,
)
    requires
        call_ensures(CatalogV1::select, (catalog, identity, command), r),
    ensures
        catalog.schema_version != 1 <==> r == Err::<&CatalogEntryV1, CatalogError>(
            CatalogError::Malformed,
        ),
        catalog.schema_version == 1 && (forall|i: int|
            0 <= i < catalog.artifacts@.len() ==> (#[trigger] catalog.artifacts@[i]).artifact_id@
                != command@.artifact_id) ==> r == Err::<&CatalogEntryV1, CatalogError>(
            CatalogError::NotFound,
        ),
{
}

} // verus!
