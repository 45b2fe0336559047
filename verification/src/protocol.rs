//! Laws of the rotation protocol: what follows from the single operations
//! about a command's way from delivery to its confirmed report.

use crate::agent;
use crate::agent::{AgentError, StepView};
use crate::catalog::{ArtifactView, CatalogError};
use crate::identity::{ApplyOutcome, CommandRejection, CommandView};
use crate::ledger;
use crate::ledger::{StoredCommandView, StoredOutboundView};
use crate::soundness;
use crate::state;
use crate::state::{AcceptedView, RejectedView, StateView, COMMAND_JOURNAL_LIMIT, OUTBOX_LIMIT};
use vstd::prelude::*;

verus! {

/// The installed credential and everything about a rotation in flight are the same.
pub open spec fn same_rotation(s: StateView, t: StateView) -> bool {
    &&& t.identity == s.identity
    &&& t.current == s.current
    &&& t.reconnect_revision == s.reconnect_revision
    &&& t.pending == s.pending
}

/// No rejection, replay or expiry touches the installed credential or the
/// rotation in flight.
pub proof fn law_answers_leave_the_rotation_alone(
    s: StateView,
    command: RejectedView,
    i: int,
    fingerprint: Seq<char>,
    now: u64,
)
    ensures
        same_rotation(s, s.reject(command)),
        same_rotation(
            s,
            s.reject_conflicting_replay(
                command.command_id,
                fingerprint,
                command.generation,
                command.fence,
                command.observed_at,
            ),
        ),
        same_rotation(s, s.replay(i)),
        same_rotation(s, s.expire(now)),
{
}

/// Every fact that is queued in `s` is still queued in `t`, in its place,
/// under its identity and number, and telling the same.
pub open spec fn keeps_facts(s: StateView, t: StateView) -> bool {
    &&& s.outbox.len() <= t.outbox.len()
    &&& forall|i: int|
        0 <= i < s.outbox.len() ==> {
            &&& (#[trigger] t.outbox[i]).event_id() == s.outbox[i].event_id()
            &&& t.outbox[i].sequence() == s.outbox[i].sequence()
            &&& t.outbox[i].report() == s.outbox[i].report()
            &&& s.outbox[i] is Ack ==> t.outbox[i] == s.outbox[i]
        }
}

/// A queued fact is never dropped or replaced: only the broker's
/// acknowledgement takes one out, and it takes out that one alone.
pub proof fn law_facts_leave_only_by_confirmation(
    s: StateView,
    accepted: AcceptedView,
    rejected: RejectedView,
    fingerprint: Seq<char>,
    i: int,
    now: u64,
)
    ensures
        keeps_facts(s, s.accept(accepted)),
        keeps_facts(s, s.reject(rejected)),
        keeps_facts(
            s,
            s.reject_conflicting_replay(
                rejected.command_id,
                fingerprint,
                rejected.generation,
                rejected.fence,
                rejected.observed_at,
            ),
        ),
        keeps_facts(s, s.replay(i)),
        keeps_facts(s, s.expire(now)),
        keeps_facts(s, s.settle()),
        keeps_facts(s, s.reconnected()),
        s.confirm(i).outbox == s.outbox.remove(i),
{
}

/// Nothing but an accepted command moves the installed credential, so that
/// no confirmation, reconnect or settlement ever leads back to an old one.
pub proof fn law_only_acceptance_moves_the_credential(s: StateView, i: int)
    ensures
        s.confirm(i).current == s.current && s.confirm(i).identity == s.identity,
        s.reconnected().current == s.current && s.reconnected().identity == s.identity,
        s.settle().current == s.current && s.settle().identity == s.identity,
{
}

/// A step that only commits an answer leaves the rotation alone and is
/// valid; only the installation of an artifact moves the credential.
pub open spec fn commits_an_answer(s: StateView, step: StepView) -> bool {
    step matches StepView::Commit { state, .. } ==> state.valid() && same_rotation(s, state)
}

/// Whatever a command or an undecodable delivery is answered with, the state
/// that is committed for it is valid and leaves the rotation alone.
pub proof fn law_commits_are_valid_answers(
    s: StateView,
    topic: Seq<char>,
    command: CommandView,
    artifact: Result<ArtifactView, CatalogError>,
    payload: Seq<u8>,
    now: u64,
    retention: u32,
)
    ensures
        commits_an_answer(s, agent::first_step(s, topic, command, now, retention)),
        commits_an_answer(s, agent::second_step(s, command, artifact, now, retention)),
        commits_an_answer(
            s,
            agent::malformed_step(s, topic, command.command_id, payload, now, retention),
        ),
{
}

/// Nothing is installed before the artifact was looked up.
pub proof fn law_installation_needs_an_artifact(
    s: StateView,
    topic: Seq<char>,
    command: CommandView,
    error: CatalogError,
    now: u64,
    retention: u32,
)
    ensures
        !(agent::first_step(s, topic, command, now, retention) is Install),
        !(agent::second_step(s, command, Err(error), now, retention) is Install),
{
}

/// An installation moves every coordinate forward: the fence does not fall,
/// the generations rise, and the revision is the next one.
pub proof fn law_installation_advances(
    s: StateView,
    command: CommandView,
    artifact: ArtifactView,
    now: u64,
    retention: u32,
)
    ensures
        agent::second_step(s, command, Ok(artifact), now, retention) matches StepView::Install {
            revision,
            state,
        } ==> {
            &&& state.current.fence_epoch >= s.current.fence_epoch
            &&& state.current.desired_generation > s.current.desired_generation
            &&& state.identity.credential_generation > s.identity.credential_generation
            &&& state.current.credential_revision == revision
            &&& revision == s.current.credential_revision + 1
            &&& state.identity.tenant == s.identity.tenant
            &&& state.identity.device == s.identity.device
            &&& state.current.artifact_digest == artifact.digest
            &&& state.rotation_in_flight()
        },
{
    if let StepView::Install { revision, state } = agent::second_step(
        s,
        command,
        Ok(artifact),
        now,
        retention,
    ) {
        assert(state.outbox.last().is_report());
        assert(state.outbox[state.outbox.len() - 1].is_report());
    }
}

/// A stale fence is reported whatever the generation is.
pub proof fn law_fence_is_checked_before_generation(
    s: StateView,
    command: CommandView,
    artifact: ArtifactView,
    now: u64,
    retention: u32,
)
    requires
        command.fence_epoch < s.current.fence_epoch,
    ensures
        agent::second_step(s, command, Ok(artifact), now, retention) == agent::rejection_step(
            s,
            agent::rejected(command, CommandRejection::FenceEpochStale, now, retention),
            agent::observed_time(now) as u64,
        ),
{
}

/// While a rotation is in flight no new command is taken in.
pub proof fn law_rotation_in_flight_blocks_intake(
    s: StateView,
    topic: Seq<char>,
    command: CommandView,
    now: u64,
    retention: u32,
)
    requires
        s.rotation_in_flight(),
        !s.has_live(command.command_id, now),
    ensures
        agent::first_step(s, topic, command, now, retention) == StepView::Refuse(
            AgentError::RotationInFlight,
        ),
{
}

/// A report is published only when the acceptance is confirmed, the session
/// under the new credential is up, and the command's delivery is settled.
pub proof fn law_report_waits_for_reconnect_and_settlement(s: StateView, i: int)
    requires
        s.valid(),
        s.offered(i),
        s.outbox[i].is_report(),
    ensures
        s.outbox[i] is ReportReady,
        s.settled(),
        s.reconnect_revision is None,
        forall|j: int| 0 <= j < s.outbox.len() ==> (#[trigger] s.outbox[j]).activates() is None,
{
    assert(s.phase_valid_at(s.outbox[i]));
    assert forall|j: int| 0 <= j < s.outbox.len() implies (
    #[trigger] s.outbox[j]).activates() is None by {
        assert(s.phase_valid_at(s.outbox[j]));
        if let Some(revision) = s.outbox[j].activates() {
            let command_id = s.outbox[j]->Ack_payload.command_id;
            assert(s.has_blocked_report(revision, command_id));
            let k = choose|k: int|
                0 <= k < s.outbox.len() && state::blocks(
                    #[trigger] s.outbox[k],
                    revision,
                    command_id,
                );
            assert(s.outbox[k].is_report());
            if k < i {
                assert(!(s.outbox[k].is_report() && s.outbox[i].is_report()));
            } else if i < k {
                assert(!(s.outbox[i].is_report() && s.outbox[k].is_report()));
            }
        }
    }
}

/// Only the confirmed acknowledgement of an acceptance asks for a reconnect,
/// and it asks for the installed revision.
pub proof fn law_only_acceptance_unlocks_reconnect(s: StateView, i: int)
    requires
        s.valid(),
        0 <= i < s.outbox.len(),
        s.confirm(i).reconnect_revision != s.reconnect_revision,
    ensures
        s.outbox[i].activates() == Some(s.current.credential_revision),
        s.confirm(i).reconnect_revision == Some(s.current.credential_revision),
{
    assert(s.phase_valid_at(s.outbox[i]));
}

/// The way of one accepted command: its acknowledgement goes out first; its
/// confirmation asks for the reconnect; the new session releases the report;
/// the settled delivery lets it go out; its confirmation ends the rotation,
/// and what was queued before is still queued.
pub proof fn law_rotation_runs_its_course(s: StateView, command: AcceptedView)
    requires
        s.sound(),
        s.acceptable(command),
    ensures
        ({
            let n = s.outbox.len() as int;
            let taken = s.accept(command);
            let acknowledged = taken.confirm(n);
            let connected = acknowledged.reconnected();
            let settled = connected.settle();
            let ended = settled.confirm(n);
            &&& taken.offered(n) && !taken.offered(n + 1) && !taken.settle().offered(n + 1)
            &&& acknowledged.reconnect_revision == Some(command.revision)
            &&& !acknowledged.offered(n) && !acknowledged.settle().offered(n)
            &&& connected.outbox[n] is ReportReady && !connected.offered(n)
            &&& connected.reconnect_revision is None
            &&& settled.offered(n)
            &&& ended.outbox == s.outbox
            &&& ended.pending is None
            &&& ended.reconnect_revision is None
            &&& !ended.rotation_in_flight()
            &&& ended.current == taken.current
            &&& ended.identity == taken.identity
        }),
{
    soundness::lemma_idle(s);
    let n = s.outbox.len() as int;
    let taken = s.accept(command);
    let acknowledged = taken.confirm(n);
    assert(taken.outbox.remove(n)[n] == taken.outbox[n + 1]);
    assert(state::blocks_revision(taken.outbox.remove(n)[n], command.revision));
    assert(acknowledged.outbox.len() == n + 1);
    assert(forall|i: int| 0 <= i < n ==> acknowledged.outbox[i] == s.outbox[i]);
    let connected = acknowledged.reconnected();
    assert(connected.outbox[n] == acknowledged.outbox[n].released());
    assert forall|i: int| 0 <= i < n implies connected.outbox[i] == s.outbox[i] by {
        assert(connected.outbox[i] == acknowledged.outbox[i].released());
        assert(s.outbox[i] is Ack);
    }
    let settled = connected.settle();
    let ended = settled.confirm(n);
    assert(ended.outbox =~= s.outbox);
    assert(!ended.rotation_in_flight()) by {
        if ended.rotation_in_flight() {
            let k = choose|k: int| 0 <= k < ended.outbox.len() && (
            #[trigger] ended.outbox[k]).is_report();
            assert(s.outbox[k].is_report());
        }
    }
}

/// A replayed acknowledgement tells exactly what the first one told, under
/// the same event identity, and activates nothing.
pub proof fn law_replay_repeats_the_answer(s: StateView, i: int)
    requires
        0 <= i < s.journal.len(),
    ensures
        s.replay(i).outbox.last().ready_fact() == (StoredOutboundView::Ack {
            event_id: ledger::event_id_of("ack"@, s.journal[i].command_id),
            payload: s.journal[i].acknowledgement,
        }).ready_fact(),
        s.journal[i].semantic_valid() ==> s.replay(i).outbox.last().activates() is None,
{
}

/// Once a conflicting content was rejected it is found again, so that a
/// redelivery of it is answered without another fact.
pub proof fn law_conflict_is_rejected_once(
    s: StateView,
    command_id: Seq<char>,
    fingerprint: Seq<char>,
    generation: u64,
    fence: u64,
    observed_at: i64,
)
    ensures
        s.reject_conflicting_replay(
            command_id,
            fingerprint,
            generation,
            fence,
            observed_at,
        ).has_event(StateView::conflict_event(command_id, fingerprint)),
        s.reject_conflicting_replay(command_id, fingerprint, generation, fence, observed_at).journal
            == s.journal,
{
    let t = s.reject_conflicting_replay(command_id, fingerprint, generation, fence, observed_at);
    assert(t.outbox[t.outbox.len() - 1].event_id() == StateView::conflict_event(
        command_id,
        fingerprint,
    ));
}

/// A committed command that is delivered again while it is remembered and
/// its acknowledgement is still queued is a duplicate and changes nothing.
pub proof fn law_redelivery_is_a_duplicate(
    s: StateView,
    topic: Seq<char>,
    command: CommandView,
    artifact: ArtifactView,
    revision: u64,
    taken_at: u64,
    again_at: u64,
    retention: u32,
)
    requires
        s.acceptable(agent::accepted(command, artifact, revision, taken_at, retention)),
        again_at < agent::retention_deadline(agent::observed_time(taken_at), retention),
    ensures
        agent::first_step(
            s.accept(agent::accepted(command, artifact, revision, taken_at, retention)),
            topic,
            command,
            again_at,
            retention,
        ) == StepView::Answer(ApplyOutcome::Duplicate),
{
    let t = s.accept(agent::accepted(command, artifact, revision, taken_at, retention));
    let m = s.journal.len() as int;
    let n = s.outbox.len() as int;
    assert(state::live(t.journal[m], command.command_id, again_at));
    assert forall|j: int| 0 <= j < m implies !state::live(
        #[trigger] t.journal[j],
        command.command_id,
        again_at,
    ) by {
        assert(t.journal[j] == s.journal[j]);
    }
    assert(t.is_live_at(m, command.command_id, again_at));
    let k = choose|k: int| t.is_live_at(k, command.command_id, again_at);
    if k < m {
        assert(!state::live(t.journal[k], command.command_id, again_at));
    } else if m < k {
        assert(!state::live(t.journal[m], command.command_id, again_at));
    }
    assert(state::acknowledges(t.outbox[n], command.command_id));
    assert(t.has_command_ack(command.command_id));
}

/// Where intake is open, a command finds room for its two facts and for its
/// journal entry once expired entries are cleared.
pub proof fn law_open_intake_has_room(s: StateView, now: u64)
    requires
        s.journal.len() <= COMMAND_JOURNAL_LIMIT,
        s.outbox.len() + 2 <= OUTBOX_LIMIT,
        s.journal_has_capacity(now),
    ensures
        s.expire(now).outbox.len() + 2 <= OUTBOX_LIMIT,
        s.expire(now).journal.len() < COMMAND_JOURNAL_LIMIT,
{
    let keep = |entry: StoredCommandView| s.retains(entry, now);
    soundness::lemma_filter_len(s.journal, keep);
    if s.journal.len() >= COMMAND_JOURNAL_LIMIT {
        let i = choose|i: int|
            0 <= i < s.journal.len() && !s.retains(#[trigger] s.journal[i], now);
        lemma_filter_drops(s.journal, keep, i);
    }
}

proof fn lemma_filter_drops<A>(s: Seq<A>, keep: spec_fn(A) -> bool, i: int)
    requires
        0 <= i < s.len(),
        !keep(s[i]),
    ensures
        s.filter(keep).len() < s.len(),
    decreases s.len(),
{
    reveal(Seq::filter);
    let front = s.drop_last();
    if i < s.len() - 1 {
        lemma_filter_drops(front, keep, i);
    } else {
        soundness::lemma_filter_len(front, keep);
    }
}

/// The device's numbering never runs backwards, and a fresh answer has a
/// number above all earlier ones.
pub proof fn law_numbers_rise(
    s: StateView,
    accepted: AcceptedView,
    rejected: RejectedView,
)
    requires
        s.device_sequence + 2 <= u64::MAX,
    ensures
        s.accept(accepted).device_sequence == s.device_sequence + 2,
        s.acceptance(accepted).device_sequence == s.device_sequence + 1,
        s.acceptance_report(accepted).device_sequence == s.device_sequence + 2,
        s.reject(rejected).device_sequence == s.device_sequence + 1,
        s.refusal(rejected).device_sequence == s.device_sequence + 1,
{
}

} // verus!
