//! What every operation on the durable state keeps. A state that is read
//! back is checked by `verify`; these laws say that the operations do not
//! lead out of what `verify` accepts.

use crate::digest;
use crate::identity::IdentityView;
use crate::ledger;
use crate::ledger::{StoredCommandView, StoredOutboundView};
use crate::model::PositionView;
use crate::state::{AcceptedView, RejectedView, StateView, COMMAND_JOURNAL_LIMIT, OUTBOX_LIMIT};
use crate::state;
use vstd::prelude::*;

verus! {

impl StateView {
    /// Only the acknowledgement under a command's own identity activates a revision.
    pub open spec fn activation_owned(self) -> bool {
        forall|i: int| 0 <= i < self.outbox.len() ==> owns_activation(#[trigger] self.outbox[i])
    }

    /// Journalled acknowledgements keep numbers of their own, and only the
    /// command's own acknowledgement shares one in the outbox.
    pub open spec fn numbering_linked(self) -> bool {
        &&& forall|j: int|
            0 <= j < self.journal.len() ==> (#[trigger] self.journal[j]).acknowledgement.device_sequence
                <= self.device_sequence
        &&& forall|j: int, k: int|
            0 <= j < k < self.journal.len() ==> (
            #[trigger] self.journal[j]).acknowledgement.device_sequence != (
            #[trigger] self.journal[k]).acknowledgement.device_sequence
        &&& forall|i: int, j: int|
            0 <= i < self.outbox.len() && 0 <= j < self.journal.len() && (
            #[trigger] self.outbox[i]).sequence() == (
            #[trigger] self.journal[j]).acknowledgement.device_sequence ==> state::acknowledges(
                self.outbox[i],
                self.journal[j].command_id,
            )
    }

    /// The journal remembers what was answered under the command's own identity.
    pub open spec fn answers_owned(self) -> bool {
        forall|j: int|
            0 <= j < self.journal.len() ==> (#[trigger] self.journal[j]).acknowledgement.event_cause
                == self.journal[j].command_id
    }

    /// The invariant of a device's own state: what `verify` accepts, with
    /// the ownership of activations, answers and sequence numbers.
    pub open spec fn sound(self) -> bool {
        &&& self.valid()
        &&& self.activation_owned()
        &&& self.answers_owned()
        &&& self.numbering_linked()
    }

    pub open spec fn journalled(self, command_id: Seq<char>) -> bool {
        exists|j: int|
            0 <= j < self.journal.len() && (#[trigger] self.journal[j]).command_id == command_id
    }

    /// There is room for `facts` more outbox entries and as many numbers.
    pub open spec fn has_room(self, facts: nat) -> bool {
        self.outbox.len() + facts <= OUTBOX_LIMIT && self.device_sequence + facts <= u64::MAX
    }

    /// A command that can be accepted into the state.
    pub open spec fn acceptable(self, command: AcceptedView) -> bool {
        &&& !self.rotation_in_flight()
        &&& self.has_room(2)
        &&& self.journal.len() < COMMAND_JOURNAL_LIMIT
        &&& !self.journalled(command.command_id)
        &&& !self.has_event(ledger::event_id_of("ack"@, command.command_id))
        &&& command.command_id.len() > 0
        &&& digest::is_digest_text(command.fingerprint)
        &&& command.generation > 0
        &&& command.fence > 0
        &&& command.credential_generation > 0
        &&& command.revision > 0
        &&& digest::is_digest_text(command.artifact_digest)
        &&& command.expires_at > 0
        &&& command.observed_at >= 0
        &&& command.retain_until_epoch_seconds > 0
    }

    /// A command whose rejection can be recorded in the state.
    pub open spec fn rejectable(self, command: RejectedView) -> bool {
        &&& self.has_room(1)
        &&& self.journal.len() < COMMAND_JOURNAL_LIMIT
        &&& !self.journalled(command.command_id)
        &&& !self.has_event(ledger::event_id_of("ack"@, command.command_id))
        &&& command.command_id.len() > 0
        &&& digest::is_digest_text(command.fingerprint)
        &&& command.generation > 0
        &&& command.fence > 0
        &&& command.observed_at >= 0
        &&& command.retain_until_epoch_seconds > 0
    }
}

pub open spec fn owns_activation(entry: StoredOutboundView) -> bool {
    entry matches StoredOutboundView::Ack { payload, .. } ==> (payload.activates_revision is Some
        ==> payload.event_cause == payload.command_id)
}

/// Events of different kinds have different identities.
pub proof fn lemma_event_kinds_differ(a: Seq<char>, b: Seq<char>)
    ensures
        ledger::event_id_of("ack"@, a) != ledger::event_id_of("report"@, b),
        ledger::event_id_of("rejected"@, a) != ledger::event_id_of("report"@, b),
        ledger::event_id_of("ack"@, a) != ledger::event_id_of("rejected"@, b),
{
    reveal_strlit("reference-");
    reveal_strlit("ack");
    reveal_strlit("report");
    reveal_strlit("rejected");
    reveal_strlit("-");
    assert(ledger::event_id_of("ack"@, a)[10] == 'a');
    assert(ledger::event_id_of("rejected"@, a)[10] == 'r');
    assert(ledger::event_id_of("rejected"@, b)[10] == 'r');
    assert(ledger::event_id_of("report"@, b)[10] == 'r');
    assert(ledger::event_id_of("rejected"@, a)[12] == 'j');
    assert(ledger::event_id_of("report"@, b)[12] == 'p');
}

/// A freshly provisioned device starts in a sound state.
pub proof fn law_initial_is_sound(
    identity: IdentityView,
    position: PositionView,
    artifact_digest: Seq<char>,
    expires_at: i64,
)
    requires
        identity.credential_generation > 0,
        identity.tenant != 0,
        identity.device != 0,
        position.desired_generation > 0,
        position.fence_epoch > 0,
        position.credential_revision > 0,
        digest::is_digest_text(artifact_digest),
        expires_at > 0,
    ensures
        StateView::initial(identity, position, artifact_digest, expires_at).sound(),
{
}

/// Without a rotation in flight no acknowledgement activates anything and
/// nothing is awaited.
pub proof fn lemma_idle(s: StateView)
    requires
        s.valid(),
        !s.rotation_in_flight(),
    ensures
        s.pending is None,
        s.reconnect_revision is None,
        forall|i: int|
            0 <= i < s.outbox.len() ==> (#[trigger] s.outbox[i]) is Ack && s.outbox[i].activates()
                is None,
{
    assert forall|i: int| 0 <= i < s.outbox.len() implies (#[trigger] s.outbox[i]) is Ack
        && s.outbox[i].activates() is None by {
        assert(!s.outbox[i].is_report());
        assert(s.phase_valid_at(s.outbox[i]));
        if let Some(revision) = s.outbox[i].activates() {
            let command_id = s.outbox[i]->Ack_payload.command_id;
            assert(s.has_blocked_report(revision, command_id));
            let j = choose|j: int|
                0 <= j < s.outbox.len() && state::blocks(
                    #[trigger] s.outbox[j],
                    revision,
                    command_id,
                );
            assert(s.outbox[j].is_report());
        }
    }
}

/// Accepting a command leads from a sound state to a sound state, whenever
/// the witness of the installed credential is a digest text.
pub proof fn lemma_accept_sound(s: StateView, command: AcceptedView)
    requires
        s.sound(),
        s.acceptable(command),
        digest::is_digest_text(s.acceptance_report(command).state_hash),
    ensures
        s.accept(command).sound(),
{
    lemma_idle(s);
    let t = s.accept(command);
    let n = s.outbox.len() as int;
    let m = s.journal.len() as int;
    assert(t.outbox.len() == n + 2);
    assert(t.journal.len() == m + 1);
    assert(forall|i: int| 0 <= i < n ==> t.outbox[i] == s.outbox[i]);
    assert(forall|j: int| 0 <= j < m ==> t.journal[j] == s.journal[j]);
    lemma_event_kinds_differ(command.command_id, command.command_id);
    assert forall|i: int| 0 <= i < t.outbox.len() implies t.entry_valid(#[trigger] t.outbox[i]) by {
        if i < n {
            assert(s.entry_valid(s.outbox[i]));
        }
    }
    assert forall|i: int, j: int| 0 <= i < j < t.outbox.len() implies (
    #[trigger] t.outbox[i]).event_id() != (#[trigger] t.outbox[j]).event_id() by {
        if j < n {
            assert(s.outbox[i].event_id() != s.outbox[j].event_id());
        } else if i < n && j == n + 1 {
            assert(s.entry_valid(s.outbox[i]));
            lemma_event_kinds_differ(
                s.outbox[i]->Ack_payload.event_cause,
                command.command_id,
            );
        }
    }
    assert forall|i: int, j: int| 0 <= i < j < t.outbox.len() implies (
    #[trigger] t.outbox[i]).sequence() != (#[trigger] t.outbox[j]).sequence() by {
        if j < n {
            assert(s.outbox[i].sequence() != s.outbox[j].sequence());
        } else if i < n {
            assert(s.entry_valid(s.outbox[i]));
        }
    }
    assert(t.journal[m].semantic_valid());
    assert(t.journal_valid());
    assert(t.journal[m].command_id == command.command_id && t.journal[m].fingerprint
        == command.fingerprint);
    assert(t.in_journal(command.command_id, command.fingerprint));
    assert(s.identity =~= (IdentityView {
        credential_generation: s.identity.credential_generation,
        ..t.identity
    }));
    assert(t.pending_valid());
    assert(t.outbox[n + 1].is_report());
    assert(t.rotation_in_flight());
    assert(state::blocks(t.outbox[n + 1], command.revision, command.command_id));
    assert(t.has_blocked_report(command.revision, command.command_id));
    assert(state::activates_for(t.outbox[n], command.revision, command.command_id));
    assert(t.has_activation(command.revision, command.command_id));
    assert forall|i: int| 0 <= i < t.outbox.len() implies t.phase_valid_at(
        #[trigger] t.outbox[i],
    ) by {
        if i < n {
            assert(s.outbox[i] is Ack);
        }
    }
    assert(t.single_report());
    assert(t.phase_valid());
    assert forall|i: int, j: int|
        0 <= i < t.outbox.len() && 0 <= j < t.journal.len() && (#[trigger] t.outbox[i]).sequence()
            == (#[trigger] t.journal[j]).acknowledgement.device_sequence implies state::acknowledges(
        t.outbox[i],
        t.journal[j].command_id,
    ) by {
        if i < n && j < m {
            assert(s.outbox[i].sequence() == s.journal[j].acknowledgement.device_sequence);
        } else if i < n {
            assert(s.entry_valid(s.outbox[i]));
        } else if j < m {
            assert(s.journal[j].acknowledgement.device_sequence <= s.device_sequence);
        }
    }
    assert(t.numbering_linked());
}

/// The state with one more acknowledgement queued that activates nothing.
spec fn with_ack(s: StateView, entry: StoredOutboundView, device_sequence: u64) -> StateView {
    StateView { outbox: s.outbox.push(entry), device_sequence, ..s }
}

/// Queuing an inert acknowledgement with a fresh identity and number keeps
/// everything that `verify` checks.
proof fn lemma_queue_ack(s: StateView, entry: StoredOutboundView, device_sequence: u64)
    requires
        s.sound(),
        s.outbox.len() < OUTBOX_LIMIT,
        s.device_sequence <= device_sequence,
        entry is Ack,
        entry.activates() is None,
        entry.semantic_valid(),
        0 < entry.sequence() <= device_sequence,
        !s.has_event(entry.event_id()),
        forall|i: int| 0 <= i < s.outbox.len() ==> (#[trigger] s.outbox[i]).sequence() != entry.sequence(),
        forall|j: int|
            0 <= j < s.journal.len() && (#[trigger] s.journal[j]).acknowledgement.device_sequence
                == entry.sequence() ==> state::acknowledges(entry, s.journal[j].command_id),
    ensures
        with_ack(s, entry, device_sequence).sound(),
{
    let t = with_ack(s, entry, device_sequence);
    let n = s.outbox.len() as int;
    assert(forall|i: int| 0 <= i < n ==> t.outbox[i] == s.outbox[i]);
    assert forall|i: int| 0 <= i < t.outbox.len() implies t.entry_valid(#[trigger] t.outbox[i]) by {
        if i < n {
            assert(s.entry_valid(s.outbox[i]));
        }
    }
    assert forall|i: int, j: int| 0 <= i < j < t.outbox.len() implies (
    #[trigger] t.outbox[i]).event_id() != (#[trigger] t.outbox[j]).event_id() by {
        if j < n {
            assert(s.outbox[i].event_id() != s.outbox[j].event_id());
        } else {
            assert(s.outbox[i].event_id() != entry.event_id());
        }
    }
    assert forall|i: int, j: int| 0 <= i < j < t.outbox.len() implies (
    #[trigger] t.outbox[i]).sequence() != (#[trigger] t.outbox[j]).sequence() by {
        if j < n {
            assert(s.outbox[i].sequence() != s.outbox[j].sequence());
        }
    }
    assert(t.journal_valid());
    if let Some(pending) = s.pending {
        assert(t.in_journal(pending.command_id, pending.fingerprint));
    }
    assert(t.pending_valid());
    if s.rotation_in_flight() {
        let k = choose|k: int| 0 <= k < n && (#[trigger] s.outbox[k]).is_report();
        assert(t.outbox[k].is_report());
    }
    assert(t.rotation_in_flight() == s.rotation_in_flight());
    assert forall|revision: u64, command_id: Seq<char>| #[trigger]
        t.has_blocked_report(revision, command_id) == s.has_blocked_report(
            revision,
            command_id,
        ) by {
        if s.has_blocked_report(revision, command_id) {
            let k = choose|k: int|
                0 <= k < n && state::blocks(#[trigger] s.outbox[k], revision, command_id);
            assert(state::blocks(t.outbox[k], revision, command_id));
        }
    }
    assert forall|revision: u64, command_id: Seq<char>| #[trigger]
        t.has_activation(revision, command_id) == s.has_activation(revision, command_id) by {
        if s.has_activation(revision, command_id) {
            let k = choose|k: int|
                0 <= k < n && state::activates_for(#[trigger] s.outbox[k], revision, command_id);
            assert(state::activates_for(t.outbox[k], revision, command_id));
        }
    }
    assert forall|i: int| 0 <= i < t.outbox.len() implies t.phase_valid_at(
        #[trigger] t.outbox[i],
    ) by {
        if i < n {
            assert(s.phase_valid_at(s.outbox[i]));
        }
    }
    assert(t.single_report());
    assert(t.phase_valid());
    assert(t.numbering_linked());
}

/// A journal entry for a command that is not journalled yet, answered in
/// the outbox under its own number, keeps the state sound.
proof fn lemma_remember(s: StateView, entry: StoredCommandView)
    requires
        s.sound(),
        s.journal.len() < COMMAND_JOURNAL_LIMIT,
        entry.semantic_valid(),
        entry.acknowledgement.event_cause == entry.command_id,
        !s.journalled(entry.command_id),
        entry.acknowledgement.device_sequence <= s.device_sequence,
        forall|j: int|
            0 <= j < s.journal.len() ==> (#[trigger] s.journal[j]).acknowledgement.device_sequence
                != entry.acknowledgement.device_sequence,
        forall|i: int|
            0 <= i < s.outbox.len() && (#[trigger] s.outbox[i]).sequence()
                == entry.acknowledgement.device_sequence ==> state::acknowledges(
                s.outbox[i],
                entry.command_id,
            ),
    ensures
        (StateView { journal: s.journal.push(entry), ..s }).sound(),
{
    let t = StateView { journal: s.journal.push(entry), ..s };
    let m = s.journal.len() as int;
    assert(forall|j: int| 0 <= j < m ==> t.journal[j] == s.journal[j]);
    assert(t.outbox == s.outbox);
    assert forall|i: int| 0 <= i < t.outbox.len() implies t.entry_valid(#[trigger] t.outbox[i]) by {
        assert(s.entry_valid(s.outbox[i]));
    }
    assert(t.outbox_valid());
    assert(t.journal_valid());
    if let Some(pending) = s.pending {
        let k = choose|k: int|
            0 <= k < m && (#[trigger] s.journal[k]).command_id == pending.command_id
                && s.journal[k].fingerprint == pending.fingerprint;
        assert(t.journal[k].command_id == pending.command_id);
        assert(t.in_journal(pending.command_id, pending.fingerprint));
    }
    assert(t.pending_valid());
    lemma_phase_frame(s, t);
    assert(t.numbering_linked());
}

/// The phase of a rotation depends on the outbox, the installed revision,
/// the awaited reconnect and on whether a delivery is awaited.
proof fn lemma_phase_frame(s: StateView, t: StateView)
    requires
        s.phase_valid(),
        t.outbox == s.outbox,
        t.current.credential_revision == s.current.credential_revision,
        t.reconnect_revision == s.reconnect_revision,
        t.pending is Some == s.pending is Some,
    ensures
        t.phase_valid(),
{
    assert(t.rotation_in_flight() == s.rotation_in_flight());
    assert forall|revision: u64, command_id: Seq<char>| #[trigger]
        t.has_blocked_report(revision, command_id) == s.has_blocked_report(
            revision,
            command_id,
        ) by {}
    assert forall|revision: u64, command_id: Seq<char>| #[trigger]
        t.has_activation(revision, command_id) == s.has_activation(revision, command_id) by {}
    assert forall|i: int| 0 <= i < t.outbox.len() implies t.phase_valid_at(
        #[trigger] t.outbox[i],
    ) by {
        assert(s.phase_valid_at(s.outbox[i]));
    }
}

/// Recording the rejection of a command keeps the state sound.
pub proof fn law_reject_keeps_sound(s: StateView, command: RejectedView)
    requires
        s.sound(),
        s.rejectable(command),
    ensures
        s.reject(command).sound(),
{
    let ack = s.refusal(command);
    let entry = StoredOutboundView::Ack {
        event_id: ledger::event_id_of("ack"@, command.command_id),
        payload: ack,
    };
    assert forall|i: int| 0 <= i < s.outbox.len() implies (#[trigger] s.outbox[i]).sequence()
        != entry.sequence() by {
        assert(s.entry_valid(s.outbox[i]));
    }
    lemma_queue_ack(s, entry, ack.device_sequence);
    let queued = with_ack(s, entry, ack.device_sequence);
    let remembered = StoredCommandView {
        command_id: command.command_id,
        fingerprint: command.fingerprint,
        acknowledgement: ack,
        retain_until_epoch_seconds: command.retain_until_epoch_seconds,
    };
    assert(!queued.journalled(command.command_id));
    assert forall|i: int|
        0 <= i < queued.outbox.len() && (#[trigger] queued.outbox[i]).sequence()
            == ack.device_sequence implies state::acknowledges(
        queued.outbox[i],
        command.command_id,
    ) by {
        if i < s.outbox.len() {
            assert(queued.outbox[i] == s.outbox[i]);
        }
    }
    lemma_remember(queued, remembered);
    assert(s.reject(command) == (StateView { journal: queued.journal.push(remembered), ..queued }));
}

/// Rejecting a known command identity with other content keeps the state
/// sound, as long as that rejection is not queued already.
pub proof fn law_conflicting_replay_keeps_sound(
    s: StateView,
    command_id: Seq<char>,
    fingerprint: Seq<char>,
    generation: u64,
    fence: u64,
    observed_at: i64,
)
    requires
        s.sound(),
        s.has_room(1),
        !s.has_event(StateView::conflict_event(command_id, fingerprint)),
        command_id.len() > 0,
        generation > 0,
        fence > 0,
        observed_at >= 0,
    ensures
        s.reject_conflicting_replay(
            command_id,
            fingerprint,
            generation,
            fence,
            observed_at,
        ).sound(),
{
    let t = s.reject_conflicting_replay(command_id, fingerprint, generation, fence, observed_at);
    let entry = t.outbox.last();
    reveal_strlit("\0");
    assert(ledger::joined(command_id, fingerprint).len() > command_id.len());
    assert forall|i: int| 0 <= i < s.outbox.len() implies (#[trigger] s.outbox[i]).sequence()
        != entry.sequence() by {
        assert(s.entry_valid(s.outbox[i]));
    }
    lemma_queue_ack(s, entry, t.device_sequence);
    assert(t == with_ack(s, entry, t.device_sequence));
}

/// Repeating the acknowledgement of a journalled command keeps the state
/// sound, as long as no acknowledgement of it is queued already.
pub proof fn law_replay_keeps_sound(s: StateView, i: int)
    requires
        s.sound(),
        0 <= i < s.journal.len(),
        s.outbox.len() < OUTBOX_LIMIT,
        !s.has_command_ack(s.journal[i].command_id),
        !s.has_event(ledger::event_id_of("ack"@, s.journal[i].command_id)),
    ensures
        s.replay(i).sound(),
{
    let command = s.journal[i];
    let entry = StoredOutboundView::Ack {
        event_id: ledger::event_id_of("ack"@, command.command_id),
        payload: command.acknowledgement.replayed(),
    };
    assert(command.semantic_valid());
    assert forall|k: int| 0 <= k < s.outbox.len() implies (#[trigger] s.outbox[k]).sequence()
        != entry.sequence() by {
        if s.outbox[k].sequence() == entry.sequence() {
            assert(s.outbox[k].sequence() == s.journal[i].acknowledgement.device_sequence);
            assert(state::acknowledges(s.outbox[k], command.command_id));
        }
    }
    assert forall|j: int|
        0 <= j < s.journal.len() && (#[trigger] s.journal[j]).acknowledgement.device_sequence
            == entry.sequence() implies state::acknowledges(entry, s.journal[j].command_id) by {
        if j < i {
            assert(s.journal[j].acknowledgement.device_sequence
                != s.journal[i].acknowledgement.device_sequence);
        } else if i < j {
            assert(s.journal[i].acknowledgement.device_sequence
                != s.journal[j].acknowledgement.device_sequence);
        }
    }
    lemma_queue_ack(s, entry, s.device_sequence);
    assert(s.replay(i) == with_ack(s, entry, s.device_sequence));
}

/// Settling the awaited delivery keeps the state sound.
pub proof fn law_settlement_keeps_sound(s: StateView)
    requires
        s.sound(),
    ensures
        s.settle().sound(),
{
    let t = s.settle();
    assert forall|i: int| 0 <= i < t.outbox.len() implies t.entry_valid(#[trigger] t.outbox[i]) by {
        assert(s.entry_valid(s.outbox[i]));
    }
    assert(t.outbox_valid());
    assert(t.journal_valid());
    if let Some(pending) = s.pending {
        assert(s.in_journal(pending.command_id, pending.fingerprint));
        assert(t.in_journal(pending.command_id, pending.fingerprint));
    }
    assert(t.pending_valid());
    lemma_phase_frame(s, t);
}

/// At most one acknowledgement activates a revision at any time.
pub proof fn lemma_single_activation(s: StateView, i: int, j: int)
    requires
        s.sound(),
        0 <= i < s.outbox.len(),
        0 <= j < s.outbox.len(),
        s.outbox[i].activates() is Some,
        s.outbox[j].activates() is Some,
    ensures
        i == j,
{
    let a = s.outbox[i]->Ack_payload;
    let b = s.outbox[j]->Ack_payload;
    assert(s.phase_valid_at(s.outbox[i]));
    assert(s.phase_valid_at(s.outbox[j]));
    let revision = s.current.credential_revision;
    assert(s.has_blocked_report(revision, a.command_id));
    assert(s.has_blocked_report(revision, b.command_id));
    let x = choose|x: int|
        0 <= x < s.outbox.len() && state::blocks(#[trigger] s.outbox[x], revision, a.command_id);
    let y = choose|y: int|
        0 <= y < s.outbox.len() && state::blocks(#[trigger] s.outbox[y], revision, b.command_id);
    assert(s.outbox[x].is_report() && s.outbox[y].is_report());
    assert(x == y);
    assert(a.command_id == b.command_id);
    assert(owns_activation(s.outbox[i]) && owns_activation(s.outbox[j]));
    assert(s.entry_valid(s.outbox[i]) && s.entry_valid(s.outbox[j]));
    assert(s.outbox[i].event_id() == s.outbox[j].event_id());
}

/// Confirming a published entry keeps the state sound. A blocked report is
/// never published, so it is never what is confirmed.
pub proof fn law_confirm_keeps_sound(s: StateView, i: int)
    requires
        s.sound(),
        0 <= i < s.outbox.len(),
        !(s.outbox[i] is ReportBlocked),
    ensures
        s.confirm(i).sound(),
{
    let t = s.confirm(i);
    let n = s.outbox.len() as int;
    let revision = s.current.credential_revision;
    assert(t.outbox.len() == n - 1);
    assert(forall|k: int| 0 <= k < i ==> t.outbox[k] == s.outbox[k]);
    assert(forall|k: int| i <= k < n - 1 ==> t.outbox[k] == s.outbox[k + 1]);
    assert forall|k: int| 0 <= k < t.outbox.len() implies t.entry_valid(#[trigger] t.outbox[k]) by {
        if k < i {
            assert(s.entry_valid(s.outbox[k]));
        } else {
            assert(s.entry_valid(s.outbox[k + 1]));
        }
    }
    assert forall|a: int, b: int| 0 <= a < b < t.outbox.len() implies (
    #[trigger] t.outbox[a]).event_id() != (#[trigger] t.outbox[b]).event_id() by {
        let x = if a < i { a } else { a + 1 };
        let y = if b < i { b } else { b + 1 };
        assert(s.outbox[x].event_id() != s.outbox[y].event_id());
    }
    assert forall|a: int, b: int| 0 <= a < b < t.outbox.len() implies (
    #[trigger] t.outbox[a]).sequence() != (#[trigger] t.outbox[b]).sequence() by {
        let x = if a < i { a } else { a + 1 };
        let y = if b < i { b } else { b + 1 };
        assert(s.outbox[x].sequence() != s.outbox[y].sequence());
    }
    assert(t.outbox_valid());
    assert(t.journal_valid());
    if let Some(pending) = t.pending {
        assert(s.in_journal(pending.command_id, pending.fingerprint));
        assert(t.in_journal(pending.command_id, pending.fingerprint));
    }
    assert(t.pending_valid());
    assert(t.single_report()) by {
        assert forall|a: int, b: int| 0 <= a < b < t.outbox.len() implies !((
        #[trigger] t.outbox[a]).is_report() && (#[trigger] t.outbox[b]).is_report()) by {
            let x = if a < i { a } else { a + 1 };
            let y = if b < i { b } else { b + 1 };
            assert(!(s.outbox[x].is_report() && s.outbox[y].is_report()));
        }
    }
    assert(s.phase_valid_at(s.outbox[i]));
    if s.outbox[i].is_report() {
        assert forall|k: int| 0 <= k < n && k != i implies !(#[trigger] s.outbox[k]).is_report()
            && s.outbox[k].activates() is None by {
            assert(s.phase_valid_at(s.outbox[k]));
            if k < i {
                assert(!(s.outbox[k].is_report() && s.outbox[i].is_report()));
            } else {
                assert(!(s.outbox[i].is_report() && s.outbox[k].is_report()));
            }
            if let Some(r) = s.outbox[k].activates() {
                let command_id = s.outbox[k]->Ack_payload.command_id;
                assert(s.has_blocked_report(r, command_id));
                let x = choose|x: int|
                    0 <= x < n && state::blocks(#[trigger] s.outbox[x], r, command_id);
                assert(s.outbox[x].is_report());
                assert(x == i);
            }
        }
        assert(!t.rotation_in_flight()) by {
            if t.rotation_in_flight() {
                let k = choose|k: int|
                    0 <= k < t.outbox.len() && (#[trigger] t.outbox[k]).is_report();
                let x = if k < i { k } else { k + 1 };
                assert(s.outbox[x].is_report());
            }
        }
        assert forall|k: int| 0 <= k < t.outbox.len() implies t.phase_valid_at(
            #[trigger] t.outbox[k],
        ) by {
            let x = if k < i { k } else { k + 1 };
            assert(!s.outbox[x].is_report() && s.outbox[x].activates() is None);
        }
        assert(t.phase_valid());
    } else {
        assert(t.rotation_in_flight() == s.rotation_in_flight()) by {
            if s.rotation_in_flight() {
                let k = choose|k: int| 0 <= k < n && (#[trigger] s.outbox[k]).is_report();
                let l = if k < i { k } else { k - 1 };
                assert(t.outbox[l].is_report());
            }
            if t.rotation_in_flight() {
                let k = choose|k: int|
                    0 <= k < t.outbox.len() && (#[trigger] t.outbox[k]).is_report();
                let x = if k < i { k } else { k + 1 };
                assert(s.outbox[x].is_report());
            }
        }
        assert forall|r: u64, c: Seq<char>| #[trigger] t.has_blocked_report(r, c)
            == s.has_blocked_report(r, c) by {
            if s.has_blocked_report(r, c) {
                let k = choose|k: int| 0 <= k < n && state::blocks(#[trigger] s.outbox[k], r, c);
                let l = if k < i { k } else { k - 1 };
                assert(state::blocks(t.outbox[l], r, c));
            }
            if t.has_blocked_report(r, c) {
                let k = choose|k: int|
                    0 <= k < n - 1 && state::blocks(#[trigger] t.outbox[k], r, c);
                let x = if k < i { k } else { k + 1 };
                assert(state::blocks(s.outbox[x], r, c));
            }
        }
        match s.outbox[i].activates() {
            Some(r) => {
                let command_id = s.outbox[i]->Ack_payload.command_id;
                assert(r == revision);
                assert(t.has_blocked_report(r, command_id));
                let l = choose|l: int|
                    0 <= l < n - 1 && state::blocks(#[trigger] t.outbox[l], r, command_id);
                assert(state::blocks_revision(s.outbox.remove(i)[l], r));
                assert(t.reconnect_revision == Some(r));
                assert(t.outbox[l].is_report());
                assert forall|k: int| 0 <= k < t.outbox.len() implies (
                #[trigger] t.outbox[k]).activates() is None by {
                    let x = if k < i { k } else { k + 1 };
                    if s.outbox[x].activates() is Some {
                        lemma_single_activation(s, x, i);
                    }
                }
                assert forall|k: int| 0 <= k < t.outbox.len() implies t.phase_valid_at(
                    #[trigger] t.outbox[k],
                ) by {
                    assert(t.outbox[k].activates() is None);
                    if t.outbox[k].is_report() {
                        assert(k == l);
                        let payload = t.outbox[k]->ReportBlocked_payload;
                        assert(!t.has_activation(payload.credential_revision, payload.command_id));
                    }
                }
                assert(t.phase_valid());
            },
            None => {
                assert(t.reconnect_revision == s.reconnect_revision);
                assert forall|r: u64, c: Seq<char>| #[trigger] t.has_activation(r, c)
                    == s.has_activation(r, c) by {
                    if s.has_activation(r, c) {
                        let k = choose|k: int|
                            0 <= k < n && state::activates_for(#[trigger] s.outbox[k], r, c);
                        let l = if k < i { k } else { k - 1 };
                        assert(state::activates_for(t.outbox[l], r, c));
                    }
                    if t.has_activation(r, c) {
                        let k = choose|k: int|
                            0 <= k < n - 1 && state::activates_for(#[trigger] t.outbox[k], r, c);
                        let x = if k < i { k } else { k + 1 };
                        assert(state::activates_for(s.outbox[x], r, c));
                    }
                }
                assert forall|k: int| 0 <= k < t.outbox.len() implies t.phase_valid_at(
                    #[trigger] t.outbox[k],
                ) by {
                    let x = if k < i { k } else { k + 1 };
                    assert(s.phase_valid_at(s.outbox[x]));
                }
                assert(t.phase_valid());
            },
        }
    }
    assert(t.activation_owned()) by {
        assert forall|k: int| 0 <= k < t.outbox.len() implies owns_activation(
            #[trigger] t.outbox[k],
        ) by {
            let x = if k < i { k } else { k + 1 };
            assert(owns_activation(s.outbox[x]));
        }
    }
    assert(t.numbering_linked()) by {
        assert forall|k: int, j: int|
            0 <= k < t.outbox.len() && 0 <= j < t.journal.len() && (
            #[trigger] t.outbox[k]).sequence() == (
            #[trigger] t.journal[j]).acknowledgement.device_sequence implies state::acknowledges(
            t.outbox[k],
            t.journal[j].command_id,
        ) by {
            let x = if k < i { k } else { k + 1 };
            assert(s.outbox[x].sequence() == s.journal[j].acknowledgement.device_sequence);
        }
    }
}

/// Releasing the report once the awaited session is up keeps the state sound.
pub proof fn law_reconnect_keeps_sound(s: StateView)
    requires
        s.sound(),
        s.reconnect_revision is Some,
    ensures
        s.reconnected().sound(),
{
    let t = s.reconnected();
    let n = s.outbox.len() as int;
    assert(forall|k: int| 0 <= k < n ==> t.outbox[k] == s.outbox[k].released());
    assert forall|k: int| 0 <= k < n implies t.entry_valid(#[trigger] t.outbox[k])
        && t.phase_valid_at(t.outbox[k]) && owns_activation(t.outbox[k]) by {
        assert(s.entry_valid(s.outbox[k]));
        assert(s.phase_valid_at(s.outbox[k]));
        assert(owns_activation(s.outbox[k]));
    }
    assert forall|a: int, b: int| 0 <= a < b < n implies (#[trigger] t.outbox[a]).event_id() != (
    #[trigger] t.outbox[b]).event_id() && t.outbox[a].sequence() != t.outbox[b].sequence() && !(
    t.outbox[a].is_report() && t.outbox[b].is_report()) by {
        assert(s.outbox[a].event_id() != s.outbox[b].event_id());
        assert(s.outbox[a].sequence() != s.outbox[b].sequence());
        assert(!(s.outbox[a].is_report() && s.outbox[b].is_report()));
    }
    assert(t.outbox_valid());
    assert(t.journal_valid());
    if let Some(pending) = s.pending {
        assert(s.in_journal(pending.command_id, pending.fingerprint));
        assert(t.in_journal(pending.command_id, pending.fingerprint));
    }
    assert(t.pending_valid());
    let k = choose|k: int| 0 <= k < n && (#[trigger] s.outbox[k]).is_report();
    assert(t.outbox[k].is_report());
    assert(t.phase_valid());
    assert(t.numbering_linked()) by {
        assert forall|x: int, j: int|
            0 <= x < t.outbox.len() && 0 <= j < t.journal.len() && (
            #[trigger] t.outbox[x]).sequence() == (
            #[trigger] t.journal[j]).acknowledgement.device_sequence implies state::acknowledges(
            t.outbox[x],
            t.journal[j].command_id,
        ) by {
            assert(s.outbox[x].sequence() == s.journal[j].acknowledgement.device_sequence);
        }
    }
}

/// What is left of a sequence after filtering is what passed, in order.
proof fn lemma_filter_index<A>(s: Seq<A>, keep: spec_fn(A) -> bool, k: int) -> (at: int)
    requires
        0 <= k < s.filter(keep).len(),
    ensures
        0 <= at < s.len(),
        k <= at,
        s[at] == s.filter(keep)[k],
        keep(s[at]),
        at == filter_source(s, keep, k),
    decreases s.len(),
{
    reveal(Seq::filter);
    if s.len() == 0 {
        0
    } else {
        let front = s.drop_last();
        lemma_filter_len(front, keep);
        if k < front.filter(keep).len() {
            lemma_filter_index(front, keep, k)
        } else {
            s.len() - 1
        }
    }
}

pub proof fn lemma_filter_len<A>(s: Seq<A>, keep: spec_fn(A) -> bool)
    ensures
        s.filter(keep).len() <= s.len(),
    decreases s.len(),
{
    reveal(Seq::filter);
    if s.len() > 0 {
        lemma_filter_len(s.drop_last(), keep);
    }
}

/// Where in the sequence the `k`-th kept element comes from.
spec fn filter_source<A>(s: Seq<A>, keep: spec_fn(A) -> bool, k: int) -> int
    decreases s.len(),
{
    if s.len() == 0 {
        0
    } else if k < s.drop_last().filter(keep).len() {
        filter_source(s.drop_last(), keep, k)
    } else {
        s.len() - 1
    }
}

proof fn lemma_filter_ordered<A>(s: Seq<A>, keep: spec_fn(A) -> bool, j: int, k: int)
    requires
        0 <= j < k < s.filter(keep).len(),
    ensures
        filter_source(s, keep, j) < filter_source(s, keep, k),
    decreases s.len(),
{
    reveal(Seq::filter);
    if s.len() > 0 {
        let front = s.drop_last();
        if k < front.filter(keep).len() {
            lemma_filter_ordered(front, keep, j, k);
        } else {
            let at = lemma_filter_index(front, keep, j);
        }
    }
}

/// What passes the filter is still there.
proof fn lemma_filter_keeps<A>(s: Seq<A>, keep: spec_fn(A) -> bool, i: int) -> (k: int)
    requires
        0 <= i < s.len(),
        keep(s[i]),
    ensures
        0 <= k < s.filter(keep).len(),
        s.filter(keep)[k] == s[i],
    decreases s.len(),
{
    reveal(Seq::filter);
    let front = s.drop_last();
    if i < s.len() - 1 {
        lemma_filter_keeps(front, keep, i)
    } else {
        front.filter(keep).len() as int
    }
}

/// Forgetting the commands whose time has passed keeps the state sound: the
/// command whose delivery is awaited is not forgotten.
pub proof fn law_expiry_keeps_sound(s: StateView, now: u64)
    requires
        s.sound(),
    ensures
        s.expire(now).sound(),
        s.expire(now).journal.len() <= s.journal.len(),
{
    let t = s.expire(now);
    let keep = |entry: StoredCommandView| s.retains(entry, now);
    lemma_filter_len(s.journal, keep);
    assert forall|i: int| 0 <= i < t.outbox.len() implies t.entry_valid(#[trigger] t.outbox[i]) by {
        assert(s.entry_valid(s.outbox[i]));
    }
    assert(t.outbox_valid());
    assert forall|j: int| 0 <= j < t.journal.len() implies (
    #[trigger] t.journal[j]).semantic_valid() && t.journal[j].acknowledgement.device_sequence
        <= t.device_sequence && t.journal[j].acknowledgement.event_cause
        == t.journal[j].command_id by {
        let at = lemma_filter_index(s.journal, keep, j);
        assert(s.journal[at].semantic_valid());
    }
    assert forall|j: int, k: int| 0 <= j < k < t.journal.len() implies (
    #[trigger] t.journal[j]).command_id != (#[trigger] t.journal[k]).command_id
        && t.journal[j].acknowledgement.device_sequence
        != t.journal[k].acknowledgement.device_sequence by {
        let a = lemma_filter_index(s.journal, keep, j);
        let b = lemma_filter_index(s.journal, keep, k);
        lemma_filter_ordered(s.journal, keep, j, k);
        assert(s.journal[a].command_id != s.journal[b].command_id);
        assert(s.journal[a].acknowledgement.device_sequence
            != s.journal[b].acknowledgement.device_sequence);
    }
    assert(t.journal_valid());
    if let Some(pending) = s.pending {
        let i = choose|i: int|
            0 <= i < s.journal.len() && (#[trigger] s.journal[i]).command_id == pending.command_id
                && s.journal[i].fingerprint == pending.fingerprint;
        let k = lemma_filter_keeps(s.journal, keep, i);
        assert(t.journal[k].command_id == pending.command_id);
        assert(t.in_journal(pending.command_id, pending.fingerprint));
    }
    assert(t.pending_valid());
    lemma_phase_frame(s, t);
    assert forall|i: int, j: int|
        0 <= i < t.outbox.len() && 0 <= j < t.journal.len() && (#[trigger] t.outbox[i]).sequence()
            == (#[trigger] t.journal[j]).acknowledgement.device_sequence implies state::acknowledges(
        t.outbox[i],
        t.journal[j].command_id,
    ) by {
        let at = lemma_filter_index(s.journal, keep, j);
        assert(s.outbox[i].sequence() == s.journal[at].acknowledgement.device_sequence);
    }
    assert(t.numbering_linked());
}

} // verus!
