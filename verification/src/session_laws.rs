//! Laws of one session: what each report of the transport leads to, what it
//! leaves of the session, and when another session follows.

use crate::agent::AgentError;
use crate::control::BodyBuffer;
use crate::failure::AppError;
use crate::mqtt::{CommandDelivery, MqttError, MqttEvent, MqttSession, Packet};
use crate::session;
use crate::session::{
    AfterSession, CommandAction, ConnectionState, HeldCommand, SessionAction, SessionCompletion,
    SessionOutcome, SessionState, UnsubscribedAction,
};
use vstd::prelude::*;

verus! {

/// Of everything that a session keeps, only its subscription and what is
/// named with it may differ.
pub open spec fn same_but_subscription(a: SessionState, b: SessionState) -> bool {
    &&& a.publish == b.publish
    &&& a.connection == b.connection
    &&& a.recovery_observation == b.recovery_observation
    &&& a.shutdown_deadline == b.shutdown_deadline
}

/// A session starts unconnected, unsubscribed and with nothing under way.
pub proof fn law_sessions_start_idle(r: SessionState)
    requires
        call_ensures(SessionState::default, (), r),
    ensures
        r.publish is Idle,
        r.subscription is Inactive,
        r.connection is Connecting,
        r.pending_command_ack is None,
        r.recovery_observation is NotObserved,
        r.reconnect is Dormant,
        r.shutdown_deadline is None,
{
}

/// An applied command is acknowledged at once exactly if it was not accepted,
/// more commands can be taken in, and no shutdown has begun; otherwise its
/// acknowledgement waits for the end of the subscription.
pub proof fn law_acknowledgements_wait_for_the_unsubscription(
    state: &mut SessionState,
    command: HeldCommand,
    accepted: bool,
    intake_open: bool,
    r: CommandAction,
)
    requires
        call_ensures(SessionState::on_command, (state, command, accepted, intake_open), r),
    ensures
        r is Acknowledge <==> !accepted && intake_open && old(state).shutdown_deadline is None,
        r is Acknowledge ==> r->Acknowledge_0 == command && *final(state) == *old(state),
        r is Hold ==> final(state).pending_command_ack == Some(command) && final(state).subscription
            is Unsubscribing && same_but_subscription(*old(state), *final(state))
            && final(state).reconnect == old(state).reconnect,
{
}

/// A session that comes up removes an old subscription before anything else,
/// and takes commands in only outside a shutdown and a rotation.
pub proof fn law_a_connected_session_recovers_first(
    state: &mut SessionState,
    now: u64,
    recovery_pending: bool,
    rotation_in_flight: bool,
    intake_open: bool,
    r: SessionAction,
)
    requires
        call_ensures(
            SessionState::on_connected,
            (state, now, recovery_pending, rotation_in_flight, intake_open),
            r,
        ),
    ensures
        r is UnsubscribeRecovery <==> recovery_pending,
        r is Subscribe <==> !recovery_pending && old(state).shutdown_deadline is None
            && !rotation_in_flight && intake_open,
        !(r is Reconnect) && !(r is UnsubscribeCommand),
        final(state).connection == (ConnectionState::Connected { at: now }),
        recovery_pending ==> final(state).subscription is Unsubscribing,
        !recovery_pending ==> final(state).subscription is Inactive,
        final(state).publish == old(state).publish,
        final(state).pending_command_ack == old(state).pending_command_ack,
        final(state).reconnect == old(state).reconnect,
        final(state).recovery_observation == old(state).recovery_observation,
        final(state).shutdown_deadline == old(state).shutdown_deadline,
{
}

/// A granted subscription is active; a delivery on the recovery topic is
/// remembered as observed, and any other leaves no trace.
pub proof fn law_subscriptions_and_deliveries_are_noted(
    subscribed: &mut SessionState,
    observing: &mut SessionState,
    on_recovery_topic: bool,
)
    requires
        call_ensures(SessionState::on_subscribed, (subscribed,), ()),
        call_ensures(SessionState::observe_delivery, (observing, on_recovery_topic), ()),
    ensures
        final(subscribed).subscription is Active,
        same_but_subscription(*old(subscribed), *final(subscribed)),
        final(subscribed).pending_command_ack == old(subscribed).pending_command_ack,
        final(subscribed).reconnect == old(subscribed).reconnect,
        on_recovery_topic ==> final(observing).recovery_observation is Observed,
        !on_recovery_topic ==> final(observing).recovery_observation
            == old(observing).recovery_observation,
        final(observing).subscription == old(observing).subscription,
        final(observing).publish == old(observing).publish,
        final(observing).connection == old(observing).connection,
        final(observing).pending_command_ack == old(observing).pending_command_ack,
        final(observing).reconnect == old(observing).reconnect,
        final(observing).shutdown_deadline == old(observing).shutdown_deadline,
{
}

/// A fact is published only on a live connection, one at a time, and neither
/// while a subscription is being removed nor once the reconnect is due.
pub proof fn law_one_fact_at_a_time(state: &mut SessionState, waiting: bool, r: bool)
    requires
        call_ensures(SessionState::publish_next, (state, waiting), r),
    ensures
        r <==> {
            &&& waiting
            &&& old(state).connection is Connected
            &&& old(state).publish is Idle
            &&& old(state).reconnect is Dormant
            &&& !(old(state).subscription is Unsubscribing)
        },
        r ==> final(state).publish is Pending,
        !r ==> final(state).publish == old(state).publish,
        final(state).connection == old(state).connection,
        final(state).subscription == old(state).subscription,
        final(state).pending_command_ack == old(state).pending_command_ack,
        final(state).reconnect == old(state).reconnect,
        final(state).recovery_observation == old(state).recovery_observation,
        final(state).shutdown_deadline == old(state).shutdown_deadline,
{
}

/// An acknowledgement counts only for a fact that is under way, and only once.
pub proof fn law_only_the_fact_under_way_is_acknowledged(
    state: &mut SessionState,
    r: Result<(), AgentError>,
)
    requires
        call_ensures(SessionState::take_outbound_acknowledgement, (state,), r),
    ensures
        r is Ok <==> old(state).publish is Pending,
        r is Err ==> r->Err_0 is UnknownOutbound,
        final(state).publish is Idle,
        final(state).connection == old(state).connection,
        final(state).subscription == old(state).subscription,
        final(state).pending_command_ack == old(state).pending_command_ack,
        final(state).reconnect == old(state).reconnect,
        final(state).recovery_observation == old(state).recovery_observation,
        final(state).shutdown_deadline == old(state).shutdown_deadline,
{
}

/// After a confirmed fact the session is left exactly if the reconnect is
/// due, the old delivery is settled and no subscription is being removed; if
/// it is due and cannot be left yet, it is remembered, and an active
/// subscription is given up. A subscription is made only where none is due.
pub proof fn law_confirmed_facts_lead_to_the_reconnect(
    state: &mut SessionState,
    reconnect_due: bool,
    inbound_settled: bool,
    intake_open: bool,
    r: SessionAction,
)
    requires
        call_ensures(
            SessionState::on_outbound_acknowledged,
            (state, reconnect_due, inbound_settled, intake_open),
            r,
        ),
    ensures
        r is Reconnect <==> reconnect_due && inbound_settled && !(old(state).subscription
            is Unsubscribing),
        r is UnsubscribeCommand <==> reconnect_due && !inbound_settled && old(state).connection
            is Connected && old(state).subscription is Active,
        r is Subscribe <==> !reconnect_due && old(state).subscription is Inactive
            && old(state).shutdown_deadline is None && intake_open,
        !(r is UnsubscribeRecovery),
        reconnect_due && !(r is Reconnect) ==> final(state).reconnect is Ready,
        !reconnect_due || r is Reconnect ==> final(state).reconnect == old(state).reconnect,
        r is UnsubscribeCommand ==> final(state).subscription is Unsubscribing,
        !(r is UnsubscribeCommand) ==> final(state).subscription == old(state).subscription,
        same_but_subscription(*old(state), *final(state)),
        final(state).pending_command_ack == old(state).pending_command_ack,
{
}

/// Once the subscription is gone the held command is acknowledged first; a
/// delivery that never came is recorded as absent exactly if it was awaited,
/// not seen and not settled.
pub proof fn law_held_commands_come_first(
    state: &mut SessionState,
    recovery_pending: bool,
    inbound_settled: bool,
    r: UnsubscribedAction,
)
    requires
        call_ensures(
            SessionState::on_unsubscribed,
            (state, recovery_pending, inbound_settled),
            r,
        ),
    ensures
        r is Acknowledge <==> old(state).pending_command_ack is Some,
        r is Acknowledge ==> old(state).pending_command_ack == Some(r->Acknowledge_0),
        r is MarkAbsent <==> old(state).pending_command_ack is None && recovery_pending
            && !inbound_settled && old(state).recovery_observation is NotObserved,
        final(state).subscription is Inactive,
        final(state).pending_command_ack is None,
        final(state).reconnect == old(state).reconnect,
        same_but_subscription(*old(state), *final(state)),
{
}

/// Without a subscription the session is left once the reconnect is due and
/// the delivery settled; it is subscribed again only outside a rotation and a
/// shutdown while commands can be taken in; otherwise it waits. The outgoing
/// acknowledgement of the settled delivery is the last thing a due reconnect
/// can wait for.
pub proof fn law_sessions_go_on_or_leave(
    state: &SessionState,
    inbound_settled: bool,
    rotation_in_flight: bool,
    intake_open: bool,
    completed: SessionAction,
    settled_pending: bool,
    acknowledged: SessionAction,
)
    requires
        call_ensures(
            SessionState::complete_unsubscribe,
            (state, inbound_settled, rotation_in_flight, intake_open),
            completed,
        ),
        call_ensures(
            SessionState::on_inbound_acknowledged,
            (state, settled_pending),
            acknowledged,
        ),
    ensures
        completed is Reconnect <==> state.reconnect is Ready && inbound_settled,
        completed is Subscribe <==> {
            &&& !(state.reconnect is Ready && inbound_settled)
            &&& !rotation_in_flight
            &&& intake_open
            &&& state.subscription is Inactive
            &&& state.shutdown_deadline is None
        },
        !(completed is UnsubscribeCommand) && !(completed is UnsubscribeRecovery),
        acknowledged is Reconnect <==> settled_pending && state.reconnect is Ready && !(
        state.subscription is Unsubscribing),
        !(acknowledged is Reconnect) ==> acknowledged is Continue,
{
}

/// A shutdown gives up an active subscription and drains for ten seconds; it
/// is over when nothing is under way, held back, being removed or waiting.
pub proof fn law_shutdowns_drain(
    state: &mut SessionState,
    now: u64,
    started: SessionAction,
    later: &SessionState,
    waiting: bool,
    over: bool,
    quiet: bool,
)
    requires
        call_ensures(SessionState::start_shutdown, (state, now), started),
        call_ensures(SessionState::shutdown_is_quiescent, (later, waiting), over),
        call_ensures(SessionState::transport_is_quiescent, (later,), quiet),
    ensures
        now <= u64::MAX - 10_000_000_000 ==> final(state).shutdown_deadline == Some(
            (now + 10_000_000_000) as u64,
        ),
        now > u64::MAX - 10_000_000_000 ==> final(state).shutdown_deadline == Some(u64::MAX),
        started is UnsubscribeCommand <==> old(state).connection is Connected
            && old(state).subscription is Active,
        started is UnsubscribeCommand ==> final(state).subscription is Unsubscribing,
        !(started is UnsubscribeCommand) ==> started is Continue && final(state).subscription
            == old(state).subscription,
        final(state).publish == old(state).publish,
        final(state).connection == old(state).connection,
        final(state).pending_command_ack == old(state).pending_command_ack,
        final(state).recovery_observation == old(state).recovery_observation,
        final(state).reconnect == old(state).reconnect,
        quiet <==> {
            &&& later.shutdown_deadline is Some
            &&& later.connection is Connected
            &&& later.publish is Idle
            &&& later.pending_command_ack is None
            &&& !(later.subscription is Unsubscribing)
        },
        over <==> quiet && !waiting,
{
}

/// A connection is stable once it has held for a minute.
pub proof fn law_stable_connections_have_held(state: &SessionState, now: u64, r: bool)
    requires
        call_ensures(SessionState::connection_is_stable, (state, now), r),
    ensures
        r <==> state.connection is Connected && now - state.connection->at >= 60_000_000_000,
{
}

/// What follows a session: the next one at once after a reconnect, with the
/// delay back at a second; none after a shutdown; the failure after a
/// failure; and after a retryable failure another one, later by the delay and
/// the jitter, with the delay doubled up to half a minute, unless the agent
/// is shutting down.
pub proof fn law_sessions_follow_each_other(
    outcome: SessionOutcome,
    delay: u64,
    jitter: u64,
    shutting_down: bool,
    r: AfterSession,
)
    requires
        delay + jitter <= u64::MAX,
        call_ensures(session::after_session, (outcome, delay, jitter, shutting_down), r),
    ensures
        r is Again <==> outcome == SessionOutcome::Completed(SessionCompletion::Reconnect),
        r is Again ==> r->Again_delay == 1_000,
        r is Fail <==> outcome is Failed,
        r is Stop <==> outcome == SessionOutcome::Completed(SessionCompletion::Shutdown) || (
        outcome is Retryable && shutting_down),
        r is Retry <==> outcome is Retryable && !shutting_down,
        r is Retry ==> {
            &&& r->wait == delay + jitter
            &&& r->Retry_delay <= 30_000
            &&& delay <= 15_000 ==> r->Retry_delay == 2 * delay
            &&& delay >= 15_000 ==> r->Retry_delay == 30_000
        },
{
}

/// Jitter is a quarter of a second at most, and every clock value below that
/// is its own jitter.
pub proof fn law_jitter_is_small(nanoseconds: u32, r: u64)
    requires
        call_ensures(session::retry_jitter_milliseconds, (nanoseconds,), r),
    ensures
        r <= 250,
        nanoseconds <= 250 ==> r == nanoseconds,
        exists|k: int| #[trigger] (251 * k) + r == nanoseconds,
{
    let k = (nanoseconds / 251) as int;
    assert(251 * k + r == nanoseconds);
}

/// A fact that is handed over is the last to be numbered, an acknowledgement
/// that is handed over keeps its token, and neither disturbs the rest.
pub proof fn law_handed_over_facts_queue_up(
    publishing: &mut MqttSession,
    event_id: String,
    acknowledging: &mut MqttSession,
    delivery: &CommandDelivery,
    token: Option<String>,
)
    requires
        call_ensures(MqttSession::publish, (publishing, event_id), ()),
        call_ensures(MqttSession::acknowledge_command, (acknowledging, delivery, token), ()),
    ensures
        final(publishing)@.awaiting.len() == old(publishing)@.awaiting.len() + 1,
        final(publishing)@.awaiting.last() == event_id@,
        forall|i: int|
            0 <= i < old(publishing)@.awaiting.len() ==> #[trigger] final(publishing)@.awaiting[i]
                == old(publishing)@.awaiting[i],
        final(publishing)@.packets == old(publishing)@.packets,
        final(publishing)@.inbound == old(publishing)@.inbound,
        final(acknowledging)@.inbound.contains_key(delivery@.packet_id),
        token is Some ==> final(acknowledging)@.inbound[delivery@.packet_id] == Some(token->0@),
        token is None ==> final(acknowledging)@.inbound[delivery@.packet_id] is None,
        final(acknowledging)@.packets == old(acknowledging)@.packets,
        final(acknowledging)@.awaiting == old(acknowledging)@.awaiting,
{
}

/// A broker's acknowledgement confirms the fact under its number and frees
/// the number; an unknown number confirms nothing.
pub proof fn law_acknowledged_numbers_confirm_their_fact(
    session: &mut MqttSession,
    id: u16,
    r: Result<MqttEvent, MqttError>,
)
    requires
        call_ensures(MqttSession::poll, (session, Packet::PubAck(id)), r),
    ensures
        old(session)@.packets.contains_key(id) ==> r is Ok && r->Ok_0 is OutboundAcknowledged
            && r->Ok_0->event_id@ == old(session)@.packets[id],
        !old(session)@.packets.contains_key(id) ==> r is Err && r->Err_0 is UnknownPubAck,
        !final(session)@.packets.contains_key(id),
        final(session)@.awaiting == old(session)@.awaiting,
        final(session)@.inbound == old(session)@.inbound,
{
}

/// The agent's own acknowledgement that went out settles the delivery whose
/// token was handed over with it, once.
pub proof fn law_sent_acknowledgements_settle_their_delivery(
    session: &mut MqttSession,
    id: u16,
    r: Result<MqttEvent, MqttError>,
)
    requires
        call_ensures(MqttSession::poll, (session, Packet::OutgoingPubAck(id)), r),
    ensures
        !old(session)@.inbound.contains_key(id) ==> r is Err && r->Err_0 is UnknownPubAck,
        old(session)@.inbound.contains_key(id) ==> {
            &&& r is Ok
            &&& r->Ok_0 is InboundAcknowledged
            &&& r->Ok_0->settlement_token is Some <==> old(session)@.inbound[id] is Some
            &&& r->Ok_0->settlement_token is Some ==> r->Ok_0->settlement_token->0@
                == old(session)@.inbound[id]->0
        },
        !final(session)@.inbound.contains_key(id),
        final(session)@.packets == old(session)@.packets,
        final(session)@.awaiting == old(session)@.awaiting,
{
}

/// A body grows by whole chunks up to its limit of one mebibyte, and a
/// response that announces more is not read at all.
pub proof fn law_bodies_stay_within_the_limit(
    announced: Option<u64>,
    opened: Result<BodyBuffer, AppError>,
    buffer: &mut BodyBuffer,
    chunk: &[u8],
    r: Result<(), AppError>,
)
    requires
        call_ensures(BodyBuffer::open, (announced,), opened),
        call_ensures(BodyBuffer::take, (buffer, chunk), r),
    ensures
        opened is Ok <==> announced is None || announced->0 <= 1_048_576,
        opened is Ok ==> opened->Ok_0@.len() == 0,
        opened is Err ==> opened->Err_0@.code == "response_oversize"@,
        r is Ok <==> old(buffer)@.len() + chunk@.len() <= 1_048_576,
        r is Ok ==> final(buffer)@ == old(buffer)@ + chunk@,
        r is Err ==> final(buffer)@ == old(buffer)@ && r->Err_0@.code == "response_oversize"@,
{
}

} // verus!
