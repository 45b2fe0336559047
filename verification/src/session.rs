//! One MQTT session of the agent as decisions: what to ask of the transport
//! next, given what the transport reported and what the agent holds.

use crate::agent::AgentError;
use crate::mqtt::CommandDelivery;
use vstd::prelude::*;

verus! {

/// How long a shutdown may drain, in nanoseconds.
pub const SHUTDOWN_DRAIN_NANOSECONDS: u64 = 10_000_000_000;

/// How long a connection must hold to count as stable, in nanoseconds.
pub const STABLE_CONNECTION_NANOSECONDS: u64 = 60_000_000_000;

/// The delay before the first retry of a connection.
pub const INITIAL_RETRY_MILLISECONDS: u64 = 1_000;

/// The longest delay between two retries.
pub const LONGEST_RETRY_MILLISECONDS: u64 = 30_000;

#[derive(Clone, Copy, Debug, PartialEq, Eq, Structural)]
pub enum PublishState {
    Idle,
    Pending,
}

#[derive(Clone, Copy, Debug, PartialEq, Eq, Structural)]
pub enum SubscriptionState {
    Inactive,
    Active,
    Unsubscribing,
}

/// Times count nanoseconds of one monotonic clock.
#[derive(Clone, Copy, Debug, PartialEq, Eq, Structural)]
pub enum ConnectionState {
    Connecting,
    Connected { at: u64 },
}

#[derive(Clone, Copy, Debug, PartialEq, Eq, Structural)]
pub enum RecoveryObservation {
    NotObserved,
    Observed,
}

#[derive(Clone, Copy, Debug, PartialEq, Eq, Structural)]
pub enum ReconnectState {
    Dormant,
    Ready,
}

#[derive(Clone, Copy, Debug, PartialEq, Eq, Structural)]
pub enum SessionCompletion {
    Reconnect,
    Shutdown,
}

/// A command whose acknowledgement is held back.
#[derive(Debug)]
pub struct HeldCommand {
    pub delivery: Box<CommandDelivery>,
    pub settlement_token: Option<String>,
}

#[derive(Debug)]
pub struct SessionState {
    pub publish: PublishState,
    pub subscription: SubscriptionState,
    pub connection: ConnectionState,
    pub pending_command_ack: Option<HeldCommand>,
    pub recovery_observation: RecoveryObservation,
    pub reconnect: ReconnectState,
    pub shutdown_deadline: Option<u64>,
}

impl Default for SessionState {
    fn default() -> (r: Self)
        ensures
            r == (SessionState {
                publish: PublishState::Idle,
                subscription: SubscriptionState::Inactive,
                connection: ConnectionState::Connecting,
                pending_command_ack: None,
                recovery_observation: RecoveryObservation::NotObserved,
                reconnect: ReconnectState::Dormant,
                shutdown_deadline: None,
            }),
    {
        SessionState {
            publish: PublishState::Idle,
            subscription: SubscriptionState::Inactive,
            connection: ConnectionState::Connecting,
            pending_command_ack: None,
            recovery_observation: RecoveryObservation::NotObserved,
            reconnect: ReconnectState::Dormant,
            shutdown_deadline: None,
        }
    }
}

/// What a handler asks of the transport.
#[derive(Clone, Copy, Debug, PartialEq, Eq, Structural)]
pub enum SessionAction {
    Continue,
    Subscribe,
    UnsubscribeCommand,
    UnsubscribeRecovery,
    Reconnect,
}

/// What becomes of a command that was applied.
#[derive(Debug)]
pub enum CommandAction {
    /// The acknowledgement is held until the command topic is unsubscribed.
    Hold,
    Acknowledge(HeldCommand),
}

/// What follows the end of a subscription.
#[derive(Debug)]
pub enum UnsubscribedAction {
    /// The held command is acknowledged now.
    Acknowledge(HeldCommand),
    /// The awaited old delivery did not come: it is recorded as absent first.
    MarkAbsent,
    Complete,
}

#[derive(Clone, Copy, Debug, PartialEq, Eq, Structural)]
pub enum UnsubscribeCompletion {
    Exit,
    Subscribe,
    Wait,
}

/// The acknowledgement of a command is held unless intake simply goes on.
pub fn should_hold_command_ack(accepted: bool, intake_open: bool, shutting_down: bool) -> (r: bool)
    ensures
        r == (accepted || !intake_open || shutting_down),
{
    accepted || !intake_open || shutting_down
}

pub open spec fn completion_of(
    reconnect_ready: bool,
    inbound_flushed: bool,
    rotation_in_flight: bool,
) -> UnsubscribeCompletion {
    if reconnect_ready && inbound_flushed {
        UnsubscribeCompletion::Exit
    } else if !rotation_in_flight {
        UnsubscribeCompletion::Subscribe
    } else {
        UnsubscribeCompletion::Wait
    }
}

pub fn unsubscribe_completion(
    reconnect_ready: bool,
    inbound_flushed: bool,
    rotation_in_flight: bool,
) -> (r: UnsubscribeCompletion)
    ensures
        r == completion_of(reconnect_ready, inbound_flushed, rotation_in_flight),
{
    if reconnect_ready && inbound_flushed {
        UnsubscribeCompletion::Exit
    } else if !rotation_in_flight {
        UnsubscribeCompletion::Subscribe
    } else {
        UnsubscribeCompletion::Wait
    }
}

impl SessionState {
    pub open spec fn connected(self) -> bool {
        self.connection is Connected
    }

    pub open spec fn unsubscribing(self) -> bool {
        self.subscription == SubscriptionState::Unsubscribing
    }

    pub open spec fn may_publish(self) -> bool {
        &&& self.connected()
        &&& self.publish == PublishState::Idle
        &&& self.reconnect == ReconnectState::Dormant
        &&& !self.unsubscribing()
    }

    pub open spec fn may_unsubscribe(self) -> bool {
        self.connected() && self.subscription == SubscriptionState::Active
    }

    pub open spec fn may_subscribe(self) -> bool {
        self.subscription == SubscriptionState::Inactive && self.shutdown_deadline is None
    }

    /// Nothing is under way on the transport of a session that is to end.
    pub open spec fn quiet(self) -> bool {
        &&& self.shutdown_deadline is Some
        &&& self.connected()
        &&& self.publish == PublishState::Idle
        &&& self.pending_command_ack is None
        &&& !self.unsubscribing()
    }

    /// What follows a confirmed fact.
    pub open spec fn outbound_action(
        self,
        reconnect_due: bool,
        inbound_settled: bool,
        intake_open: bool,
    ) -> SessionAction {
        if reconnect_due {
            if !self.unsubscribing() && inbound_settled {
                SessionAction::Reconnect
            } else if self.may_unsubscribe() {
                SessionAction::UnsubscribeCommand
            } else {
                SessionAction::Continue
            }
        } else if self.may_subscribe() && intake_open {
            SessionAction::Subscribe
        } else {
            SessionAction::Continue
        }
    }

    /// How a session goes on once its subscription is gone.
    pub open spec fn unsubscribed_action(
        self,
        inbound_settled: bool,
        rotation_in_flight: bool,
        intake_open: bool,
    ) -> SessionAction {
        match completion_of(
            self.reconnect == ReconnectState::Ready,
            inbound_settled,
            rotation_in_flight,
        ) {
            UnsubscribeCompletion::Exit => SessionAction::Reconnect,
            UnsubscribeCompletion::Subscribe => if self.may_subscribe() && intake_open {
                SessionAction::Subscribe
            } else {
                SessionAction::Continue
            },
            UnsubscribeCompletion::Wait => SessionAction::Continue,
        }
    }

    /// What follows the outgoing acknowledgement of a command.
    pub open spec fn inbound_action(self, settled_pending: bool) -> SessionAction {
        if settled_pending && self.reconnect == ReconnectState::Ready && !self.unsubscribing() {
            SessionAction::Reconnect
        } else {
            SessionAction::Continue
        }
    }

    fn is_connected(&self) -> (r: bool)
        ensures
            r == self.connected(),
    {
        match self.connection {
            ConnectionState::Connected { .. } => true,
            ConnectionState::Connecting => false,
        }
    }

    pub fn unsubscribe_pending(&self) -> (r: bool)
        ensures
            r == self.unsubscribing(),
    {
        self.subscription == SubscriptionState::Unsubscribing
    }

    pub fn can_publish(&self) -> (r: bool)
        ensures
            r == self.may_publish(),
    {
        self.is_connected() && self.publish == PublishState::Idle && self.reconnect
            == ReconnectState::Dormant && !self.unsubscribe_pending()
    }

    pub fn can_unsubscribe(&self) -> (r: bool)
        ensures
            r == self.may_unsubscribe(),
    {
        self.is_connected() && self.subscription == SubscriptionState::Active
    }

    pub fn can_subscribe(&self) -> (r: bool)
        ensures
            r == self.may_subscribe(),
    {
        self.subscription == SubscriptionState::Inactive && self.shutdown_deadline.is_none()
    }

    pub fn connection_is_stable(&self, now: u64) -> (r: bool)
        ensures
            r == (self.connection matches ConnectionState::Connected { at } && now - at
                >= STABLE_CONNECTION_NANOSECONDS),
    {
        match self.connection {
            ConnectionState::Connected { at } => now >= at && now - at
                >= STABLE_CONNECTION_NANOSECONDS,
            ConnectionState::Connecting => false,
        }
    }

    pub fn transport_is_quiescent(&self) -> (r: bool)
        ensures
            r == self.quiet(),
    {
        self.shutdown_deadline.is_some() && self.is_connected() && self.publish
            == PublishState::Idle && self.pending_command_ack.is_none()
            && !self.unsubscribe_pending()
    }

    /// A shutdown is over when nothing is under way and nothing is left to publish.
    pub fn shutdown_is_quiescent(&self, outbound_waiting: bool) -> (r: bool)
        ensures
            r == (self.quiet() && !outbound_waiting),
    {
        self.transport_is_quiescent() && !outbound_waiting
    }

    /// Whether a waiting fact is published now.
    pub fn publish_next(&mut self, outbound_waiting: bool) -> (r: bool)
        ensures
            r == (old(self).may_publish() && outbound_waiting),
            r ==> *final(self) == (SessionState { publish: PublishState::Pending, ..*old(self) }),
            !r ==> *final(self) == *old(self),
    {
        if self.can_publish() && outbound_waiting {
            self.publish = PublishState::Pending;
            true
        } else {
            false
        }
    }

    pub fn start_shutdown(&mut self, now: u64) -> (r: SessionAction)
        ensures
            final(self).shutdown_deadline == Some(
                if now + SHUTDOWN_DRAIN_NANOSECONDS <= u64::MAX {
                    (now + SHUTDOWN_DRAIN_NANOSECONDS) as u64
                } else {
                    u64::MAX
                },
            ),
            if old(self).may_unsubscribe() {
                r == SessionAction::UnsubscribeCommand && *final(self) == (SessionState {
                    shutdown_deadline: final(self).shutdown_deadline,
                    subscription: SubscriptionState::Unsubscribing,
                    ..*old(self)
                })
            } else {
                r == SessionAction::Continue && *final(self) == (SessionState {
                    shutdown_deadline: final(self).shutdown_deadline,
                    ..*old(self)
                })
            },
    {
        self.shutdown_deadline =
        Some(
            if now <= u64::MAX - SHUTDOWN_DRAIN_NANOSECONDS {
                now + SHUTDOWN_DRAIN_NANOSECONDS
            } else {
                u64::MAX
            },
        );
        if self.can_unsubscribe() {
            self.subscription = SubscriptionState::Unsubscribing;
            SessionAction::UnsubscribeCommand
        } else {
            SessionAction::Continue
        }
    }

    /// The session is up: an old subscription is removed first, and the
    /// command topic is subscribed only if commands can be taken in.
    pub fn on_connected(
        &mut self,
        now: u64,
        recovery_pending: bool,
        rotation_in_flight: bool,
        intake_open: bool,
    ) -> (r: SessionAction)
        ensures
            r == (if recovery_pending {
                SessionAction::UnsubscribeRecovery
            } else if old(self).shutdown_deadline is None && !rotation_in_flight && intake_open {
                SessionAction::Subscribe
            } else {
                SessionAction::Continue
            }),
            *final(self) == (SessionState {
                connection: ConnectionState::Connected { at: now },
                subscription: if recovery_pending {
                    SubscriptionState::Unsubscribing
                } else {
                    SubscriptionState::Inactive
                },
                ..*old(self)
            }),
    {
        self.connection = ConnectionState::Connected { at: now };
        self.subscription = SubscriptionState::Inactive;
        if recovery_pending {
            self.subscription = SubscriptionState::Unsubscribing;
            SessionAction::UnsubscribeRecovery
        } else if self.shutdown_deadline.is_none() && !rotation_in_flight && intake_open {
            SessionAction::Subscribe
        } else {
            SessionAction::Continue
        }
    }

    pub fn on_subscribed(&mut self)
        ensures
            *final(self) == (SessionState {
                subscription: SubscriptionState::Active,
                ..*old(self)
            }),
    {
        self.subscription = SubscriptionState::Active;
    }

    /// Notes whether a delivery came on the recovery topic.
    pub fn observe_delivery(&mut self, on_recovery_topic: bool)
        ensures
            *final(self) == (SessionState {
                recovery_observation: if on_recovery_topic {
                    RecoveryObservation::Observed
                } else {
                    old(self).recovery_observation
                },
                ..*old(self)
            }),
    {
        if on_recovery_topic {
            self.recovery_observation = RecoveryObservation::Observed;
        }
    }

    /// Decides on the acknowledgement of a command that was applied.
    pub fn on_command(&mut self, command: HeldCommand, accepted: bool, intake_open: bool) -> (r:
        CommandAction)
        ensures
            if accepted || !intake_open || old(self).shutdown_deadline is Some {
                r is Hold && *final(self) == (SessionState {
                    subscription: SubscriptionState::Unsubscribing,
                    pending_command_ack: Some(command),
                    ..*old(self)
                })
            } else {
                r == CommandAction::Acknowledge(command) && *final(self) == *old(self)
            },
    {
        if should_hold_command_ack(accepted, intake_open, self.shutdown_deadline.is_some()) {
            self.subscription = SubscriptionState::Unsubscribing;
            self.pending_command_ack = Some(command);
            CommandAction::Hold
        } else {
            CommandAction::Acknowledge(command)
        }
    }

    /// Takes the acknowledgement of the fact under way; there must be one.
    pub fn take_outbound_acknowledgement(&mut self) -> (r: Result<(), AgentError>)
        ensures
            if old(self).publish == PublishState::Pending {
                r is Ok && *final(self) == (SessionState {
                    publish: PublishState::Idle,
                    ..*old(self)
                })
            } else {
                r == Err::<(), AgentError>(AgentError::UnknownOutbound) && *final(self)
                    == *old(self)
            },
    {
        if self.publish != PublishState::Pending {
            return Err(AgentError::UnknownOutbound);
        }
        self.publish = PublishState::Idle;
        Ok(())
    }

    /// Decides what follows a confirmed fact.
    pub fn on_outbound_acknowledged(
        &mut self,
        reconnect_due: bool,
        inbound_settled: bool,
        intake_open: bool,
    ) -> (r: SessionAction)
        ensures
            r == old(self).outbound_action(reconnect_due, inbound_settled, intake_open),
            *final(self) == (SessionState {
                reconnect: if reconnect_due && r != SessionAction::Reconnect {
                    ReconnectState::Ready
                } else {
                    old(self).reconnect
                },
                subscription: if r == SessionAction::UnsubscribeCommand {
                    SubscriptionState::Unsubscribing
                } else {
                    old(self).subscription
                },
                ..*old(self)
            }),
    {
        if reconnect_due {
            if !self.unsubscribe_pending() && inbound_settled {
                return SessionAction::Reconnect;
            }
            self.reconnect = ReconnectState::Ready;
            if self.can_unsubscribe() {
                self.subscription = SubscriptionState::Unsubscribing;
                return SessionAction::UnsubscribeCommand;
            }
            SessionAction::Continue
        } else if self.can_subscribe() && intake_open {
            SessionAction::Subscribe
        } else {
            SessionAction::Continue
        }
    }

    /// The subscription is gone: a held command comes first, then an old
    /// delivery that never came.
    pub fn on_unsubscribed(&mut self, recovery_pending: bool, inbound_settled: bool) -> (r:
        UnsubscribedAction)
        ensures
            final(self).subscription == SubscriptionState::Inactive,
            match old(self).pending_command_ack {
                Some(command) => r == UnsubscribedAction::Acknowledge(command) && *final(self) == (
                SessionState {
                    subscription: SubscriptionState::Inactive,
                    pending_command_ack: None,
                    ..*old(self)
                }),
                None => {
                    &&& *final(self) == (SessionState {
                        subscription: SubscriptionState::Inactive,
                        ..*old(self)
                    })
                    &&& if recovery_pending && old(self).recovery_observation
                        == RecoveryObservation::NotObserved && !inbound_settled {
                        r is MarkAbsent
                    } else {
                        r is Complete
                    }
                },
            },
    {
        self.subscription = SubscriptionState::Inactive;
        match self.pending_command_ack.take() {
            Some(command) => UnsubscribedAction::Acknowledge(command),
            None => if recovery_pending && self.recovery_observation
                == RecoveryObservation::NotObserved && !inbound_settled {
                UnsubscribedAction::MarkAbsent
            } else {
                UnsubscribedAction::Complete
            },
        }
    }

    /// Decides how a session goes on without a subscription.
    pub fn complete_unsubscribe(
        &self,
        inbound_settled: bool,
        rotation_in_flight: bool,
        intake_open: bool,
    ) -> (r: SessionAction)
        ensures
            r == self.unsubscribed_action(inbound_settled, rotation_in_flight, intake_open),
    {
        match unsubscribe_completion(
            self.reconnect == ReconnectState::Ready,
            inbound_settled,
            rotation_in_flight,
        ) {
            UnsubscribeCompletion::Exit => SessionAction::Reconnect,
            UnsubscribeCompletion::Subscribe => if self.can_subscribe() && intake_open {
                SessionAction::Subscribe
            } else {
                SessionAction::Continue
            },
            UnsubscribeCompletion::Wait => SessionAction::Continue,
        }
    }

    /// Decides what follows the outgoing acknowledgement of a command; only
    /// the settled old delivery can complete a reconnect.
    pub fn on_inbound_acknowledged(&self, settled_pending: bool) -> (r: SessionAction)
        ensures
            r == self.inbound_action(settled_pending),
    {
        if settled_pending && self.reconnect == ReconnectState::Ready
            && !self.unsubscribe_pending() {
            SessionAction::Reconnect
        } else {
            SessionAction::Continue
        }
    }
}

/// The delay before the next retry: doubled, up to the longest one.
pub open spec fn doubled_delay(milliseconds: u64) -> u64 {
    if 2 * milliseconds <= LONGEST_RETRY_MILLISECONDS {
        (2 * milliseconds) as u64
    } else {
        LONGEST_RETRY_MILLISECONDS
    }
}

pub fn next_retry_delay(milliseconds: u64) -> (r: u64)
    ensures
        r == doubled_delay(milliseconds),
{
    if milliseconds <= LONGEST_RETRY_MILLISECONDS / 2 {
        2 * milliseconds
    } else {
        LONGEST_RETRY_MILLISECONDS
    }
}

/// Up to a quarter of a second of jitter, taken from a clock's nanoseconds.
pub fn retry_jitter_milliseconds(nanoseconds: u32) -> (r: u64)
    ensures
        r == nanoseconds % 251,
        r <= 250,
{
    (nanoseconds % 251) as u64
}

/// How a session ended.
#[derive(Clone, Copy, Debug, PartialEq, Eq, Structural)]
pub enum SessionOutcome {
    Completed(SessionCompletion),
    /// The transport failed in a way that is worth a retry.
    Retryable,
    Failed,
}

/// What follows the end of a session; delays count milliseconds.
#[derive(Clone, Copy, Debug, PartialEq, Eq, Structural)]
pub enum AfterSession {
    /// The next session starts at once; `delay` precedes the first retry.
    Again { delay: u64 },
    /// The next session starts after `wait`; `delay` precedes the retry after it.
    Retry { wait: u64, delay: u64 },
    Stop,
    Fail,
}

pub open spec fn follow_up(
    outcome: SessionOutcome,
    delay: u64,
    jitter: u64,
    shutting_down: bool,
) -> AfterSession {
    match outcome {
        SessionOutcome::Completed(SessionCompletion::Reconnect) => AfterSession::Again {
            delay: INITIAL_RETRY_MILLISECONDS,
        },
        SessionOutcome::Completed(SessionCompletion::Shutdown) => AfterSession::Stop,
        SessionOutcome::Retryable => if shutting_down {
            AfterSession::Stop
        } else {
            AfterSession::Retry { wait: (delay + jitter) as u64, delay: doubled_delay(delay) }
        },
        SessionOutcome::Failed => AfterSession::Fail,
    }
}

/// Decides whether and when another session follows.
pub fn after_session(outcome: SessionOutcome, delay: u64, jitter: u64, shutting_down: bool) -> (r:
    AfterSession)
    requires
        delay + jitter <= u64::MAX,
    ensures
        r == follow_up(outcome, delay, jitter, shutting_down),
{
    match outcome {
        SessionOutcome::Completed(SessionCompletion::Reconnect) => AfterSession::Again {
            delay: INITIAL_RETRY_MILLISECONDS,
        },
        SessionOutcome::Completed(SessionCompletion::Shutdown) => AfterSession::Stop,
        SessionOutcome::Retryable => if shutting_down {
            AfterSession::Stop
        } else {
            AfterSession::Retry { wait: delay + jitter, delay: next_retry_delay(delay) }
        },
        SessionOutcome::Failed => AfterSession::Fail,
    }
}

/// Retries are never closer than the first delay and never further apart than the longest.
pub proof fn law_retry_delay_is_bounded(milliseconds: u64)
    requires
        INITIAL_RETRY_MILLISECONDS <= milliseconds <= LONGEST_RETRY_MILLISECONDS,
    ensures
        milliseconds <= doubled_delay(milliseconds) <= LONGEST_RETRY_MILLISECONDS,
{
}

/// Whichever of the three comes last, the session is left for a reconnect
/// exactly when the reconnect is due, no subscription is being removed, and
/// the old delivery is settled.
pub proof fn law_exit_waits_for_unsubscribe_and_settlement(
    state: SessionState,
    reconnect_due: bool,
    inbound_settled: bool,
    rotation_in_flight: bool,
    intake_open: bool,
)
    ensures
        state.outbound_action(reconnect_due, inbound_settled, intake_open)
            == SessionAction::Reconnect <==> reconnect_due && !state.unsubscribing()
            && inbound_settled,
        state.unsubscribed_action(inbound_settled, rotation_in_flight, intake_open)
            == SessionAction::Reconnect <==> state.reconnect == ReconnectState::Ready
            && inbound_settled,
        state.inbound_action(inbound_settled) == SessionAction::Reconnect <==> state.reconnect
            == ReconnectState::Ready && !state.unsubscribing() && inbound_settled,
{
}

/// The command topic is subscribed again only while no rotation is under way
/// and no shutdown has begun, and only if commands can be taken in.
pub proof fn law_intake_reopens_only_outside_rotation(
    state: SessionState,
    inbound_settled: bool,
    rotation_in_flight: bool,
    intake_open: bool,
)
    requires
        state.unsubscribed_action(inbound_settled, rotation_in_flight, intake_open)
            == SessionAction::Subscribe,
    ensures
        !rotation_in_flight,
        intake_open,
        state.shutdown_deadline is None,
{
}

/// A session that is to end is not over while a fact is under way, a command
/// is held or a subscription is being removed.
pub proof fn law_shutdown_waits_for_every_transport_fact(state: SessionState)
    requires
        state.shutdown_deadline is None || !state.connected() || state.publish
            == PublishState::Pending || state.pending_command_ack is Some || state.unsubscribing(),
    ensures
        !state.quiet(),
{
}

} // verus!
