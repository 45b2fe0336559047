use secure_device_rotation::agent::AgentError;
use secure_device_rotation::session::{
    after_session, next_retry_delay, retry_jitter_milliseconds, should_hold_command_ack,
    unsubscribe_completion, AfterSession, ConnectionState, PublishState, ReconnectState,
    SessionAction, SessionCompletion, SessionOutcome, SessionState, SubscriptionState,
    UnsubscribeCompletion, UnsubscribedAction,
};

#[test]
fn recovery_unsubscribe_and_report_puback_orders_restore_intake() {
    // UnsubAck before report PUBACK: remain blocked; report PUBACK then subscribes in its arm.
    assert_eq!(
        unsubscribe_completion(false, true, true),
        UnsubscribeCompletion::Wait
    );
    // Report PUBACK before UnsubAck: the UnsubAck arm must restore the canonical subscription.
    assert_eq!(
        unsubscribe_completion(false, true, false),
        UnsubscribeCompletion::Subscribe
    );
}

#[test]
fn accepted_command_ack_orders_exit_only_after_unsubscribe_and_inbound_puback() {
    // Outbound ACK PUBACK -> UnsubAck -> inbound PUBACK.
    assert_eq!(
        unsubscribe_completion(true, false, true),
        UnsubscribeCompletion::Wait
    );
    // UnsubAck -> inbound PUBACK -> outbound ACK PUBACK reaches the same closed exit state.
    assert_eq!(
        unsubscribe_completion(true, true, true),
        UnsubscribeCompletion::Exit
    );
}

#[test]
fn command_ack_is_held_behind_admission_and_shutdown_barriers() {
    assert!(!should_hold_command_ack(false, true, false));
    assert!(should_hold_command_ack(true, true, false));
    assert!(should_hold_command_ack(false, false, false));
    assert!(should_hold_command_ack(false, true, true));
}

#[test]
fn shutdown_waits_for_every_transport_fact() {
    assert!(quiescent_state().transport_is_quiescent());
    for state in [
        SessionState {
            shutdown_deadline: None,
            ..quiescent_state()
        },
        SessionState {
            connection: ConnectionState::Connecting,
            ..quiescent_state()
        },
        SessionState {
            publish: PublishState::Pending,
            ..quiescent_state()
        },
        SessionState {
            subscription: SubscriptionState::Unsubscribing,
            ..quiescent_state()
        },
    ] {
        assert!(!state.transport_is_quiescent());
    }
}

fn quiescent_state() -> SessionState {
    SessionState {
        shutdown_deadline: Some(1),
        connection: ConnectionState::Connected { at: 1 },
        ..SessionState::default()
    }
}

#[test]
fn retry_delays_double_up_to_a_ceiling() {
    let mut delay = 1_000;
    for expected in [2_000, 4_000, 8_000, 16_000, 30_000, 30_000] {
        delay = next_retry_delay(delay);
        assert_eq!(delay, expected);
    }
    assert_eq!(retry_jitter_milliseconds(251), 0);
    assert_eq!(retry_jitter_milliseconds(250), 250);
}

#[test]
fn sessions_are_followed_by_a_fresh_one_a_retry_or_the_end() {
    let completed = |completion| SessionOutcome::Completed(completion);
    assert_eq!(
        after_session(completed(SessionCompletion::Reconnect), 8_000, 5, false),
        AfterSession::Again { delay: 1_000 }
    );
    assert_eq!(
        after_session(completed(SessionCompletion::Shutdown), 8_000, 5, false),
        AfterSession::Stop
    );
    assert_eq!(
        after_session(SessionOutcome::Retryable, 8_000, 5, false),
        AfterSession::Retry {
            wait: 8_005,
            delay: 16_000
        }
    );
    assert_eq!(
        after_session(SessionOutcome::Retryable, 8_000, 5, true),
        AfterSession::Stop
    );
    assert_eq!(
        after_session(SessionOutcome::Failed, 8_000, 5, true),
        AfterSession::Fail
    );
}

fn connected() -> SessionState {
    let mut state = SessionState::default();
    assert_eq!(
        state.on_connected(7, false, false, true),
        SessionAction::Subscribe
    );
    assert_eq!(state.connection, ConnectionState::Connected { at: 7 });
    state.on_subscribed();
    state
}

#[test]
fn a_session_subscribes_only_when_commands_can_be_taken_in() {
    for (recovery, in_flight, intake, expected) in [
        (true, false, true, SessionAction::UnsubscribeRecovery),
        (false, true, true, SessionAction::Continue),
        (false, false, false, SessionAction::Continue),
    ] {
        let mut state = SessionState::default();
        assert_eq!(state.on_connected(1, recovery, in_flight, intake), expected);
        assert_eq!(state.unsubscribe_pending(), recovery);
    }
}

#[test]
fn facts_are_published_one_at_a_time() {
    let mut state = connected();
    assert!(!state.publish_next(false));
    assert!(state.publish_next(true));
    assert!(!state.publish_next(true));
    assert!(state.take_outbound_acknowledgement().is_ok());
    assert_eq!(
        state.take_outbound_acknowledgement(),
        Err(AgentError::UnknownOutbound)
    );
    assert!(!SessionState::default().publish_next(true));
}

#[test]
fn a_reconnect_waits_for_the_subscription_and_the_settlement_in_any_order() {
    // Nothing is pending: the confirmed acceptance leaves at once.
    assert_eq!(
        connected().on_outbound_acknowledged(true, true, true),
        SessionAction::Reconnect
    );
    // The old delivery is not settled: the subscription goes first.
    let mut state = connected();
    assert_eq!(
        state.on_outbound_acknowledged(true, false, true),
        SessionAction::UnsubscribeCommand
    );
    assert_eq!(state.reconnect, ReconnectState::Ready);
    assert!(!state.can_publish());
    // Settled before the subscription is gone.
    assert_eq!(
        state.on_inbound_acknowledged(true),
        SessionAction::Continue
    );
    assert!(matches!(
        state.on_unsubscribed(false, true),
        UnsubscribedAction::Complete
    ));
    assert_eq!(
        state.complete_unsubscribe(true, true, true),
        SessionAction::Reconnect
    );
    // Settled after it.
    assert_eq!(
        state.complete_unsubscribe(false, true, true),
        SessionAction::Continue
    );
    assert_eq!(
        state.on_inbound_acknowledged(false),
        SessionAction::Continue
    );
    assert_eq!(
        state.on_inbound_acknowledged(true),
        SessionAction::Reconnect
    );
}

#[test]
fn an_old_delivery_that_never_came_is_recorded_as_absent() {
    let mut state = SessionState::default();
    state.on_connected(1, true, true, true);
    assert!(matches!(
        state.on_unsubscribed(true, false),
        UnsubscribedAction::MarkAbsent
    ));
    let mut state = SessionState::default();
    state.on_connected(1, true, true, true);
    state.observe_delivery(true);
    assert!(matches!(
        state.on_unsubscribed(true, false),
        UnsubscribedAction::Complete
    ));
}

#[test]
fn a_shutdown_drains_for_a_bounded_time() {
    let mut state = connected();
    assert_eq!(state.start_shutdown(5), SessionAction::UnsubscribeCommand);
    assert_eq!(state.shutdown_deadline, Some(10_000_000_005));
    assert!(!state.can_subscribe());
    assert!(!state.shutdown_is_quiescent(false));
    assert!(matches!(
        state.on_unsubscribed(false, true),
        UnsubscribedAction::Complete
    ));
    assert!(!state.shutdown_is_quiescent(true));
    assert!(state.shutdown_is_quiescent(false));
    let mut late = SessionState::default();
    assert_eq!(late.start_shutdown(u64::MAX), SessionAction::Continue);
    assert_eq!(late.shutdown_deadline, Some(u64::MAX));
}

#[test]
fn a_connection_is_stable_after_a_minute() {
    let state = connected();
    assert!(!state.connection_is_stable(60_000_000_006));
    assert!(state.connection_is_stable(60_000_000_007));
    assert!(!state.connection_is_stable(0));
    assert!(!SessionState::default().connection_is_stable(u64::MAX));
}
