//! System state machine tests.

use board_rs::led_control::LedStatus;
use board_rs::state_machine::{
    Action, StateTransition, SystemEvent, SystemState, SystemStateMachine,
};

fn machine_in(state_events: &[SystemEvent]) -> SystemStateMachine {
    let mut sm = SystemStateMachine::new();
    for e in state_events {
        sm.handle_event(*e);
    }
    sm
}

const TO_WIFI_ERROR: [SystemEvent; 4] = [
    SystemEvent::SystemStarted,
    SystemEvent::WiFiConnectionFailed,
    SystemEvent::WiFiConnectionFailed,
    SystemEvent::WiFiConnectionFailed,
];

const TO_OPERATIONAL: [SystemEvent; 6] = [
    SystemEvent::SystemStarted,
    SystemEvent::WiFiConnected,
    SystemEvent::DHCPSuccess,
    SystemEvent::UDPServerStarted,
    SystemEvent::UDPServerStarted,
    SystemEvent::ConnectionCheckReceived,
];

#[test]
fn startup_event_moves_to_wifi_connecting() {
    let mut sm = SystemStateMachine::new();
    assert_eq!(sm.get_current_state(), SystemState::SystemInit);
    assert_eq!(
        sm.handle_event(SystemEvent::SystemStarted),
        StateTransition::Transition(SystemState::WiFiConnecting)
    );
    assert_eq!(sm.get_current_state(), SystemState::WiFiConnecting);
    assert_eq!(sm.get_previous_state(), Some(SystemState::SystemInit));
}

#[test]
fn three_wifi_failures_escalate_on_the_third() {
    let mut sm = machine_in(&[SystemEvent::SystemStarted]);
    assert_eq!(
        sm.handle_event(SystemEvent::WiFiConnectionFailed),
        StateTransition::Stay
    );
    assert_eq!(sm.get_current_state(), SystemState::WiFiConnecting);
    assert_eq!(
        sm.handle_event(SystemEvent::WiFiConnectionFailed),
        StateTransition::Stay
    );
    assert_eq!(sm.get_current_state(), SystemState::WiFiConnecting);
    assert_eq!(
        sm.handle_event(SystemEvent::WiFiConnectionFailed),
        StateTransition::Transition(SystemState::WiFiError)
    );
    assert_eq!(sm.get_current_state(), SystemState::WiFiError);
    // recovery returns to connecting
    assert_eq!(
        sm.handle_event(SystemEvent::RecoveryRequested),
        StateTransition::Transition(SystemState::WiFiConnecting)
    );
    assert_eq!(sm.get_current_state(), SystemState::WiFiConnecting);
}

#[test]
fn wifi_disconnect_reconnects_from_every_state() {
    // from Operational
    let mut sm = machine_in(&TO_OPERATIONAL);
    assert_eq!(sm.get_current_state(), SystemState::Operational);
    sm.handle_event(SystemEvent::WiFiDisconnected);
    assert_eq!(sm.get_current_state(), SystemState::Reconnecting);

    // from several others, including error states
    for prefix in [
        &[][..],
        &[SystemEvent::SystemStarted][..],
        &[SystemEvent::SystemStarted, SystemEvent::WiFiConnected][..],
        &[
            SystemEvent::SystemStarted,
            SystemEvent::WiFiConnected,
            SystemEvent::DHCPSuccess,
        ][..],
        &TO_WIFI_ERROR[..],
    ] {
        let mut sm = machine_in(prefix);
        sm.handle_event(SystemEvent::WiFiDisconnected);
        assert_eq!(sm.get_current_state(), SystemState::Reconnecting);
    }
}

#[test]
fn reconnect_goes_back_through_dhcp() {
    let mut sm = machine_in(&TO_OPERATIONAL);
    sm.handle_event(SystemEvent::WiFiDisconnected);
    sm.handle_event(SystemEvent::WiFiConnected);
    assert_eq!(sm.get_current_state(), SystemState::DHCPRequesting);
}

#[test]
fn full_startup_sequence() {
    let mut sm = SystemStateMachine::new();
    sm.handle_event(SystemEvent::SystemStarted);
    sm.handle_event(SystemEvent::WiFiConnected);
    assert_eq!(sm.get_current_state(), SystemState::DHCPRequesting);
    sm.handle_event(SystemEvent::DHCPSuccess);
    assert_eq!(sm.get_current_state(), SystemState::NetworkReady);
    sm.handle_event(SystemEvent::UDPServerStarted);
    assert_eq!(sm.get_current_state(), SystemState::UDPStarting);
    sm.handle_event(SystemEvent::UDPServerStarted);
    assert_eq!(sm.get_current_state(), SystemState::UDPListening);
    sm.handle_event(SystemEvent::ConnectionCheckReceived);
    assert_eq!(sm.get_current_state(), SystemState::Operational);
    assert!(sm.is_operational());
    assert!(!sm.is_error_state());
}

#[test]
fn data_flow_does_not_alter_operational_state() {
    let mut sm = machine_in(&TO_OPERATIONAL);
    assert_eq!(
        sm.handle_event(SystemEvent::LEDDataReceived),
        StateTransition::Stay
    );
    assert_eq!(
        sm.handle_event(SystemEvent::ConnectionCheckReceived),
        StateTransition::Stay
    );
    assert_eq!(sm.get_current_state(), SystemState::Operational);
}

#[test]
fn udp_timeout_and_recovery_by_connection_check() {
    let mut sm = machine_in(&TO_OPERATIONAL);
    sm.handle_event(SystemEvent::UDPTimeout);
    assert_eq!(sm.get_current_state(), SystemState::UDPTimeout);
    assert!(sm.is_error_state());
    sm.handle_event(SystemEvent::ConnectionCheckReceived);
    assert_eq!(sm.get_current_state(), SystemState::Operational);
}

#[test]
fn initial_update_emits_status_action() {
    let mut sm = SystemStateMachine::new();
    assert_eq!(
        sm.update(),
        vec![Action::UpdateLEDStatus(LedStatus::Starting)]
    );
}

#[test]
fn wifi_connecting_update_starts_connection() {
    let mut sm = machine_in(&[SystemEvent::SystemStarted]);
    assert_eq!(
        sm.update(),
        vec![
            Action::UpdateLEDStatus(LedStatus::WiFiConnecting),
            Action::StartWiFiConnection
        ]
    );
}

#[test]
fn mdns_start_is_emitted_once_per_listen() {
    let mut sm = machine_in(&[
        SystemEvent::SystemStarted,
        SystemEvent::WiFiConnected,
        SystemEvent::DHCPSuccess,
        SystemEvent::UDPServerStarted,
        SystemEvent::UDPServerStarted,
    ]);
    assert_eq!(
        sm.update(),
        vec![Action::StartMDNSService, Action::MonitorConnection]
    );
    sm.mark_mdns_started();
    assert_eq!(sm.update(), vec![Action::MonitorConnection]);
    // leaving and re-entering the listening state rearms the start
    sm.handle_event(SystemEvent::UDPTimeout);
    sm.handle_event(SystemEvent::RecoveryRequested);
    sm.handle_event(SystemEvent::UDPServerStarted);
    assert_eq!(sm.get_current_state(), SystemState::UDPListening);
    assert_eq!(
        sm.update(),
        vec![Action::StartMDNSService, Action::MonitorConnection]
    );
}

#[test]
fn error_recovery_actions_gated_by_retry_counter() {
    let mut sm = machine_in(&TO_WIFI_ERROR);
    assert_eq!(sm.get_current_state(), SystemState::WiFiError);
    // the counter is exhausted on arrival: recovery actions stop being
    // emitted until recovery is explicitly requested
    assert_eq!(sm.get_retry_count(), 3);
    assert!(!sm.should_retry());
    assert_eq!(
        sm.update(),
        vec![
            Action::UpdateLEDStatus(LedStatus::WiFiError),
            Action::LogError(SystemState::WiFiError)
        ]
    );
    // with retries granted again, recovery is offered
    sm.reset_retry_count();
    assert!(sm.should_retry());
    assert_eq!(
        sm.update(),
        vec![
            Action::UpdateLEDStatus(LedStatus::WiFiError),
            Action::LogError(SystemState::WiFiError),
            Action::SystemRecover
        ]
    );
}

#[test]
fn retry_counter_saturates_at_the_limit() {
    let mut sm = SystemStateMachine::new();
    for _ in 0..10 {
        sm.increment_retry();
    }
    assert_eq!(sm.get_retry_count(), 3);
}

#[test]
fn led_status_mapping() {
    let mut sm = SystemStateMachine::new();
    assert_eq!(sm.get_led_status(), LedStatus::Starting);
    sm.handle_event(SystemEvent::SystemStarted);
    assert_eq!(sm.get_led_status(), LedStatus::WiFiConnecting);
    let mut op = machine_in(&TO_OPERATIONAL);
    assert_eq!(op.get_led_status(), LedStatus::Operational);
    op.handle_event(SystemEvent::UDPTimeout);
    assert_eq!(op.get_led_status(), LedStatus::ServiceError);
}

#[test]
fn error_context_bookkeeping() {
    let mut sm = machine_in(&TO_WIFI_ERROR);
    assert!(sm.get_error_context().is_none());
    sm.set_error_context(SystemState::WiFiError);
    let ctx = sm.get_error_context().unwrap();
    assert_eq!(ctx.error_state, SystemState::WiFiError);
    assert_eq!(ctx.error_count, 3);
    assert_eq!(ctx.last_good_state, SystemState::WiFiConnecting);
    sm.clear_error_context();
    assert!(sm.get_error_context().is_none());
}

#[test]
fn force_transition_resets_bookkeeping() {
    let mut sm = machine_in(&TO_WIFI_ERROR);
    sm.set_error_context(SystemState::WiFiError);
    sm.force_transition(SystemState::SystemInit);
    assert_eq!(sm.get_current_state(), SystemState::SystemInit);
    assert_eq!(sm.get_retry_count(), 0);
    assert!(sm.get_error_context().is_none());
}

#[test]
fn transition_lookup_matches_handling() {
    let sm = SystemStateMachine::new();
    assert_eq!(
        sm.get_state_transition(SystemState::SystemInit, SystemEvent::SystemStarted),
        StateTransition::Transition(SystemState::WiFiConnecting)
    );
    assert_eq!(
        sm.get_state_transition(SystemState::Operational, SystemEvent::UDPTimeout),
        StateTransition::Transition(SystemState::UDPTimeout)
    );
    assert_eq!(
        sm.get_state_transition(SystemState::Operational, SystemEvent::SystemStarted),
        StateTransition::Stay
    );
    assert_eq!(
        sm.get_state_transition(SystemState::UDPStarting, SystemEvent::UDPServerFailed),
        StateTransition::Transition(SystemState::UDPError)
    );
    // the state-timeout event matches no row: every state stays put
    assert_eq!(
        sm.get_state_transition(SystemState::WiFiConnecting, SystemEvent::StateTimeout),
        StateTransition::Stay
    );
    assert_eq!(
        sm.get_state_transition(SystemState::DHCPRequesting, SystemEvent::StateTimeout),
        StateTransition::Stay
    );
}
