//! System state machine: a finite-state supervisor over the connection and
//! service lifecycle.  It consumes external events (WiFi up/down, DHCP
//! results, UDP server results, protocol pings, timeouts) and emits the list
//! of actions the surrounding scheduler should execute for the current state.
//!
//! Transient failures are retried in place up to `max_retries` before the
//! machine escalates to a dedicated error state; error states are left only
//! by an explicit `RecoveryRequested` event.

use vstd::prelude::*;

use crate::config;
use crate::led_control::LedStatus;

verus! {

/// System states.  Exactly one is current at any time.
#[derive(Debug, Clone, Copy, PartialEq, Eq, Structural)]
pub enum SystemState {
    // Initialization
    SystemInit,

    // Network connection states
    WiFiConnecting,
    DHCPRequesting,
    NetworkReady,

    // Service states
    UDPStarting,
    UDPListening,

    // Running states
    Operational,
    /// No connection check received for too long.
    UDPTimeout,

    // Error states
    WiFiError,
    DHCPError,
    UDPError,

    // Recovery
    Reconnecting,
}

/// External events consumed by the state machine.
#[derive(Debug, Clone, Copy, PartialEq, Eq, Structural)]
pub enum SystemEvent {
    SystemStarted,

    // Network events
    WiFiConnected,
    WiFiDisconnected,
    DHCPSuccess,
    DHCPFailed,

    // UDP events
    UDPServerStarted,
    UDPServerFailed,
    /// A connection check packet was received.
    ConnectionCheckReceived,
    /// No connection check packet was received for too long.
    UDPTimeout,

    // Data events
    LEDDataReceived,

    // Error and recovery events
    WiFiConnectionFailed,
    RecoveryRequested,
    StateTimeout,
}

/// Result of handling one event.
#[derive(Debug, Clone, Copy, PartialEq, Eq, Structural)]
pub enum StateTransition {
    /// Keep the current state.
    Stay,
    /// Move to a new state.
    Transition(SystemState),
    /// Move to a new state and reset the retry counter.
    TransitionWithReset(SystemState),
}

/// Actions the surrounding scheduler should execute.
#[derive(Debug, Clone, Copy, PartialEq, Eq, Structural)]
pub enum Action {
    /// Update the LED status display.
    UpdateLEDStatus(LedStatus),
    /// Start a WiFi connection attempt.
    StartWiFiConnection,
    /// Start a DHCP request.
    StartDHCPRequest,
    /// Start network services.
    StartNetworkServices,
    /// Start the UDP server.
    StartUDPServer,
    /// Start the mDNS service.
    StartMDNSService,
    /// Process received LED data.
    ProcessLEDData,
    /// Monitor the network connection.
    MonitorConnection,
    /// Restart services.
    RestartServices,
    /// Recover the system.
    SystemRecover,
    /// Log an error for the given state.
    LogError(SystemState),
    /// Reset the retry counter.
    ResetRetryCount,
}

/// Diagnostic context recorded when an error state is entered.
#[derive(Debug, Clone, Copy, PartialEq, Eq, Structural)]
pub struct ErrorContext {
    pub error_state: SystemState,
    pub error_count: u32,
    pub last_good_state: SystemState,
}

/// Mathematical model of a state machine: the fields the contracts
/// speak about.
pub struct StateMachineModel {
    pub current_state: SystemState,
    pub previous_state: Option<SystemState>,
    pub retry_count: u32,
    pub error_context: Option<ErrorContext>,
    pub max_retries: u32,
    pub mdns_started: bool,
}

/// The model of a freshly created state machine.
pub open spec fn initial_model() -> StateMachineModel {
    StateMachineModel {
        current_state: SystemState::SystemInit,
        previous_state: None,
        retry_count: 0,
        error_context: None,
        max_retries: config::MAX_RETRIES,
        mdns_started: false,
    }
}

/// The visual status code shown for each system state.
pub open spec fn led_status_of(state: SystemState) -> LedStatus {
    match state {
        SystemState::SystemInit => LedStatus::Starting,
        SystemState::WiFiConnecting => LedStatus::WiFiConnecting,
        SystemState::DHCPRequesting => LedStatus::DHCPRequesting,
        SystemState::NetworkReady => LedStatus::NetworkReady,
        SystemState::UDPStarting => LedStatus::UDPServerBinding,
        SystemState::UDPListening => LedStatus::UDPServerListening,
        SystemState::Operational => LedStatus::Operational,
        SystemState::UDPTimeout => LedStatus::ServiceError,
        SystemState::WiFiError => LedStatus::WiFiError,
        SystemState::DHCPError => LedStatus::NetworkError,
        SystemState::UDPError => LedStatus::ServiceError,
        SystemState::Reconnecting => LedStatus::Reconnecting,
    }
}

/// The transition table: given the current state, an event and the retry
/// counter, which transition is taken.  Unmatched pairs keep the current
/// state; a WiFi disconnect moves to `Reconnecting` from every state.
pub open spec fn transition_table(
    state: SystemState,
    event: SystemEvent,
    retry_count: u32,
    max_retries: u32,
) -> StateTransition {
    match (state, event) {
        // System startup
        (SystemState::SystemInit, SystemEvent::SystemStarted) => StateTransition::Transition(
            SystemState::WiFiConnecting,
        ),
        // WiFi association, then DHCP
        (SystemState::WiFiConnecting, SystemEvent::WiFiConnected) => {
            StateTransition::TransitionWithReset(SystemState::DHCPRequesting)
        },
        (SystemState::WiFiConnecting, SystemEvent::WiFiConnectionFailed) => {
            if retry_count < max_retries {
                StateTransition::Stay
            } else {
                StateTransition::Transition(SystemState::WiFiError)
            }
        },
        // DHCP, then UDP services
        (SystemState::DHCPRequesting, SystemEvent::DHCPSuccess) => {
            StateTransition::TransitionWithReset(SystemState::NetworkReady)
        },
        (SystemState::DHCPRequesting, SystemEvent::DHCPFailed) => {
            if retry_count < max_retries {
                StateTransition::Stay
            } else {
                StateTransition::Transition(SystemState::DHCPError)
            }
        },
        // UDP server bring-up is two-phase: bind, then listen
        (SystemState::NetworkReady, SystemEvent::UDPServerStarted) => StateTransition::Transition(
            SystemState::UDPStarting,
        ),
        (SystemState::UDPStarting, SystemEvent::UDPServerStarted) => {
            StateTransition::TransitionWithReset(SystemState::UDPListening)
        },
        (SystemState::UDPStarting, SystemEvent::UDPServerFailed) => StateTransition::Transition(
            SystemState::UDPError,
        ),
        // Listening: a connection check marks the system operational
        (SystemState::UDPListening, SystemEvent::ConnectionCheckReceived) => {
            StateTransition::TransitionWithReset(SystemState::Operational)
        },
        (SystemState::UDPListening, SystemEvent::UDPTimeout) => StateTransition::Transition(
            SystemState::UDPTimeout,
        ),
        // Normal operation: data flow does not alter the state
        (SystemState::Operational, SystemEvent::LEDDataReceived) => StateTransition::Stay,
        (SystemState::Operational, SystemEvent::ConnectionCheckReceived) => StateTransition::Stay,
        (SystemState::Operational, SystemEvent::UDPTimeout) => StateTransition::Transition(
            SystemState::UDPTimeout,
        ),
        // Timeout recovery: one connection check restores operation
        (SystemState::UDPTimeout, SystemEvent::ConnectionCheckReceived) => {
            StateTransition::TransitionWithReset(SystemState::Operational)
        },
        // WiFi loss is handled from every state
        (_, SystemEvent::WiFiDisconnected) => StateTransition::Transition(
            SystemState::Reconnecting,
        ),
        // Reconnection re-acquires DHCP
        (SystemState::Reconnecting, SystemEvent::WiFiConnected) => StateTransition::Transition(
            SystemState::DHCPRequesting,
        ),
        // Explicit error recovery
        (SystemState::WiFiError, SystemEvent::RecoveryRequested) => StateTransition::Transition(
            SystemState::WiFiConnecting,
        ),
        (SystemState::DHCPError, SystemEvent::RecoveryRequested) => StateTransition::Transition(
            SystemState::DHCPRequesting,
        ),
        (SystemState::UDPError, SystemEvent::RecoveryRequested) => StateTransition::Transition(
            SystemState::UDPStarting,
        ),
        (SystemState::UDPTimeout, SystemEvent::RecoveryRequested) => StateTransition::Transition(
            SystemState::UDPStarting,
        ),
        // Everything else keeps the current state
        _ => StateTransition::Stay,
    }
}

/// Whether the event is a transient failure that bumps the retry counter
/// while the machine stays in the retrying state.
pub open spec fn retry_event(state: SystemState, event: SystemEvent) -> bool {
    ||| (state == SystemState::WiFiConnecting && event == SystemEvent::WiFiConnectionFailed)
    ||| (state == SystemState::DHCPRequesting && event == SystemEvent::DHCPFailed)
}

/// The retry counter is bounded: it saturates at `max_retries`.
pub open spec fn bump_retry(retry_count: u32, max_retries: u32) -> u32 {
    if retry_count < max_retries {
        (retry_count + 1) as u32
    } else {
        retry_count
    }
}

/// The retry counter an event leaves behind before the transition table
/// is consulted.
pub open spec fn retry_after_event(m: StateMachineModel, event: SystemEvent) -> u32 {
    if retry_event(m.current_state, event) {
        bump_retry(m.retry_count, m.max_retries)
    } else {
        m.retry_count
    }
}

/// Entering a state: the previous state is recorded, and the mDNS
/// once-only flag is rearmed whenever `UDPListening` is entered.
/// Entering the state already current changes nothing.
pub open spec fn enter_state(m: StateMachineModel, new_state: SystemState) -> StateMachineModel {
    if new_state != m.current_state {
        StateMachineModel {
            current_state: new_state,
            previous_state: Some(m.current_state),
            mdns_started: if new_state == SystemState::UDPListening {
                false
            } else {
                m.mdns_started
            },
            ..m
        }
    } else {
        m
    }
}

/// Applying a transition to the machine.
pub open spec fn apply_transition(m: StateMachineModel, t: StateTransition) -> StateMachineModel {
    match t {
        StateTransition::Stay => m,
        StateTransition::Transition(new_state) => enter_state(m, new_state),
        StateTransition::TransitionWithReset(new_state) => enter_state(
            StateMachineModel { retry_count: 0, ..m },
            new_state,
        ),
    }
}

/// One full event step: bump the retry counter on transient failures,
/// consult the transition table, apply the result.
pub open spec fn step(m: StateMachineModel, event: SystemEvent) -> StateMachineModel {
    let bumped = StateMachineModel { retry_count: retry_after_event(m, event), ..m };
    apply_transition(
        bumped,
        transition_table(bumped.current_state, event, bumped.retry_count, bumped.max_retries),
    )
}

/// The ordered action list emitted for the current state.  Recovery
/// actions in error states are gated by the retry counter: once it is
/// exhausted they stop being emitted.
pub open spec fn actions_of(m: StateMachineModel) -> Seq<Action> {
    match m.current_state {
        SystemState::SystemInit => seq![Action::UpdateLEDStatus(LedStatus::Starting)],
        SystemState::WiFiConnecting => seq![
            Action::UpdateLEDStatus(LedStatus::WiFiConnecting),
            Action::StartWiFiConnection,
        ],
        SystemState::DHCPRequesting => seq![
            Action::UpdateLEDStatus(LedStatus::DHCPRequesting),
            Action::StartDHCPRequest,
        ],
        SystemState::NetworkReady => seq![
            Action::UpdateLEDStatus(LedStatus::NetworkReady),
            Action::StartNetworkServices,
        ],
        SystemState::UDPStarting => seq![Action::StartUDPServer],
        SystemState::UDPListening => {
            if !m.mdns_started {
                seq![Action::StartMDNSService, Action::MonitorConnection]
            } else {
                seq![Action::MonitorConnection]
            }
        },
        SystemState::Operational => seq![Action::MonitorConnection, Action::ProcessLEDData],
        SystemState::UDPTimeout => {
            if m.retry_count < m.max_retries {
                seq![
                    Action::UpdateLEDStatus(LedStatus::ServiceError),
                    Action::LogError(SystemState::UDPTimeout),
                    Action::RestartServices,
                ]
            } else {
                seq![
                    Action::UpdateLEDStatus(LedStatus::ServiceError),
                    Action::LogError(SystemState::UDPTimeout),
                ]
            }
        },
        SystemState::WiFiError => {
            if m.retry_count < m.max_retries {
                seq![
                    Action::UpdateLEDStatus(LedStatus::WiFiError),
                    Action::LogError(SystemState::WiFiError),
                    Action::SystemRecover,
                ]
            } else {
                seq![
                    Action::UpdateLEDStatus(LedStatus::WiFiError),
                    Action::LogError(SystemState::WiFiError),
                ]
            }
        },
        SystemState::DHCPError => {
            if m.retry_count < m.max_retries {
                seq![
                    Action::UpdateLEDStatus(LedStatus::NetworkError),
                    Action::LogError(SystemState::DHCPError),
                    Action::SystemRecover,
                ]
            } else {
                seq![
                    Action::UpdateLEDStatus(LedStatus::NetworkError),
                    Action::LogError(SystemState::DHCPError),
                ]
            }
        },
        SystemState::UDPError => {
            if m.retry_count < m.max_retries {
                seq![
                    Action::UpdateLEDStatus(LedStatus::ServiceError),
                    Action::LogError(SystemState::UDPError),
                    Action::RestartServices,
                ]
            } else {
                seq![
                    Action::UpdateLEDStatus(LedStatus::ServiceError),
                    Action::LogError(SystemState::UDPError),
                ]
            }
        },
        SystemState::Reconnecting => seq![
            Action::UpdateLEDStatus(LedStatus::Reconnecting),
            Action::SystemRecover,
        ],
    }
}

/// Whether the state is one of the dedicated error states.
pub open spec fn is_error_state_spec(state: SystemState) -> bool {
    ||| state == SystemState::WiFiError
    ||| state == SystemState::DHCPError
    ||| state == SystemState::UDPError
    ||| state == SystemState::UDPTimeout
}

/// System state machine.
pub struct SystemStateMachine {
    current_state: SystemState,
    previous_state: Option<SystemState>,
    retry_count: u32,
    error_context: Option<ErrorContext>,
    max_retries: u32,
    /// Tracks whether mDNS has been started since `UDPListening` was entered.
    mdns_started: bool,
}

impl View for SystemStateMachine {
    type V = StateMachineModel;

    closed spec fn view(&self) -> StateMachineModel {
        StateMachineModel {
            current_state: self.current_state,
            previous_state: self.previous_state,
            retry_count: self.retry_count,
            error_context: self.error_context,
            max_retries: self.max_retries,
            mdns_started: self.mdns_started,
        }
    }
}

impl SystemStateMachine {
    /// Create a new state machine in its initial state.
    pub fn new() -> (sm: Self)
        ensures
            sm@ == initial_model(),
    {
        Self {
            current_state: SystemState::SystemInit,
            previous_state: None,
            retry_count: 0,
            error_context: None,
            max_retries: config::MAX_RETRIES,
            mdns_started: false,
        }
    }

    /// Get the current state.
    pub fn get_current_state(&self) -> (s: SystemState)
        ensures
            s == self@.current_state,
    {
        self.current_state
    }

    /// Get the previous state, if any transition happened yet.
    pub fn get_previous_state(&self) -> (s: Option<SystemState>)
        ensures
            s == self@.previous_state,
    {
        self.previous_state
    }

    /// Get the retry counter.
    pub fn get_retry_count(&self) -> (c: u32)
        ensures
            c == self@.retry_count,
    {
        self.retry_count
    }

    /// Get the visual status code for the current state.
    pub fn get_led_status(&self) -> (s: LedStatus)
        ensures
            s == led_status_of(self@.current_state),
    {
        match self.current_state {
            SystemState::SystemInit => LedStatus::Starting,
            SystemState::WiFiConnecting => LedStatus::WiFiConnecting,
            SystemState::DHCPRequesting => LedStatus::DHCPRequesting,
            SystemState::NetworkReady => LedStatus::NetworkReady,
            SystemState::UDPStarting => LedStatus::UDPServerBinding,
            SystemState::UDPListening => LedStatus::UDPServerListening,
            SystemState::Operational => LedStatus::Operational,
            SystemState::UDPTimeout => LedStatus::ServiceError,
            SystemState::WiFiError => LedStatus::WiFiError,
            SystemState::DHCPError => LedStatus::NetworkError,
            SystemState::UDPError => LedStatus::ServiceError,
            SystemState::Reconnecting => LedStatus::Reconnecting,
        }
    }

    /// Handle one external event: transient failures bump the retry
    /// counter, then the transition table decides and the transition is
    /// applied.  Returns the transition that was taken.
    pub fn handle_event(&mut self, event: SystemEvent) -> (t: StateTransition)
        ensures
            final(self)@ == step(old(self)@, event),
            t == transition_table(
                old(self)@.current_state,
                event,
                retry_after_event(old(self)@, event),
                old(self)@.max_retries,
            ),
    {
        if self.is_retry_event(event) {
            if self.retry_count < self.max_retries {
                self.retry_count = self.retry_count + 1;
            }
        }
        let transition = self.get_state_transition(self.current_state, event);

        match transition {
            StateTransition::Transition(new_state) => {
                self.transition_to_state(new_state);
            },
            StateTransition::TransitionWithReset(new_state) => {
                self.retry_count = 0;
                self.transition_to_state(new_state);
            },
            StateTransition::Stay => {},
        }

        transition
    }

    /// Whether the event is a transient failure for the current state.
    fn is_retry_event(&self, event: SystemEvent) -> (r: bool)
        ensures
            r == retry_event(self@.current_state, event),
    {
        match (self.current_state, event) {
            (SystemState::WiFiConnecting, SystemEvent::WiFiConnectionFailed) => true,
            (SystemState::DHCPRequesting, SystemEvent::DHCPFailed) => true,
            _ => false,
        }
    }

    /// Emit the ordered action list for the current state.
    pub fn update(&mut self) -> (actions: Vec<Action>)
        ensures
            *final(self) == *old(self),
            actions@ == actions_of(old(self)@),
    {
        let mut actions: Vec<Action> = Vec::new();

        match self.current_state {
            SystemState::SystemInit => {
                actions.push(Action::UpdateLEDStatus(LedStatus::Starting));
            },
            SystemState::WiFiConnecting => {
                actions.push(Action::UpdateLEDStatus(LedStatus::WiFiConnecting));
                actions.push(Action::StartWiFiConnection);
            },
            SystemState::DHCPRequesting => {
                actions.push(Action::UpdateLEDStatus(LedStatus::DHCPRequesting));
                actions.push(Action::StartDHCPRequest);
            },
            SystemState::NetworkReady => {
                actions.push(Action::UpdateLEDStatus(LedStatus::NetworkReady));
                actions.push(Action::StartNetworkServices);
            },
            SystemState::UDPStarting => {
                actions.push(Action::StartUDPServer);
            },
            SystemState::UDPListening => {
                // Start the mDNS service only once after entering this state
                if !self.mdns_started {
                    actions.push(Action::StartMDNSService);
                }
                actions.push(Action::MonitorConnection);
            },
            SystemState::Operational => {
                actions.push(Action::MonitorConnection);
                actions.push(Action::ProcessLEDData);
            },
            SystemState::UDPTimeout => {
                actions.push(Action::UpdateLEDStatus(LedStatus::ServiceError));
                actions.push(Action::LogError(SystemState::UDPTimeout));
                if self.retry_count < self.max_retries {
                    actions.push(Action::RestartServices);
                }
            },
            SystemState::WiFiError => {
                actions.push(Action::UpdateLEDStatus(LedStatus::WiFiError));
                actions.push(Action::LogError(SystemState::WiFiError));
                if self.retry_count < self.max_retries {
                    actions.push(Action::SystemRecover);
                }
            },
            SystemState::DHCPError => {
                actions.push(Action::UpdateLEDStatus(LedStatus::NetworkError));
                actions.push(Action::LogError(SystemState::DHCPError));
                if self.retry_count < self.max_retries {
                    actions.push(Action::SystemRecover);
                }
            },
            SystemState::UDPError => {
                actions.push(Action::UpdateLEDStatus(LedStatus::ServiceError));
                actions.push(Action::LogError(SystemState::UDPError));
                if self.retry_count < self.max_retries {
                    actions.push(Action::RestartServices);
                }
            },
            SystemState::Reconnecting => {
                actions.push(Action::UpdateLEDStatus(LedStatus::Reconnecting));
                actions.push(Action::SystemRecover);
            },
        }

        proof {
            assert(actions@ =~= actions_of(old(self)@));
        }
        actions
    }

    /// Internal state change: records the previous state and rearms the
    /// mDNS once-only flag when `UDPListening` is entered.
    fn transition_to_state(&mut self, new_state: SystemState)
        ensures
            final(self)@ == enter_state(old(self)@, new_state),
    {
        if new_state != self.current_state {
            if new_state == SystemState::UDPListening {
                self.mdns_started = false;
            }
            self.previous_state = Some(self.current_state);
            self.current_state = new_state;
        }
    }

    /// Look up the transition for a state/event pair under the current
    /// retry counter.
    pub fn get_state_transition(&self, current_state: SystemState, event: SystemEvent) -> (t:
        StateTransition)
        ensures
            t == transition_table(current_state, event, self@.retry_count, self@.max_retries),
    {
        match (current_state, event) {
            (SystemState::SystemInit, SystemEvent::SystemStarted) => StateTransition::Transition(
                SystemState::WiFiConnecting,
            ),
            (SystemState::WiFiConnecting, SystemEvent::WiFiConnected) => {
                StateTransition::TransitionWithReset(SystemState::DHCPRequesting)
            },
            (SystemState::WiFiConnecting, SystemEvent::WiFiConnectionFailed) => {
                if self.retry_count < self.max_retries {
                    StateTransition::Stay
                } else {
                    StateTransition::Transition(SystemState::WiFiError)
                }
            },
            (SystemState::DHCPRequesting, SystemEvent::DHCPSuccess) => {
                StateTransition::TransitionWithReset(SystemState::NetworkReady)
            },
            (SystemState::DHCPRequesting, SystemEvent::DHCPFailed) => {
                if self.retry_count < self.max_retries {
                    StateTransition::Stay
                } else {
                    StateTransition::Transition(SystemState::DHCPError)
                }
            },
            (SystemState::NetworkReady, SystemEvent::UDPServerStarted) => {
                StateTransition::Transition(SystemState::UDPStarting)
            },
            (SystemState::UDPStarting, SystemEvent::UDPServerStarted) => {
                StateTransition::TransitionWithReset(SystemState::UDPListening)
            },
            (SystemState::UDPStarting, SystemEvent::UDPServerFailed) => {
                StateTransition::Transition(SystemState::UDPError)
            },
            (SystemState::UDPListening, SystemEvent::ConnectionCheckReceived) => {
                StateTransition::TransitionWithReset(SystemState::Operational)
            },
            (SystemState::UDPListening, SystemEvent::UDPTimeout) => StateTransition::Transition(
                SystemState::UDPTimeout,
            ),
            (SystemState::Operational, SystemEvent::LEDDataReceived) => StateTransition::Stay,
            (SystemState::Operational, SystemEvent::ConnectionCheckReceived) => {
                StateTransition::Stay
            },
            (SystemState::Operational, SystemEvent::UDPTimeout) => StateTransition::Transition(
                SystemState::UDPTimeout,
            ),
            (SystemState::UDPTimeout, SystemEvent::ConnectionCheckReceived) => {
                StateTransition::TransitionWithReset(SystemState::Operational)
            },
            (_, SystemEvent::WiFiDisconnected) => StateTransition::Transition(
                SystemState::Reconnecting,
            ),
            (SystemState::Reconnecting, SystemEvent::WiFiConnected) => {
                StateTransition::Transition(SystemState::DHCPRequesting)
            },
            (SystemState::WiFiError, SystemEvent::RecoveryRequested) => {
                StateTransition::Transition(SystemState::WiFiConnecting)
            },
            (SystemState::DHCPError, SystemEvent::RecoveryRequested) => {
                StateTransition::Transition(SystemState::DHCPRequesting)
            },
            (SystemState::UDPError, SystemEvent::RecoveryRequested) => {
                StateTransition::Transition(SystemState::UDPStarting)
            },
            (SystemState::UDPTimeout, SystemEvent::RecoveryRequested) => {
                StateTransition::Transition(SystemState::UDPStarting)
            },
            _ => StateTransition::Stay,
        }
    }

    /// Whether another in-place retry is allowed.
    pub fn should_retry(&self) -> (r: bool)
        ensures
            r == (self@.retry_count < self@.max_retries),
    {
        self.retry_count < self.max_retries
    }

    /// Bump the retry counter; it saturates at `max_retries`.
    pub fn increment_retry(&mut self)
        ensures
            final(self)@ == (StateMachineModel {
                retry_count: bump_retry(old(self)@.retry_count, old(self)@.max_retries),
                ..old(self)@
            }),
    {
        if self.retry_count < self.max_retries {
            self.retry_count = self.retry_count + 1;
        }
    }

    /// Reset the retry counter.
    pub fn reset_retry_count(&mut self)
        ensures
            final(self)@ == (StateMachineModel { retry_count: 0, ..old(self)@ }),
    {
        self.retry_count = 0;
    }

    /// Record diagnostic context for an error state.
    pub fn set_error_context(&mut self, error_state: SystemState)
        ensures
            final(self)@ == (StateMachineModel {
                error_context: Some(
                    ErrorContext {
                        error_state,
                        error_count: old(self)@.retry_count,
                        last_good_state: match old(self)@.previous_state {
                            Some(s) => s,
                            None => SystemState::SystemInit,
                        },
                    },
                ),
                ..old(self)@
            }),
    {
        let last_good_state = match self.previous_state {
            Some(s) => s,
            None => SystemState::SystemInit,
        };
        self.error_context = Some(
            ErrorContext { error_state, error_count: self.retry_count, last_good_state },
        );
    }

    /// Get the recorded error context, if any.
    pub fn get_error_context(&self) -> (c: Option<ErrorContext>)
        ensures
            c == self@.error_context,
    {
        self.error_context
    }

    /// Clear the recorded error context.
    pub fn clear_error_context(&mut self)
        ensures
            final(self)@ == (StateMachineModel { error_context: None, ..old(self)@ }),
    {
        self.error_context = None;
    }

    /// Whether the machine is in one of the dedicated error states.
    pub fn is_error_state(&self) -> (r: bool)
        ensures
            r == is_error_state_spec(self@.current_state),
    {
        match self.current_state {
            SystemState::WiFiError
            | SystemState::DHCPError
            | SystemState::UDPError
            | SystemState::UDPTimeout => true,
            _ => false,
        }
    }

    /// Whether the machine is serving traffic.
    pub fn is_operational(&self) -> (r: bool)
        ensures
            r == (self@.current_state == SystemState::Operational || self@.current_state
                == SystemState::UDPListening),
    {
        match self.current_state {
            SystemState::Operational | SystemState::UDPListening => true,
            _ => false,
        }
    }

    /// Force a transition to the given state, resetting the retry counter
    /// and the error context.
    pub fn force_transition(&mut self, new_state: SystemState)
        ensures
            final(self)@ == (StateMachineModel {
                retry_count: 0,
                error_context: None,
                ..enter_state(old(self)@, new_state)
            }),
    {
        self.transition_to_state(new_state);
        self.retry_count = 0;
        self.error_context = None;
    }

    /// Mark the mDNS service as started, so that the start action is not
    /// emitted again for the current stay in `UDPListening`.
    pub fn mark_mdns_started(&mut self)
        ensures
            final(self)@ == (StateMachineModel { mdns_started: true, ..old(self)@ }),
    {
        self.mdns_started = true;
    }
}

/// A WiFi disconnect transitions unconditionally to `Reconnecting`, from
/// every state, whatever the retry counter holds.
pub proof fn lemma_wifi_disconnected_reconnects(m: StateMachineModel)
    ensures
        transition_table(
            m.current_state,
            SystemEvent::WiFiDisconnected,
            m.retry_count,
            m.max_retries,
        ) == StateTransition::Transition(SystemState::Reconnecting),
        step(m, SystemEvent::WiFiDisconnected).current_state == SystemState::Reconnecting,
{
}

/// Retry exhaustion escalates: from `WiFiConnecting` with a fresh retry
/// counter and the default retry limit, the machine stays put for the
/// first two consecutive connection failures and enters `WiFiError` on
/// the third.
pub proof fn lemma_three_wifi_failures_escalate(m: StateMachineModel)
    requires
        m.current_state == SystemState::WiFiConnecting,
        m.retry_count == 0,
        m.max_retries == 3,
    ensures
        step(m, SystemEvent::WiFiConnectionFailed).current_state == SystemState::WiFiConnecting,
        step(
            step(m, SystemEvent::WiFiConnectionFailed),
            SystemEvent::WiFiConnectionFailed,
        ).current_state == SystemState::WiFiConnecting,
        step(
            step(step(m, SystemEvent::WiFiConnectionFailed), SystemEvent::WiFiConnectionFailed),
            SystemEvent::WiFiConnectionFailed,
        ).current_state == SystemState::WiFiError,
{
}

} // verus!
