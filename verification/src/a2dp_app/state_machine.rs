//! Connection state machine for the A2DP source.

use vstd::prelude::*;
use crate::bt_classic::BdAddr;
use crate::bt_classic::a2dp::A2dpState;

verus! {

/// Events that trigger state transitions.
#[derive(Debug, Clone, Copy)]
pub enum Event {
    /// User requested to become discoverable
    MakeDiscoverable,
    /// User requested to connect to a device
    Connect(BdAddr),
    /// User requested to start streaming
    StartStream,
    /// User requested to pause streaming
    PauseStream,
    /// User requested to disconnect
    Disconnect,
    /// ACL connection established
    ConnectionComplete { handle: u16 },
    /// ACL connection failed or lost
    ConnectionFailed,
    /// L2CAP channel opened
    L2capConnected,
    /// AVDTP configuration complete
    AvdtpConfigured,
    /// Stream opened
    StreamOpened,
    /// Stream started
    StreamStarted,
    /// Stream suspended
    StreamSuspended,
    /// Disconnection complete
    Disconnected,
    /// Timeout occurred
    Timeout,
    /// Error occurred
    Error(u8),
}

/// Actions to perform after state transition.
#[derive(Debug, Clone)]
pub enum Action {
    /// No action needed
    NoAction,
    /// Enable inquiry scan (become discoverable)
    EnableDiscovery,
    /// Initiate connection to device
    InitiateConnection(BdAddr),
    /// Open L2CAP channel for AVDTP
    OpenL2cap,
    /// Send AVDTP DISCOVER
    SendAvdtpDiscover,
    /// Send AVDTP GET_CAPABILITIES
    SendGetCapabilities { seid: u8 },
    /// Send AVDTP SET_CONFIGURATION
    SendSetConfiguration,
    /// Send AVDTP OPEN
    SendOpen,
    /// Send AVDTP START
    SendStart,
    /// Send AVDTP SUSPEND
    SendSuspend,
    /// Send AVDTP CLOSE
    SendClose,
    /// Initiate disconnection
    InitiateDisconnect,
    /// Update LED pattern
    UpdateLed,
}

/// What the state machine holds.
pub ghost struct Session {
    pub state: A2dpState,
    pub remote_addr: Option<BdAddr>,
    pub acl_handle: Option<u16>,
    pub remote_seid: Option<u8>,
}

/// The session after an event and the action the event calls for.
///
/// Each state answers the events of its own step of the connection; a
/// failed connection or an error in any other state drops the session to
/// `Disconnected`; everything else is ignored.
pub open spec fn step(s: Session, event: Event) -> (Session, Action) {
    match (s.state, event) {
        (A2dpState::Disconnected, Event::MakeDiscoverable) => (
            Session { state: A2dpState::Discoverable, ..s },
            Action::EnableDiscovery,
        ),
        (A2dpState::Disconnected, Event::Connect(addr)) => (
            Session { state: A2dpState::Connecting, remote_addr: Some(addr), ..s },
            Action::InitiateConnection(addr),
        ),
        (A2dpState::Discoverable, Event::ConnectionComplete { handle }) => (
            Session { state: A2dpState::Connected, acl_handle: Some(handle), ..s },
            Action::OpenL2cap,
        ),
        (A2dpState::Discoverable, Event::Disconnect) => (
            Session { state: A2dpState::Disconnected, ..s },
            Action::NoAction,
        ),
        (A2dpState::Connecting, Event::ConnectionComplete { handle }) => (
            Session { state: A2dpState::Connected, acl_handle: Some(handle), ..s },
            Action::OpenL2cap,
        ),
        (A2dpState::Connecting, Event::ConnectionFailed) => (
            Session { state: A2dpState::Disconnected, remote_addr: None, ..s },
            Action::UpdateLed,
        ),
        (A2dpState::Connecting, Event::Timeout) => (
            Session { state: A2dpState::Disconnected, remote_addr: None, ..s },
            Action::UpdateLed,
        ),
        (A2dpState::Connected, Event::L2capConnected) => (
            Session { state: A2dpState::Configuring, ..s },
            Action::SendAvdtpDiscover,
        ),
        (A2dpState::Connected, Event::Disconnect) => (
            Session { state: A2dpState::Disconnecting, ..s },
            Action::InitiateDisconnect,
        ),
        (A2dpState::Configuring, Event::AvdtpConfigured) => (
            Session { state: A2dpState::Open, ..s },
            Action::UpdateLed,
        ),
        (A2dpState::Configuring, Event::Error(_)) => (
            Session { state: A2dpState::Disconnecting, ..s },
            Action::InitiateDisconnect,
        ),
        (A2dpState::Open, Event::StartStream) => (s, Action::SendStart),
        (A2dpState::Open, Event::StreamStarted) => (
            Session { state: A2dpState::Streaming, ..s },
            Action::UpdateLed,
        ),
        (A2dpState::Open, Event::Disconnect) => (
            Session { state: A2dpState::Disconnecting, ..s },
            Action::SendClose,
        ),
        (A2dpState::Streaming, Event::PauseStream) => (s, Action::SendSuspend),
        (A2dpState::Streaming, Event::StreamSuspended) => (
            Session { state: A2dpState::Suspended, ..s },
            Action::UpdateLed,
        ),
        (A2dpState::Streaming, Event::Disconnect) => (
            Session { state: A2dpState::Disconnecting, ..s },
            Action::SendClose,
        ),
        (A2dpState::Suspended, Event::StartStream) => (s, Action::SendStart),
        (A2dpState::Suspended, Event::StreamStarted) => (
            Session { state: A2dpState::Streaming, ..s },
            Action::UpdateLed,
        ),
        (A2dpState::Suspended, Event::Disconnect) => (
            Session { state: A2dpState::Disconnecting, ..s },
            Action::SendClose,
        ),
        (A2dpState::Disconnecting, Event::Disconnected) => (
            Session {
                state: A2dpState::Disconnected,
                remote_addr: None,
                acl_handle: None,
                remote_seid: None,
            },
            Action::UpdateLed,
        ),
        (_, Event::ConnectionFailed) => (
            Session { state: A2dpState::Disconnected, remote_addr: None, acl_handle: None, ..s },
            Action::UpdateLed,
        ),
        (_, Event::Error(_)) => (
            Session { state: A2dpState::Disconnected, remote_addr: None, acl_handle: None, ..s },
            Action::UpdateLed,
        ),
        _ => (s, Action::NoAction),
    }
}

/// State machine for A2DP connection management.
pub struct StateMachine {
    state: A2dpState,
    remote_addr: Option<BdAddr>,
    acl_handle: Option<u16>,
    remote_seid: Option<u8>,
}

impl StateMachine {
    /// What the state machine holds.
    pub closed spec fn session(&self) -> Session {
        Session {
            state: self.state,
            remote_addr: self.remote_addr,
            acl_handle: self.acl_handle,
            remote_seid: self.remote_seid,
        }
    }

    /// The session of a machine that holds nothing: disconnected, no remote
    /// end, no handle.
    pub open spec fn blank() -> Session {
        Session {
            state: A2dpState::Disconnected,
            remote_addr: None,
            acl_handle: None,
            remote_seid: None,
        }
    }

    /// Create a new state machine.
    pub fn new() -> (r: Self)
        ensures
            r.session() == Self::blank(),
    {
        StateMachine {
            state: A2dpState::Disconnected,
            remote_addr: None,
            acl_handle: None,
            remote_seid: None,
        }
    }

    /// Get current state.
    pub fn state(&self) -> (r: A2dpState)
        ensures
            r == self.session().state,
    {
        self.state
    }

    /// Get remote device address if connected.
    pub fn remote_addr(&self) -> (r: Option<BdAddr>)
        ensures
            r == self.session().remote_addr,
    {
        self.remote_addr
    }

    /// Process an event and return the action to take.
    pub fn process(&mut self, event: Event) -> (action: Action)
        ensures
            final(self).session() == step(old(self).session(), event).0,
            action == step(old(self).session(), event).1,
    {
        match (self.state, event) {
            // From Disconnected
            (A2dpState::Disconnected, Event::MakeDiscoverable) => {
                self.state = A2dpState::Discoverable;
                Action::EnableDiscovery
            },
            (A2dpState::Disconnected, Event::Connect(addr)) => {
                self.remote_addr = Some(addr);
                self.state = A2dpState::Connecting;
                Action::InitiateConnection(addr)
            },
            // From Discoverable
            (A2dpState::Discoverable, Event::ConnectionComplete { handle }) => {
                self.acl_handle = Some(handle);
                self.state = A2dpState::Connected;
                Action::OpenL2cap
            },
            (A2dpState::Discoverable, Event::Disconnect) => {
                self.state = A2dpState::Disconnected;
                Action::NoAction
            },
            // From Connecting
            (A2dpState::Connecting, Event::ConnectionComplete { handle }) => {
                self.acl_handle = Some(handle);
                self.state = A2dpState::Connected;
                Action::OpenL2cap
            },
            (A2dpState::Connecting, Event::ConnectionFailed) => {
                self.state = A2dpState::Disconnected;
                self.remote_addr = None;
                Action::UpdateLed
            },
            (A2dpState::Connecting, Event::Timeout) => {
                self.state = A2dpState::Disconnected;
                self.remote_addr = None;
                Action::UpdateLed
            },
            // From Connected
            (A2dpState::Connected, Event::L2capConnected) => {
                self.state = A2dpState::Configuring;
                Action::SendAvdtpDiscover
            },
            (A2dpState::Connected, Event::Disconnect) => {
                self.state = A2dpState::Disconnecting;
                Action::InitiateDisconnect
            },
            // From Configuring
            (A2dpState::Configuring, Event::AvdtpConfigured) => {
                self.state = A2dpState::Open;
                Action::UpdateLed
            },
            (A2dpState::Configuring, Event::Error(_)) => {
                self.state = A2dpState::Disconnecting;
                Action::InitiateDisconnect
            },
            // From Open
            (A2dpState::Open, Event::StartStream) => Action::SendStart,
            (A2dpState::Open, Event::StreamStarted) => {
                self.state = A2dpState::Streaming;
                Action::UpdateLed
            },
            (A2dpState::Open, Event::Disconnect) => {
                self.state = A2dpState::Disconnecting;
                Action::SendClose
            },
            // From Streaming
            (A2dpState::Streaming, Event::PauseStream) => Action::SendSuspend,
            (A2dpState::Streaming, Event::StreamSuspended) => {
                self.state = A2dpState::Suspended;
                Action::UpdateLed
            },
            (A2dpState::Streaming, Event::Disconnect) => {
                self.state = A2dpState::Disconnecting;
                Action::SendClose
            },
            // From Suspended
            (A2dpState::Suspended, Event::StartStream) => Action::SendStart,
            (A2dpState::Suspended, Event::StreamStarted) => {
                self.state = A2dpState::Streaming;
                Action::UpdateLed
            },
            (A2dpState::Suspended, Event::Disconnect) => {
                self.state = A2dpState::Disconnecting;
                Action::SendClose
            },
            // From Disconnecting
            (A2dpState::Disconnecting, Event::Disconnected) => {
                self.state = A2dpState::Disconnected;
                self.remote_addr = None;
                self.acl_handle = None;
                self.remote_seid = None;
                Action::UpdateLed
            },
            // A failure anywhere else drops the connection.
            (_, Event::ConnectionFailed) => {
                self.state = A2dpState::Disconnected;
                self.remote_addr = None;
                self.acl_handle = None;
                Action::UpdateLed
            },
            (_, Event::Error(_)) => {
                self.state = A2dpState::Disconnected;
                self.remote_addr = None;
                self.acl_handle = None;
                Action::UpdateLed
            },
            // Unhandled: no action.
            _ => Action::NoAction,
        }
    }

    /// Reset state machine.
    pub fn reset(&mut self)
        ensures
            final(self).session() == Self::blank(),
    {
        self.state = A2dpState::Disconnected;
        self.remote_addr = None;
        self.acl_handle = None;
        self.remote_seid = None;
    }
}

impl Default for StateMachine {
    fn default() -> (r: Self)
        ensures
            r.session() == Self::blank(),
    {
        StateMachine::new()
    }
}

} // verus!
