//! The session with the control server: what the caller wants, what the
//! transport reports, and the events that consumers see.
//!
//! The transport itself lives with the driver. Every operation here decides
//! and records; where outside work is due, the operation returns it as a
//! value, and the driver reports back how it went.

use core::time::Duration;
use vstd::prelude::*;
use vstd::slice::slice_to_vec;

verus! {

/// What the caller last asked for, whatever the transport is doing.
#[derive(Debug, Copy, Clone, PartialEq, Eq, Structural)]
pub enum DesiredState {
    Connected,
    Disconnected,
}

/// Why the peer closed the connection, as the close frame's status code says.
#[derive(Debug, Copy, Clone, PartialEq, Eq, Structural)]
pub enum ClosingReason {
    PurposeFulfilled,
    GoingAway,
    ProtocolError,
    UnacceptableData,
    Reserved(u16),
    InconsistentType,
    PolicyViolated,
    MessageTooBig,
    ExtensionNotReturned,
    UnexpectedCondition,
}

/// The transport's lifecycle phase, as its events report it.
#[derive(Debug, Copy, Clone, PartialEq, Eq, Structural)]
pub enum ConnectionState {
    Connecting,
    BeforeConnect,
    Connected,
    Close { reason: Option<ClosingReason> },
    Closed,
    Disconnected,
}

/// What a consumer of the session reads from the event channel.
#[derive(Debug, Clone, PartialEq, Eq)]
pub enum SessionEvent {
    StateChange { old_state: ConnectionState, new_state: ConnectionState },
    ReceiveText { text: String },
}

/// One event of the transport, as its callback delivers it.
#[derive(Debug, Clone, PartialEq, Eq)]
pub enum TransportEvent {
    BeforeConnect,
    Connected,
    Disconnected,
    Close(Option<ClosingReason>),
    Closed,
    Text(String),
    Binary(Vec<u8>),
    Ping,
    Pong,
}

/// The kind of a frame handed to the transport.
#[derive(Debug, Copy, Clone, PartialEq, Eq, Structural)]
pub enum FrameType {
    Text(bool),
    Binary(bool),
    Ping,
    Pong,
    Close,
    SocketClose,
    Continue(bool),
}

/// Why a session operation failed. The two transport variants carry the
/// transport's numeric error code.
#[derive(Debug, Clone, PartialEq, Eq)]
pub enum WebSocketSessionError {
    AlreadyConnected,
    NotConnectedYet,
    EspError { error: i32 },
    EspIOError { error: i32 },
}

/// The state that the transport callback writes and the session reads.
#[derive(Debug, Clone, PartialEq, Eq)]
pub struct SessionState {
    pub desired_state: DesiredState,
    pub connection_state: ConnectionState,
}

/// The phase that a lifecycle event announces; `None` for frames and faults.
pub open spec fn announced_state(event: Result<TransportEvent, i32>) -> Option<ConnectionState> {
    match event {
        Ok(TransportEvent::BeforeConnect) => Some(ConnectionState::BeforeConnect),
        Ok(TransportEvent::Connected) => Some(ConnectionState::Connected),
        Ok(TransportEvent::Disconnected) => Some(ConnectionState::Disconnected),
        Ok(TransportEvent::Close(reason)) => Some(ConnectionState::Close { reason }),
        Ok(TransportEvent::Closed) => Some(ConnectionState::Closed),
        _ => None,
    }
}

/// The connection state after the transport delivered `event` in `state`.
pub open spec fn state_after(state: ConnectionState, event: Result<TransportEvent, i32>)
    -> ConnectionState {
    match announced_state(event) {
        Some(next) => next,
        None => state,
    }
}

/// The event published when the transport delivers `event` in `state`:
/// a state change for every lifecycle event, the text of a text frame,
/// nothing for binary, ping and pong frames and for transport faults.
pub open spec fn published_event(state: ConnectionState, event: Result<TransportEvent, i32>)
    -> Option<SessionEvent> {
    match event {
        Ok(TransportEvent::Text(text)) => Some(SessionEvent::ReceiveText { text }),
        _ => match announced_state(event) {
            Some(next) => Some(SessionEvent::StateChange { old_state: state, new_state: next }),
            None => None,
        },
    }
}

impl SessionState {
    /// Records the new phase and returns the state change to publish.
    pub fn set_state(&mut self, new_state: ConnectionState) -> (event: SessionEvent)
        ensures
            final(self).connection_state == new_state,
            final(self).desired_state == old(self).desired_state,
            event == (SessionEvent::StateChange {
                old_state: old(self).connection_state,
                new_state,
            }),
    {
        let old_state = self.connection_state;
        self.connection_state = new_state;
        SessionEvent::StateChange { old_state, new_state }
    }

    /// Applies one delivery of the transport callback and returns the event
    /// to publish, if the delivery produces one.
    pub fn handle_event(&mut self, event: &Result<TransportEvent, i32>) -> (published: Option<
        SessionEvent,
    >)
        ensures
            final(self).desired_state == old(self).desired_state,
            final(self).connection_state == state_after(old(self).connection_state, *event),
            published == published_event(old(self).connection_state, *event),
    {
        match event {
            Ok(TransportEvent::BeforeConnect) => Some(
                self.set_state(ConnectionState::BeforeConnect),
            ),
            Ok(TransportEvent::Connected) => Some(self.set_state(ConnectionState::Connected)),
            Ok(TransportEvent::Disconnected) => Some(
                self.set_state(ConnectionState::Disconnected),
            ),
            Ok(TransportEvent::Close(reason)) => Some(
                self.set_state(ConnectionState::Close { reason: *reason }),
            ),
            Ok(TransportEvent::Closed) => Some(self.set_state(ConnectionState::Closed)),
            Ok(TransportEvent::Text(text)) => Some(
                SessionEvent::ReceiveText { text: text.clone() },
            ),
            Ok(TransportEvent::Binary(_)) => None,
            Ok(TransportEvent::Ping) => None,
            Ok(TransportEvent::Pong) => None,
            Err(_) => None,
        }
    }
}

/// The transport that the driver must open after a successful `connect`.
#[derive(Debug)]
pub struct OpenRequest {
    pub endpoint: String,
    pub timeout: Duration,
}

/// The frame that the driver must hand to the transport after a successful
/// `send`.
#[derive(Debug, Clone, PartialEq, Eq)]
pub struct Outgoing {
    pub frame_type: FrameType,
    pub frame_data: Vec<u8>,
}

/// The session: the caller's intent, the transport's phase, and whether the
/// driver holds a live transport handle for it.
pub struct WebSocketSession {
    endpoint: String,
    timeout: Duration,
    transport_open: bool,
    state: SessionState,
}

impl WebSocketSession {
    /// The address of the control server.
    pub closed spec fn endpoint(&self) -> Seq<char> {
        self.endpoint@
    }

    /// The timeout handed to the transport when it is opened.
    pub closed spec fn timeout(&self) -> Duration {
        self.timeout
    }

    /// What the caller last asked for.
    pub closed spec fn desired_state(&self) -> DesiredState {
        self.state.desired_state
    }

    /// The transport's phase, as last reported.
    pub closed spec fn connection_state(&self) -> ConnectionState {
        self.state.connection_state
    }

    /// Whether the driver holds a transport handle for this session.
    pub closed spec fn has_transport(&self) -> bool {
        self.transport_open
    }

    /// A frame can be sent when the transport reports `Connected` and its
    /// handle has not been dropped.
    pub open spec fn can_send(&self) -> bool {
        self.connection_state() == ConnectionState::Connected && self.has_transport()
    }

    /// A session that wants nothing yet and has no transport.
    pub fn new(endpoint: &str, timeout: Duration) -> (session: Self)
        ensures
            session.endpoint() == endpoint@,
            session.timeout() == timeout,
            session.desired_state() == DesiredState::Disconnected,
            session.connection_state() == ConnectionState::Disconnected,
            !session.has_transport(),
    {
        WebSocketSession {
            endpoint: endpoint.to_owned(),
            timeout,
            transport_open: false,
            state: SessionState {
                desired_state: DesiredState::Disconnected,
                connection_state: ConnectionState::Disconnected,
            },
        }
    }

    pub fn get_desired_state(&self) -> (desired: DesiredState)
        ensures
            desired == self.desired_state(),
    {
        self.state.desired_state
    }

    pub fn get_connection_state(&self) -> (connection: ConnectionState)
        ensures
            connection == self.connection_state(),
    {
        self.state.connection_state
    }

    /// Whether the driver is expected to hold a transport handle.
    pub fn is_transport_open(&self) -> (open: bool)
        ensures
            open == self.has_transport(),
    {
        self.transport_open
    }

    /// Asks for a connection. Refused with `AlreadyConnected`, and nothing
    /// changed, unless the transport's phase is `Disconnected`; otherwise the
    /// intent becomes `Connected` and the result names the transport to open.
    /// The driver opens it and reports the outcome to `complete_connect`.
    pub fn connect(&mut self) -> (request: Result<OpenRequest, WebSocketSessionError>)
        ensures
            final(self).endpoint() == old(self).endpoint(),
            final(self).timeout() == old(self).timeout(),
            final(self).connection_state() == old(self).connection_state(),
            final(self).has_transport() == old(self).has_transport(),
            old(self).connection_state() != ConnectionState::Disconnected ==> {
                &&& request == Err::<OpenRequest, _>(WebSocketSessionError::AlreadyConnected)
                &&& final(self).desired_state() == old(self).desired_state()
            },
            old(self).connection_state() == ConnectionState::Disconnected ==> {
                &&& request matches Ok(open)
                &&& open.endpoint@ == old(self).endpoint()
                &&& open.timeout == old(self).timeout()
                &&& final(self).desired_state() == DesiredState::Connected
            },
    {
        if self.state.connection_state != ConnectionState::Disconnected {
            return Err(WebSocketSessionError::AlreadyConnected);
        }
        self.state.desired_state = DesiredState::Connected;
        Ok(OpenRequest { endpoint: self.endpoint.clone(), timeout: self.timeout })
    }

    /// Records how opening the transport went. On success the session holds
    /// the new handle; a failure comes back as `EspIOError` with the
    /// transport's code, and the handle held before stays.
    pub fn complete_connect(&mut self, opened: Result<(), i32>) -> (outcome: Result<
        (),
        WebSocketSessionError,
    >)
        ensures
            final(self).endpoint() == old(self).endpoint(),
            final(self).timeout() == old(self).timeout(),
            final(self).connection_state() == old(self).connection_state(),
            final(self).desired_state() == old(self).desired_state(),
            opened is Ok ==> {
                &&& outcome == Ok::<(), WebSocketSessionError>(())
                &&& final(self).has_transport()
            },
            opened matches Err(error) ==> {
                &&& outcome == Err::<(), _>(WebSocketSessionError::EspIOError { error })
                &&& final(self).has_transport() == old(self).has_transport()
            },
    {
        match opened {
            Ok(_) => {
                self.transport_open = true;
                Ok(())
            },
            Err(error) => Err(WebSocketSessionError::EspIOError { error }),
        }
    }

    /// Gives the connection up: the driver drops the transport handle, and
    /// the intent becomes `Disconnected`. Safe to call again.
    pub fn disconnect(&mut self)
        ensures
            final(self).endpoint() == old(self).endpoint(),
            final(self).timeout() == old(self).timeout(),
            final(self).connection_state() == old(self).connection_state(),
            final(self).desired_state() == DesiredState::Disconnected,
            !final(self).has_transport(),
    {
        self.transport_open = false;
        self.state.desired_state = DesiredState::Disconnected;
    }

    /// Asks to send one frame. Refused with `NotConnectedYet` unless the
    /// session can send; otherwise the result is the frame to hand to the
    /// transport, unchanged. The session itself is never changed.
    pub fn send(&mut self, frame_type: FrameType, frame_data: &[u8]) -> (outgoing: Result<
        Outgoing,
        WebSocketSessionError,
    >)
        ensures
            *final(self) == *old(self),
            !old(self).can_send() ==> outgoing == Err::<Outgoing, _>(
                WebSocketSessionError::NotConnectedYet,
            ),
            old(self).can_send() ==> {
                &&& outgoing matches Ok(frame)
                &&& frame.frame_type == frame_type
                &&& frame.frame_data@ == frame_data@
            },
    {
        if self.state.connection_state != ConnectionState::Connected || !self.transport_open {
            return Err(WebSocketSessionError::NotConnectedYet);
        }
        Ok(Outgoing { frame_type, frame_data: slice_to_vec(frame_data) })
    }

    /// What the caller of `send` gets once the transport has answered: a
    /// failure comes back as `EspError` with the transport's code.
    pub fn complete_send(sent: Result<(), i32>) -> (outcome: Result<(), WebSocketSessionError>)
        ensures
            outcome == match sent {
                Ok(_) => Ok::<(), WebSocketSessionError>(()),
                Err(error) => Err(WebSocketSessionError::EspError { error }),
            },
    {
        match sent {
            Ok(_) => Ok(()),
            Err(error) => Err(WebSocketSessionError::EspError { error }),
        }
    }

    /// Applies one delivery of the transport callback to the session and
    /// returns the event to publish, if the delivery produces one.
    pub fn handle_event(&mut self, event: &Result<TransportEvent, i32>) -> (published: Option<
        SessionEvent,
    >)
        ensures
            final(self).endpoint() == old(self).endpoint(),
            final(self).timeout() == old(self).timeout(),
            final(self).has_transport() == old(self).has_transport(),
            final(self).desired_state() == old(self).desired_state(),
            final(self).connection_state() == state_after(old(self).connection_state(), *event),
            published == published_event(old(self).connection_state(), *event),
    {
        self.state.handle_event(event)
    }
}

/// One thing that happens to a session: a call of its owner, or a delivery
/// of the transport callback.
pub enum SessionCall {
    Connect,
    Disconnect,
    Deliver(Result<TransportEvent, i32>),
}

/// The transport's phase after `call`: only a delivery can change it.
pub open spec fn phase_after(state: ConnectionState, call: SessionCall) -> ConnectionState {
    match call {
        SessionCall::Deliver(event) => state_after(state, event),
        _ => state,
    }
}

/// The phase that `call` announces, if it is the delivery of a lifecycle
/// event.
pub open spec fn announcement(call: SessionCall) -> Option<ConnectionState> {
    match call {
        SessionCall::Deliver(event) => announced_state(event),
        _ => None,
    }
}

/// The phase observed after the first `count` of `calls`, from `initial`.
pub open spec fn observed_state(initial: ConnectionState, calls: Seq<SessionCall>, count: int)
    -> ConnectionState
    decreases count,
{
    if count <= 0 {
        initial
    } else {
        phase_after(observed_state(initial, calls, count - 1), calls[count - 1])
    }
}

/// The transport keeps its order: it announces `Connected` only after it
/// has announced `BeforeConnect`, with no other announcement in between.
pub open spec fn announces_in_order(calls: Seq<SessionCall>) -> bool {
    forall|k: int|
        0 <= k < calls.len() && #[trigger] announcement(calls[k]) == Some(
            ConnectionState::Connected,
        ) ==> exists|j: int|
            0 <= j < k && #[trigger] announcement(calls[j]) == Some(ConnectionState::BeforeConnect)
                && forall|m: int| j < m < k ==> (#[trigger] announcement(calls[m])) is None
}

/// The phase does not change over calls that announce nothing.
proof fn lemma_phase_kept(initial: ConnectionState, calls: Seq<SessionCall>, from: int, to: int)
    requires
        0 <= from <= to <= calls.len(),
        forall|m: int| from <= m < to ==> (#[trigger] announcement(calls[m])) is None,
    ensures
        observed_state(initial, calls, to) == observed_state(initial, calls, from),
    decreases to - from,
{
    if from < to {
        lemma_phase_kept(initial, calls, from, to - 1);
        assert(announcement(calls[to - 1]) is None);
    }
}

/// Calls of `connect` and `disconnect` never move the transport's phase,
/// and a transport that keeps its order is never seen to skip
/// `BeforeConnect`: whenever the phase becomes `Connected`, the phase before
/// was `BeforeConnect`, whatever calls were made meanwhile.
pub proof fn lemma_connected_follows_before_connect(
    initial: ConnectionState,
    calls: Seq<SessionCall>,
)
    requires
        announces_in_order(calls),
    ensures
        forall|k: int|
            0 <= k < calls.len() && calls[k] !is Deliver ==> #[trigger] observed_state(
                initial,
                calls,
                k + 1,
            ) == observed_state(initial, calls, k),
        forall|k: int|
            0 <= k < calls.len() && #[trigger] observed_state(initial, calls, k + 1)
                == ConnectionState::Connected && observed_state(initial, calls, k)
                != ConnectionState::Connected ==> observed_state(initial, calls, k)
                == ConnectionState::BeforeConnect,
{
    assert forall|k: int|
        0 <= k < calls.len() && #[trigger] observed_state(initial, calls, k + 1)
            == ConnectionState::Connected && observed_state(initial, calls, k)
            != ConnectionState::Connected implies observed_state(initial, calls, k)
        == ConnectionState::BeforeConnect by {
        assert(announcement(calls[k]) == Some(ConnectionState::Connected));
        let j = choose|j: int|
            0 <= j < k && #[trigger] announcement(calls[j]) == Some(ConnectionState::BeforeConnect)
                && forall|m: int| j < m < k ==> (#[trigger] announcement(calls[m])) is None;
        assert(observed_state(initial, calls, j + 1) == ConnectionState::BeforeConnect);
        lemma_phase_kept(initial, calls, j + 1, k);
    }
}

/// Until the transport announces `Connected`, the session is not connected:
/// from a phase other than `Connected`, no run of calls without that
/// announcement reaches it, so every `send` in between is refused.
pub proof fn lemma_not_connected_before_announcement(
    initial: ConnectionState,
    calls: Seq<SessionCall>,
    count: int,
)
    requires
        initial != ConnectionState::Connected,
        0 <= count <= calls.len(),
        forall|k: int|
            0 <= k < count ==> #[trigger] announcement(calls[k]) != Some(
                ConnectionState::Connected,
            ),
    ensures
        observed_state(initial, calls, count) != ConnectionState::Connected,
    decreases count,
{
    if count > 0 {
        lemma_not_connected_before_announcement(initial, calls, count - 1);
        assert(announcement(calls[count - 1]) != Some(ConnectionState::Connected));
    }
}

} // verus!
