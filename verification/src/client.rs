//! The plain client of the control server: a session that reports only the
//! phases of its connection. Frames that arrive are not passed on.

pub use crate::session::DesiredState;
use crate::session::{
    ConnectionState, FrameType, OpenRequest, Outgoing, SessionEvent, TransportEvent,
    WebSocketSession, WebSocketSessionError, announced_state, state_after,
};
use core::time::Duration;
use vstd::prelude::*;

verus! {

/// Why a client operation failed. The two transport variants carry the
/// transport's numeric error code.
#[derive(Debug, Clone, PartialEq, Eq)]
pub enum APIError {
    AlreadyConnected,
    NotConnectedYet,
    EspError { error: i32 },
    EspIOError { error: i32 },
}

/// What a consumer of the client reads from the event channel.
#[derive(Debug, Clone, PartialEq, Eq)]
pub enum APIEvent {
    StateChange { old_state: ConnectionState, new_state: ConnectionState },
}

/// The client's error for a session's error.
pub open spec fn api_error(error: WebSocketSessionError) -> APIError {
    match error {
        WebSocketSessionError::AlreadyConnected => APIError::AlreadyConnected,
        WebSocketSessionError::NotConnectedYet => APIError::NotConnectedYet,
        WebSocketSessionError::EspError { error } => APIError::EspError { error },
        WebSocketSessionError::EspIOError { error } => APIError::EspIOError { error },
    }
}

/// The event published when the transport delivers `event` in `state`: a
/// state change for every lifecycle event, and nothing else.
pub open spec fn published_change(state: ConnectionState, event: Result<TransportEvent, i32>)
    -> Option<APIEvent> {
    match announced_state(event) {
        Some(next) => Some(APIEvent::StateChange { old_state: state, new_state: next }),
        None => None,
    }
}

fn convert_error(error: WebSocketSessionError) -> (converted: APIError)
    ensures
        converted == api_error(error),
{
    match error {
        WebSocketSessionError::AlreadyConnected => APIError::AlreadyConnected,
        WebSocketSessionError::NotConnectedYet => APIError::NotConnectedYet,
        WebSocketSessionError::EspError { error } => APIError::EspError { error },
        WebSocketSessionError::EspIOError { error } => APIError::EspIOError { error },
    }
}

/// The client: a session whose text frames are dropped.
pub struct APIClient {
    session: WebSocketSession,
}

impl APIClient {
    /// The session that the client drives.
    pub closed spec fn session(&self) -> WebSocketSession {
        self.session
    }

    /// A client that wants nothing yet and has no transport.
    pub fn new(endpoint: &str, timeout: Duration) -> (client: Self)
        ensures
            client.session().endpoint() == endpoint@,
            client.session().timeout() == timeout,
            client.session().desired_state() == DesiredState::Disconnected,
            client.session().connection_state() == ConnectionState::Disconnected,
            !client.session().has_transport(),
    {
        APIClient { session: WebSocketSession::new(endpoint, timeout) }
    }

    pub fn get_desired_state(&self) -> (desired: DesiredState)
        ensures
            desired == self.session().desired_state(),
    {
        self.session.get_desired_state()
    }

    pub fn get_connection_state(&self) -> (connection: ConnectionState)
        ensures
            connection == self.session().connection_state(),
    {
        self.session.get_connection_state()
    }

    /// Asks for a connection. Refused with `AlreadyConnected`, and nothing
    /// changed, unless the transport's phase is `Disconnected`; otherwise
    /// the intent becomes `Connected` and the result names the transport to
    /// open.
    pub fn connect(&mut self) -> (request: Result<OpenRequest, APIError>)
        ensures
            final(self).session().endpoint() == old(self).session().endpoint(),
            final(self).session().timeout() == old(self).session().timeout(),
            final(self).session().connection_state() == old(self).session().connection_state(),
            final(self).session().has_transport() == old(self).session().has_transport(),
            old(self).session().connection_state() != ConnectionState::Disconnected ==> {
                &&& request == Err::<OpenRequest, _>(APIError::AlreadyConnected)
                &&& final(self).session().desired_state() == old(self).session().desired_state()
            },
            old(self).session().connection_state() == ConnectionState::Disconnected ==> {
                &&& request matches Ok(open)
                &&& open.endpoint@ == old(self).session().endpoint()
                &&& open.timeout == old(self).session().timeout()
                &&& final(self).session().desired_state() == DesiredState::Connected
            },
    {
        match self.session.connect() {
            Ok(open) => Ok(open),
            Err(error) => Err(convert_error(error)),
        }
    }

    /// Records how opening the transport went; a failure comes back as
    /// `EspIOError` with the transport's code.
    pub fn complete_connect(&mut self, opened: Result<(), i32>) -> (outcome: Result<(), APIError>)
        ensures
            final(self).session().endpoint() == old(self).session().endpoint(),
            final(self).session().timeout() == old(self).session().timeout(),
            final(self).session().connection_state() == old(self).session().connection_state(),
            final(self).session().desired_state() == old(self).session().desired_state(),
            opened is Ok ==> {
                &&& outcome == Ok::<(), APIError>(())
                &&& final(self).session().has_transport()
            },
            opened matches Err(error) ==> {
                &&& outcome == Err::<(), _>(APIError::EspIOError { error })
                &&& final(self).session().has_transport() == old(self).session().has_transport()
            },
    {
        match self.session.complete_connect(opened) {
            Ok(_) => Ok(()),
            Err(error) => Err(convert_error(error)),
        }
    }

    /// Gives the connection up: the driver drops the transport handle, and
    /// the intent becomes `Disconnected`.
    pub fn disconnect(&mut self)
        ensures
            final(self).session().endpoint() == old(self).session().endpoint(),
            final(self).session().timeout() == old(self).session().timeout(),
            final(self).session().connection_state() == old(self).session().connection_state(),
            final(self).session().desired_state() == DesiredState::Disconnected,
            !final(self).session().has_transport(),
    {
        self.session.disconnect();
    }

    /// Asks to send one frame. Refused with `NotConnectedYet` unless the
    /// session can send; otherwise the result is the frame to hand to the
    /// transport.
    pub fn send(&mut self, frame_type: FrameType, frame_data: &[u8]) -> (outgoing: Result<
        Outgoing,
        APIError,
    >)
        ensures
            final(self).session() == old(self).session(),
            !old(self).session().can_send() ==> outgoing == Err::<Outgoing, _>(
                APIError::NotConnectedYet,
            ),
            old(self).session().can_send() ==> {
                &&& outgoing matches Ok(frame)
                &&& frame.frame_type == frame_type
                &&& frame.frame_data@ == frame_data@
            },
    {
        match self.session.send(frame_type, frame_data) {
            Ok(frame) => Ok(frame),
            Err(error) => Err(convert_error(error)),
        }
    }

    /// What the caller of `send` gets once the transport has answered: a
    /// failure comes back as `EspError` with the transport's code.
    pub fn complete_send(sent: Result<(), i32>) -> (outcome: Result<(), APIError>)
        ensures
            outcome == match sent {
                Ok(_) => Ok::<(), APIError>(()),
                Err(error) => Err(APIError::EspError { error }),
            },
    {
        match sent {
            Ok(_) => Ok(()),
            Err(error) => Err(APIError::EspError { error }),
        }
    }

    /// Applies one delivery of the transport callback and returns the state
    /// change to publish, if the delivery is a lifecycle event.
    pub fn handle_event(&mut self, event: &Result<TransportEvent, i32>) -> (published: Option<
        APIEvent,
    >)
        ensures
            final(self).session().endpoint() == old(self).session().endpoint(),
            final(self).session().timeout() == old(self).session().timeout(),
            final(self).session().has_transport() == old(self).session().has_transport(),
            final(self).session().desired_state() == old(self).session().desired_state(),
            final(self).session().connection_state() == state_after(
                old(self).session().connection_state(),
                *event,
            ),
            published == published_change(old(self).session().connection_state(), *event),
    {
        match self.session.handle_event(event) {
            Some(SessionEvent::StateChange { old_state, new_state }) => Some(
                APIEvent::StateChange { old_state, new_state },
            ),
            _ => None,
        }
    }
}

} // verus!
