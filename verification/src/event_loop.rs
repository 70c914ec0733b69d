//! The decisions of the loop that drives a session: what each session
//! event leads to, and how a response becomes a frame.
//!
//! The loop itself is the driver's. It opens the session, awaits the next
//! event, hands it to `on_event`, performs the storage work of the step
//! that comes back, and sends each response as the frame that `frame_for`
//! gives.

use crate::codec::{
    DecodeError, EncodeError, command_response_document, decode_request, decoded_text,
    encode_response,
};
use crate::json::printed_document;
use crate::msgpack::{encode_chunk, packed_record};
use crate::processor::{Pending, Processor, Step, final_step, info_result, started};
use crate::protocol::{CommandResponse, DeviceInfo, Response};
use crate::session::{ConnectionState, FrameType, Outgoing, SessionEvent};
use vstd::prelude::*;
use vstd::utf8::encode_utf8;

verus! {

/// What the loop does with one session event.
#[derive(Debug, Clone, PartialEq, Eq)]
pub enum Reaction {
    /// The event asks for nothing.
    Ignored,
    /// The session is connected again: the processor was built anew.
    Rebuilt,
    /// The text is no request: it is dropped, and nothing is answered.
    Rejected(DecodeError),
    /// The text is a request: the first step of answering it.
    Started(Step),
}

/// The loop's own state: the processor of the current connection.
pub struct EventLoop<P> {
    pub processor: Processor<P>,
}

impl<P: Fn() -> Result<DeviceInfo, String>> EventLoop<P> {
    /// The loop before the first connection.
    pub fn new(device_info_producer: P, root_dir: String) -> (event_loop: Self)
        ensures
            event_loop.processor.device_info_producer == device_info_producer,
            event_loop.processor.root_dir == root_dir,
    {
        EventLoop { processor: Processor { device_info_producer, root_dir } }
    }

    /// Takes one session event. A change to `Connected` rebuilds the
    /// processor from the parts of the last one; a text frame is decoded
    /// and, where it is a request, handed to the processor; every other
    /// event is ignored.
    pub fn on_event(self, event: &SessionEvent) -> (next: (Self, Reaction))
        requires
            call_requires(self.processor.device_info_producer, ()),
        ensures
            next.0.processor.device_info_producer == self.processor.device_info_producer,
            next.0.processor.root_dir == self.processor.root_dir,
            match *event {
                SessionEvent::StateChange { new_state, .. } => next.1 == if new_state
                    == ConnectionState::Connected {
                    Reaction::Rebuilt
                } else {
                    Reaction::Ignored
                },
                SessionEvent::ReceiveText { text } => match decoded_text(text@) {
                    Err(error) => next.1 == Reaction::Rejected(error),
                    Ok(request) => {
                        &&& next.1 matches Reaction::Started(step)
                        &&& request.command is GetInfo ==> exists|
                            produced: Result<DeviceInfo, String>,
                        |
                            #[trigger] call_ensures(
                                self.processor.device_info_producer,
                                (),
                                produced,
                            ) && step@ == final_step(request.id, info_result(produced))
                        &&& !(request.command is GetInfo) ==> step@ == started(
                            self.processor.root_dir@,
                            request,
                        )
                    },
                },
            },
    {
        match event {
            SessionEvent::StateChange { new_state, .. } => {
                if *new_state == ConnectionState::Connected {
                    let Processor { device_info_producer, root_dir } = self.processor;
                    (
                        EventLoop { processor: Processor { device_info_producer, root_dir } },
                        Reaction::Rebuilt,
                    )
                } else {
                    (self, Reaction::Ignored)
                }
            },
            SessionEvent::ReceiveText { text } => {
                match decode_request(text.as_str()) {
                    Ok(request) => {
                        let step = self.processor.process(&request);
                        (self, Reaction::Started(step))
                    },
                    Err(error) => (self, Reaction::Rejected(error)),
                }
            },
        }
    }
}

/// The binary frame of an encoded chunk; a failure of the encoder is passed
/// on.
pub fn binary_frame(encoded: Result<Vec<u8>, EncodeError>) -> (result: Result<
    Outgoing,
    EncodeError,
>)
    ensures
        match encoded {
            Ok(bytes) => result matches Ok(frame) && frame.frame_type == FrameType::Binary(false)
                && frame.frame_data@ == bytes@,
            Err(error) => result == Err::<Outgoing, EncodeError>(error),
        },
{
    match encoded {
        Ok(frame_data) => Ok(Outgoing { frame_type: FrameType::Binary(false), frame_data }),
        Err(error) => Err(error),
    }
}

/// The text frame of an encoded response: the bytes of the text in UTF-8;
/// a failure of the encoder is passed on.
pub fn text_frame(encoded: Result<String, EncodeError>) -> (result: Result<Outgoing, EncodeError>)
    ensures
        match encoded {
            Ok(text) => result matches Ok(frame) && frame.frame_type == FrameType::Text(false)
                && frame.frame_data@ == encode_utf8(text@),
            Err(error) => result == Err::<Outgoing, EncodeError>(error),
        },
{
    match encoded {
        Ok(text) => Ok(
            Outgoing {
                frame_type: FrameType::Text(false),
                frame_data: text.as_str().as_bytes_vec(),
            },
        ),
        Err(error) => Err(error),
    }
}

/// The frame that carries a response. Every response has its frame: a
/// chunk of a file leaves as a binary frame in the compact encoding, every
/// other response as a text frame with the bytes of its JSON text.
pub fn frame_for(response: &CommandResponse) -> (result: Result<Outgoing, EncodeError>)
    ensures
        match response.response {
            Response::FetchFileChunk { offset, data, is_final } => {
                &&& result matches Ok(frame)
                &&& frame.frame_type == FrameType::Binary(false)
                &&& frame.frame_data@ == packed_record(
                    response.id@,
                    "FetchFileChunk"@,
                    offset,
                    data@,
                    is_final,
                )
            },
            _ => {
                &&& result matches Ok(frame)
                &&& frame.frame_type == FrameType::Text(false)
                &&& frame.frame_data@ == encode_utf8(
                    printed_document(command_response_document(response@)),
                )
            },
        },
{
    match &response.response {
        Response::FetchFileChunk { offset, data, is_final } => binary_frame(
            encode_chunk(response.id.as_str(), *offset, data.as_slice(), *is_final),
        ),
        _ => text_frame(encode_response(response)),
    }
}

/// What is left of an exchange once a response was handed to the session:
/// the exchange goes on where the response was sent, and ends where it was
/// not. A response that could not be sent is not sent again, and no
/// further response of its exchange is.
pub fn after_send<E>(pending: Option<Pending>, sent: &Result<(), E>) -> (next: Option<Pending>)
    ensures
        next == match *sent {
            Ok(_) => pending,
            Err(_) => None::<Pending>,
        },
{
    match sent {
        Ok(_) => pending,
        Err(_) => None,
    }
}

} // verus!
