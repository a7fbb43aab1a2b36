//! The dispatch engine: from a received frame and the node's state to the
//! new state and the frame to answer with.

pub mod generic_channel;
pub mod message_handler;

use crate::can_manager::socket_manager::{
    data_of, fd_frame_of, fd_part, frame_data, frame_len, frame_standard_id, frame_to_send, len_of,
    standard_id_of, MAX_FD_DATA,
};
use crate::config::state_storage::StateStorage;
use crate::message_handling::generic_channel::{handle_generic_command, is_response, state_after};
use crate::protocol::errors::DecodeError;
use crate::protocol::message::{
    frame_refusal, is_frame_of, lemma_frame_of_envelope, lemma_refusal_of_envelope, Message,
};
use crate::protocol::raw_can_message::{
    lemma_raw_is_fields, CanMessageData, CanMessageDirection, CanMessageId,
};
use socketcan::{CanAnyFrame, CanFdFrame};
use vstd::prelude::*;

verus! {

/// Handles one message: hands its command to the channel it belongs to.
pub fn handle_message(msg: &Message, state: &mut StateStorage) -> (response: Option<Message>)
    ensures
        final(state)@ == state_after(msg.command(), old(state)@),
        is_response(msg.command(), old(state)@, response),
{
    match msg {
        Message::GenericChannelMessage(cmd) => handle_generic_command(cmd, state),
    }
}

/// Reads the identifier and the message out of the arbitration id and the
/// data of a frame. Every arbitration id is an identifier; the data must be
/// an envelope that carries a message.
pub fn parse_frame(raw_id: u16, data: &[u8]) -> (result: Result<(CanMessageId, Message), DecodeError>)
    ensures
        result is Ok <==> frame_refusal(data@) is None,
        result matches Err(e) ==> frame_refusal(data@) == Some(e),
        result matches Ok(parsed) ==> parsed.0.raw() == raw_id && is_frame_of(parsed.1, data@),
{
    let envelope = match CanMessageData::read_from_bytes(data) {
        Ok(envelope) => envelope,
        Err(e) => {
            return Err(e);
        },
    };
    let id = CanMessageId::decode(raw_id);
    proof {
        lemma_refusal_of_envelope(envelope);
    }
    match Message::try_from(envelope) {
        Ok(message) => {
            proof {
                lemma_frame_of_envelope(envelope, message);
            }
            Ok((id, message))
        },
        Err(e) => Err(e),
    }
}

/// The reason why a CAN-FD frame carries no message, if there is one. The
/// identifier is looked at first, then the length that the frame stores,
/// then the data.
pub open spec fn fd_frame_refusal(frame: CanFdFrame) -> Option<DecodeError> {
    if frame_standard_id(frame) is None {
        Some(DecodeError::NotStandardId)
    } else if frame_len(frame) > MAX_FD_DATA {
        Some(DecodeError::WrongLength { len: frame_len(frame) as usize })
    } else {
        frame_refusal(frame_data(frame))
    }
}

/// Reads the identifier and the message out of a CAN-FD frame. A frame with
/// an extended identifier is turned down, and so is one that stores a data
/// length above 64: its data is not looked at.
pub fn parse_fd_frame(frame: &CanFdFrame) -> (result: Result<(CanMessageId, Message), DecodeError>)
    ensures
        result is Ok <==> fd_frame_refusal(*frame) is None,
        result matches Err(e) ==> fd_frame_refusal(*frame) == Some(e),
        result matches Ok(parsed) ==> frame_standard_id(*frame) == Some(parsed.0.raw())
            && parsed.0.is_standard() && is_frame_of(parsed.1, frame_data(*frame)),
{
    let raw_id: u16 = match standard_id_of(frame) {
        Some(raw_id) => raw_id,
        None => {
            return Err(DecodeError::NotStandardId);
        },
    };
    let len: usize = len_of(frame);
    if len > MAX_FD_DATA {
        return Err(DecodeError::WrongLength { len });
    }
    let data = data_of(frame);
    parse_frame(raw_id, data.as_slice())
}

/// The reason why a received frame carries no message, if there is one.
pub open spec fn any_frame_refusal(frame: CanAnyFrame) -> Option<DecodeError> {
    match fd_part(frame) {
        None => Some(DecodeError::NotFdFrame),
        Some(fd) => fd_frame_refusal(fd),
    }
}

/// Reads the identifier and the message out of a received frame. Only
/// CAN-FD frames with a standard identifier carry messages; a classic, a
/// remote or an error frame is turned down with `NotFdFrame`, and what is
/// wrong with a CAN-FD frame is what `parse_fd_frame` finds.
pub fn parse_can_message(frame: CanAnyFrame) -> (result: Result<(CanMessageId, Message), DecodeError>)
    ensures
        result is Ok <==> any_frame_refusal(frame) is None,
        result matches Err(e) ==> any_frame_refusal(frame) == Some(e),
        result matches Ok(parsed) ==> fd_part(frame) matches Some(fd) && frame_standard_id(fd)
            == Some(parsed.0.raw()) && parsed.0.is_standard() && is_frame_of(
            parsed.1,
            frame_data(fd),
        ),
{
    match fd_frame_of(&frame) {
        Some(fd) => parse_fd_frame(&fd),
        None => Err(DecodeError::NotFdFrame),
    }
}

/// What the node made of one frame: the identifier and the message it
/// carried, the message to answer with, and that answer ready to send.
#[derive(Clone, Copy, Debug, PartialEq, Eq)]
pub struct Processed {
    pub id: CanMessageId,
    pub request: Message,
    pub response: Option<Message>,
    pub reply: Option<(CanMessageId, CanMessageData)>,
}

/// Whether `reply` is `response` ready to send in answer to a message that
/// came under `id`: the same identifier with the direction from node to
/// master, and the response in an envelope with a direct buffer.
pub open spec fn is_reply(
    id: CanMessageId,
    response: Option<Message>,
    reply: Option<(CanMessageId, CanMessageData)>,
) -> bool {
    match response {
        None => reply is None,
        Some(message) => {
            &&& reply matches Some(sent)
            &&& sent.0.spec_direction() == CanMessageDirection::NodeToMaster
            &&& id.same_but(sent.0, false, true, true, true)
            &&& message.fills(sent.1)
        },
    }
}

/// Processes one frame, given as its arbitration id and its data: decodes
/// the message, handles it, and makes the reply ready.
///
/// A frame that carries no message is dropped: the error says why, and the
/// state is as it was, so the next frame finds the node as if the dropped
/// one had never come.
pub fn process_frame(raw_id: u16, data: &[u8], state: &mut StateStorage) -> (result: Result<
    Processed,
    DecodeError,
>)
    ensures
        result is Ok <==> frame_refusal(data@) is None,
        result matches Err(e) ==> frame_refusal(data@) == Some(e) && final(state)@ == old(state)@,
        result matches Ok(done) ==> {
            &&& done.id.raw() == raw_id
            &&& is_frame_of(done.request, data@)
            &&& final(state)@ == state_after(done.request.command(), old(state)@)
            &&& is_response(done.request.command(), old(state)@, done.response)
            &&& is_reply(done.id, done.response, done.reply)
        },
{
    let (id, request) = match parse_frame(raw_id, data) {
        Ok(parsed) => parsed,
        Err(e) => {
            return Err(e);
        },
    };
    let response = handle_message(&request, state);
    let reply = match &response {
        None => None,
        Some(message) => Some(
            (id.with_direction(CanMessageDirection::NodeToMaster), message.as_can_message_data()),
        ),
    };
    Ok(Processed { id, request, response, reply })
}

/// The state after the node has seen a frame with this data: as it was
/// where the frame carries no message, and what the message makes of it
/// where it carries one.
pub open spec fn state_after_frame(data: Seq<u8>, state: Map<Seq<char>, Seq<u8>>) -> Map<
    Seq<char>,
    Seq<u8>,
> {
    if frame_refusal(data) is Some {
        state
    } else {
        let message = choose|message: Message| is_frame_of(message, data);
        state_after(message.command(), state)
    }
}

/// A frame that carries no message does not change what the next frame
/// does to the state.
pub proof fn lemma_dropped_frame_is_skipped(
    dropped: Seq<u8>,
    next: Seq<u8>,
    state: Map<Seq<char>, Seq<u8>>,
)
    requires
        frame_refusal(dropped) is Some,
    ensures
        state_after_frame(next, state_after_frame(dropped, state)) == state_after_frame(
            next,
            state,
        ),
{
}

/// Answers one received frame: what the node made of it, and the frame to
/// send back, if the message in the received frame has an answer.
pub fn answer_frame(frame: CanAnyFrame, state: &mut StateStorage) -> (result: Result<
    (Processed, Option<CanFdFrame>),
    DecodeError,
>)
    ensures
        result is Ok <==> any_frame_refusal(frame) is None,
        result matches Err(e) ==> any_frame_refusal(frame) == Some(e) && final(state)@ == old(
            state,
        )@,
        result matches Ok((done, answer)) ==> {
            &&& fd_part(frame) matches Some(fd)
            &&& frame_standard_id(fd) == Some(done.id.raw())
            &&& is_frame_of(done.request, frame_data(fd))
            &&& final(state)@ == state_after(done.request.command(), old(state)@)
            &&& is_response(done.request.command(), old(state)@, done.response)
            &&& is_reply(done.id, done.response, done.reply)
            &&& answer is Some <==> done.reply is Some
            &&& answer matches Some(sent) ==> done.reply matches Some(made) && frame_standard_id(
                sent,
            ) == Some(made.0.raw()) && frame_data(sent) == made.1.wire()
        },
{
    let (id, request) = match parse_can_message(frame) {
        Ok(parsed) => parsed,
        Err(e) => {
            return Err(e);
        },
    };
    let response = handle_message(&request, state);
    match &response {
        None => Ok((Processed { id, request, response, reply: None }, None)),
        Some(message) => {
            let reply_id = id.with_direction(CanMessageDirection::NodeToMaster);
            let envelope = message.as_can_message_data();
            proof {
                lemma_raw_is_fields(id);
                lemma_raw_is_fields(reply_id);
            }
            match frame_to_send(reply_id, &envelope) {
                Ok(sent) => Ok(
                    (
                        Processed { id, request, response, reply: Some((reply_id, envelope)) },
                        Some(sent),
                    ),
                ),
                Err(_) => vstd::pervasive::unreached(),
            }
        },
    }
}

} // verus!
