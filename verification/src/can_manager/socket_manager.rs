//! Frames as the bus library holds them: made from an identifier and an
//! envelope before sending, taken apart after receiving.

use crate::can_manager::errors::SendFrameError;
use crate::le_bytes::fit_to;
use crate::protocol::message::{is_frame_of, lemma_frame_round_trip, Message};
use crate::protocol::raw_can_message::{
    CanMessageBufferType, CanMessageData, CanMessageId, MAX_STANDARD_ID,
};
use socketcan::{CanAnyFrame, CanFdFrame, EmbeddedFrame, Frame, Id, StandardId};
use vstd::prelude::*;

verus! {

/// `StandardId` of embedded-can, as socketcan hands it on: an 11-bit
/// identifier. Nothing is known of what is inside but what the functions
/// below say.
#[verifier::external_type_specification]
#[verifier::external_body]
pub struct ExStandardId(StandardId);

/// `socketcan::CanFdFrame`: a CAN-FD frame. Nothing is known of what is
/// inside but what the functions below say.
#[verifier::external_type_specification]
#[verifier::external_body]
pub struct ExCanFdFrame(CanFdFrame);

/// `socketcan::CanAnyFrame`: a frame of any kind, as a socket hands it out.
#[verifier::external_type_specification]
#[verifier::external_body]
pub struct ExCanAnyFrame(CanAnyFrame);

/// Most bytes of data in one CAN-FD frame.
pub const MAX_FD_DATA: usize = 64;

/// The number that a standard identifier holds: what `StandardId::as_raw`
/// gives.
pub uninterp spec fn standard_id_raw(id: StandardId) -> u16;

/// The standard identifier of a frame, as `EmbeddedFrame::id` gives it;
/// none where the frame is addressed with an extended one.
pub uninterp spec fn frame_standard_id(frame: CanFdFrame) -> Option<u16>;

/// The data length that a frame stores: what `Frame::len` gives. A frame
/// made by the bus library stores one of the lengths that CAN-FD has; one
/// whose bytes were written by hand may store any.
pub uninterp spec fn frame_len(frame: CanFdFrame) -> nat;

/// The data bytes that a frame holds: what `EmbeddedFrame::data` gives for a
/// frame whose stored length is at most 64.
pub uninterp spec fn frame_data(frame: CanFdFrame) -> Seq<u8>;

/// The CAN-FD frame inside a frame of any kind: the one in the `Fd` variant
/// of `CanAnyFrame`; none for a classic, a remote or an error frame.
pub uninterp spec fn fd_part(frame: CanAnyFrame) -> Option<CanFdFrame>;

/// The data length that a CAN-FD frame has for `len` bytes of data: up to
/// eight bytes every length is one, above that the next of 12, 16, 20, 24,
/// 32, 48 and 64.
pub open spec fn fd_data_len(len: nat) -> nat {
    if len <= 8 {
        len
    } else if len <= 12 {
        12
    } else if len <= 16 {
        16
    } else if len <= 20 {
        20
    } else if len <= 24 {
        24
    } else if len <= 32 {
        32
    } else if len <= 48 {
        48
    } else {
        64
    }
}

/// `StandardId::new` of embedded-can, which socketcan hands on: there is an
/// identifier for every value up to 0x7FF, holding that value, and for no
/// other.
#[verifier::external_body]
fn standard_id(raw: u16) -> (id: Option<StandardId>)
    ensures
        id is Some <==> raw <= MAX_STANDARD_ID,
        id matches Some(made) ==> standard_id_raw(made) == raw,
{
    StandardId::new(raw)
}

/// `EmbeddedFrame::new` as socketcan has it for `CanFdFrame`: there is a
/// frame for up to 64 bytes of data and for no more. It has the identifier
/// it was given, it stores the next data length that CAN-FD has, and it
/// holds the data, zero-filled up to that length.
#[verifier::external_body]
fn fd_frame(id: StandardId, data: &[u8]) -> (frame: Option<CanFdFrame>)
    ensures
        frame is Some <==> data@.len() <= MAX_FD_DATA,
        frame matches Some(made) ==> frame_standard_id(made) == Some(standard_id_raw(id))
            && frame_len(made) == fd_data_len(data@.len()) && frame_data(made) == fit_to(
            data@,
            fd_data_len(data@.len()),
        ),
{
    CanFdFrame::new(id, data)
}

/// The variants of `CanAnyFrame`: the CAN-FD frame inside a frame of any
/// kind; none for a classic, a remote or an error frame.
#[verifier::external_body]
pub(crate) fn fd_frame_of(frame: &CanAnyFrame) -> (fd: Option<CanFdFrame>)
    ensures
        fd == fd_part(*frame),
{
    match frame {
        CanAnyFrame::Fd(fd) => Some(*fd),
        CanAnyFrame::Normal(_) => None,
        CanAnyFrame::Remote(_) => None,
        CanAnyFrame::Error(_) => None,
    }
}

/// `EmbeddedFrame::id` as socketcan has it for `CanFdFrame`, and
/// `StandardId::as_raw` on what it gives: the standard identifier of the
/// frame, which is never above 0x7FF.
#[verifier::external_body]
pub(crate) fn standard_id_of(frame: &CanFdFrame) -> (raw: Option<u16>)
    ensures
        raw == frame_standard_id(*frame),
        raw matches Some(value) ==> value <= MAX_STANDARD_ID,
{
    match frame.id() {
        Id::Standard(id) => Some(id.as_raw()),
        Id::Extended(_) => None,
    }
}

/// `Frame::len` as socketcan has it for `CanFdFrame`: the data length that
/// the frame stores, whatever it is.
#[verifier::external_body]
pub(crate) fn len_of(frame: &CanFdFrame) -> (len: usize)
    ensures
        len == frame_len(*frame),
{
    frame.len()
}

/// `EmbeddedFrame::data` as socketcan has it for `CanFdFrame`: the data
/// bytes of the frame, as many as the stored length says. It cuts them out
/// of a buffer of 64 bytes and stops the program where the stored length is
/// above that.
#[verifier::external_body]
pub(crate) fn data_of(frame: &CanFdFrame) -> (data: Vec<u8>)
    requires
        frame_len(*frame) <= MAX_FD_DATA,
    ensures
        data@ == frame_data(*frame),
        data@.len() == frame_len(*frame),
{
    frame.data().to_vec()
}

/// The reason why no frame is made of this identifier and this much data,
/// if there is one. The identifier is looked at first.
pub open spec fn send_refusal(raw_id: u16, len: nat) -> Option<SendFrameError> {
    if raw_id > MAX_STANDARD_ID {
        Some(SendFrameError::InvalidId { raw_id })
    } else if len > MAX_FD_DATA {
        Some(SendFrameError::InvalidFrameLength { len: len as usize })
    } else {
        None
    }
}

/// Makes the frame that carries `data` under the identifier `raw_id`.
pub fn frame_of(raw_id: u16, data: &[u8]) -> (result: Result<CanFdFrame, SendFrameError>)
    ensures
        result is Ok <==> send_refusal(raw_id, data@.len()) is None,
        result matches Err(e) ==> send_refusal(raw_id, data@.len()) == Some(e),
        result matches Ok(frame) ==> frame_standard_id(frame) == Some(raw_id) && frame_len(frame)
            == fd_data_len(data@.len()) && frame_data(frame) == fit_to(
            data@,
            fd_data_len(data@.len()),
        ),
{
    let id = match standard_id(raw_id) {
        Some(id) => id,
        None => {
            return Err(SendFrameError::InvalidId { raw_id });
        },
    };
    match fd_frame(id, data) {
        Some(frame) => Ok(frame),
        None => Err(SendFrameError::InvalidFrameLength { len: data.len() }),
    }
}

/// Makes the frame that carries an envelope under a message identifier. An
/// identifier with a reserved bit set is turned down; an envelope always
/// fits.
pub fn frame_to_send(can_message_id: CanMessageId, can_message_frame: &CanMessageData) -> (result:
    Result<CanFdFrame, SendFrameError>)
    ensures
        result is Ok <==> can_message_id.is_standard(),
        result matches Err(e) ==> e == (SendFrameError::InvalidId {
            raw_id: can_message_id.raw(),
        }),
        result matches Ok(frame) ==> frame_standard_id(frame) == Some(can_message_id.raw())
            && frame_len(frame) == MAX_FD_DATA && frame_data(frame) == can_message_frame.wire(),
{
    let raw_id: u16 = can_message_id.to_raw();
    let bytes = can_message_frame.as_bytes();
    let result = frame_of(raw_id, bytes.as_slice());
    proof {
        assert(fit_to(bytes@, 64) =~= bytes@);
    }
    result
}

/// Makes the frame that carries a message under a message identifier: the
/// message in an envelope with a direct buffer, as the data of a CAN-FD
/// frame. An identifier with a reserved bit set is turned down.
pub fn frame_of_message(id: CanMessageId, msg: &Message) -> (result: Result<
    CanFdFrame,
    SendFrameError,
>)
    ensures
        result is Ok <==> id.is_standard(),
        result matches Err(e) ==> e == (SendFrameError::InvalidId { raw_id: id.raw() }),
        result matches Ok(frame) ==> frame_standard_id(frame) == Some(id.raw()) && frame_len(frame)
            == MAX_FD_DATA && is_frame_of(*msg, frame_data(frame)),
{
    let mut envelope = msg.as_can_message_data();
    envelope.data_info.set_can_message_buffer(CanMessageBufferType::DirectBuffer);
    proof {
        lemma_frame_round_trip(*msg, envelope, *msg);
    }
    frame_to_send(id, &envelope)
}

} // verus!
