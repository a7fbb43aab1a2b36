//! A message: a command together with the channel it belongs to, as one
//! envelope carries it.

use crate::protocol::channels::generic_channel::{
    generic_variants, lemma_generic_round_trip, lemma_padded_model_injective, GenericCommand,
};
use crate::protocol::errors::DecodeError;
use crate::protocol::padded_enum::from_wire_spec;
use crate::protocol::raw_can_message::{CanMessageData, ENVELOPE_LEN};
use vstd::prelude::*;

verus! {

/// The channel id of the generic channel.
pub const GENERIC_CHANNEL_ID: u8 = 5;

/// The channels, by the id that selects them in the envelope.
#[derive(Clone, Copy, Debug, PartialEq, Eq, Structural)]
pub enum MessageDiscriminant {
    GenericChannelMessage,
}

impl MessageDiscriminant {
    /// The channel id.
    pub open spec fn spec_discriminant(self) -> u8 {
        GENERIC_CHANNEL_ID
    }

    /// The channel id.
    pub fn discriminant(&self) -> (channel_id: u8)
        ensures
            channel_id == self.spec_discriminant(),
    {
        GENERIC_CHANNEL_ID
    }
}

/// A command of one of the channels.
#[derive(Clone, Copy, Debug, PartialEq, Eq)]
pub enum Message {
    GenericChannelMessage(GenericCommand),
}

/// What can be put into an envelope.
pub trait CommandTrait {
    fn as_can_message_data(&self) -> CanMessageData;
}

/// The tag and the 62 payload bytes of an envelope: the 63 bytes in which a
/// channel finds its command.
pub open spec fn command_bytes(envelope: CanMessageData) -> Seq<u8> {
    seq![envelope.command_id] + envelope.data@
}

impl Message {
    /// The channel id under which the message travels.
    pub open spec fn spec_discriminant(self) -> u8 {
        GENERIC_CHANNEL_ID
    }

    /// The command of the message.
    pub open spec fn command(self) -> GenericCommand {
        self->GenericChannelMessage_0
    }

    /// Whether `envelope` is the one that `as_can_message_data` makes of
    /// this message: the message's channel, a direct buffer, and the
    /// command's bytes.
    pub open spec fn fills(self, envelope: CanMessageData) -> bool {
        &&& envelope.data_info.raw() == GENERIC_CHANNEL_ID
        &&& command_bytes(envelope) == self.command().wire()
    }

    /// Whether `envelope` carries this message: it selects the message's
    /// channel and its command bytes decode to the message's command.
    pub open spec fn is_carried_by(self, envelope: CanMessageData) -> bool {
        &&& envelope.data_info.spec_channel_id() == GENERIC_CHANNEL_ID
        &&& self.command().is_decoded_from(command_bytes(envelope))
    }

    /// The reason why `envelope` carries no message, if there is one.
    pub open spec fn refusal(envelope: CanMessageData) -> Option<DecodeError> {
        if envelope.data_info.spec_channel_id() != GENERIC_CHANNEL_ID {
            Some(
                DecodeError::UnknownChannel {
                    channel_id: envelope.data_info.spec_channel_id() as u8,
                },
            )
        } else {
            match from_wire_spec(generic_variants(), command_bytes(envelope)) {
                Ok(_) => None,
                Err(e) => Some(e),
            }
        }
    }

    /// The channel id under which the message travels.
    pub fn discriminant(&self) -> (channel_id: u8)
        ensures
            channel_id == self.spec_discriminant(),
    {
        GENERIC_CHANNEL_ID
    }

    /// The message in an envelope, with a direct buffer.
    pub fn as_can_message_data(&self) -> (envelope: CanMessageData)
        ensures
            self.fills(envelope),
    {
        match self {
            Message::GenericChannelMessage(command) => {
                let mut envelope = command.as_can_message_data();
                envelope.data_info.set_channel_id(GENERIC_CHANNEL_ID);
                envelope
            },
        }
    }

    /// The message that an envelope carries. The channel id selects the
    /// channel; an envelope of another channel than the generic one is
    /// turned down, and so is one whose command the channel cannot decode.
    pub fn try_from(value: CanMessageData) -> (result: Result<Message, DecodeError>)
        ensures
            result matches Ok(message) ==> message.is_carried_by(value),
            result matches Err(e) ==> Message::refusal(value) == Some(e),
            result is Ok <==> Message::refusal(value) is None,
    {
        let channel_id: u8 = value.data_info.channel_id();
        if channel_id == GENERIC_CHANNEL_ID {
            match GenericCommand::try_from(value) {
                Ok(command) => Ok(Message::GenericChannelMessage(command)),
                Err(e) => Err(e),
            }
        } else {
            Err(DecodeError::UnknownChannel { channel_id })
        }
    }
}

impl CommandTrait for GenericCommand {
    fn as_can_message_data(&self) -> (envelope: CanMessageData)
        ensures
            envelope.data_info.raw() == 0,
            command_bytes(envelope) == self.wire(),
    {
        GenericCommand::as_can_message_data(self)
    }
}

impl CommandTrait for Message {
    fn as_can_message_data(&self) -> (envelope: CanMessageData)
        ensures
            self.fills(envelope),
    {
        Message::as_can_message_data(self)
    }
}

/// The envelope made of a message carries that message and no other,
/// whatever buffer type is set in it afterwards.
pub proof fn lemma_message_round_trip(message: Message, envelope: CanMessageData, other: Message)
    requires
        command_bytes(envelope) == message.command().wire(),
        envelope.data_info.spec_channel_id() == GENERIC_CHANNEL_ID,
    ensures
        message.is_carried_by(envelope),
        Message::refusal(envelope) is None,
        other.is_carried_by(envelope) ==> other == message,
{
    lemma_generic_round_trip(message.command(), other.command());
}

/// The reason why the data of a frame carries no message, if there is one:
/// it is not 64 bytes long, it selects another channel than the generic
/// one, or the channel cannot decode the command.
pub open spec fn frame_refusal(data: Seq<u8>) -> Option<DecodeError> {
    if data.len() != ENVELOPE_LEN {
        Some(DecodeError::WrongLength { len: data.len() as usize })
    } else if data[0] % 64 != GENERIC_CHANNEL_ID {
        Some(DecodeError::UnknownChannel { channel_id: (data[0] % 64) as u8 })
    } else {
        match from_wire_spec(generic_variants(), data.skip(1)) {
            Ok(_) => None,
            Err(e) => Some(e),
        }
    }
}

/// Whether the data of a frame carries `message`.
pub open spec fn is_frame_of(message: Message, data: Seq<u8>) -> bool {
    &&& data.len() == ENVELOPE_LEN
    &&& data[0] % 64 == GENERIC_CHANNEL_ID
    &&& message.command().is_decoded_from(data.skip(1))
}

/// The bytes of an envelope are turned down for the reason for which the
/// envelope is.
pub proof fn lemma_refusal_of_envelope(envelope: CanMessageData)
    ensures
        frame_refusal(envelope.wire()) == Message::refusal(envelope),
{
    assert(envelope.wire().skip(1) =~= command_bytes(envelope));
    assert(envelope.wire()[0] == envelope.data_info.raw());
}

/// The bytes of an envelope carry the message that the envelope carries.
pub proof fn lemma_frame_of_envelope(envelope: CanMessageData, message: Message)
    ensures
        is_frame_of(message, envelope.wire()) == message.is_carried_by(envelope),
{
    assert(envelope.wire().skip(1) =~= command_bytes(envelope));
    assert(envelope.wire()[0] == envelope.data_info.raw());
}

/// The data of a frame carries one message at most.
pub proof fn lemma_frame_of_unique(a: Message, b: Message, data: Seq<u8>)
    requires
        is_frame_of(a, data),
        is_frame_of(b, data),
    ensures
        a == b,
{
    lemma_padded_model_injective(a.command(), b.command());
}

/// The bytes of the envelope made of a message carry that message and no
/// other.
pub proof fn lemma_frame_round_trip(message: Message, envelope: CanMessageData, other: Message)
    requires
        message.fills(envelope),
    ensures
        frame_refusal(envelope.wire()) is None,
        is_frame_of(message, envelope.wire()),
        is_frame_of(other, envelope.wire()) ==> other == message,
{
    lemma_refusal_of_envelope(envelope);
    lemma_frame_of_envelope(envelope, message);
    lemma_frame_of_envelope(envelope, other);
    lemma_message_round_trip(message, envelope, other);
}

} // verus!
