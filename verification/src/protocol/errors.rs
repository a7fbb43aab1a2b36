//! Why a frame or an identifier is turned down.

use vstd::prelude::*;

verus! {

/// A received frame that cannot be turned into a message. None of these
/// stops the node: the frame is dropped and the next one is read.
#[derive(Clone, Copy, Debug, PartialEq, Eq, Structural)]
pub enum DecodeError {
    /// The payload is not exactly one envelope long.
    WrongLength { len: usize },
    /// The frame is not a CAN-FD frame.
    NotFdFrame,
    /// The frame is not addressed with an 11-bit standard identifier.
    NotStandardId,
    /// No channel is known under this channel id.
    UnknownChannel { channel_id: u8 },
    /// The channel has no command with this tag.
    UnknownCommand { command_id: u8 },
    /// The bytes after the tag are fewer than the command's body needs.
    ShortPayload { needed: usize, len: usize },
}

/// An identifier that cannot be put on the bus.
#[derive(Clone, Copy, Debug, PartialEq, Eq, Structural)]
pub enum EncodeError {
    /// The value does not fit the bits that the field or the arbitration id
    /// has.
    OutOfRange { value: u16 },
    /// The wire format has no variant with this tag.
    UnknownVariant { tag: u8 },
    /// The fields are not those that the variant with this tag declares.
    FieldMismatch { tag: u8 },
}

/// A set of variants that is no wire format. This is found once, when the
/// format is made, for every variant and before any value is encoded.
#[derive(Clone, Copy, Debug, PartialEq, Eq, Structural)]
pub enum LayoutError {
    /// The variant at this place, with its tag byte, fields and padding, does
    /// not fill the slot exactly.
    SizeMismatch { variant: usize },
    /// Two variants have this tag.
    DuplicateTag { tag: u8 },
}

} // verus!
