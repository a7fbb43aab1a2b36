//! The message identifier carried in the arbitration field, and the fixed
//! 64-byte envelope carried as the frame's payload.

use crate::le_bytes::{copy_bytes_to_array, fit_to, zeros};
use crate::protocol::errors::{DecodeError, EncodeError};
use vstd::arithmetic::div_mod::{lemma_fundamental_div_mod, lemma_fundamental_div_mod_converse};
use vstd::prelude::*;

verus! {

/// Largest arbitration id of 11-bit standard addressing.
pub const MAX_STANDARD_ID: u16 = 0x7FF;

/// Largest node id and largest channel id: both are six bits wide.
pub const MAX_SIX_BIT: u8 = 63;

/// Bytes in one envelope.
pub const ENVELOPE_LEN: usize = 64;

/// Bytes of command payload in one envelope.
pub const ENVELOPE_PAYLOAD_LEN: usize = 62;

/// Who sends the message.
#[derive(Clone, Copy, Debug, PartialEq, Eq, Structural)]
pub enum CanMessageDirection {
    MasterToNode,
    NodeToMaster,
}

/// How urgent the message is; the lower number wins the bus.
#[derive(Clone, Copy, Debug, PartialEq, Eq, Structural)]
pub enum CanMessagePriority {
    UrgentPriority,
    HighPriority,
    StandardPriority,
    LowPriority,
}

/// How the receiver buffers the payload.
#[derive(Clone, Copy, Debug, PartialEq, Eq, Structural)]
pub enum CanMessageBufferType {
    DirectBuffer,
    AbsoluteBuffer,
    RelativeBuffer,
    ReservedBuffer,
}

/// The special command bits of an identifier.
#[derive(Clone, Copy, Debug, PartialEq, Eq, Structural)]
pub enum MessageSpecialCommand {
    AbortSpecialCmd,
    ClockSyncSpecialCmd,
    InfoSpecialCmd,
    StandardSpecialCmd,
}

impl CanMessageDirection {
    /// The number that stands for this direction on the wire.
    pub open spec fn bits(self) -> int {
        match self {
            CanMessageDirection::MasterToNode => 0,
            CanMessageDirection::NodeToMaster => 1,
        }
    }

    /// The direction that `bits` stands for; only the lowest bit counts.
    pub open spec fn of_bits(bits: int) -> CanMessageDirection {
        if bits % 2 == 0 {
            CanMessageDirection::MasterToNode
        } else {
            CanMessageDirection::NodeToMaster
        }
    }

    pub fn to_bits(self) -> (bits: u8)
        ensures
            bits == self.bits(),
    {
        match self {
            CanMessageDirection::MasterToNode => 0,
            CanMessageDirection::NodeToMaster => 1,
        }
    }

    pub fn from_bits(bits: u8) -> (direction: CanMessageDirection)
        ensures
            direction == Self::of_bits(bits as int),
    {
        if bits % 2 == 0 {
            CanMessageDirection::MasterToNode
        } else {
            CanMessageDirection::NodeToMaster
        }
    }
}

impl CanMessagePriority {
    /// The number that stands for this priority on the wire.
    pub open spec fn bits(self) -> int {
        match self {
            CanMessagePriority::UrgentPriority => 0,
            CanMessagePriority::HighPriority => 1,
            CanMessagePriority::StandardPriority => 2,
            CanMessagePriority::LowPriority => 3,
        }
    }

    /// The priority that `bits` stands for; only the two lowest bits count.
    pub open spec fn of_bits(bits: int) -> CanMessagePriority {
        if bits % 4 == 0 {
            CanMessagePriority::UrgentPriority
        } else if bits % 4 == 1 {
            CanMessagePriority::HighPriority
        } else if bits % 4 == 2 {
            CanMessagePriority::StandardPriority
        } else {
            CanMessagePriority::LowPriority
        }
    }

    pub fn to_bits(self) -> (bits: u8)
        ensures
            bits == self.bits(),
    {
        match self {
            CanMessagePriority::UrgentPriority => 0,
            CanMessagePriority::HighPriority => 1,
            CanMessagePriority::StandardPriority => 2,
            CanMessagePriority::LowPriority => 3,
        }
    }

    pub fn from_bits(bits: u8) -> (priority: CanMessagePriority)
        ensures
            priority == Self::of_bits(bits as int),
    {
        let low: u8 = bits % 4;
        if low == 0 {
            CanMessagePriority::UrgentPriority
        } else if low == 1 {
            CanMessagePriority::HighPriority
        } else if low == 2 {
            CanMessagePriority::StandardPriority
        } else {
            CanMessagePriority::LowPriority
        }
    }
}

impl CanMessageBufferType {
    /// The number that stands for this buffer type on the wire.
    pub open spec fn bits(self) -> int {
        match self {
            CanMessageBufferType::DirectBuffer => 0,
            CanMessageBufferType::AbsoluteBuffer => 1,
            CanMessageBufferType::RelativeBuffer => 2,
            CanMessageBufferType::ReservedBuffer => 3,
        }
    }

    /// The buffer type that `bits` stands for; only the two lowest bits count.
    pub open spec fn of_bits(bits: int) -> CanMessageBufferType {
        if bits % 4 == 0 {
            CanMessageBufferType::DirectBuffer
        } else if bits % 4 == 1 {
            CanMessageBufferType::AbsoluteBuffer
        } else if bits % 4 == 2 {
            CanMessageBufferType::RelativeBuffer
        } else {
            CanMessageBufferType::ReservedBuffer
        }
    }

    pub fn to_bits(self) -> (bits: u8)
        ensures
            bits == self.bits(),
    {
        match self {
            CanMessageBufferType::DirectBuffer => 0,
            CanMessageBufferType::AbsoluteBuffer => 1,
            CanMessageBufferType::RelativeBuffer => 2,
            CanMessageBufferType::ReservedBuffer => 3,
        }
    }

    pub fn from_bits(bits: u8) -> (buffer: CanMessageBufferType)
        ensures
            buffer == Self::of_bits(bits as int),
    {
        let low: u8 = bits % 4;
        if low == 0 {
            CanMessageBufferType::DirectBuffer
        } else if low == 1 {
            CanMessageBufferType::AbsoluteBuffer
        } else if low == 2 {
            CanMessageBufferType::RelativeBuffer
        } else {
            CanMessageBufferType::ReservedBuffer
        }
    }
}

impl MessageSpecialCommand {
    /// The number that stands for this special command on the wire.
    pub open spec fn bits(self) -> int {
        match self {
            MessageSpecialCommand::AbortSpecialCmd => 0,
            MessageSpecialCommand::ClockSyncSpecialCmd => 1,
            MessageSpecialCommand::InfoSpecialCmd => 2,
            MessageSpecialCommand::StandardSpecialCmd => 3,
        }
    }

    /// The special command that `bits` stands for; only the two lowest bits
    /// count.
    pub open spec fn of_bits(bits: int) -> MessageSpecialCommand {
        if bits % 4 == 0 {
            MessageSpecialCommand::AbortSpecialCmd
        } else if bits % 4 == 1 {
            MessageSpecialCommand::ClockSyncSpecialCmd
        } else if bits % 4 == 2 {
            MessageSpecialCommand::InfoSpecialCmd
        } else {
            MessageSpecialCommand::StandardSpecialCmd
        }
    }

    pub fn to_bits(self) -> (bits: u8)
        ensures
            bits == self.bits(),
    {
        match self {
            MessageSpecialCommand::AbortSpecialCmd => 0,
            MessageSpecialCommand::ClockSyncSpecialCmd => 1,
            MessageSpecialCommand::InfoSpecialCmd => 2,
            MessageSpecialCommand::StandardSpecialCmd => 3,
        }
    }

    pub fn from_bits(bits: u8) -> (special: MessageSpecialCommand)
        ensures
            special == Self::of_bits(bits as int),
    {
        let low: u8 = bits % 4;
        if low == 0 {
            MessageSpecialCommand::AbortSpecialCmd
        } else if low == 1 {
            MessageSpecialCommand::ClockSyncSpecialCmd
        } else if low == 2 {
            MessageSpecialCommand::InfoSpecialCmd
        } else {
            MessageSpecialCommand::StandardSpecialCmd
        }
    }
}

/// The five digits of a sum are found by division and remainder.
proof fn lemma_fields_of_sum(d: int, n: int, s: int, p: int, r: int)
    requires
        0 <= d < 2,
        0 <= n < 64,
        0 <= s < 4,
        0 <= p < 4,
        0 <= r,
    ensures
        ({
            let x: int = d + 2 * n + 128 * s + 512 * p + 2048 * r;
            &&& x % 2 == d
            &&& (x / 2) % 64 == n
            &&& (x / 128) % 4 == s
            &&& (x / 512) % 4 == p
            &&& x / 2048 == r
        }),
{
    let x: int = d + 2 * n + 128 * s + 512 * p + 2048 * r;
    let h1: int = n + 64 * s + 256 * p + 1024 * r;
    let h2: int = s + 4 * p + 16 * r;
    let h3: int = p + 4 * r;
    lemma_fundamental_div_mod_converse(x, 2, h1, d);
    lemma_fundamental_div_mod_converse(h1, 64, h2, n);
    lemma_fundamental_div_mod_converse(x, 128, h2, d + 2 * n);
    lemma_fundamental_div_mod_converse(h2, 4, h3, s);
    lemma_fundamental_div_mod_converse(x, 512, h3, d + 2 * n + 128 * s);
    lemma_fundamental_div_mod_converse(h3, 4, r, p);
    lemma_fundamental_div_mod_converse(x, 2048, r, d + 2 * n + 128 * s + 512 * p);
}

/// A number is the sum of its five digits.
proof fn lemma_sum_of_fields(x: int)
    requires
        0 <= x,
    ensures
        x == x % 2 + 2 * ((x / 2) % 64) + 128 * ((x / 128) % 4) + 512 * ((x / 512) % 4) + 2048 * (x
            / 2048),
{
    let h1: int = x / 2;
    let h2: int = h1 / 64;
    let h3: int = h2 / 4;
    let d: int = x % 2;
    let n: int = h1 % 64;
    let s: int = h2 % 4;
    let p: int = h3 % 4;
    let r: int = h3 / 4;
    lemma_fundamental_div_mod(x, 2);
    lemma_fundamental_div_mod(h1, 64);
    lemma_fundamental_div_mod(h2, 4);
    lemma_fundamental_div_mod(h3, 4);
    assert(x == d + 2 * n + 128 * s + 512 * p + 2048 * r);
    lemma_fields_of_sum(d, n, s, p, r);
}

/// The identifier that the four fields pack to: the direction in bit 0, the
/// node id in bits 1 to 6, the special command in bits 7 and 8, the priority
/// in bits 9 and 10.
pub open spec fn pack_id(
    direction: CanMessageDirection,
    node_id: int,
    special_cmd: MessageSpecialCommand,
    priority: CanMessagePriority,
) -> int {
    direction.bits() + 2 * node_id + 128 * special_cmd.bits() + 512 * priority.bits()
}

/// A message identifier, held as the 16-bit value it packs to. Bits 11 to 15
/// are reserved: an identifier made from fields has them clear, one taken
/// from the bus keeps what it was given, and `to_arbitration_id` refuses it
/// if any of them is set.
#[derive(Clone, Copy, Debug, PartialEq, Eq)]
pub struct CanMessageId {
    raw: u16,
}

impl CanMessageId {
    /// The packed value.
    pub closed spec fn raw(self) -> u16 {
        self.raw
    }

    pub open spec fn spec_direction(self) -> CanMessageDirection {
        CanMessageDirection::of_bits(self.raw() as int)
    }

    pub open spec fn spec_node_id(self) -> int {
        (self.raw() as int / 2) % 64
    }

    pub open spec fn spec_special_cmd(self) -> MessageSpecialCommand {
        MessageSpecialCommand::of_bits(self.raw() as int / 128)
    }

    pub open spec fn spec_priority(self) -> CanMessagePriority {
        CanMessagePriority::of_bits(self.raw() as int / 512)
    }

    /// The reserved bits, as a number from 0 to 31.
    pub open spec fn spec_reserved(self) -> int {
        self.raw() as int / 2048
    }

    /// Whether the identifier fits 11-bit standard addressing.
    pub open spec fn is_standard(self) -> bool {
        self.raw() <= MAX_STANDARD_ID
    }

    /// The identifier with every field zero.
    pub fn new() -> (id: Self)
        ensures
            id.raw() == 0,
    {
        CanMessageId { raw: 0 }
    }

    /// Takes the fields out of a packed value. Every value is accepted; the
    /// reserved bits are kept as they are.
    pub fn decode(raw: u16) -> (id: Self)
        ensures
            id.raw() == raw,
    {
        CanMessageId { raw }
    }

    /// The packed value, reserved bits included.
    pub fn to_raw(&self) -> (raw: u16)
        ensures
            raw == self.raw(),
    {
        self.raw
    }

    /// Packs four fields into an identifier.
    pub fn encode(
        direction: CanMessageDirection,
        node_id: u8,
        special_cmd: MessageSpecialCommand,
        priority: CanMessagePriority,
    ) -> (raw: u16)
        requires
            node_id <= MAX_SIX_BIT,
        ensures
            raw == pack_id(direction, node_id as int, special_cmd, priority),
            raw <= MAX_STANDARD_ID,
    {
        let d: u16 = direction.to_bits() as u16;
        let n: u16 = node_id as u16;
        let s: u16 = special_cmd.to_bits() as u16;
        let p: u16 = priority.to_bits() as u16;
        assert(d | (n << 1) | (s << 7) | (p << 9) == d + 2 * n + 128 * s + 512 * p) by (bit_vector)
            requires
                d <= 1,
                n <= 63,
                s <= 3,
                p <= 3,
        ;
        d | (n << 1) | (s << 7) | (p << 9)
    }

    /// Reads an identifier from its two bytes, least significant first.
    pub fn from_bytes(bytes: [u8; 2]) -> (id: Self)
        ensures
            id.raw() == bytes@[0] as int + 256 * (bytes@[1] as int),
    {
        let low: u16 = bytes[0] as u16;
        let high: u16 = bytes[1] as u16;
        CanMessageId { raw: low + 256 * high }
    }

    /// The two bytes of the packed value, least significant first.
    pub fn into_bytes(self) -> (bytes: [u8; 2])
        ensures
            bytes@[0] == self.raw() % 256,
            bytes@[1] == self.raw() / 256,
    {
        [(self.raw % 256) as u8, (self.raw / 256) as u8]
    }

    pub fn direction(&self) -> (direction: CanMessageDirection)
        ensures
            direction == self.spec_direction(),
    {
        let raw: u16 = self.raw;
        assert(raw & 1 == raw % 2) by (bit_vector);
        CanMessageDirection::from_bits((raw & 1) as u8)
    }

    pub fn node_id(&self) -> (node_id: u8)
        ensures
            node_id == self.spec_node_id(),
            node_id <= MAX_SIX_BIT,
    {
        let raw: u16 = self.raw;
        assert((raw >> 1) & 0x3f == (raw / 2) % 64) by (bit_vector);
        ((raw >> 1) & 0x3f) as u8
    }

    pub fn special_cmd(&self) -> (special_cmd: MessageSpecialCommand)
        ensures
            special_cmd == self.spec_special_cmd(),
    {
        let raw: u16 = self.raw;
        assert((raw >> 7) & 3 == (raw / 128) % 4) by (bit_vector);
        MessageSpecialCommand::from_bits(((raw >> 7) & 3) as u8)
    }

    pub fn priority(&self) -> (priority: CanMessagePriority)
        ensures
            priority == self.spec_priority(),
    {
        let raw: u16 = self.raw;
        assert((raw >> 9) & 3 == (raw / 512) % 4) by (bit_vector);
        CanMessagePriority::from_bits(((raw >> 9) & 3) as u8)
    }

    /// Whether `other` agrees with `self` in every field but those named
    /// `false` here.
    pub open spec fn same_but(
        self,
        other: Self,
        direction: bool,
        node_id: bool,
        special_cmd: bool,
        priority: bool,
    ) -> bool {
        &&& direction ==> other.spec_direction() == self.spec_direction()
        &&& node_id ==> other.spec_node_id() == self.spec_node_id()
        &&& special_cmd ==> other.spec_special_cmd() == self.spec_special_cmd()
        &&& priority ==> other.spec_priority() == self.spec_priority()
        &&& other.spec_reserved() == self.spec_reserved()
    }

    /// The same identifier with another direction.
    pub fn with_direction(self, direction: CanMessageDirection) -> (id: Self)
        ensures
            id.raw() == self.raw() - self.spec_direction().bits() + direction.bits(),
            id.spec_direction() == direction,
            self.same_but(id, false, true, true, true),
    {
        let raw: u16 = self.raw;
        let bits: u16 = direction.to_bits() as u16;
        assert(((raw & !1u16) | bits) == raw - raw % 2 + bits) by (bit_vector)
            requires
                bits <= 1,
        ;
        let id = CanMessageId { raw: (raw & !1u16) | bits };
        proof {
            lemma_sum_of_fields(raw as int);
            lemma_fields_of_sum(
                bits as int,
                (raw as int / 2) % 64,
                (raw as int / 128) % 4,
                (raw as int / 512) % 4,
                raw as int / 2048,
            );
        }
        id
    }

    /// The same identifier with another node id.
    pub fn with_node_id(self, node_id: u8) -> (id: Self)
        requires
            node_id <= MAX_SIX_BIT,
        ensures
            id.raw() == self.raw() - 2 * self.spec_node_id() + 2 * node_id,
            id.spec_node_id() == node_id,
            self.same_but(id, true, false, true, true),
    {
        let raw: u16 = self.raw;
        let bits: u16 = node_id as u16;
        assert(((raw & !0x7eu16) | (bits << 1)) == raw - 2 * ((raw / 2) % 64) + 2 * bits)
            by (bit_vector)
            requires
                bits <= 63,
        ;
        let id = CanMessageId { raw: (raw & !0x7eu16) | (bits << 1) };
        proof {
            lemma_sum_of_fields(raw as int);
            lemma_fields_of_sum(
                raw as int % 2,
                bits as int,
                (raw as int / 128) % 4,
                (raw as int / 512) % 4,
                raw as int / 2048,
            );
        }
        id
    }

    /// The same identifier with another node id, or `OutOfRange` if the node
    /// id needs more than six bits.
    pub fn with_node_id_checked(self, node_id: u8) -> (result: Result<Self, EncodeError>)
        ensures
            node_id <= MAX_SIX_BIT ==> result is Ok && result->Ok_0.spec_node_id() == node_id
                && self.same_but(result->Ok_0, true, false, true, true),
            node_id > MAX_SIX_BIT ==> result == Err::<Self, EncodeError>(
                EncodeError::OutOfRange { value: node_id as u16 },
            ),
    {
        if node_id <= MAX_SIX_BIT {
            Ok(self.with_node_id(node_id))
        } else {
            Err(EncodeError::OutOfRange { value: node_id as u16 })
        }
    }

    /// The same identifier with another special command.
    pub fn with_special_cmd(self, special_cmd: MessageSpecialCommand) -> (id: Self)
        ensures
            id.raw() == self.raw() - 128 * self.spec_special_cmd().bits() + 128
                * special_cmd.bits(),
            id.spec_special_cmd() == special_cmd,
            self.same_but(id, true, true, false, true),
    {
        let raw: u16 = self.raw;
        let bits: u16 = special_cmd.to_bits() as u16;
        assert(((raw & !0x180u16) | (bits << 7)) == raw - 128 * ((raw / 128) % 4) + 128 * bits)
            by (bit_vector)
            requires
                bits <= 3,
        ;
        let id = CanMessageId { raw: (raw & !0x180u16) | (bits << 7) };
        proof {
            lemma_sum_of_fields(raw as int);
            lemma_fields_of_sum(
                raw as int % 2,
                (raw as int / 2) % 64,
                bits as int,
                (raw as int / 512) % 4,
                raw as int / 2048,
            );
        }
        id
    }

    /// The same identifier with another priority.
    pub fn with_priority(self, priority: CanMessagePriority) -> (id: Self)
        ensures
            id.raw() == self.raw() - 512 * self.spec_priority().bits() + 512 * priority.bits(),
            id.spec_priority() == priority,
            self.same_but(id, true, true, true, false),
    {
        let raw: u16 = self.raw;
        let bits: u16 = priority.to_bits() as u16;
        assert(((raw & !0x600u16) | (bits << 9)) == raw - 512 * ((raw / 512) % 4) + 512 * bits)
            by (bit_vector)
            requires
                bits <= 3,
        ;
        let id = CanMessageId { raw: (raw & !0x600u16) | (bits << 9) };
        proof {
            lemma_sum_of_fields(raw as int);
            lemma_fields_of_sum(
                raw as int % 2,
                (raw as int / 2) % 64,
                (raw as int / 128) % 4,
                bits as int,
                raw as int / 2048,
            );
        }
        id
    }

    pub fn set_direction(&mut self, direction: CanMessageDirection)
        ensures
            final(self).spec_direction() == direction,
            old(self).same_but(*final(self), false, true, true, true),
    {
        *self = self.with_direction(direction);
    }

    pub fn set_node_id(&mut self, node_id: u8)
        requires
            node_id <= MAX_SIX_BIT,
        ensures
            final(self).spec_node_id() == node_id,
            old(self).same_but(*final(self), true, false, true, true),
    {
        *self = self.with_node_id(node_id);
    }

    pub fn set_special_cmd(&mut self, special_cmd: MessageSpecialCommand)
        ensures
            final(self).spec_special_cmd() == special_cmd,
            old(self).same_but(*final(self), true, true, false, true),
    {
        *self = self.with_special_cmd(special_cmd);
    }

    pub fn set_priority(&mut self, priority: CanMessagePriority)
        ensures
            final(self).spec_priority() == priority,
            old(self).same_but(*final(self), true, true, true, false),
    {
        *self = self.with_priority(priority);
    }

    /// The identifier as an 11-bit arbitration id, or `OutOfRange` if a
    /// reserved bit is set. Nothing is cut off.
    pub fn to_arbitration_id(&self) -> (result: Result<u16, EncodeError>)
        ensures
            self.is_standard() ==> result == Ok::<u16, EncodeError>(self.raw()),
            !self.is_standard() ==> result == Err::<u16, EncodeError>(
                EncodeError::OutOfRange { value: self.raw() },
            ),
    {
        if self.raw <= MAX_STANDARD_ID {
            Ok(self.raw)
        } else {
            Err(EncodeError::OutOfRange { value: self.raw })
        }
    }
}

/// Two identifiers with the same packed value are the same identifier.
pub proof fn lemma_same_raw_same_id(a: CanMessageId, b: CanMessageId)
    requires
        a.raw() == b.raw(),
    ensures
        a == b,
{
}

/// A packed value is its four fields and its reserved bits, and nothing
/// else.
pub proof fn lemma_raw_is_fields(id: CanMessageId)
    ensures
        id.raw() == pack_id(
            id.spec_direction(),
            id.spec_node_id(),
            id.spec_special_cmd(),
            id.spec_priority(),
        ) + 2048 * id.spec_reserved(),
        0 <= id.spec_node_id() <= MAX_SIX_BIT,
        0 <= id.spec_reserved() <= 31,
{
    lemma_sum_of_fields(id.raw() as int);
}

/// Packing loses nothing: the fields read from a packed identifier are the
/// fields that were packed, the reserved bits are clear, and the value fits
/// 11 bits.
pub proof fn lemma_decode_encode(
    direction: CanMessageDirection,
    node_id: u8,
    special_cmd: MessageSpecialCommand,
    priority: CanMessagePriority,
    id: CanMessageId,
)
    requires
        node_id <= MAX_SIX_BIT,
        id.raw() == pack_id(direction, node_id as int, special_cmd, priority),
    ensures
        id.spec_direction() == direction,
        id.spec_node_id() == node_id,
        id.spec_special_cmd() == special_cmd,
        id.spec_priority() == priority,
        id.spec_reserved() == 0,
        id.is_standard(),
{
    lemma_fields_of_sum(direction.bits(), node_id as int, special_cmd.bits(), priority.bits(), 0);
}

/// Every 11-bit value is the packing of the fields read from it.
pub proof fn lemma_encode_decode(id: CanMessageId)
    requires
        id.is_standard(),
    ensures
        id.raw() == pack_id(
            id.spec_direction(),
            id.spec_node_id(),
            id.spec_special_cmd(),
            id.spec_priority(),
        ),
{
    lemma_sum_of_fields(id.raw() as int);
}

/// Two packings are equal only if the fields are.
pub proof fn lemma_pack_injective(
    direction: CanMessageDirection,
    node_id: u8,
    special_cmd: MessageSpecialCommand,
    priority: CanMessagePriority,
    other_direction: CanMessageDirection,
    other_node_id: u8,
    other_special_cmd: MessageSpecialCommand,
    other_priority: CanMessagePriority,
)
    requires
        node_id <= MAX_SIX_BIT,
        other_node_id <= MAX_SIX_BIT,
        pack_id(direction, node_id as int, special_cmd, priority) == pack_id(
            other_direction,
            other_node_id as int,
            other_special_cmd,
            other_priority,
        ),
    ensures
        direction == other_direction,
        node_id == other_node_id,
        special_cmd == other_special_cmd,
        priority == other_priority,
{
    lemma_fields_of_sum(direction.bits(), node_id as int, special_cmd.bits(), priority.bits(), 0);
    lemma_fields_of_sum(
        other_direction.bits(),
        other_node_id as int,
        other_special_cmd.bits(),
        other_priority.bits(),
        0,
    );
}

/// The first byte of an envelope: the channel id in bits 0 to 5, the buffer
/// type in bits 6 and 7.
#[derive(Clone, Copy, Debug, PartialEq, Eq)]
pub struct CanMessageDataInfo {
    raw: u8,
}

/// The byte that a channel id and a buffer type pack to.
pub open spec fn pack_info(channel_id: int, buffer: CanMessageBufferType) -> int {
    channel_id + 64 * buffer.bits()
}

impl CanMessageDataInfo {
    /// The packed byte.
    pub closed spec fn raw(self) -> u8 {
        self.raw
    }

    pub open spec fn spec_channel_id(self) -> int {
        self.raw() as int % 64
    }

    pub open spec fn spec_can_message_buffer(self) -> CanMessageBufferType {
        CanMessageBufferType::of_bits(self.raw() as int / 64)
    }

    /// Channel 0 with a direct buffer.
    pub fn new() -> (info: Self)
        ensures
            info.raw() == 0,
    {
        CanMessageDataInfo { raw: 0 }
    }

    /// Takes the two fields out of a byte. Every byte is accepted.
    pub fn from_bytes(bytes: [u8; 1]) -> (info: Self)
        ensures
            info.raw() == bytes@[0],
    {
        CanMessageDataInfo { raw: bytes[0] }
    }

    pub fn into_bytes(self) -> (bytes: [u8; 1])
        ensures
            bytes@[0] == self.raw(),
    {
        [self.raw]
    }

    pub fn channel_id(&self) -> (channel_id: u8)
        ensures
            channel_id == self.spec_channel_id(),
            channel_id <= MAX_SIX_BIT,
    {
        let raw: u8 = self.raw;
        assert(raw & 0x3f == raw % 64) by (bit_vector);
        raw & 0x3f
    }

    pub fn can_message_buffer(&self) -> (buffer: CanMessageBufferType)
        ensures
            buffer == self.spec_can_message_buffer(),
    {
        let raw: u8 = self.raw;
        assert(raw >> 6 == raw / 64) by (bit_vector);
        CanMessageBufferType::from_bits(raw >> 6)
    }

    /// The same byte with another channel id.
    pub fn with_channel_id(self, channel_id: u8) -> (info: Self)
        requires
            channel_id <= MAX_SIX_BIT,
        ensures
            info.raw() == pack_info(channel_id as int, self.spec_can_message_buffer()),
            info.spec_channel_id() == channel_id,
            info.spec_can_message_buffer() == self.spec_can_message_buffer(),
    {
        let raw: u8 = self.raw;
        assert(((raw & 0xc0u8) | channel_id) == 64 * (raw / 64) + channel_id) by (bit_vector)
            requires
                channel_id <= 63,
        ;
        proof {
            lemma_fundamental_div_mod_converse(
                64 * (raw as int / 64) + channel_id,
                64,
                raw as int / 64,
                channel_id as int,
            );
        }
        CanMessageDataInfo { raw: (raw & 0xc0u8) | channel_id }
    }

    /// The same byte with another buffer type.
    pub fn with_can_message_buffer(self, buffer: CanMessageBufferType) -> (info: Self)
        ensures
            info.raw() == pack_info(self.spec_channel_id(), buffer),
            info.spec_channel_id() == self.spec_channel_id(),
            info.spec_can_message_buffer() == buffer,
    {
        let raw: u8 = self.raw;
        let bits: u8 = buffer.to_bits();
        assert(((raw & 0x3fu8) | (bits << 6)) == raw % 64 + 64 * bits) by (bit_vector)
            requires
                bits <= 3,
        ;
        proof {
            lemma_fundamental_div_mod_converse(
                raw as int % 64 + 64 * bits,
                64,
                bits as int,
                raw as int % 64,
            );
        }
        CanMessageDataInfo { raw: (raw & 0x3fu8) | (bits << 6) }
    }

    pub fn set_channel_id(&mut self, channel_id: u8)
        requires
            channel_id <= MAX_SIX_BIT,
        ensures
            final(self).raw() == pack_info(channel_id as int, old(self).spec_can_message_buffer()),
            final(self).spec_channel_id() == channel_id,
            final(self).spec_can_message_buffer() == old(self).spec_can_message_buffer(),
    {
        *self = self.with_channel_id(channel_id);
    }

    pub fn set_can_message_buffer(&mut self, buffer: CanMessageBufferType)
        ensures
            final(self).raw() == pack_info(old(self).spec_channel_id(), buffer),
            final(self).spec_channel_id() == old(self).spec_channel_id(),
            final(self).spec_can_message_buffer() == buffer,
    {
        *self = self.with_can_message_buffer(buffer);
    }
}

/// Two info bytes with the same packed value are the same info byte.
pub proof fn lemma_same_raw_same_info(a: CanMessageDataInfo, b: CanMessageDataInfo)
    requires
        a.raw() == b.raw(),
    ensures
        a == b,
{
}

/// The envelope: the fixed 64-byte payload of one CAN-FD frame.
#[derive(Clone, Copy, Debug, PartialEq, Eq)]
pub struct CanMessageData {
    pub data_info: CanMessageDataInfo,
    pub command_id: u8,
    pub data: [u8; 62],
}

/// The 64 bytes of an envelope: the info byte, the command id, the payload.
pub open spec fn envelope_bytes(info: int, command_id: u8, data: Seq<u8>) -> Seq<u8> {
    seq![info as u8, command_id] + data
}

impl CanMessageData {
    /// The bytes that this envelope is on the wire.
    pub open spec fn wire(self) -> Seq<u8> {
        envelope_bytes(self.data_info.raw() as int, self.command_id, self.data@)
    }

    /// The envelope of 64 zero bytes.
    pub fn new_zeroed() -> (envelope: Self)
        ensures
            envelope.data_info.raw() == 0,
            envelope.command_id == 0,
            envelope.data@ == zeros(62),
    {
        let envelope = CanMessageData {
            data_info: CanMessageDataInfo::new(),
            command_id: 0,
            data: [0u8; 62],
        };
        assert(envelope.data@ =~= zeros(62));
        envelope
    }

    /// Builds an envelope from its parts. The payload is left-aligned and
    /// the rest of the 62 bytes is zero.
    pub fn encode(
        channel_id: u8,
        buffer_type: CanMessageBufferType,
        command_id: u8,
        payload: &[u8],
    ) -> (bytes: [u8; 64])
        requires
            channel_id <= MAX_SIX_BIT,
            payload@.len() <= ENVELOPE_PAYLOAD_LEN,
        ensures
            bytes@ == envelope_bytes(
                pack_info(channel_id as int, buffer_type),
                command_id,
                fit_to(payload@, 62),
            ),
    {
        let info = CanMessageDataInfo::new().with_channel_id(channel_id).with_can_message_buffer(
            buffer_type,
        );
        let envelope = CanMessageData {
            data_info: info,
            command_id,
            data: copy_bytes_to_array::<62>(payload),
        };
        envelope.as_bytes()
    }

    /// The 64 bytes of the envelope.
    pub fn as_bytes(&self) -> (bytes: [u8; 64])
        ensures
            bytes@ == self.wire(),
    {
        let mut bytes: [u8; 64] = [0u8; 64];
        bytes[0] = self.data_info.into_bytes()[0];
        bytes[1] = self.command_id;
        let mut i: usize = 0;
        while i < 62
            invariant
                i <= 62,
                bytes@.len() == 64,
                bytes@[0] == self.data_info.raw(),
                bytes@[1] == self.command_id,
                forall|j: int| 0 <= j < i ==> bytes@[j + 2] == self.data@[j],
            decreases 62 - i,
        {
            bytes[i + 2] = self.data[i];
            i += 1;
        }
        assert(bytes@ =~= self.wire());
        bytes
    }

    /// Reads an envelope. Any 64 bytes are one; anything else is no
    /// envelope.
    pub fn read_from_bytes(bytes: &[u8]) -> (result: Result<Self, DecodeError>)
        ensures
            bytes@.len() == ENVELOPE_LEN ==> result is Ok && result->Ok_0.wire() == bytes@,
            bytes@.len() != ENVELOPE_LEN ==> result == Err::<Self, DecodeError>(
                DecodeError::WrongLength { len: bytes@.len() as usize },
            ),
    {
        if bytes.len() != ENVELOPE_LEN {
            return Err(DecodeError::WrongLength { len: bytes.len() });
        }
        let mut data: [u8; 62] = [0u8; 62];
        let mut i: usize = 0;
        while i < 62
            invariant
                i <= 62,
                bytes@.len() == 64,
                data@.len() == 62,
                forall|j: int| 0 <= j < i ==> data@[j] == bytes@[j + 2],
            decreases 62 - i,
        {
            data[i] = bytes[i + 2];
            i += 1;
        }
        let envelope = CanMessageData {
            data_info: CanMessageDataInfo::from_bytes([bytes[0]]),
            command_id: bytes[1],
            data,
        };
        assert(envelope.wire() =~= bytes@);
        Ok(envelope)
    }
}

/// An envelope is exactly 64 bytes, and two envelopes with the same bytes
/// are the same envelope.
pub proof fn lemma_envelope_wire(a: CanMessageData, b: CanMessageData)
    ensures
        a.wire().len() == ENVELOPE_LEN,
        a.wire() == b.wire() ==> a == b,
{
    if a.wire() == b.wire() {
        assert(a.wire()[0] == b.wire()[0]);
        assert(a.wire()[1] == b.wire()[1]);
        assert forall|j: int| 0 <= j < 62 implies a.data@[j] == b.data@[j] by {
            assert(a.wire()[j + 2] == b.wire()[j + 2]);
        }
        assert(a.data =~= b.data);
        lemma_same_raw_same_info(a.data_info, b.data_info);
    }
}

} // verus!
