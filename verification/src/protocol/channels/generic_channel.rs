//! The generic channel: its commands, their tags and their wire format.
//!
//! A command on the wire is 63 bytes: the tag, the payload, and zeros. In
//! an envelope the tag is the command id and the other 62 bytes are the
//! payload region, so the envelope holds the tag once.

use crate::le_bytes::copy_bytes_to_array;
use crate::protocol::commands::{
    GetMsgPayload, SetMsgPayload, COMMON_TOTAL_CMDS, REQ_GET_VARIABLE, REQ_RESET_SETTINGS,
    REQ_SET_VARIABLE, REQ_STATUS, RES_GET_VARIABLE, RES_RESET_SETTINGS, RES_SET_VARIABLE,
    RES_STATUS,
};
use crate::protocol::errors::DecodeError;
use crate::protocol::padded_enum::{
    accepts, body_width, field_models, fields_fit, from_wire_spec, has_tag, layout_ok,
    lemma_body_width_push, lemma_fit_at, lemma_round_trip, lemma_wire_size, tags_distinct, to_wire_spec,
    variant_fills, variant_models, variant_of, FieldKind, FieldModel, FieldValue, PaddedEnum,
    PaddedValue, ValueModel, VariantLayout, VariantModel,
};
use crate::protocol::raw_can_message::{CanMessageData, CanMessageDataInfo};
use vstd::prelude::*;

verus! {

/// Bytes of one generic command on the wire, tag included.
pub const GENERIC_COMMAND_SIZE: usize = 63;

/// Number of tags that the generic channel uses: 0 up to this, exclusive.
pub const GENERIC_TAG_COUNT: u8 = 21;

/// What a node says of itself.
#[derive(Clone, Copy, Debug, PartialEq, Eq)]
pub struct NodeInfoMsg {
    pub firmware_version: u32,
    pub channel_mask: u32,
    pub channel_type: [u8; 32],
}

/// The data of the channels that the mask names.
#[derive(Clone, Copy, Debug, PartialEq, Eq)]
pub struct HeartBeatDataMsg {
    pub channel_mask: u32,
    pub data: [u8; 56],
}

/// How far the clearing of the flash has come.
#[derive(Clone, Copy, Debug, PartialEq, Eq, Structural)]
pub enum FlashStatus {
    /// Clearing has started.
    Initiated,
    /// Clearing has finished.
    Completed,
    /// The flash is full.
    Full,
}

impl NodeInfoMsg {
    /// The kinds of the fields, in wire order.
    pub open spec fn kinds() -> Seq<FieldKind> {
        seq![FieldKind::U32, FieldKind::U32, FieldKind::Bytes(32)]
    }

    /// The fields, in wire order.
    pub open spec fn fields(self) -> Seq<FieldModel> {
        seq![
            FieldModel::U32(self.firmware_version),
            FieldModel::U32(self.channel_mask),
            FieldModel::Bytes(self.channel_type@),
        ]
    }
}

impl HeartBeatDataMsg {
    /// The kinds of the fields, in wire order.
    pub open spec fn kinds() -> Seq<FieldKind> {
        seq![FieldKind::U32, FieldKind::Bytes(56)]
    }

    /// The fields, in wire order.
    pub open spec fn fields(self) -> Seq<FieldModel> {
        seq![FieldModel::U32(self.channel_mask), FieldModel::Bytes(self.data@)]
    }
}

/// The tags of the generic channel's commands. The first eight are the tags
/// of the common commands; the channel's own follow.
#[derive(Clone, Copy, Debug, PartialEq, Eq, Structural)]
pub enum GenericCommandDiscriminant {
    GenericReqResetAllSettings,
    GenericResResetAllSettings,
    GenericReqStatus,
    GenericResStatus,
    GenericReqSetVariable,
    GenericResSetVariable,
    GenericReqGetVariable,
    GenericResGetVariable,
    GenericReqSyncClock,
    GenericResSyncClock,
    GenericReqData,
    GenericResData,
    GenericReqNodeInfo,
    GenericResNodeInfo,
    GenericReqNodeStatus,
    GenericResNodeStatus,
    GenericReqSpeaker,
    GenericReqThreshold,
    GenericReqFlashClear,
    GenericResFlashStatus,
    GenericTotalCmds,
}

impl GenericCommandDiscriminant {
    /// The tag byte.
    pub open spec fn spec_discriminant(self) -> u8 {
        match self {
            GenericCommandDiscriminant::GenericReqResetAllSettings => REQ_RESET_SETTINGS,
            GenericCommandDiscriminant::GenericResResetAllSettings => RES_RESET_SETTINGS,
            GenericCommandDiscriminant::GenericReqStatus => REQ_STATUS,
            GenericCommandDiscriminant::GenericResStatus => RES_STATUS,
            GenericCommandDiscriminant::GenericReqSetVariable => REQ_SET_VARIABLE,
            GenericCommandDiscriminant::GenericResSetVariable => RES_SET_VARIABLE,
            GenericCommandDiscriminant::GenericReqGetVariable => REQ_GET_VARIABLE,
            GenericCommandDiscriminant::GenericResGetVariable => RES_GET_VARIABLE,
            GenericCommandDiscriminant::GenericReqSyncClock => COMMON_TOTAL_CMDS,
            GenericCommandDiscriminant::GenericResSyncClock => 9,
            GenericCommandDiscriminant::GenericReqData => 10,
            GenericCommandDiscriminant::GenericResData => 11,
            GenericCommandDiscriminant::GenericReqNodeInfo => 12,
            GenericCommandDiscriminant::GenericResNodeInfo => 13,
            GenericCommandDiscriminant::GenericReqNodeStatus => 14,
            GenericCommandDiscriminant::GenericResNodeStatus => 15,
            GenericCommandDiscriminant::GenericReqSpeaker => 16,
            GenericCommandDiscriminant::GenericReqThreshold => 17,
            GenericCommandDiscriminant::GenericReqFlashClear => 18,
            GenericCommandDiscriminant::GenericResFlashStatus => 19,
            GenericCommandDiscriminant::GenericTotalCmds => 20,
        }
    }

    /// The tag byte.
    pub fn discriminant(&self) -> (tag: u8)
        ensures
            tag == self.spec_discriminant(),
            tag < GENERIC_TAG_COUNT,
    {
        match self {
            GenericCommandDiscriminant::GenericReqResetAllSettings => REQ_RESET_SETTINGS,
            GenericCommandDiscriminant::GenericResResetAllSettings => RES_RESET_SETTINGS,
            GenericCommandDiscriminant::GenericReqStatus => REQ_STATUS,
            GenericCommandDiscriminant::GenericResStatus => RES_STATUS,
            GenericCommandDiscriminant::GenericReqSetVariable => REQ_SET_VARIABLE,
            GenericCommandDiscriminant::GenericResSetVariable => RES_SET_VARIABLE,
            GenericCommandDiscriminant::GenericReqGetVariable => REQ_GET_VARIABLE,
            GenericCommandDiscriminant::GenericResGetVariable => RES_GET_VARIABLE,
            GenericCommandDiscriminant::GenericReqSyncClock => COMMON_TOTAL_CMDS,
            GenericCommandDiscriminant::GenericResSyncClock => 9,
            GenericCommandDiscriminant::GenericReqData => 10,
            GenericCommandDiscriminant::GenericResData => 11,
            GenericCommandDiscriminant::GenericReqNodeInfo => 12,
            GenericCommandDiscriminant::GenericResNodeInfo => 13,
            GenericCommandDiscriminant::GenericReqNodeStatus => 14,
            GenericCommandDiscriminant::GenericResNodeStatus => 15,
            GenericCommandDiscriminant::GenericReqSpeaker => 16,
            GenericCommandDiscriminant::GenericReqThreshold => 17,
            GenericCommandDiscriminant::GenericReqFlashClear => 18,
            GenericCommandDiscriminant::GenericResFlashStatus => 19,
            GenericCommandDiscriminant::GenericTotalCmds => 20,
        }
    }
}

/// A command of the generic channel.
#[derive(Clone, Copy, Debug, PartialEq, Eq)]
pub enum GenericCommand {
    GenericReqResetAllSettings,
    GenericResResetAllSettings,
    GenericReqStatus,
    GenericResStatus,
    GenericReqSetVariable { payload: SetMsgPayload },
    GenericResSetVariable { payload: SetMsgPayload },
    GenericReqGetVariable { payload: GetMsgPayload },
    GenericResGetVariable { payload: SetMsgPayload },
    GenericReqSyncClock,
    GenericResSyncClock,
    GenericReqData,
    GenericResData { payload: HeartBeatDataMsg },
    GenericReqNodeInfo,
    GenericResNodeInfo { payload: NodeInfoMsg },
    GenericReqNodeStatus,
    GenericResNodeStatus,
    GenericReqSpeaker,
    GenericReqThreshold,
    GenericReqFlashClear,
    GenericResFlashStatus { status: u8 },
    GenericTotalCmds,
}

/// The kinds of the payload fields of the command with this tag.
pub open spec fn generic_fields(tag: int) -> Seq<FieldKind> {
    if tag == 4 || tag == 5 || tag == 7 {
        SetMsgPayload::kinds()
    } else if tag == 6 {
        GetMsgPayload::kinds()
    } else if tag == 11 {
        HeartBeatDataMsg::kinds()
    } else if tag == 13 {
        NodeInfoMsg::kinds()
    } else if tag == 19 {
        seq![FieldKind::U8]
    } else {
        Seq::empty()
    }
}

/// The padding declared for the command with this tag.
pub open spec fn generic_pad(tag: int) -> nat {
    if tag == 4 || tag == 5 || tag == 7 {
        57
    } else if tag == 6 {
        61
    } else if tag == 11 {
        2
    } else if tag == 13 {
        22
    } else if tag == 19 {
        61
    } else {
        62
    }
}

/// The variant with this tag, as the generic channel declares it.
pub open spec fn generic_variant(tag: int) -> VariantModel {
    VariantModel { tag: tag as u8, fields: generic_fields(tag), pad: generic_pad(tag) }
}

/// The variants of the generic channel, in the order of their tags.
pub open spec fn generic_variants() -> Seq<VariantModel> {
    Seq::new(GENERIC_TAG_COUNT as nat, |tag: int| generic_variant(tag))
}

impl GenericCommand {
    /// The tag of the command.
    pub open spec fn spec_discriminant(self) -> u8 {
        match self {
            GenericCommand::GenericReqResetAllSettings => 0,
            GenericCommand::GenericResResetAllSettings => 1,
            GenericCommand::GenericReqStatus => 2,
            GenericCommand::GenericResStatus => 3,
            GenericCommand::GenericReqSetVariable { .. } => 4,
            GenericCommand::GenericResSetVariable { .. } => 5,
            GenericCommand::GenericReqGetVariable { .. } => 6,
            GenericCommand::GenericResGetVariable { .. } => 7,
            GenericCommand::GenericReqSyncClock => 8,
            GenericCommand::GenericResSyncClock => 9,
            GenericCommand::GenericReqData => 10,
            GenericCommand::GenericResData { .. } => 11,
            GenericCommand::GenericReqNodeInfo => 12,
            GenericCommand::GenericResNodeInfo { .. } => 13,
            GenericCommand::GenericReqNodeStatus => 14,
            GenericCommand::GenericResNodeStatus => 15,
            GenericCommand::GenericReqSpeaker => 16,
            GenericCommand::GenericReqThreshold => 17,
            GenericCommand::GenericReqFlashClear => 18,
            GenericCommand::GenericResFlashStatus { .. } => 19,
            GenericCommand::GenericTotalCmds => 20,
        }
    }

    /// The payload fields of the command, in wire order.
    pub open spec fn spec_fields(self) -> Seq<FieldModel> {
        match self {
            GenericCommand::GenericReqSetVariable { payload } => payload.fields(),
            GenericCommand::GenericResSetVariable { payload } => payload.fields(),
            GenericCommand::GenericReqGetVariable { payload } => payload.fields(),
            GenericCommand::GenericResGetVariable { payload } => payload.fields(),
            GenericCommand::GenericResData { payload } => payload.fields(),
            GenericCommand::GenericResNodeInfo { payload } => payload.fields(),
            GenericCommand::GenericResFlashStatus { status } => seq![FieldModel::U8(status)],
            _ => Seq::empty(),
        }
    }

    /// The command as a value of the tagged wire format.
    pub open spec fn padded_model(self) -> ValueModel {
        ValueModel { tag: self.spec_discriminant(), fields: self.spec_fields() }
    }

    /// The 63 bytes of the command on the wire.
    pub open spec fn wire(self) -> Seq<u8> {
        to_wire_spec(generic_variants(), self.padded_model())
    }

    /// Whether `bytes` decode to this command.
    pub open spec fn is_decoded_from(self, bytes: Seq<u8>) -> bool {
        from_wire_spec(generic_variants(), bytes) == Ok::<ValueModel, DecodeError>(
            self.padded_model(),
        )
    }

    /// The tag of the command, kept as an ordinary number.
    pub fn discriminant(&self) -> (tag: u8)
        ensures
            tag == self.spec_discriminant(),
            tag < GENERIC_TAG_COUNT,
    {
        match self {
            GenericCommand::GenericReqResetAllSettings => 0,
            GenericCommand::GenericResResetAllSettings => 1,
            GenericCommand::GenericReqStatus => 2,
            GenericCommand::GenericResStatus => 3,
            GenericCommand::GenericReqSetVariable { .. } => 4,
            GenericCommand::GenericResSetVariable { .. } => 5,
            GenericCommand::GenericReqGetVariable { .. } => 6,
            GenericCommand::GenericResGetVariable { .. } => 7,
            GenericCommand::GenericReqSyncClock => 8,
            GenericCommand::GenericResSyncClock => 9,
            GenericCommand::GenericReqData => 10,
            GenericCommand::GenericResData { .. } => 11,
            GenericCommand::GenericReqNodeInfo => 12,
            GenericCommand::GenericResNodeInfo { .. } => 13,
            GenericCommand::GenericReqNodeStatus => 14,
            GenericCommand::GenericResNodeStatus => 15,
            GenericCommand::GenericReqSpeaker => 16,
            GenericCommand::GenericReqThreshold => 17,
            GenericCommand::GenericReqFlashClear => 18,
            GenericCommand::GenericResFlashStatus { .. } => 19,
            GenericCommand::GenericTotalCmds => 20,
        }
    }
}

/// The widths of the payloads that the generic channel carries.
pub proof fn lemma_generic_widths()
    ensures
        body_width(Seq::<FieldKind>::empty()) == 0,
        body_width(SetMsgPayload::kinds()) == 5,
        body_width(GetMsgPayload::kinds()) == 1,
        body_width(HeartBeatDataMsg::kinds()) == 60,
        body_width(NodeInfoMsg::kinds()) == 40,
        body_width(seq![FieldKind::U8]) == 1,
{
    let none = Seq::<FieldKind>::empty();
    lemma_body_width_push(none, FieldKind::U8);
    lemma_body_width_push(none, FieldKind::U32);
    assert(seq![FieldKind::U8] =~= none.push(FieldKind::U8));
    assert(GetMsgPayload::kinds() =~= none.push(FieldKind::U8));
    lemma_body_width_push(none.push(FieldKind::U8), FieldKind::U32);
    assert(SetMsgPayload::kinds() =~= none.push(FieldKind::U8).push(FieldKind::U32));
    lemma_body_width_push(none.push(FieldKind::U32), FieldKind::Bytes(56));
    assert(HeartBeatDataMsg::kinds() =~= none.push(FieldKind::U32).push(FieldKind::Bytes(56)));
    lemma_body_width_push(none.push(FieldKind::U32), FieldKind::U32);
    lemma_body_width_push(none.push(FieldKind::U32).push(FieldKind::U32), FieldKind::Bytes(32));
    assert(NodeInfoMsg::kinds() =~= none.push(FieldKind::U32).push(FieldKind::U32).push(
        FieldKind::Bytes(32),
    ));
}

/// The generic channel's variants make a wire format with slots of 63
/// bytes: every variant, with its tag byte, its payload and its declared
/// padding, fills the slot exactly, and no tag is used twice.
pub proof fn lemma_generic_layout_ok()
    ensures
        layout_ok(GENERIC_COMMAND_SIZE as nat, generic_variants()),
{
    lemma_generic_widths();
    let variants = generic_variants();
    assert forall|i: int| 0 <= i < variants.len() implies variant_fills(
        #[trigger] variants[i],
        GENERIC_COMMAND_SIZE as nat,
    ) by {
        assert(variants[i] == generic_variant(i));
    }
    assert(tags_distinct(variants));
}

/// The variant with a tag is the one that the generic channel declares under
/// it; the tags are those below 21.
pub proof fn lemma_generic_variant_of(tag: u8)
    ensures
        has_tag(generic_variants(), tag) <==> tag < GENERIC_TAG_COUNT,
        tag < GENERIC_TAG_COUNT ==> variant_of(generic_variants(), tag) == generic_variant(
            tag as int,
        ),
{
    let variants = generic_variants();
    if tag < GENERIC_TAG_COUNT {
        assert(variants[tag as int].tag == tag);
        let i = choose|i: int| 0 <= i < variants.len() && (#[trigger] variants[i]).tag == tag;
        assert(variants[i] == generic_variant(i));
    } else {
        assert forall|i: int| 0 <= i < variants.len() implies (#[trigger] variants[i]).tag
            != tag by {
            assert(variants[i] == generic_variant(i));
        }
    }
}

/// Every command is a value of the generic channel's wire format.
pub proof fn lemma_generic_accepts(command: GenericCommand)
    ensures
        accepts(generic_variants(), command.padded_model()),
{
    lemma_generic_variant_of(command.spec_discriminant());
}

/// Every command takes exactly 63 bytes on the wire.
pub proof fn lemma_generic_wire_size(command: GenericCommand)
    ensures
        command.wire().len() == GENERIC_COMMAND_SIZE,
{
    lemma_generic_layout_ok();
    lemma_generic_accepts(command);
    lemma_wire_size(GENERIC_COMMAND_SIZE as nat, generic_variants(), command.padded_model());
}

/// Two commands that are the same value of the wire format are the same
/// command.
pub proof fn lemma_padded_model_injective(a: GenericCommand, b: GenericCommand)
    requires
        a.padded_model() == b.padded_model(),
    ensures
        a == b,
{
    assert(a.spec_discriminant() == b.spec_discriminant());
    let fa = a.spec_fields();
    let fb = b.spec_fields();
    assert(fa == fb);
    match a {
        GenericCommand::GenericReqSetVariable { payload } => {
            assert(fa[0] == fb[0] && fa[1] == fb[1]);
        },
        GenericCommand::GenericResSetVariable { payload } => {
            assert(fa[0] == fb[0] && fa[1] == fb[1]);
        },
        GenericCommand::GenericReqGetVariable { payload } => {
            assert(fa[0] == fb[0]);
        },
        GenericCommand::GenericResGetVariable { payload } => {
            assert(fa[0] == fb[0] && fa[1] == fb[1]);
        },
        GenericCommand::GenericResData { payload } => {
            assert(fa[0] == fb[0] && fa[1] == fb[1]);
            assert(payload.data =~= b->GenericResData_payload.data);
        },
        GenericCommand::GenericResNodeInfo { payload } => {
            assert(fa[0] == fb[0] && fa[1] == fb[1] && fa[2] == fb[2]);
            assert(payload.channel_type =~= b->GenericResNodeInfo_payload.channel_type);
        },
        GenericCommand::GenericResFlashStatus { status } => {
            assert(fa[0] == fb[0]);
        },
        _ => {},
    }
}

/// The bytes of a command decode to that command and to no other.
pub proof fn lemma_generic_round_trip(command: GenericCommand, other: GenericCommand)
    ensures
        command.is_decoded_from(command.wire()),
        other.is_decoded_from(command.wire()) ==> other == command,
{
    lemma_generic_layout_ok();
    lemma_generic_accepts(command);
    lemma_round_trip(GENERIC_COMMAND_SIZE as nat, generic_variants(), command.padded_model());
    if other.is_decoded_from(command.wire()) {
        lemma_padded_model_injective(other, command);
    }
}

/// The bytes of an array, copied out.
fn array_to_vec<const N: usize>(bytes: &[u8; N]) -> (copy: Vec<u8>)
    ensures
        copy@ == bytes@,
{
    let mut copy: Vec<u8> = Vec::new();
    let mut i: usize = 0;
    while i < N
        invariant
            i <= N,
            bytes@.len() == N,
            copy@ == bytes@.take(i as int),
        decreases N - i,
    {
        copy.push(bytes[i]);
        assert(bytes@.take(i + 1) =~= bytes@.take(i as int).push(bytes@[i as int]));
        i += 1;
    }
    assert(bytes@.take(N as int) =~= bytes@);
    copy
}

/// The kinds of the payload fields of the command with this tag.
fn fields_of_tag(tag: u8) -> (kinds: Vec<FieldKind>)
    ensures
        kinds@ == generic_fields(tag as int),
{
    let mut kinds: Vec<FieldKind> = Vec::new();
    if tag == 4 || tag == 5 || tag == 7 {
        kinds.push(FieldKind::U8);
        kinds.push(FieldKind::U32);
    } else if tag == 6 || tag == 19 {
        kinds.push(FieldKind::U8);
    } else if tag == 11 {
        kinds.push(FieldKind::U32);
        kinds.push(FieldKind::Bytes(56));
    } else if tag == 13 {
        kinds.push(FieldKind::U32);
        kinds.push(FieldKind::U32);
        kinds.push(FieldKind::Bytes(32));
    }
    assert(kinds@ =~= generic_fields(tag as int));
    kinds
}

/// The padding declared for the command with this tag.
fn pad_of_tag(tag: u8) -> (pad: usize)
    ensures
        pad == generic_pad(tag as int),
{
    if tag == 4 || tag == 5 || tag == 7 {
        57
    } else if tag == 6 || tag == 19 {
        61
    } else if tag == 11 {
        2
    } else if tag == 13 {
        22
    } else {
        62
    }
}

/// Makes the wire format of the generic channel. Every variant is checked
/// against the size of the slot when the format is made, whichever command
/// is encoded afterwards.
pub fn generic_command_layout() -> (layout: PaddedEnum)
    ensures
        layout.spec_size() == GENERIC_COMMAND_SIZE,
        layout.spec_variants() == generic_variants(),
{
    let mut variants: Vec<VariantLayout> = Vec::new();
    let mut tag: u8 = 0;
    while tag < GENERIC_TAG_COUNT
        invariant
            tag <= GENERIC_TAG_COUNT,
            variants@.len() == tag,
            forall|i: int| 0 <= i < tag ==> (#[trigger] variants@[i])@ == generic_variant(i),
        decreases GENERIC_TAG_COUNT - tag,
    {
        variants.push(VariantLayout { tag, fields: fields_of_tag(tag), pad: pad_of_tag(tag) });
        tag += 1;
    }
    proof {
        assert(variant_models(variants@) =~= generic_variants());
        lemma_generic_layout_ok();
    }
    match PaddedEnum::new(GENERIC_COMMAND_SIZE, variants) {
        Ok(layout) => layout,
        Err(_) => vstd::pervasive::unreached(),
    }
}

impl GenericCommand {
    /// The command as a value of the tagged wire format.
    pub fn to_padded(&self) -> (value: PaddedValue)
        ensures
            value@ == self.padded_model(),
    {
        let mut fields: Vec<FieldValue> = Vec::new();
        match self {
            GenericCommand::GenericReqSetVariable { payload } => {
                fields.push(FieldValue::U8(payload.variable_id));
                fields.push(FieldValue::U32(payload.value));
            },
            GenericCommand::GenericResSetVariable { payload } => {
                fields.push(FieldValue::U8(payload.variable_id));
                fields.push(FieldValue::U32(payload.value));
            },
            GenericCommand::GenericReqGetVariable { payload } => {
                fields.push(FieldValue::U8(payload.variable_id));
            },
            GenericCommand::GenericResGetVariable { payload } => {
                fields.push(FieldValue::U8(payload.variable_id));
                fields.push(FieldValue::U32(payload.value));
            },
            GenericCommand::GenericResData { payload } => {
                fields.push(FieldValue::U32(payload.channel_mask));
                fields.push(FieldValue::Bytes(array_to_vec(&payload.data)));
            },
            GenericCommand::GenericResNodeInfo { payload } => {
                fields.push(FieldValue::U32(payload.firmware_version));
                fields.push(FieldValue::U32(payload.channel_mask));
                fields.push(FieldValue::Bytes(array_to_vec(&payload.channel_type)));
            },
            GenericCommand::GenericResFlashStatus { status } => {
                fields.push(FieldValue::U8(*status));
            },
            _ => {},
        }
        let value = PaddedValue { tag: self.discriminant(), fields };
        assert(value@.fields =~= self.spec_fields());
        value
    }

    /// The command that a value of the generic channel's wire format is, if
    /// it is one.
    pub fn from_padded(value: &PaddedValue) -> (result: Option<GenericCommand>)
        ensures
            result is Some <==> accepts(generic_variants(), value@),
            result matches Some(command) ==> command.padded_model() == value@,
    {
        proof {
            lemma_generic_variant_of(value.tag);
        }
        let tag: u8 = value.tag;
        let fields = &value.fields;
        let ghost models = field_models(fields@);
        let command = if tag == 4 || tag == 5 || tag == 7 {
            if fields.len() != 2 {
                return None;
            }
            let payload = match (&fields[0], &fields[1]) {
                (FieldValue::U8(variable_id), FieldValue::U32(value)) => SetMsgPayload {
                    variable_id: *variable_id,
                    value: *value,
                },
                _ => {
                    assert(!fields_fit(generic_fields(tag as int), models)) by {
                        lemma_fit_at(generic_fields(tag as int), models, 0);
                        lemma_fit_at(generic_fields(tag as int), models, 1);
                    }
                    return None;
                },
            };
            assert(payload.fields() =~= models);
            if tag == 4 {
                GenericCommand::GenericReqSetVariable { payload }
            } else if tag == 5 {
                GenericCommand::GenericResSetVariable { payload }
            } else {
                GenericCommand::GenericResGetVariable { payload }
            }
        } else if tag == 6 || tag == 19 {
            if fields.len() != 1 {
                return None;
            }
            let byte: u8 = match &fields[0] {
                FieldValue::U8(byte) => *byte,
                _ => {
                    assert(!fields_fit(generic_fields(tag as int), models)) by {
                        lemma_fit_at(generic_fields(tag as int), models, 0);
                    }
                    return None;
                },
            };
            assert(seq![FieldModel::U8(byte)] =~= models);
            if tag == 6 {
                GenericCommand::GenericReqGetVariable {
                    payload: GetMsgPayload { variable_id: byte },
                }
            } else {
                GenericCommand::GenericResFlashStatus { status: byte }
            }
        } else if tag == 11 {
            if fields.len() != 2 {
                return None;
            }
            let payload = match (&fields[0], &fields[1]) {
                (FieldValue::U32(channel_mask), FieldValue::Bytes(data)) => {
                    if data.len() != 56 {
                        assert(!fields_fit(generic_fields(tag as int), models)) by {
                            lemma_fit_at(generic_fields(tag as int), models, 1);
                        }
                        return None;
                    }
                    let payload = HeartBeatDataMsg {
                        channel_mask: *channel_mask,
                        data: copy_bytes_to_array::<56>(data.as_slice()),
                    };
                    assert(payload.data@ =~= data@);
                    payload
                },
                _ => {
                    assert(!fields_fit(generic_fields(tag as int), models)) by {
                        lemma_fit_at(generic_fields(tag as int), models, 0);
                        lemma_fit_at(generic_fields(tag as int), models, 1);
                    }
                    return None;
                },
            };
            assert(payload.fields() =~= models);
            GenericCommand::GenericResData { payload }
        } else if tag == 13 {
            if fields.len() != 3 {
                return None;
            }
            let payload = match (&fields[0], &fields[1], &fields[2]) {
                (
                    FieldValue::U32(firmware_version),
                    FieldValue::U32(channel_mask),
                    FieldValue::Bytes(channel_type),
                ) => {
                    if channel_type.len() != 32 {
                        assert(!fields_fit(generic_fields(tag as int), models)) by {
                            lemma_fit_at(generic_fields(tag as int), models, 2);
                        }
                        return None;
                    }
                    let payload = NodeInfoMsg {
                        firmware_version: *firmware_version,
                        channel_mask: *channel_mask,
                        channel_type: copy_bytes_to_array::<32>(channel_type.as_slice()),
                    };
                    assert(payload.channel_type@ =~= channel_type@);
                    payload
                },
                _ => {
                    assert(!fields_fit(generic_fields(tag as int), models)) by {
                        lemma_fit_at(generic_fields(tag as int), models, 0);
                        lemma_fit_at(generic_fields(tag as int), models, 1);
                        lemma_fit_at(generic_fields(tag as int), models, 2);
                    }
                    return None;
                },
            };
            assert(payload.fields() =~= models);
            GenericCommand::GenericResNodeInfo { payload }
        } else {
            if tag >= GENERIC_TAG_COUNT || fields.len() != 0 {
                return None;
            }
            assert(models =~= Seq::empty());
            if tag == 0 {
                GenericCommand::GenericReqResetAllSettings
            } else if tag == 1 {
                GenericCommand::GenericResResetAllSettings
            } else if tag == 2 {
                GenericCommand::GenericReqStatus
            } else if tag == 3 {
                GenericCommand::GenericResStatus
            } else if tag == 8 {
                GenericCommand::GenericReqSyncClock
            } else if tag == 9 {
                GenericCommand::GenericResSyncClock
            } else if tag == 10 {
                GenericCommand::GenericReqData
            } else if tag == 12 {
                GenericCommand::GenericReqNodeInfo
            } else if tag == 14 {
                GenericCommand::GenericReqNodeStatus
            } else if tag == 15 {
                GenericCommand::GenericResNodeStatus
            } else if tag == 16 {
                GenericCommand::GenericReqSpeaker
            } else if tag == 17 {
                GenericCommand::GenericReqThreshold
            } else if tag == 18 {
                GenericCommand::GenericReqFlashClear
            } else {
                GenericCommand::GenericTotalCmds
            }
        };
        Some(command)
    }

    /// Encodes the command: its tag, its payload and zeros, 63 bytes in all.
    /// This never fails.
    pub fn to_wire(&self) -> (bytes: Vec<u8>)
        ensures
            bytes@ == self.wire(),
            bytes@.len() == GENERIC_COMMAND_SIZE,
    {
        let layout = generic_command_layout();
        let value = self.to_padded();
        proof {
            lemma_generic_accepts(*self);
        }
        match layout.to_wire(&value) {
            Ok(bytes) => bytes,
            Err(_) => vstd::pervasive::unreached(),
        }
    }

    /// Decodes a command from its tag and what follows it. It fails if
    /// `bytes` is empty, if the tag is none of the generic channel's, or if
    /// the bytes after the tag are fewer than the command's payload takes.
    pub fn from_wire(bytes: &[u8]) -> (result: Result<GenericCommand, DecodeError>)
        ensures
            result matches Ok(command) ==> command.is_decoded_from(bytes@),
            result matches Err(e) ==> from_wire_spec(generic_variants(), bytes@) == Err::<
                ValueModel,
                DecodeError,
            >(e),
    {
        let layout = generic_command_layout();
        match layout.from_wire(bytes) {
            Ok(value) => {
                match GenericCommand::from_padded(&value) {
                    Some(command) => Ok(command),
                    None => vstd::pervasive::unreached(),
                }
            },
            Err(e) => Err(e),
        }
    }

    /// The command in an envelope: the tag as the command id, the payload
    /// and its zero padding in the 62 bytes after it. Channel and buffer
    /// type are left zero.
    pub fn as_can_message_data(&self) -> (envelope: CanMessageData)
        ensures
            envelope.data_info.raw() == 0,
            seq![envelope.command_id] + envelope.data@ == self.wire(),
    {
        let wire = self.to_wire();
        let envelope = CanMessageData {
            data_info: CanMessageDataInfo::new(),
            command_id: wire[0],
            data: copy_bytes_to_array::<62>(vstd::slice::slice_subrange(wire.as_slice(), 1, 63)),
        };
        assert(seq![envelope.command_id] + envelope.data@ =~= self.wire());
        envelope
    }

    /// The command that an envelope carries: the one whose tag is the
    /// command id and whose payload starts the 62 bytes after it.
    pub fn try_from(value: CanMessageData) -> (result: Result<GenericCommand, DecodeError>)
        ensures
            result matches Ok(command) ==> command.is_decoded_from(
                seq![value.command_id] + value.data@,
            ),
            result matches Err(e) ==> from_wire_spec(
                generic_variants(),
                seq![value.command_id] + value.data@,
            ) == Err::<ValueModel, DecodeError>(e),
    {
        let bytes = value.as_bytes();
        let wire = vstd::slice::slice_subrange(bytes.as_slice(), 1, 64);
        assert(wire@ =~= seq![value.command_id] + value.data@);
        GenericCommand::from_wire(wire)
    }
}

} // verus!
