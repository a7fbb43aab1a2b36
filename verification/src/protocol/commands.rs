//! The commands that every channel has, and the payloads they carry.

use crate::protocol::padded_enum::{FieldKind, FieldModel};
use vstd::prelude::*;

verus! {

pub const REQ_RESET_SETTINGS: u8 = 0;

pub const RES_RESET_SETTINGS: u8 = 1;

pub const REQ_STATUS: u8 = 2;

pub const RES_STATUS: u8 = 3;

pub const REQ_SET_VARIABLE: u8 = 4;

pub const RES_SET_VARIABLE: u8 = 5;

pub const REQ_GET_VARIABLE: u8 = 6;

pub const RES_GET_VARIABLE: u8 = 7;

/// The first tag that a channel is free to give to a command of its own.
pub const COMMON_TOTAL_CMDS: u8 = 8;

/// A variable and the value to give it, or the value it has.
#[derive(Clone, Copy, Debug, PartialEq, Eq, Structural)]
pub struct SetMsgPayload {
    pub variable_id: u8,
    pub value: u32,
}

/// The variable that is asked for.
#[derive(Clone, Copy, Debug, PartialEq, Eq, Structural)]
pub struct GetMsgPayload {
    pub variable_id: u8,
}

impl SetMsgPayload {
    /// The kinds of the fields, in wire order.
    pub open spec fn kinds() -> Seq<FieldKind> {
        seq![FieldKind::U8, FieldKind::U32]
    }

    /// The fields, in wire order.
    pub open spec fn fields(self) -> Seq<FieldModel> {
        seq![FieldModel::U8(self.variable_id), FieldModel::U32(self.value)]
    }
}

impl GetMsgPayload {
    /// The kinds of the fields, in wire order.
    pub open spec fn kinds() -> Seq<FieldKind> {
        seq![FieldKind::U8]
    }

    /// The fields, in wire order.
    pub open spec fn fields(self) -> Seq<FieldModel> {
        seq![FieldModel::U8(self.variable_id)]
    }
}

/// The commands that every channel has.
#[derive(Clone, Copy, Debug, PartialEq, Eq, Structural)]
pub enum CommonCommands {
    CommonReqResetSettings,
    CommonResResetSettings,
    CommonReqStatus,
    CommonResStatus,
    CommonReqSetVariable { payload: SetMsgPayload },
    CommonResSetVariable { payload: SetMsgPayload },
    CommonReqGetVariable { payload: GetMsgPayload },
    CommonResGetVariable { payload: SetMsgPayload },
    CommonTotalCmds,
}

impl CommonCommands {
    /// The tag of the command.
    pub open spec fn spec_discriminant(self) -> u8 {
        match self {
            CommonCommands::CommonReqResetSettings => REQ_RESET_SETTINGS,
            CommonCommands::CommonResResetSettings => RES_RESET_SETTINGS,
            CommonCommands::CommonReqStatus => REQ_STATUS,
            CommonCommands::CommonResStatus => RES_STATUS,
            CommonCommands::CommonReqSetVariable { .. } => REQ_SET_VARIABLE,
            CommonCommands::CommonResSetVariable { .. } => RES_SET_VARIABLE,
            CommonCommands::CommonReqGetVariable { .. } => REQ_GET_VARIABLE,
            CommonCommands::CommonResGetVariable { .. } => RES_GET_VARIABLE,
            CommonCommands::CommonTotalCmds => COMMON_TOTAL_CMDS,
        }
    }

    /// The tag of the command.
    pub fn discriminant(&self) -> (tag: u8)
        ensures
            tag == self.spec_discriminant(),
    {
        match self {
            CommonCommands::CommonReqResetSettings => REQ_RESET_SETTINGS,
            CommonCommands::CommonResResetSettings => RES_RESET_SETTINGS,
            CommonCommands::CommonReqStatus => REQ_STATUS,
            CommonCommands::CommonResStatus => RES_STATUS,
            CommonCommands::CommonReqSetVariable { .. } => REQ_SET_VARIABLE,
            CommonCommands::CommonResSetVariable { .. } => RES_SET_VARIABLE,
            CommonCommands::CommonReqGetVariable { .. } => REQ_GET_VARIABLE,
            CommonCommands::CommonResGetVariable { .. } => RES_GET_VARIABLE,
            CommonCommands::CommonTotalCmds => COMMON_TOTAL_CMDS,
        }
    }
}

impl From<CommonCommands> for u8 {
    fn from(value: CommonCommands) -> (tag: u8) {
        value.discriminant()
    }
}

impl vstd::std_specs::convert::FromSpecImpl<CommonCommands> for u8 {
    open spec fn obeys_from_spec() -> bool {
        true
    }

    open spec fn from_spec(value: CommonCommands) -> u8 {
        value.spec_discriminant()
    }
}

} // verus!
