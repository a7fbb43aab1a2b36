//! What the node does with a command of the generic channel, and what it
//! answers.

use crate::config::state_storage::{bytes_or_zeros, u32_or_zero, u8_or_zero, StateStorage};
use crate::le_bytes::{fit_to, lemma_le_u32_of_u32_le, u32_le, u32_to_le_bytes};
use crate::protocol::channels::generic_channel::{GenericCommand, HeartBeatDataMsg, NodeInfoMsg};
use crate::protocol::commands::{GetMsgPayload, SetMsgPayload};
use crate::protocol::message::Message;
use crate::text::{decimal, lemma_decimal_injective, push_decimal};
use vstd::prelude::*;
use vstd::string::StringExecFns;

verus! {

/// The key under which the variable with this id is stored.
pub open spec fn variable_key(variable_id: u8) -> Seq<char> {
    "GenericCommand.variables."@ + decimal(variable_id as nat)
}

/// The key under which the variable with this id is stored.
pub fn variable_key_string(variable_id: u8) -> (key: String)
    ensures
        key@ == variable_key(variable_id),
{
    let mut key = String::from_str("GenericCommand.variables.");
    push_decimal(&mut key, variable_id);
    key
}

/// The state after the node has handled `command` in `state`. Only a
/// request to set a variable changes anything.
pub open spec fn state_after(command: GenericCommand, state: Map<Seq<char>, Seq<u8>>) -> Map<
    Seq<char>,
    Seq<u8>,
> {
    match command {
        GenericCommand::GenericReqSetVariable { payload } => state.insert(
            variable_key(payload.variable_id),
            u32_le(payload.value),
        ),
        _ => state,
    }
}

/// Whether `response` is what the node answers to `command` when it finds
/// `state`.
///
/// A request to reset the settings, for the status or to synchronise the
/// clock is acknowledged. A request to set a variable is echoed; a request
/// to get one is answered with its value, zero if it was never set. A
/// request for data, for the node info or to clear the flash is answered
/// from the configured slots, which read as zeros where nothing is
/// configured. No other command is answered, a received response least of
/// all.
pub open spec fn is_response(
    command: GenericCommand,
    state: Map<Seq<char>, Seq<u8>>,
    response: Option<Message>,
) -> bool {
    match command {
        GenericCommand::GenericReqResetAllSettings => response == Some(
            Message::GenericChannelMessage(GenericCommand::GenericResResetAllSettings),
        ),
        GenericCommand::GenericReqStatus => response == Some(
            Message::GenericChannelMessage(GenericCommand::GenericResStatus),
        ),
        GenericCommand::GenericReqSetVariable { payload } => response == Some(
            Message::GenericChannelMessage(GenericCommand::GenericResSetVariable { payload }),
        ),
        GenericCommand::GenericReqGetVariable { payload } => response == Some(
            Message::GenericChannelMessage(
                GenericCommand::GenericResGetVariable {
                    payload: SetMsgPayload {
                        variable_id: payload.variable_id,
                        value: u32_or_zero(state, variable_key(payload.variable_id)),
                    },
                },
            ),
        ),
        GenericCommand::GenericReqSyncClock => response == Some(
            Message::GenericChannelMessage(GenericCommand::GenericResSyncClock),
        ),
        GenericCommand::GenericReqData => {
            &&& response matches Some(
                Message::GenericChannelMessage(GenericCommand::GenericResData { payload }),
            )
            &&& payload.channel_mask == u32_or_zero(
                state,
                "GenericChannel.GenericReqData.channel_mask"@,
            )
            &&& payload.data@ == bytes_or_zeros(state, "GenericChannel.GenericReqData.data"@, 56)
        },
        GenericCommand::GenericReqNodeInfo => {
            &&& response matches Some(
                Message::GenericChannelMessage(GenericCommand::GenericResNodeInfo { payload }),
            )
            &&& payload.firmware_version == u32_or_zero(
                state,
                "GenericChannel.GenericReqNodeInfo.firmware_version"@,
            )
            &&& payload.channel_mask == u32_or_zero(
                state,
                "GenericChannel.GenericReqNodeInfo.channel_mask"@,
            )
            &&& payload.channel_type@ == bytes_or_zeros(
                state,
                "GenericChannel.GenericReqNodeInfo.channel_type"@,
                32,
            )
        },
        GenericCommand::GenericReqFlashClear => response == Some(
            Message::GenericChannelMessage(
                GenericCommand::GenericResFlashStatus {
                    status: u8_or_zero(state, "GenericChannel.GenericReqFlashClear.status"@),
                },
            ),
        ),
        _ => response is None,
    }
}

/// Handles one command of the generic channel: changes the state as the
/// command asks and gives the response to send, if there is one.
pub fn handle_generic_command(cmd: &GenericCommand, state: &mut StateStorage) -> (response:
    Option<Message>)
    ensures
        final(state)@ == state_after(*cmd, old(state)@),
        is_response(*cmd, old(state)@, response),
{
    match cmd {
        GenericCommand::GenericReqResetAllSettings => Some(
            Message::GenericChannelMessage(GenericCommand::GenericResResetAllSettings),
        ),
        GenericCommand::GenericReqStatus => Some(
            Message::GenericChannelMessage(GenericCommand::GenericResStatus),
        ),
        GenericCommand::GenericReqSetVariable { payload } => {
            let bytes = u32_to_le_bytes(payload.value);
            let mut stored: Vec<u8> = Vec::new();
            stored.push(bytes[0]);
            stored.push(bytes[1]);
            stored.push(bytes[2]);
            stored.push(bytes[3]);
            assert(stored@ =~= u32_le(payload.value));
            state.set(variable_key_string(payload.variable_id), stored);
            let resp = SetMsgPayload { variable_id: payload.variable_id, value: payload.value };
            Some(Message::GenericChannelMessage(GenericCommand::GenericResSetVariable { payload: resp }))
        },
        GenericCommand::GenericReqGetVariable { payload } => {
            let resp = SetMsgPayload {
                variable_id: payload.variable_id,
                value: state.get_u32_or_zero(variable_key_string(payload.variable_id)),
            };
            Some(Message::GenericChannelMessage(GenericCommand::GenericResGetVariable { payload: resp }))
        },
        GenericCommand::GenericReqSyncClock => Some(
            Message::GenericChannelMessage(GenericCommand::GenericResSyncClock),
        ),
        GenericCommand::GenericReqData => {
            let hb = HeartBeatDataMsg {
                channel_mask: state.get_u32_or_zero(
                    String::from_str("GenericChannel.GenericReqData.channel_mask"),
                ),
                data: state.get_value_slice_or_zeros::<56>(
                    String::from_str("GenericChannel.GenericReqData.data"),
                ),
            };
            Some(Message::GenericChannelMessage(GenericCommand::GenericResData { payload: hb }))
        },
        GenericCommand::GenericReqNodeInfo => {
            let node = NodeInfoMsg {
                firmware_version: state.get_u32_or_zero(
                    String::from_str("GenericChannel.GenericReqNodeInfo.firmware_version"),
                ),
                channel_mask: state.get_u32_or_zero(
                    String::from_str("GenericChannel.GenericReqNodeInfo.channel_mask"),
                ),
                channel_type: state.get_value_slice_or_zeros::<32>(
                    String::from_str("GenericChannel.GenericReqNodeInfo.channel_type"),
                ),
            };
            Some(Message::GenericChannelMessage(GenericCommand::GenericResNodeInfo { payload: node }))
        },
        GenericCommand::GenericReqFlashClear => Some(
            Message::GenericChannelMessage(
                GenericCommand::GenericResFlashStatus {
                    status: state.get_u8_or_zero(
                        String::from_str("GenericChannel.GenericReqFlashClear.status"),
                    ),
                },
            ),
        ),
        _ => None,
    }
}

/// Variables with different ids are stored under different keys.
pub proof fn lemma_variable_key_injective(a: u8, b: u8)
    requires
        variable_key(a) == variable_key(b),
    ensures
        a == b,
{
    let prefix = "GenericCommand.variables."@;
    let da = decimal(a as nat);
    let db = decimal(b as nat);
    assert((prefix + da).len() == (prefix + db).len());
    assert forall|i: int| 0 <= i < da.len() implies da[i] == db[i] by {
        assert((prefix + da)[prefix.len() + i] == (prefix + db)[prefix.len() + i]);
    }
    assert(da =~= db);
    lemma_decimal_injective(a, b);
}

/// A variable that was set is read back with the value it was given.
pub proof fn lemma_get_after_set(
    state: Map<Seq<char>, Seq<u8>>,
    variable_id: u8,
    value: u32,
    response: Option<Message>,
)
    requires
        is_response(
            GenericCommand::GenericReqGetVariable { payload: GetMsgPayload { variable_id } },
            state_after(
                GenericCommand::GenericReqSetVariable {
                    payload: SetMsgPayload { variable_id, value },
                },
                state,
            ),
            response,
        ),
    ensures
        response == Some(
            Message::GenericChannelMessage(
                GenericCommand::GenericResGetVariable {
                    payload: SetMsgPayload { variable_id, value },
                },
            ),
        ),
{
    lemma_le_u32_of_u32_le(value);
    assert(fit_to(u32_le(value), 4) =~= u32_le(value));
}

/// A variable that was never set is read as zero.
pub proof fn lemma_get_unset(
    state: Map<Seq<char>, Seq<u8>>,
    variable_id: u8,
    response: Option<Message>,
)
    requires
        !state.contains_key(variable_key(variable_id)),
        is_response(
            GenericCommand::GenericReqGetVariable { payload: GetMsgPayload { variable_id } },
            state,
            response,
        ),
    ensures
        response == Some(
            Message::GenericChannelMessage(
                GenericCommand::GenericResGetVariable {
                    payload: SetMsgPayload { variable_id, value: 0 },
                },
            ),
        ),
{
}

/// Setting one variable leaves what every other variable reads as it was.
pub proof fn lemma_set_leaves_others(
    state: Map<Seq<char>, Seq<u8>>,
    set_id: u8,
    value: u32,
    other_id: u8,
)
    requires
        set_id != other_id,
    ensures
        u32_or_zero(
            state_after(
                GenericCommand::GenericReqSetVariable {
                    payload: SetMsgPayload { variable_id: set_id, value },
                },
                state,
            ),
            variable_key(other_id),
        ) == u32_or_zero(state, variable_key(other_id)),
{
    if variable_key(set_id) == variable_key(other_id) {
        lemma_variable_key_injective(set_id, other_id);
    }
}

} // verus!
