use ecu_emulator::config::state_storage::StateStorage;
use ecu_emulator::message_handling::generic_channel::{
    handle_generic_command, variable_key_string,
};
use ecu_emulator::message_handling::{handle_message, process_frame, Processed};
use ecu_emulator::protocol::channels::generic_channel::{
    GenericCommand, HeartBeatDataMsg, NodeInfoMsg,
};
use ecu_emulator::protocol::commands::{GetMsgPayload, SetMsgPayload};
use ecu_emulator::protocol::errors::DecodeError;
use ecu_emulator::protocol::message::Message;
use ecu_emulator::protocol::raw_can_message::{
    CanMessageDirection, CanMessageId, CanMessagePriority, MessageSpecialCommand,
};

fn generic(command: GenericCommand) -> Message {
    Message::GenericChannelMessage(command)
}

fn request_id(node_id: u8) -> CanMessageId {
    CanMessageId::new()
        .with_direction(CanMessageDirection::MasterToNode)
        .with_node_id(node_id)
        .with_special_cmd(MessageSpecialCommand::StandardSpecialCmd)
        .with_priority(CanMessagePriority::HighPriority)
}

fn frame_of(command: GenericCommand) -> [u8; 64] {
    generic(command).as_can_message_data().as_bytes()
}

#[test]
fn variable_keys_are_the_id_in_decimal() {
    assert_eq!(variable_key_string(0), "GenericCommand.variables.0");
    assert_eq!(variable_key_string(3), "GenericCommand.variables.3");
    assert_eq!(variable_key_string(10), "GenericCommand.variables.10");
    assert_eq!(variable_key_string(99), "GenericCommand.variables.99");
    assert_eq!(variable_key_string(100), "GenericCommand.variables.100");
    assert_eq!(variable_key_string(205), "GenericCommand.variables.205");
    assert_eq!(variable_key_string(255), "GenericCommand.variables.255");
    for id in 0..=255u8 {
        assert_eq!(variable_key_string(id), format!("GenericCommand.variables.{}", id));
    }
}

#[test]
fn get_variable_after_set_in_the_store() {
    let mut state = StateStorage::new();
    state.set(variable_key_string(3), 42u32.to_le_bytes().to_vec());
    let response = handle_message(
        &generic(GenericCommand::GenericReqGetVariable {
            payload: GetMsgPayload { variable_id: 3 },
        }),
        &mut state,
    );
    assert_eq!(
        response,
        Some(generic(GenericCommand::GenericResGetVariable {
            payload: SetMsgPayload { variable_id: 3, value: 42 }
        }))
    );
}

#[test]
fn get_variable_that_was_never_set() {
    let mut state = StateStorage::new();
    let response = handle_message(
        &generic(GenericCommand::GenericReqGetVariable {
            payload: GetMsgPayload { variable_id: 7 },
        }),
        &mut state,
    );
    assert_eq!(
        response,
        Some(generic(GenericCommand::GenericResGetVariable {
            payload: SetMsgPayload { variable_id: 7, value: 0 }
        }))
    );
    assert_eq!(state.get(variable_key_string(7)), None);
}

#[test]
fn set_variable_stores_and_echoes() {
    let mut state = StateStorage::new();
    let payload = SetMsgPayload { variable_id: 12, value: 0xDEADBEEF };
    let response =
        handle_generic_command(&GenericCommand::GenericReqSetVariable { payload }, &mut state);
    assert_eq!(response, Some(generic(GenericCommand::GenericResSetVariable { payload })));
    assert_eq!(state.get(variable_key_string(12)), Some(&vec![0xEF, 0xBE, 0xAD, 0xDE]));

    let read = handle_generic_command(
        &GenericCommand::GenericReqGetVariable { payload: GetMsgPayload { variable_id: 12 } },
        &mut state,
    );
    assert_eq!(read, Some(generic(GenericCommand::GenericResGetVariable { payload })));

    // Another variable is still unset.
    let other = handle_generic_command(
        &GenericCommand::GenericReqGetVariable { payload: GetMsgPayload { variable_id: 1 } },
        &mut state,
    );
    assert_eq!(
        other,
        Some(generic(GenericCommand::GenericResGetVariable {
            payload: SetMsgPayload { variable_id: 1, value: 0 }
        }))
    );
}

#[test]
fn requests_without_payload_are_acknowledged() {
    let mut state = StateStorage::new();
    assert_eq!(
        handle_generic_command(&GenericCommand::GenericReqResetAllSettings, &mut state),
        Some(generic(GenericCommand::GenericResResetAllSettings))
    );
    assert_eq!(
        handle_generic_command(&GenericCommand::GenericReqStatus, &mut state),
        Some(generic(GenericCommand::GenericResStatus))
    );
    assert_eq!(
        handle_generic_command(&GenericCommand::GenericReqSyncClock, &mut state),
        Some(generic(GenericCommand::GenericResSyncClock))
    );
}

#[test]
fn configured_slots_are_read() {
    let mut state = StateStorage::new();
    state.set("GenericChannel.GenericReqData.channel_mask".to_string(), vec![0xFF, 0x07]);
    state.set("GenericChannel.GenericReqData.data".to_string(), vec![1, 2, 3]);
    state.set(
        "GenericChannel.GenericReqNodeInfo.firmware_version".to_string(),
        vec![0x01, 0x01, 0x10, 0x01],
    );
    state.set("GenericChannel.GenericReqNodeInfo.channel_mask".to_string(), vec![0xFF, 0x07]);
    state.set("GenericChannel.GenericReqNodeInfo.channel_type".to_string(), vec![0x01]);
    state.set("GenericChannel.GenericReqFlashClear.status".to_string(), vec![1]);

    let mut data = [0u8; 56];
    data[..3].copy_from_slice(&[1, 2, 3]);
    assert_eq!(
        handle_generic_command(&GenericCommand::GenericReqData, &mut state),
        Some(generic(GenericCommand::GenericResData {
            payload: HeartBeatDataMsg { channel_mask: 0x07FF, data }
        }))
    );

    let mut channel_type = [0u8; 32];
    channel_type[0] = 1;
    assert_eq!(
        handle_generic_command(&GenericCommand::GenericReqNodeInfo, &mut state),
        Some(generic(GenericCommand::GenericResNodeInfo {
            payload: NodeInfoMsg {
                firmware_version: 0x01100101,
                channel_mask: 0x07FF,
                channel_type
            }
        }))
    );

    assert_eq!(
        handle_generic_command(&GenericCommand::GenericReqFlashClear, &mut state),
        Some(generic(GenericCommand::GenericResFlashStatus { status: 1 }))
    );
}

#[test]
fn unconfigured_slots_read_as_zeros() {
    let mut state = StateStorage::new();
    assert_eq!(
        handle_generic_command(&GenericCommand::GenericReqData, &mut state),
        Some(generic(GenericCommand::GenericResData {
            payload: HeartBeatDataMsg { channel_mask: 0, data: [0; 56] }
        }))
    );
    assert_eq!(
        handle_generic_command(&GenericCommand::GenericReqNodeInfo, &mut state),
        Some(generic(GenericCommand::GenericResNodeInfo {
            payload: NodeInfoMsg { firmware_version: 0, channel_mask: 0, channel_type: [0; 32] }
        }))
    );
    assert_eq!(
        handle_generic_command(&GenericCommand::GenericReqFlashClear, &mut state),
        Some(generic(GenericCommand::GenericResFlashStatus { status: 0 }))
    );
}

#[test]
fn responses_and_unhandled_requests_are_not_answered() {
    let set = SetMsgPayload { variable_id: 1, value: 10 };
    let unanswered = [
        GenericCommand::GenericResResetAllSettings,
        GenericCommand::GenericResStatus,
        GenericCommand::GenericResSetVariable { payload: set },
        GenericCommand::GenericResGetVariable { payload: set },
        GenericCommand::GenericResSyncClock,
        GenericCommand::GenericResData {
            payload: HeartBeatDataMsg { channel_mask: 1, data: [1; 56] },
        },
        GenericCommand::GenericResNodeInfo {
            payload: NodeInfoMsg { firmware_version: 1, channel_mask: 1, channel_type: [1; 32] },
        },
        GenericCommand::GenericReqNodeStatus,
        GenericCommand::GenericResNodeStatus,
        GenericCommand::GenericReqSpeaker,
        GenericCommand::GenericReqThreshold,
        GenericCommand::GenericResFlashStatus { status: 1 },
        GenericCommand::GenericTotalCmds,
    ];
    for command in unanswered {
        let mut state = StateStorage::new();
        assert_eq!(handle_generic_command(&command, &mut state), None);
        assert_eq!(state.get(variable_key_string(1)), None);
    }
}

#[test]
fn a_frame_is_decoded_handled_and_answered() {
    let mut state = StateStorage::new();
    let payload = SetMsgPayload { variable_id: 3, value: 42 };
    let id = request_id(9);
    let done = process_frame(
        id.to_raw(),
        &frame_of(GenericCommand::GenericReqSetVariable { payload }),
        &mut state,
    )
    .unwrap();

    let response = generic(GenericCommand::GenericResSetVariable { payload });
    let reply_id = id.with_direction(CanMessageDirection::NodeToMaster);
    assert_eq!(
        done,
        Processed {
            id,
            request: generic(GenericCommand::GenericReqSetVariable { payload }),
            response: Some(response),
            reply: Some((reply_id, response.as_can_message_data())),
        }
    );
    assert_eq!(reply_id.node_id(), 9);
    assert_eq!(reply_id.priority(), CanMessagePriority::HighPriority);
    assert_eq!(reply_id.special_cmd(), MessageSpecialCommand::StandardSpecialCmd);
    assert_eq!(reply_id.to_raw(), id.to_raw() | 1);
    assert_eq!(state.get_u32_or_zero(variable_key_string(3)), 42);
}

#[test]
fn a_frame_without_an_answer_gives_no_reply() {
    let mut state = StateStorage::new();
    let done = process_frame(
        request_id(1).to_raw(),
        &frame_of(GenericCommand::GenericResStatus),
        &mut state,
    )
    .unwrap();
    assert_eq!(done.request, generic(GenericCommand::GenericResStatus));
    assert_eq!(done.response, None);
    assert_eq!(done.reply, None);
}

#[test]
fn a_malformed_frame_is_dropped_and_the_next_one_is_answered() {
    let mut state = StateStorage::new();
    state.set(variable_key_string(3), 42u32.to_le_bytes().to_vec());
    let id = request_id(2).to_raw();
    let get = GenericCommand::GenericReqGetVariable { payload: GetMsgPayload { variable_id: 3 } };

    // Wrong length.
    let short = [0u8; 63];
    assert_eq!(process_frame(id, &short, &mut state), Err(DecodeError::WrongLength { len: 63 }));
    assert_eq!(process_frame(id, &[], &mut state), Err(DecodeError::WrongLength { len: 0 }));
    let long = [0u8; 65];
    assert_eq!(process_frame(id, &long, &mut state), Err(DecodeError::WrongLength { len: 65 }));

    // Unknown command tag.
    let mut unknown = frame_of(get);
    unknown[1] = 200;
    assert_eq!(
        process_frame(id, &unknown, &mut state),
        Err(DecodeError::UnknownCommand { command_id: 200 })
    );

    // Unknown channel.
    let mut other_channel = frame_of(get);
    other_channel[0] = 4;
    assert_eq!(
        process_frame(id, &other_channel, &mut state),
        Err(DecodeError::UnknownChannel { channel_id: 4 })
    );

    // The state is as it was, and the next frame is answered as ever.
    assert_eq!(state.get(variable_key_string(3)), Some(&vec![42, 0, 0, 0]));
    let done = process_frame(id, &frame_of(get), &mut state).unwrap();
    assert_eq!(
        done.response,
        Some(generic(GenericCommand::GenericResGetVariable {
            payload: SetMsgPayload { variable_id: 3, value: 42 }
        }))
    );
    assert!(done.reply.is_some());
}
