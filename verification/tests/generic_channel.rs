use ecu_emulator::protocol::channels::generic_channel::{
    generic_command_layout, GenericCommand, GenericCommandDiscriminant, HeartBeatDataMsg,
    NodeInfoMsg,
};
use ecu_emulator::protocol::commands::{CommonCommands, GetMsgPayload, SetMsgPayload};
use ecu_emulator::protocol::errors::DecodeError;
use ecu_emulator::protocol::message::{CommandTrait, Message, MessageDiscriminant};
use ecu_emulator::protocol::raw_can_message::{CanMessageBufferType, CanMessageData};

fn every_command() -> Vec<GenericCommand> {
    let set = SetMsgPayload { variable_id: 10, value: 0x1234_5678 };
    let mut channel_type = [0u8; 32];
    let mut data = [0u8; 56];
    for (i, byte) in channel_type.iter_mut().enumerate() {
        *byte = 0x80 + i as u8;
    }
    for (i, byte) in data.iter_mut().enumerate() {
        *byte = 0x10 + i as u8;
    }
    vec![
        GenericCommand::GenericReqResetAllSettings,
        GenericCommand::GenericResResetAllSettings,
        GenericCommand::GenericReqStatus,
        GenericCommand::GenericResStatus,
        GenericCommand::GenericReqSetVariable { payload: set },
        GenericCommand::GenericResSetVariable { payload: set },
        GenericCommand::GenericReqGetVariable { payload: GetMsgPayload { variable_id: 42 } },
        GenericCommand::GenericResGetVariable { payload: set },
        GenericCommand::GenericReqSyncClock,
        GenericCommand::GenericResSyncClock,
        GenericCommand::GenericReqData,
        GenericCommand::GenericResData {
            payload: HeartBeatDataMsg { channel_mask: 0xFF00_FF00, data },
        },
        GenericCommand::GenericReqNodeInfo,
        GenericCommand::GenericResNodeInfo {
            payload: NodeInfoMsg { firmware_version: 1, channel_mask: 0x00FF_00FF, channel_type },
        },
        GenericCommand::GenericReqNodeStatus,
        GenericCommand::GenericResNodeStatus,
        GenericCommand::GenericReqSpeaker,
        GenericCommand::GenericReqThreshold,
        GenericCommand::GenericReqFlashClear,
        GenericCommand::GenericResFlashStatus { status: 5 },
        GenericCommand::GenericTotalCmds,
    ]
}

fn test_round_trip(msg: Message) {
    let can_data = msg.as_can_message_data();
    let msg_back = Message::try_from(can_data).expect("Failed to convert back to Message");
    assert_eq!(msg, msg_back);
}

#[test]
fn test_generic_req_reset_all_settings() {
    let msg = Message::GenericChannelMessage(GenericCommand::GenericReqResetAllSettings);
    test_round_trip(msg);
}

#[test]
fn test_generic_req_set_variable() {
    let payload = SetMsgPayload { variable_id: 10, value: 12345 };
    let msg = Message::GenericChannelMessage(GenericCommand::GenericReqSetVariable { payload });
    test_round_trip(msg);
}

#[test]
fn test_generic_req_get_variable() {
    let payload = GetMsgPayload { variable_id: 42 };
    let msg = Message::GenericChannelMessage(GenericCommand::GenericReqGetVariable { payload });
    test_round_trip(msg);
}

#[test]
fn test_generic_res_data() {
    let payload = HeartBeatDataMsg { channel_mask: 0xFF00FF00, data: [0xAA; 56] };
    let msg = Message::GenericChannelMessage(GenericCommand::GenericResData { payload });
    test_round_trip(msg);
}

#[test]
fn test_generic_res_node_info() {
    let payload =
        NodeInfoMsg { firmware_version: 1, channel_mask: 0x00FF00FF, channel_type: [0xBB; 32] };
    let msg = Message::GenericChannelMessage(GenericCommand::GenericResNodeInfo { payload });
    test_round_trip(msg);
}

#[test]
fn test_generic_res_flash_status() {
    let msg = Message::GenericChannelMessage(GenericCommand::GenericResFlashStatus { status: 5 });
    test_round_trip(msg);
}

#[test]
fn every_command_comes_back_from_the_wire() {
    for command in every_command() {
        let bytes = command.to_wire();
        assert_eq!(GenericCommand::from_wire(&bytes), Ok(command));
        test_round_trip(Message::GenericChannelMessage(command));
    }
}

#[test]
fn every_command_takes_63_bytes() {
    assert_eq!(generic_command_layout().size(), 63);
    for command in every_command() {
        assert_eq!(command.to_wire().len(), 63);
    }
}

#[test]
fn tags_are_the_documented_numbers() {
    for (tag, command) in every_command().into_iter().enumerate() {
        assert_eq!(command.discriminant() as usize, tag);
        assert_eq!(command.to_wire()[0] as usize, tag);
        assert_eq!(command.as_can_message_data().command_id as usize, tag);
    }
    assert_eq!(GenericCommandDiscriminant::GenericReqResetAllSettings.discriminant(), 0);
    assert_eq!(GenericCommandDiscriminant::GenericResGetVariable.discriminant(), 7);
    assert_eq!(GenericCommandDiscriminant::GenericReqSyncClock.discriminant(), 8);
    assert_eq!(GenericCommandDiscriminant::GenericResSyncClock.discriminant(), 9);
    assert_eq!(GenericCommandDiscriminant::GenericResFlashStatus.discriminant(), 19);
    assert_eq!(GenericCommandDiscriminant::GenericTotalCmds.discriminant(), 20);
    assert_eq!(MessageDiscriminant::GenericChannelMessage.discriminant(), 5);
}

#[test]
fn common_tags_are_shared_with_the_generic_channel() {
    let set = SetMsgPayload { variable_id: 0, value: 0 };
    let get = GetMsgPayload { variable_id: 0 };
    assert_eq!(u8::from(CommonCommands::CommonReqResetSettings), 0);
    assert_eq!(u8::from(CommonCommands::CommonResResetSettings), 1);
    assert_eq!(u8::from(CommonCommands::CommonReqStatus), 2);
    assert_eq!(u8::from(CommonCommands::CommonResStatus), 3);
    assert_eq!(u8::from(CommonCommands::CommonReqSetVariable { payload: set }), 4);
    assert_eq!(u8::from(CommonCommands::CommonResSetVariable { payload: set }), 5);
    assert_eq!(u8::from(CommonCommands::CommonReqGetVariable { payload: get }), 6);
    assert_eq!(u8::from(CommonCommands::CommonResGetVariable { payload: set }), 7);
    assert_eq!(u8::from(CommonCommands::CommonTotalCmds), 8);
    assert_eq!(
        CommonCommands::CommonReqSetVariable { payload: set }.discriminant(),
        GenericCommandDiscriminant::GenericReqSetVariable.discriminant()
    );
}

#[test]
fn set_variable_is_id_then_value_then_zeros() {
    let command = GenericCommand::GenericReqSetVariable {
        payload: SetMsgPayload { variable_id: 10, value: 0xAABBCCDD },
    };
    let bytes = command.to_wire();
    assert_eq!(&bytes[..6], &[4, 10, 0xDD, 0xCC, 0xBB, 0xAA]);
    assert!(bytes[6..].iter().all(|byte| *byte == 0));
}

#[test]
fn node_info_is_two_numbers_then_32_bytes_then_zeros() {
    let command = GenericCommand::GenericResNodeInfo {
        payload: NodeInfoMsg {
            firmware_version: 0x01020304,
            channel_mask: 0x0A0B0C0D,
            channel_type: [0xBB; 32],
        },
    };
    let bytes = command.to_wire();
    assert_eq!(bytes[0], 13);
    assert_eq!(&bytes[1..5], &[4, 3, 2, 1]);
    assert_eq!(&bytes[5..9], &[0x0D, 0x0C, 0x0B, 0x0A]);
    assert_eq!(&bytes[9..41], &[0xBB; 32]);
    assert_eq!(&bytes[41..], &[0u8; 22]);
}

#[test]
fn heartbeat_data_is_mask_then_56_bytes_then_zeros() {
    let command = GenericCommand::GenericResData {
        payload: HeartBeatDataMsg { channel_mask: 1, data: [0xAA; 56] },
    };
    let bytes = command.to_wire();
    assert_eq!(bytes[0], 11);
    assert_eq!(&bytes[1..5], &[1, 0, 0, 0]);
    assert_eq!(&bytes[5..61], &[0xAA; 56]);
    assert_eq!(&bytes[61..], &[0, 0]);
}

#[test]
fn message_envelope_has_channel_5_and_the_tag_once() {
    let msg = Message::GenericChannelMessage(GenericCommand::GenericResFlashStatus { status: 7 });
    let envelope = msg.as_can_message_data();
    assert_eq!(envelope.data_info.channel_id(), 5);
    assert_eq!(envelope.data_info.can_message_buffer(), CanMessageBufferType::DirectBuffer);
    assert_eq!(envelope.command_id, 19);
    assert_eq!(envelope.data[0], 7);
    assert!(envelope.data[1..].iter().all(|byte| *byte == 0));

    let bytes = envelope.as_bytes();
    assert_eq!(&bytes[..3], &[5, 19, 7]);
}

#[test]
fn the_trait_gives_the_same_envelope() {
    fn through_the_trait<T: CommandTrait>(value: &T) -> CanMessageData {
        value.as_can_message_data()
    }
    let command = GenericCommand::GenericReqGetVariable {
        payload: GetMsgPayload { variable_id: 3 },
    };
    assert_eq!(through_the_trait(&command), command.as_can_message_data());
    let msg = Message::GenericChannelMessage(command);
    assert_eq!(through_the_trait(&msg), msg.as_can_message_data());
}

#[test]
fn unknown_tag_is_no_command() {
    let mut bytes = vec![0u8; 63];
    bytes[0] = 21;
    assert_eq!(
        GenericCommand::from_wire(&bytes),
        Err(DecodeError::UnknownCommand { command_id: 21 })
    );
    bytes[0] = 255;
    assert_eq!(
        GenericCommand::from_wire(&bytes),
        Err(DecodeError::UnknownCommand { command_id: 255 })
    );

    let mut envelope = CanMessageData::new_zeroed();
    envelope.command_id = 77;
    assert_eq!(
        GenericCommand::try_from(envelope),
        Err(DecodeError::UnknownCommand { command_id: 77 })
    );
}

#[test]
fn payload_shorter_than_the_body_is_no_command() {
    // A set-variable body is five bytes.
    assert_eq!(
        GenericCommand::from_wire(&[4, 10, 1, 2, 3]),
        Err(DecodeError::ShortPayload { needed: 6, len: 5 })
    );
    assert_eq!(
        GenericCommand::from_wire(&[4, 10, 1, 2, 3, 4]),
        Ok(GenericCommand::GenericReqSetVariable {
            payload: SetMsgPayload { variable_id: 10, value: 0x04030201 }
        })
    );
    assert_eq!(
        GenericCommand::from_wire(&[13; 40]),
        Err(DecodeError::ShortPayload { needed: 41, len: 40 })
    );
    assert_eq!(GenericCommand::from_wire(&[]), Err(DecodeError::ShortPayload { needed: 1, len: 0 }));
    assert_eq!(GenericCommand::from_wire(&[0]), Ok(GenericCommand::GenericReqResetAllSettings));
}

#[test]
fn other_channels_are_unknown() {
    let mut envelope =
        Message::GenericChannelMessage(GenericCommand::GenericReqStatus).as_can_message_data();
    envelope.data_info.set_channel_id(6);
    assert_eq!(Message::try_from(envelope), Err(DecodeError::UnknownChannel { channel_id: 6 }));
    envelope.data_info.set_channel_id(0);
    assert_eq!(Message::try_from(envelope), Err(DecodeError::UnknownChannel { channel_id: 0 }));
}

#[test]
fn the_buffer_type_does_not_change_the_message() {
    let msg = Message::GenericChannelMessage(GenericCommand::GenericReqData);
    let mut envelope = msg.as_can_message_data();
    envelope.data_info.set_can_message_buffer(CanMessageBufferType::ReservedBuffer);
    assert_eq!(Message::try_from(envelope), Ok(msg));
}

#[test]
fn dirty_padding_is_thrown_away() {
    let mut envelope = Message::GenericChannelMessage(GenericCommand::GenericReqGetVariable {
        payload: GetMsgPayload { variable_id: 9 },
    })
    .as_can_message_data();
    envelope.data[1] = 0xEE;
    envelope.data[61] = 0xEE;
    let msg = Message::try_from(envelope).unwrap();
    assert_eq!(
        msg,
        Message::GenericChannelMessage(GenericCommand::GenericReqGetVariable {
            payload: GetMsgPayload { variable_id: 9 }
        })
    );
    // Encoding writes the padding as zeros again.
    assert_ne!(msg.as_can_message_data(), envelope);
    assert_eq!(msg.as_can_message_data().data[1], 0);
}
