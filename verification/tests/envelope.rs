use ecu_emulator::protocol::errors::DecodeError;
use ecu_emulator::protocol::raw_can_message::{
    CanMessageBufferType, CanMessageData, CanMessageDataInfo,
};

#[test]
fn info_byte_packs_channel_and_buffer() {
    let info = CanMessageDataInfo::new()
        .with_channel_id(5)
        .with_can_message_buffer(CanMessageBufferType::RelativeBuffer);
    assert_eq!(info.into_bytes(), [5 | (2 << 6)]);
    assert_eq!(info.channel_id(), 5);
    assert_eq!(info.can_message_buffer(), CanMessageBufferType::RelativeBuffer);

    let info = CanMessageDataInfo::from_bytes([0xFF]);
    assert_eq!(info.channel_id(), 63);
    assert_eq!(info.can_message_buffer(), CanMessageBufferType::ReservedBuffer);

    let mut info = CanMessageDataInfo::from_bytes([0xFF]);
    info.set_channel_id(0);
    assert_eq!(info.into_bytes(), [0xC0]);
    info.set_can_message_buffer(CanMessageBufferType::AbsoluteBuffer);
    assert_eq!(info.into_bytes(), [0x40]);
}

#[test]
fn encode_writes_the_documented_layout() {
    let bytes =
        CanMessageData::encode(5, CanMessageBufferType::AbsoluteBuffer, 0x2A, &[1, 2, 3]);
    assert_eq!(bytes.len(), 64);
    assert_eq!(bytes[0], 5 | (1 << 6));
    assert_eq!(bytes[1], 0x2A);
    assert_eq!(&bytes[2..5], &[1, 2, 3]);
    assert!(bytes[5..].iter().all(|byte| *byte == 0));
}

#[test]
fn encode_takes_a_full_payload() {
    let payload: Vec<u8> = (1..=62).collect();
    let bytes = CanMessageData::encode(63, CanMessageBufferType::ReservedBuffer, 0xFF, &payload);
    assert_eq!(bytes[0], 0xFF);
    assert_eq!(bytes[1], 0xFF);
    assert_eq!(&bytes[2..], payload.as_slice());
}

#[test]
fn decode_undoes_encode() {
    let payload: Vec<u8> = (100..140).collect();
    let bytes = CanMessageData::encode(17, CanMessageBufferType::RelativeBuffer, 9, &payload);
    let envelope = CanMessageData::read_from_bytes(&bytes).unwrap();
    assert_eq!(envelope.data_info.channel_id(), 17);
    assert_eq!(envelope.data_info.can_message_buffer(), CanMessageBufferType::RelativeBuffer);
    assert_eq!(envelope.command_id, 9);
    assert_eq!(&envelope.data[..40], payload.as_slice());
    assert!(envelope.data[40..].iter().all(|byte| *byte == 0));
    assert_eq!(envelope.as_bytes(), bytes);
}

#[test]
fn any_64_bytes_are_an_envelope() {
    let bytes: Vec<u8> = (0..64u8).map(|i| i.wrapping_mul(37).wrapping_add(11)).collect();
    let envelope = CanMessageData::read_from_bytes(&bytes).unwrap();
    assert_eq!(envelope.as_bytes().to_vec(), bytes);
}

#[test]
fn other_lengths_are_no_envelope() {
    for len in [0usize, 1, 8, 63, 65, 128] {
        let bytes = vec![0u8; len];
        assert_eq!(
            CanMessageData::read_from_bytes(&bytes),
            Err(DecodeError::WrongLength { len })
        );
    }
}

#[test]
fn zeroed_envelope_is_all_zeros() {
    assert_eq!(CanMessageData::new_zeroed().as_bytes(), [0u8; 64]);
}
