use ecu_emulator::config::state_storage::StateStorage;
use ecu_emulator::le_bytes::{copy_bytes_to_array, u32_from_le_bytes, u32_to_le_bytes};

#[test]
fn missing_keys_read_as_zero() {
    let state = StateStorage::new();
    assert_eq!(state.get("a".to_string()), None);
    assert_eq!(state.get_u32_or_zero("a".to_string()), 0);
    assert_eq!(state.get_u8_or_zero("a".to_string()), 0);
    assert_eq!(state.get_value_slice_or_zeros::<5>("a".to_string()), [0u8; 5]);
}

#[test]
fn set_then_get() {
    let mut state = StateStorage::new();
    state.set("a".to_string(), vec![1, 2, 3]);
    assert_eq!(state.get("a".to_string()), Some(&vec![1, 2, 3]));
    assert_eq!(state.get("b".to_string()), None);
    state.set("a".to_string(), vec![9]);
    assert_eq!(state.get("a".to_string()), Some(&vec![9]));
}

#[test]
fn numbers_are_little_endian() {
    let mut state = StateStorage::new();
    state.set("n".to_string(), vec![0x78, 0x56, 0x34, 0x12]);
    assert_eq!(state.get_u32_or_zero("n".to_string()), 0x12345678);
    assert_eq!(state.get_u8_or_zero("n".to_string()), 0x78);
}

#[test]
fn short_values_are_zero_filled_and_long_ones_cut() {
    let mut state = StateStorage::new();
    state.set("short".to_string(), vec![0xFF, 0x01]);
    assert_eq!(state.get_u32_or_zero("short".to_string()), 0x01FF);
    assert_eq!(state.get_value_slice_or_zeros::<4>("short".to_string()), [0xFF, 1, 0, 0]);
    state.set("long".to_string(), vec![1, 2, 3, 4, 5, 6]);
    assert_eq!(state.get_u32_or_zero("long".to_string()), 0x04030201);
    assert_eq!(state.get_value_slice_or_zeros::<2>("long".to_string()), [1, 2]);
    state.set("empty".to_string(), vec![]);
    assert_eq!(state.get_u8_or_zero("empty".to_string()), 0);
    assert_eq!(state.get("empty".to_string()), Some(&vec![]));
}

#[test]
fn copy_bytes_to_array_cuts_and_fills() {
    assert_eq!(copy_bytes_to_array::<4>(&[1, 2]), [1, 2, 0, 0]);
    assert_eq!(copy_bytes_to_array::<2>(&[1, 2, 3]), [1, 2]);
    assert_eq!(copy_bytes_to_array::<3>(&[]), [0, 0, 0]);
    assert_eq!(copy_bytes_to_array::<0>(&[1]), [0u8; 0]);
}

#[test]
fn u32_bytes_round_trip() {
    for value in [0u32, 1, 255, 256, 0xAABBCCDD, u32::MAX, 0x8000_0000] {
        let bytes = u32_to_le_bytes(value);
        assert_eq!(bytes, value.to_le_bytes());
        assert_eq!(u32_from_le_bytes(&bytes), value);
    }
    assert_eq!(u32_from_le_bytes(&[1, 0, 0, 0, 0xFF]), 1);
}
