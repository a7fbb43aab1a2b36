use ecu_emulator::config::channel_parser::{
    get_binary_data_and_set_in_states, get_integer_value_and_set_in_states, key_in_table,
    parse_generic_command_arguments, steps_for, Step, StepKind, TableEntry, TableValue,
};
use ecu_emulator::config::errors::ConfigError;
use ecu_emulator::config::state_storage::StateStorage;

fn integer(key: &str, value: i64) -> TableEntry {
    TableEntry { key: key.to_string(), value: TableValue::Integer(value) }
}

fn text(key: &str, value: &str) -> TableEntry {
    TableEntry { key: key.to_string(), value: TableValue::Text(value.to_string()) }
}

fn full_table() -> Vec<TableEntry> {
    vec![
        integer("GenericChannel.id", 5),
        integer("GenericChannel.GenericReqFlashClear", 1),
        text("GenericChannel.GenericRequestNodeInfo.firmware_version", "0x0110101"),
        text("GenericChannel.GenericRequestNodeInfo.channel_mask", "0b11111111111"),
        text("GenericChannel.GenericRequestNodeInfo.channel_type", "0x01"),
        text("GenericChannel.GenericReqData.channel_mask", "0b11111111111"),
        text("GenericChannel.GenericReqData.data", "0x12387168743618723648761283648"),
    ]
}

fn without(key: &str) -> Vec<TableEntry> {
    full_table().into_iter().filter(|entry| entry.key != key).collect()
}

#[test]
fn the_first_entry_with_the_key_is_found() {
    let table = vec![integer("a", 1), text("b", "x"), integer("a", 2)];
    assert_eq!(key_in_table(&table, &"a".to_string()), Ok(&TableValue::Integer(1)));
    assert_eq!(key_in_table(&table, &"b".to_string()), Ok(&TableValue::Text("x".to_string())));
    assert_eq!(
        key_in_table(&table, &"c".to_string()),
        Err(ConfigError::MissingKey { key: "c".to_string() })
    );
    assert_eq!(
        key_in_table(&vec![], &"a".to_string()),
        Err(ConfigError::MissingKey { key: "a".to_string() })
    );
}

#[test]
fn integers_are_stored_as_eight_bytes() {
    let table = vec![integer("a", 0x0102), integer("b", -2), text("c", "1")];
    let mut state = StateStorage::new();
    assert_eq!(get_integer_value_and_set_in_states(&table, &"a".to_string(), &mut state), Ok(()));
    assert_eq!(state.get("a".to_string()), Some(&vec![2, 1, 0, 0, 0, 0, 0, 0]));
    assert_eq!(get_integer_value_and_set_in_states(&table, &"b".to_string(), &mut state), Ok(()));
    assert_eq!(state.get("b".to_string()), Some(&(-2i64).to_le_bytes().to_vec()));

    let table = vec![integer("min", i64::MIN), integer("max", i64::MAX)];
    assert_eq!(get_integer_value_and_set_in_states(&table, &"min".to_string(), &mut state), Ok(()));
    assert_eq!(state.get("min".to_string()), Some(&i64::MIN.to_le_bytes().to_vec()));
    assert_eq!(get_integer_value_and_set_in_states(&table, &"max".to_string(), &mut state), Ok(()));
    assert_eq!(state.get("max".to_string()), Some(&i64::MAX.to_le_bytes().to_vec()));
}

#[test]
fn an_integer_step_fails_without_an_integer() {
    let table = vec![text("c", "1"), TableEntry { key: "d".to_string(), value: TableValue::Other }];
    let mut state = StateStorage::new();
    assert_eq!(
        get_integer_value_and_set_in_states(&table, &"c".to_string(), &mut state),
        Err(ConfigError::InvalidValue { key: "c".to_string() })
    );
    assert_eq!(
        get_integer_value_and_set_in_states(&table, &"d".to_string(), &mut state),
        Err(ConfigError::InvalidValue { key: "d".to_string() })
    );
    assert_eq!(
        get_integer_value_and_set_in_states(&table, &"e".to_string(), &mut state),
        Err(ConfigError::MissingKey { key: "e".to_string() })
    );
    assert_eq!(state.get("c".to_string()), None);
}

#[test]
fn binary_text_is_stored_as_the_bytes_of_its_number() {
    let table = vec![text("hex", "0x0110101"), text("bin", "0b11111111111"), text("one", "0x01")];
    let mut state = StateStorage::new();
    assert_eq!(get_binary_data_and_set_in_states(&table, &"hex".to_string(), &mut state), Ok(()));
    assert_eq!(state.get("hex".to_string()), Some(&vec![0x01, 0x01, 0x11]));
    assert_eq!(get_binary_data_and_set_in_states(&table, &"bin".to_string(), &mut state), Ok(()));
    assert_eq!(state.get("bin".to_string()), Some(&vec![0xFF, 0x07]));
    assert_eq!(get_binary_data_and_set_in_states(&table, &"one".to_string(), &mut state), Ok(()));
    assert_eq!(state.get("one".to_string()), Some(&vec![1]));
    assert_eq!(state.get_u32_or_zero("bin".to_string()), 0x07FF);
}

#[test]
fn a_binary_step_fails_without_prefixed_text() {
    let table = vec![
        integer("n", 5),
        text("plain", "123"),
        text("upper", "0X12"),
        text("short", "0"),
        text("empty", ""),
        text("bad", "0xZZ"),
        text("none", "0b"),
        text("wide", "äx1"),
    ];
    let mut state = StateStorage::new();
    let mut run = |key: &str| get_binary_data_and_set_in_states(&table, &key.to_string(), &mut state);
    assert_eq!(run("n"), Err(ConfigError::InvalidValue { key: "n".to_string() }));
    assert_eq!(run("plain"), Err(ConfigError::InvalidPrefix));
    assert_eq!(run("upper"), Err(ConfigError::InvalidPrefix));
    assert_eq!(run("short"), Err(ConfigError::InvalidPrefix));
    assert_eq!(run("empty"), Err(ConfigError::InvalidPrefix));
    assert_eq!(run("wide"), Err(ConfigError::InvalidPrefix));
    assert_eq!(run("bad"), Err(ConfigError::InvalidNumber { radix: 16 }));
    assert_eq!(run("none"), Err(ConfigError::InvalidNumber { radix: 2 }));
    assert_eq!(run("gone"), Err(ConfigError::MissingKey { key: "gone".to_string() }));
    for key in ["n", "plain", "upper", "short", "empty", "bad", "none", "wide"] {
        assert_eq!(state.get(key.to_string()), None);
    }
}

#[test]
fn a_full_table_fills_the_state() {
    let mut table = full_table();
    table.push(integer("GenericChannel.variables.3", 0));
    table.push(integer("GenericChannel.variables.3.value", 42));
    let mut state = StateStorage::new();
    assert_eq!(parse_generic_command_arguments(&table, &mut state), Err(ConfigError::MissingKey {
        key: "GenericChannel.variables.3.value.value".to_string()
    }));
    // Everything before the step that failed is stored.
    assert_eq!(state.get("GenericChannel.id".to_string()), Some(&5i64.to_le_bytes().to_vec()));
    assert_eq!(
        state.get("GenericChannel.GenericReqFlashClear".to_string()),
        Some(&1i64.to_le_bytes().to_vec())
    );
    assert_eq!(
        state.get("GenericChannel.GenericRequestNodeInfo.firmware_version".to_string()),
        Some(&vec![0x01, 0x01, 0x11])
    );
    assert_eq!(
        state.get_u32_or_zero("GenericChannel.GenericRequestNodeInfo.channel_mask".to_string()),
        0x07FF
    );
    assert_eq!(
        state.get("GenericChannel.GenericRequestNodeInfo.channel_type".to_string()),
        Some(&vec![1])
    );
    assert_eq!(
        state.get_u32_or_zero("GenericChannel.GenericReqData.channel_mask".to_string()),
        0x07FF
    );
    assert_eq!(
        state.get_value_slice_or_zeros::<4>("GenericChannel.GenericReqData.data".to_string()),
        [0x48, 0x36, 0x28, 0x61]
    );
    assert_eq!(
        state.get("GenericChannel.GenericChannel.variables.3".to_string()),
        Some(&42u64.to_le_bytes().to_vec())
    );
}

#[test]
fn a_table_without_variables_is_read_to_the_end() {
    let mut state = StateStorage::new();
    assert_eq!(parse_generic_command_arguments(&full_table(), &mut state), Ok(()));
    assert_eq!(state.get("GenericChannel.id".to_string()), Some(&5i64.to_le_bytes().to_vec()));
    assert_eq!(
        state.get("GenericChannel.GenericReqData.data".to_string()).map(|bytes| bytes.len()),
        Some(15)
    );
}

#[test]
fn the_first_missing_key_ends_the_reading() {
    for (i, entry) in full_table().iter().enumerate() {
        let mut state = StateStorage::new();
        assert_eq!(
            parse_generic_command_arguments(&without(&entry.key), &mut state),
            Err(ConfigError::MissingKey { key: entry.key.clone() })
        );
        for (j, other) in full_table().iter().enumerate() {
            assert_eq!(state.get(other.key.clone()).is_some(), j < i, "{}", other.key);
        }
    }
}

#[test]
fn variables_are_read_in_the_order_of_the_table() {
    let table = {
        let mut table = full_table();
        table.push(integer("GenericChannel.variables.b.value.value", 7));
        table.push(integer("GenericChannel.variables.a", 0));
        table.push(integer("GenericChannel.variables.a.value", -1));
        table.push(integer("GenericChannel.variables.b.value", 9));
        table
    };
    let steps = steps_for(&table);
    assert_eq!(steps.len(), 7 + 4);
    assert_eq!(steps[0], Step { kind: StepKind::Integer, key: "GenericChannel.id".to_string() });
    assert_eq!(
        steps[6],
        Step { kind: StepKind::Binary, key: "GenericChannel.GenericReqData.data".to_string() }
    );
    assert_eq!(
        steps[7],
        Step {
            kind: StepKind::Variable,
            key: "GenericChannel.variables.b.value.value".to_string()
        }
    );
    assert_eq!(
        steps[8],
        Step { kind: StepKind::Variable, key: "GenericChannel.variables.a".to_string() }
    );

    let mut state = StateStorage::new();
    // The first variable has no value of its own, so the reading ends there.
    assert_eq!(
        parse_generic_command_arguments(&table, &mut state),
        Err(ConfigError::MissingKey {
            key: "GenericChannel.variables.b.value.value.value".to_string()
        })
    );
}

#[test]
fn a_negative_variable_is_turned_down() {
    let mut table = full_table();
    table.push(integer("GenericChannel.variablesX", 1));
    table.push(integer("GenericChannel.variablesX.value", -1));
    let mut state = StateStorage::new();
    assert_eq!(parse_generic_command_arguments(&table, &mut state), Err(ConfigError::Negative));
    assert_eq!(state.get("GenericChannel.GenericChannel.variablesX".to_string()), None);

    let mut table = full_table();
    table.push(integer("GenericChannel.variablesX", 1));
    table.push(text("GenericChannel.variablesX.value", "7"));
    let mut state = StateStorage::new();
    assert_eq!(
        parse_generic_command_arguments(&table, &mut state),
        Err(ConfigError::InvalidValue { key: "GenericChannel.variablesX.value".to_string() })
    );
}
