use ecu_emulator::config::config_representation::{DataType, Parameter, TelemetryValue};
use ecu_emulator::config::errors::ConfigError;
use ecu_emulator::config::max_bytes;
use ecu_emulator::config::serde_deserializer::{
    deserialize_parameters, deserialize_prefixed_biguint, deserialize_prefixed_u32,
    deserialize_prefixed_u8, deserialize_telemetry, deserialize_value_or_u32, le_bytes_to_u32,
    parse_prefixed_biguint, u64_le_bytes, Scalar,
};
use num_bigint::BigUint;

/// The value under `value` in a TOML document, as the library takes it.
fn scalar(toml_data: &str) -> Scalar {
    let table: toml::Table = toml::from_str(toml_data).expect("Failed to deserialize TOML");
    match &table["value"] {
        toml::Value::String(text) => Scalar::Str(text.clone()),
        toml::Value::Integer(number) => Scalar::I64(*number),
        toml::Value::Float(_) => Scalar::F64,
        toml::Value::Boolean(flag) => Scalar::Bool(*flag),
        _ => Scalar::Other,
    }
}

fn biguint(toml_data: &str) -> Result<BigUint, ConfigError> {
    deserialize_prefixed_biguint(&scalar(toml_data)).map(|bytes| BigUint::from_bytes_le(&bytes))
}

fn u32_value(toml_data: &str) -> Result<u32, ConfigError> {
    deserialize_prefixed_u32(&scalar(toml_data))
}

fn u8_value(toml_data: &str) -> Result<u8, ConfigError> {
    deserialize_prefixed_u8(&scalar(toml_data))
}

#[test]
fn test_deserialize_toml_biguint() {
    let toml_data = r#"
            value = "0x1A2B3C"
        "#;
    let value = biguint(toml_data).expect("Failed to deserialize TOML");
    assert_eq!(value, BigUint::from(0x1A2B3C_u64));

    let toml_data_bin = r#"
            value = "0b1101"
        "#;
    let value_bin = biguint(toml_data_bin).expect("Failed to deserialize TOML");
    assert_eq!(value_bin, BigUint::from(13_u64));

    let toml_data_dec = r#"
            value = "123456789"
        "#;
    let value_dec = biguint(toml_data_dec).expect("Failed to deserialize TOML");
    assert_eq!(value_dec, BigUint::from(123456789_u64));

    let toml_data_num = r#"
            value = 987654321
        "#;
    let value_num = biguint(toml_data_num).expect("Failed to deserialize TOML");
    assert_eq!(value_num, BigUint::from(987654321_u64));
}

#[test]
fn test_deserialize_toml_non_decimal() {
    let toml_data_neg = r#"
            value = "-12345"
        "#;
    let result = biguint(toml_data_neg);
    assert!(result.is_err(), "Expected error for negative value");

    let toml_data_float = r#"
            value = 12.34
        "#;
    let result_float = biguint(toml_data_float);
    assert!(result_float.is_err(), "Expected error for floating point value");
}

#[test]
fn test_deserialize_toml_u32() {
    let toml_data = r#"
            value = "0x1A2B3C"
        "#;
    let value = u32_value(toml_data).expect("Failed to deserialize TOML");
    assert_eq!(value, 0x1A2B3C_u32);

    let toml_data_bin = r#"
            value = "0b1101"
        "#;
    let value_bin = u32_value(toml_data_bin).expect("Failed to deserialize TOML");
    assert_eq!(value_bin, 13_u32);

    let toml_data_dec = r#"
            value = "123456789"
        "#;
    let value_dec = u32_value(toml_data_dec).expect("Failed to deserialize TOML");
    assert_eq!(value_dec, 123456789_u32);

    let toml_data_num = r#"
            value = 987654321
        "#;
    let value_num = u32_value(toml_data_num).expect("Failed to deserialize TOML");
    assert_eq!(value_num, 987654321_u32);
}

#[test]
fn test_deserialize_toml_u32_errors() {
    let toml_data_neg = r#"
            value = "-12345"
        "#;
    let result = u32_value(toml_data_neg);
    assert!(result.is_err(), "Expected error for negative value");

    let toml_data_float = r#"
            value = 12.34
        "#;
    let result_float = u32_value(toml_data_float);
    assert!(result_float.is_err(), "Expected error for floating point value");

    let toml_data_overflow = r#"
            value = "0x1FFFFFFFF"
        "#;
    let result_overflow = u32_value(toml_data_overflow);
    assert!(result_overflow.is_err(), "Expected error for overflow value");
}

#[test]
fn test_deserialize_toml_u8() {
    let toml_data = r#"
            value = "0x1A"
        "#;
    let value = u8_value(toml_data).expect("Failed to deserialize TOML");
    assert_eq!(value, 0x1A_u8);

    let toml_data_bin = r#"
            value = "0b1101"
        "#;
    let value_bin = u8_value(toml_data_bin).expect("Failed to deserialize TOML");
    assert_eq!(value_bin, 13_u8);

    let toml_data_dec = r#"
            value = "123"
        "#;
    let value_dec = u8_value(toml_data_dec).expect("Failed to deserialize TOML");
    assert_eq!(value_dec, 123_u8);

    let toml_data_num = r#"
            value = 200
        "#;
    let value_num = u8_value(toml_data_num).expect("Failed to deserialize TOML");
    assert_eq!(value_num, 200_u8);
}

#[test]
fn test_deserialize_toml_u8_errors() {
    let toml_data_neg = r#"
            value = "-123"
        "#;
    let result = u8_value(toml_data_neg);
    assert!(result.is_err(), "Expected error for negative value");

    let toml_data_float = r#"
            value = 12.34
        "#;
    let result_float = u8_value(toml_data_float);
    assert!(result_float.is_err(), "Expected error for floating point value");

    let toml_data_overflow = r#"
            value = "0x1FF"
        "#;
    let result_overflow = u8_value(toml_data_overflow);
    assert!(result_overflow.is_err(), "Expected error for overflow value");
}

#[test]
fn prefixed_text_gives_little_endian_bytes() {
    assert_eq!(parse_prefixed_biguint("0x1A2B3C"), Ok(vec![0x3C, 0x2B, 0x1A]));
    assert_eq!(parse_prefixed_biguint("0X1a2b3c"), Ok(vec![0x3C, 0x2B, 0x1A]));
    assert_eq!(parse_prefixed_biguint("0b1101"), Ok(vec![13]));
    assert_eq!(parse_prefixed_biguint("0B1_0000_0001"), Ok(vec![1, 1]));
    assert_eq!(parse_prefixed_biguint("1125"), Ok(vec![101, 4]));
    assert_eq!(parse_prefixed_biguint("1_000"), Ok(vec![0xE8, 3]));
    assert_eq!(parse_prefixed_biguint("0"), Ok(vec![0]));
    assert_eq!(parse_prefixed_biguint("0x0"), Ok(vec![0]));
    assert_eq!(
        parse_prefixed_biguint("0x12387168743618723648761283648"),
        Ok(BigUint::parse_bytes(b"12387168743618723648761283648", 16).unwrap().to_bytes_le())
    );
}

#[test]
fn text_that_is_no_number_is_turned_down() {
    assert_eq!(parse_prefixed_biguint("-12345"), Err(ConfigError::Negative));
    assert_eq!(parse_prefixed_biguint("_-1"), Err(ConfigError::Negative));
    assert_eq!(parse_prefixed_biguint("0xG"), Err(ConfigError::InvalidNumber { radix: 16 }));
    assert_eq!(parse_prefixed_biguint("0x"), Err(ConfigError::InvalidNumber { radix: 16 }));
    assert_eq!(parse_prefixed_biguint("0b2"), Err(ConfigError::InvalidNumber { radix: 2 }));
    assert_eq!(parse_prefixed_biguint("12a"), Err(ConfigError::InvalidNumber { radix: 10 }));
    assert_eq!(parse_prefixed_biguint(""), Err(ConfigError::InvalidNumber { radix: 10 }));
    assert_eq!(parse_prefixed_biguint("___"), Err(ConfigError::InvalidNumber { radix: 10 }));
    assert_eq!(parse_prefixed_biguint("1 2"), Err(ConfigError::InvalidNumber { radix: 10 }));
    assert_eq!(parse_prefixed_biguint("ä"), Err(ConfigError::InvalidNumber { radix: 10 }));
}

#[test]
fn integers_become_their_shortest_bytes() {
    assert_eq!(u64_le_bytes(0), vec![0]);
    assert_eq!(u64_le_bytes(255), vec![255]);
    assert_eq!(u64_le_bytes(256), vec![0, 1]);
    assert_eq!(u64_le_bytes(987654321), 987654321u32.to_le_bytes().to_vec());
    assert_eq!(u64_le_bytes(u64::MAX), vec![0xFF; 8]);
    for value in [0u64, 1, 255, 256, 65535, 65536, 1 << 40, u64::MAX] {
        assert_eq!(u64_le_bytes(value), BigUint::from(value).to_bytes_le());
    }
    assert_eq!(deserialize_prefixed_biguint(&Scalar::U8(7)), Ok(vec![7]));
    assert_eq!(deserialize_prefixed_biguint(&Scalar::U16(0x0102)), Ok(vec![2, 1]));
    assert_eq!(deserialize_prefixed_biguint(&Scalar::U32(1 << 24)), Ok(vec![0, 0, 0, 1]));
    assert_eq!(deserialize_prefixed_biguint(&Scalar::U64(1 << 32)), Ok(vec![0, 0, 0, 0, 1]));
    assert_eq!(deserialize_prefixed_biguint(&Scalar::I32(5)), Ok(vec![5]));
    assert_eq!(deserialize_prefixed_biguint(&Scalar::I64(i64::MAX)), Ok(vec![
        0xFF, 0xFF, 0xFF, 0xFF, 0xFF, 0xFF, 0xFF, 0x7F
    ]));
    assert_eq!(deserialize_prefixed_biguint(&Scalar::I64(-1)), Err(ConfigError::Negative));
    assert_eq!(deserialize_prefixed_biguint(&Scalar::I32(-1)), Err(ConfigError::Negative));
    assert_eq!(deserialize_prefixed_biguint(&Scalar::F64), Err(ConfigError::FloatingPoint));
    assert_eq!(deserialize_prefixed_biguint(&Scalar::Bool(true)), Err(ConfigError::InvalidType));
    assert_eq!(deserialize_prefixed_biguint(&Scalar::Other), Err(ConfigError::InvalidType));
}

#[test]
fn bytes_fit_32_bits_or_not() {
    assert_eq!(le_bytes_to_u32(&[]), Some(0));
    assert_eq!(le_bytes_to_u32(&[0x78, 0x56, 0x34, 0x12]), Some(0x12345678));
    assert_eq!(le_bytes_to_u32(&[0xFF, 0xFF, 0xFF, 0xFF]), Some(u32::MAX));
    assert_eq!(le_bytes_to_u32(&[0xFF, 0xFF, 0xFF, 0xFF, 0, 0]), Some(u32::MAX));
    assert_eq!(le_bytes_to_u32(&[0, 0, 0, 0, 1]), None);
    assert_eq!(le_bytes_to_u32(&[0, 0, 0, 0, 0, 0, 0, 0, 0, 1]), None);
    assert_eq!(le_bytes_to_u32(&[1, 0, 0, 0, 0, 0, 0, 0, 0, 0]), Some(1));
}

#[test]
fn u32_errors_say_what_is_wrong() {
    assert_eq!(deserialize_prefixed_u32(&Scalar::I32(-1)), Err(ConfigError::Negative));
    assert_eq!(deserialize_prefixed_u32(&Scalar::I32(i32::MAX)), Ok(i32::MAX as u32));
    assert_eq!(
        deserialize_prefixed_u32(&Scalar::I64(-1)),
        Err(ConfigError::OutOfRange { max: u32::MAX })
    );
    assert_eq!(
        deserialize_prefixed_u32(&Scalar::I64(1 << 32)),
        Err(ConfigError::OutOfRange { max: u32::MAX })
    );
    assert_eq!(deserialize_prefixed_u32(&Scalar::I64(u32::MAX as i64)), Ok(u32::MAX));
    assert_eq!(deserialize_prefixed_u32(&Scalar::U8(9)), Ok(9));
    assert_eq!(deserialize_prefixed_u32(&Scalar::U16(900)), Ok(900));
    assert_eq!(deserialize_prefixed_u32(&Scalar::U32(u32::MAX)), Ok(u32::MAX));
    assert_eq!(deserialize_prefixed_u32(&Scalar::U64(u32::MAX as u64)), Ok(u32::MAX));
    assert_eq!(
        deserialize_prefixed_u32(&Scalar::U64(u32::MAX as u64 + 1)),
        Err(ConfigError::OutOfRange { max: u32::MAX })
    );
    assert_eq!(
        deserialize_prefixed_u32(&Scalar::Str("0x1FFFFFFFF".to_string())),
        Err(ConfigError::OutOfRange { max: u32::MAX })
    );
    assert_eq!(deserialize_prefixed_u32(&Scalar::Str("0xFFFF_FFFF".to_string())), Ok(u32::MAX));
    assert_eq!(
        deserialize_prefixed_u32(&Scalar::Str("-12345".to_string())),
        Err(ConfigError::Negative)
    );
    assert_eq!(
        deserialize_prefixed_u32(&Scalar::Str("twelve".to_string())),
        Err(ConfigError::InvalidNumber { radix: 10 })
    );
    assert_eq!(deserialize_prefixed_u32(&Scalar::F64), Err(ConfigError::FloatingPoint));
    assert_eq!(deserialize_prefixed_u32(&Scalar::Bool(true)), Err(ConfigError::InvalidType));
    assert_eq!(deserialize_prefixed_u32(&Scalar::Other), Err(ConfigError::InvalidType));
}

#[test]
fn u8_errors_say_what_is_wrong() {
    assert_eq!(deserialize_prefixed_u8(&Scalar::I64(255)), Ok(255));
    assert_eq!(deserialize_prefixed_u8(&Scalar::I64(256)), Err(ConfigError::OutOfRange { max: 255 }));
    assert_eq!(
        deserialize_prefixed_u8(&Scalar::Str("0x1FF".to_string())),
        Err(ConfigError::OutOfRange { max: 255 })
    );
    assert_eq!(
        deserialize_prefixed_u8(&Scalar::I64(1 << 40)),
        Err(ConfigError::OutOfRange { max: u32::MAX })
    );
    assert_eq!(deserialize_prefixed_u8(&Scalar::I64(-123)), Err(ConfigError::OutOfRange {
        max: u32::MAX
    }));
    assert_eq!(deserialize_prefixed_u8(&Scalar::F64), Err(ConfigError::FloatingPoint));
}

#[test]
fn truth_values_fill_the_slot_with_0_or_1() {
    assert_eq!(deserialize_value_or_u32(&Scalar::Bool(true)), Ok(1));
    assert_eq!(deserialize_value_or_u32(&Scalar::Bool(false)), Ok(0));
    assert_eq!(deserialize_value_or_u32(&Scalar::I64(77)), Ok(77));
    assert_eq!(deserialize_value_or_u32(&Scalar::Str("0x10".to_string())), Ok(16));
    assert_eq!(deserialize_value_or_u32(&Scalar::F64), Err(ConfigError::FloatingPoint));
    assert_eq!(
        deserialize_value_or_u32(&Scalar::I64(-1)),
        Err(ConfigError::OutOfRange { max: u32::MAX })
    );
    assert_eq!(deserialize_value_or_u32(&scalar("value = true")), Ok(1));
    assert_eq!(deserialize_value_or_u32(&scalar("value = [1]")), Err(ConfigError::InvalidType));
}

#[test]
fn text_longer_than_allowed_is_turned_down() {
    assert_eq!(max_bytes::deserialize::<53>("pump".to_string()), Ok("pump".to_string()));
    assert_eq!(max_bytes::deserialize::<4>("pump".to_string()), Ok("pump".to_string()));
    assert_eq!(
        max_bytes::deserialize::<3>("pump".to_string()),
        Err(ConfigError::StringTooLong { len: 4, max: 3 })
    );
    assert_eq!(
        max_bytes::deserialize::<3>("ää".to_string()),
        Err(ConfigError::StringTooLong { len: 4, max: 3 })
    );
    assert_eq!(max_bytes::deserialize::<0>(String::new()), Ok(String::new()));
}

#[test]
fn entries_take_the_name_they_are_configured_under() {
    let unnamed = |value: u32| TelemetryValue {
        name: String::new(),
        value,
        datatype: DataType::Float32,
    };
    assert_eq!(deserialize_telemetry(None), None);
    assert_eq!(deserialize_telemetry(Some(vec![])), Some(vec![]));
    assert_eq!(
        deserialize_telemetry(Some(vec![
            ("pressure".to_string(), unnamed(1)),
            ("flow".to_string(), unnamed(2))
        ])),
        Some(vec![
            TelemetryValue { name: "pressure".to_string(), value: 1, datatype: DataType::Float32 },
            TelemetryValue { name: "flow".to_string(), value: 2, datatype: DataType::Float32 },
        ])
    );

    let parameter = |name: &str, value: u32, locked: bool| Parameter {
        name: name.to_string(),
        value,
        locked,
        datatype: DataType::Boolean,
    };
    assert_eq!(deserialize_parameters(None), None);
    assert_eq!(
        deserialize_parameters(Some(vec![
            ("1".to_string(), parameter("", 1, true)),
            ("0".to_string(), parameter("old", 0, false))
        ])),
        Some(vec![parameter("1", 1, true), parameter("0", 0, false)])
    );
}
