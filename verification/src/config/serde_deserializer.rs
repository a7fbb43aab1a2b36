//! Numbers as a configuration writes them: plain, or as text with a `0x`
//! or `0b` prefix and with underscores between the digits. Numbers of any
//! width are held as their bytes, least significant first.

use crate::config::config_representation::{Parameter, TelemetryValue};
use crate::config::errors::ConfigError;
use crate::text::utf8;
use num_bigint::BigUint;
use vstd::prelude::*;

verus! {

/// A value as a configuration format hands it over.
#[derive(Clone, Debug, PartialEq, Eq)]
pub enum Scalar {
    I32(i32),
    I64(i64),
    U8(u8),
    U16(u16),
    U32(u32),
    U64(u64),
    /// A floating-point number, whichever.
    F64,
    Bool(bool),
    Str(String),
    /// Anything else: a date, a list, a table.
    Other,
}

/// The bytes, least significant first, of the number that `digits` write in
/// base `radix`, as `BigUint::parse_bytes` reads them and
/// `BigUint::to_bytes_le` gives them; none where `digits` are no number.
pub uninterp spec fn radix_le_bytes(digits: Seq<u8>, radix: u32) -> Option<Seq<u8>>;

/// `BigUint::parse_bytes`, then `BigUint::to_bytes_le` on what it gives:
/// the bytes of the number that the digits write. `parse_bytes` takes a
/// radix from 2 to 36 and stops the program on any other.
#[verifier::external_body]
pub(crate) fn parse_radix(digits: &[u8], radix: u32) -> (bytes: Option<Vec<u8>>)
    requires
        2 <= radix <= 36,
    ensures
        bytes is Some <==> radix_le_bytes(digits@, radix) is Some,
        bytes matches Some(found) ==> radix_le_bytes(digits@, radix) == Some(found@),
{
    match BigUint::parse_bytes(digits, radix) {
        Some(number) => Some(number.to_bytes_le()),
        None => None,
    }
}

/// The number that the bytes are, least significant first.
pub open spec fn le_value(bytes: Seq<u8>) -> nat
    decreases bytes.len(),
{
    if bytes.len() == 0 {
        0
    } else {
        bytes[0] as nat + 256 * le_value(bytes.drop_first())
    }
}

/// The bytes of `n`, least significant first, without zeros at the high
/// end; one zero byte for zero.
pub open spec fn le_bytes_of(n: nat) -> Seq<u8>
    decreases n,
{
    if n < 256 {
        seq![n as u8]
    } else {
        seq![(n % 256) as u8] + le_bytes_of(n / 256)
    }
}

/// `text` without its underscores.
pub open spec fn without_underscores(text: Seq<u8>) -> Seq<u8>
    decreases text.len(),
{
    if text.len() == 0 {
        Seq::empty()
    } else if text.last() == 0x5f {
        without_underscores(text.drop_last())
    } else {
        without_underscores(text.drop_last()).push(text.last())
    }
}

/// Whether `text` starts with `prefix`.
pub open spec fn starts_with(text: Seq<u8>, prefix: Seq<u8>) -> bool {
    text.len() >= prefix.len() && text.take(prefix.len() as int) == prefix
}

/// The number that `text` writes, as its bytes: after the underscores are
/// taken out, text that starts with `-` is turned down; text that starts
/// with `0x` or `0X` is read in base 16, with `0b` or `0B` in base 2, and
/// any other in base 10.
pub open spec fn prefixed_le_bytes(text: Seq<u8>) -> Result<Seq<u8>, ConfigError> {
    let bare = without_underscores(text);
    if starts_with(bare, seq![0x2d]) {
        Err(ConfigError::Negative)
    } else if starts_with(bare, seq![0x30, 0x78]) || starts_with(bare, seq![0x30, 0x58]) {
        match radix_le_bytes(bare.skip(2), 16) {
            Some(bytes) => Ok(bytes),
            None => Err(ConfigError::InvalidNumber { radix: 16 }),
        }
    } else if starts_with(bare, seq![0x30, 0x62]) || starts_with(bare, seq![0x30, 0x42]) {
        match radix_le_bytes(bare.skip(2), 2) {
            Some(bytes) => Ok(bytes),
            None => Err(ConfigError::InvalidNumber { radix: 2 }),
        }
    } else {
        match radix_le_bytes(bare, 10) {
            Some(bytes) => Ok(bytes),
            None => Err(ConfigError::InvalidNumber { radix: 10 }),
        }
    }
}

/// `text` without its underscores.
fn strip_underscores(text: &[u8]) -> (bare: Vec<u8>)
    ensures
        bare@ == without_underscores(text@),
{
    let mut bare: Vec<u8> = Vec::new();
    let mut i: usize = 0;
    assert(text@.take(0) =~= Seq::empty());
    while i < text.len()
        invariant
            i <= text@.len(),
            bare@ == without_underscores(text@.take(i as int)),
        decreases text@.len() - i,
    {
        proof {
            assert(text@.take(i + 1).drop_last() =~= text@.take(i as int));
        }
        if text[i] != 0x5f {
            bare.push(text[i]);
        }
        i += 1;
    }
    assert(text@.take(text@.len() as int) =~= text@);
    bare
}

/// Whether `text` starts with the two bytes `first` and `second`.
fn starts_with_pair(text: &Vec<u8>, first: u8, second: u8) -> (found: bool)
    ensures
        found == starts_with(text@, seq![first, second]),
{
    if text.len() >= 2 && text[0] == first && text[1] == second {
        assert(text@.take(2) =~= seq![first, second]);
        true
    } else {
        if text.len() >= 2 {
            assert(text@.take(2)[0] == text@[0]);
            assert(text@.take(2)[1] == text@[1]);
        }
        false
    }
}

/// Reads a number of any width from text, with or without a prefix.
pub fn parse_prefixed_biguint(s: &str) -> (result: Result<Vec<u8>, ConfigError>)
    ensures
        result is Ok <==> prefixed_le_bytes(utf8(s@)) is Ok,
        result matches Ok(bytes) ==> prefixed_le_bytes(utf8(s@)) == Ok::<Seq<u8>, ConfigError>(
            bytes@,
        ),
        result matches Err(e) ==> prefixed_le_bytes(utf8(s@)) == Err::<Seq<u8>, ConfigError>(e),
{
    let bare = strip_underscores(s.as_bytes());
    if bare.len() >= 1 && bare[0] == 0x2d {
        assert(bare@.take(1) =~= seq![0x2du8]);
        return Err(ConfigError::Negative);
    }
    proof {
        if bare@.len() >= 1 {
            assert(bare@.take(1)[0] == bare@[0]);
        }
    }
    if starts_with_pair(&bare, 0x30, 0x78) || starts_with_pair(&bare, 0x30, 0x58) {
        let digits = vstd::slice::slice_subrange(bare.as_slice(), 2, bare.len());
        assert(digits@ =~= bare@.skip(2));
        match parse_radix(digits, 16) {
            Some(bytes) => Ok(bytes),
            None => Err(ConfigError::InvalidNumber { radix: 16 }),
        }
    } else if starts_with_pair(&bare, 0x30, 0x62) || starts_with_pair(&bare, 0x30, 0x42) {
        let digits = vstd::slice::slice_subrange(bare.as_slice(), 2, bare.len());
        assert(digits@ =~= bare@.skip(2));
        match parse_radix(digits, 2) {
            Some(bytes) => Ok(bytes),
            None => Err(ConfigError::InvalidNumber { radix: 2 }),
        }
    } else {
        match parse_radix(bare.as_slice(), 10) {
            Some(bytes) => Ok(bytes),
            None => Err(ConfigError::InvalidNumber { radix: 10 }),
        }
    }
}

/// Dropping the low bytes of a number does not make it larger.
pub proof fn lemma_le_value_skip(bytes: Seq<u8>, k: int)
    requires
        0 <= k <= bytes.len(),
    ensures
        le_value(bytes.skip(k)) <= le_value(bytes),
    decreases k,
{
    if k == 0 {
        assert(bytes.skip(0) =~= bytes);
    } else {
        lemma_le_value_skip(bytes, k - 1);
        let upper = bytes.skip(k - 1);
        assert(upper.drop_first() =~= bytes.skip(k));
    }
}

/// The bytes of a number are that number.
pub proof fn lemma_le_value_of_bytes(n: nat)
    ensures
        le_value(le_bytes_of(n)) == n,
    decreases n,
{
    let bytes = le_bytes_of(n);
    if n < 256 {
        assert(bytes.drop_first() =~= Seq::<u8>::empty());
        assert(le_value(bytes.drop_first()) == 0);
        assert(bytes[0] == n);
    } else {
        lemma_le_value_of_bytes(n / 256);
        assert(bytes.drop_first() =~= le_bytes_of(n / 256));
        assert(bytes[0] == n % 256);
    }
}

/// The bytes of `n`, least significant first, without zeros at the high
/// end.
pub fn u64_le_bytes(n: u64) -> (bytes: Vec<u8>)
    ensures
        bytes@ == le_bytes_of(n as nat),
{
    let mut bytes: Vec<u8> = Vec::new();
    let mut rest: u64 = n;
    while rest >= 256
        invariant
            bytes@ + le_bytes_of(rest as nat) == le_bytes_of(n as nat),
        decreases rest,
    {
        let ghost before = bytes@;
        bytes.push((rest % 256) as u8);
        proof {
            assert(before + le_bytes_of(rest as nat) =~= bytes@ + le_bytes_of((rest / 256) as nat));
        }
        rest = rest / 256;
    }
    let ghost before = bytes@;
    bytes.push(rest as u8);
    assert(bytes@ =~= before + le_bytes_of(rest as nat));
    bytes
}

/// The number that the bytes are, if it fits 32 bits.
pub fn le_bytes_to_u32(bytes: &[u8]) -> (value: Option<u32>)
    ensures
        value is Some <==> le_value(bytes@) <= u32::MAX,
        value matches Some(number) ==> number == le_value(bytes@),
{
    let mut number: u64 = 0;
    let mut i: usize = bytes.len();
    assert(bytes@.skip(i as int) =~= Seq::empty());
    while i > 0
        invariant
            i <= bytes@.len(),
            number == le_value(bytes@.skip(i as int)),
            number <= u32::MAX,
        decreases i,
    {
        i -= 1;
        proof {
            assert(bytes@.skip(i as int).drop_first() =~= bytes@.skip(i + 1));
        }
        number = bytes[i] as u64 + 256 * number;
        if number > 0xffff_ffff {
            proof {
                lemma_le_value_skip(bytes@, i as int);
            }
            return None;
        }
    }
    assert(bytes@.skip(0) =~= bytes@);
    Some(number as u32)
}

/// The number of any width that a configuration value is, as its bytes.
pub open spec fn biguint_of(value: Scalar) -> Result<Seq<u8>, ConfigError> {
    match value {
        Scalar::I32(v) => if v < 0 {
            Err(ConfigError::Negative)
        } else {
            Ok(le_bytes_of(v as nat))
        },
        Scalar::I64(v) => if v < 0 {
            Err(ConfigError::Negative)
        } else {
            Ok(le_bytes_of(v as nat))
        },
        Scalar::U8(v) => Ok(le_bytes_of(v as nat)),
        Scalar::U16(v) => Ok(le_bytes_of(v as nat)),
        Scalar::U32(v) => Ok(le_bytes_of(v as nat)),
        Scalar::U64(v) => Ok(le_bytes_of(v as nat)),
        Scalar::F64 => Err(ConfigError::FloatingPoint),
        Scalar::Str(text) => prefixed_le_bytes(utf8(text@)),
        _ => Err(ConfigError::InvalidType),
    }
}

/// Reads a number of any width: an integer that is not negative, or text
/// that writes one. A floating-point number is turned down.
pub fn deserialize_prefixed_biguint(value: &Scalar) -> (result: Result<Vec<u8>, ConfigError>)
    ensures
        result is Ok <==> biguint_of(*value) is Ok,
        result matches Ok(bytes) ==> biguint_of(*value) == Ok::<Seq<u8>, ConfigError>(bytes@),
        result matches Err(e) ==> biguint_of(*value) == Err::<Seq<u8>, ConfigError>(e),
{
    match value {
        Scalar::I32(v) => {
            if *v < 0 {
                Err(ConfigError::Negative)
            } else {
                Ok(u64_le_bytes(*v as u64))
            }
        },
        Scalar::I64(v) => {
            if *v < 0 {
                Err(ConfigError::Negative)
            } else {
                Ok(u64_le_bytes(*v as u64))
            }
        },
        Scalar::U8(v) => Ok(u64_le_bytes(*v as u64)),
        Scalar::U16(v) => Ok(u64_le_bytes(*v as u64)),
        Scalar::U32(v) => Ok(u64_le_bytes(*v as u64)),
        Scalar::U64(v) => Ok(u64_le_bytes(*v)),
        Scalar::F64 => Err(ConfigError::FloatingPoint),
        Scalar::Str(text) => parse_prefixed_biguint(text.as_str()),
        _ => Err(ConfigError::InvalidType),
    }
}

/// `n` as a 32-bit number, if it is from 0 to `max`; the error for a number
/// out of that range if it is not.
pub open spec fn within(n: int, max: u32) -> Result<u32, ConfigError> {
    if 0 <= n <= max {
        Ok(n as u32)
    } else {
        Err(ConfigError::OutOfRange { max })
    }
}

/// The 32-bit number that a configuration value is.
pub open spec fn u32_of(value: Scalar) -> Result<u32, ConfigError> {
    match value {
        Scalar::I32(v) => if v < 0 {
            Err(ConfigError::Negative)
        } else {
            Ok(v as u32)
        },
        Scalar::I64(v) => within(v as int, u32::MAX),
        Scalar::U8(v) => Ok(v as u32),
        Scalar::U16(v) => Ok(v as u32),
        Scalar::U32(v) => Ok(v),
        Scalar::U64(v) => within(v as int, u32::MAX),
        Scalar::F64 => Err(ConfigError::FloatingPoint),
        Scalar::Str(text) => match prefixed_le_bytes(utf8(text@)) {
            Ok(bytes) => within(le_value(bytes) as int, u32::MAX),
            Err(e) => Err(e),
        },
        _ => Err(ConfigError::InvalidType),
    }
}

/// Reads a 32-bit number: an integer from 0 to the largest of 32 bits, or
/// text that writes one.
pub fn deserialize_prefixed_u32(value: &Scalar) -> (result: Result<u32, ConfigError>)
    ensures
        result == u32_of(*value),
{
    match value {
        Scalar::I32(v) => {
            if *v < 0 {
                Err(ConfigError::Negative)
            } else {
                Ok(*v as u32)
            }
        },
        Scalar::I64(v) => {
            if *v < 0 || *v > 0xffff_ffff {
                Err(ConfigError::OutOfRange { max: u32::MAX })
            } else {
                Ok(*v as u32)
            }
        },
        Scalar::U8(v) => Ok(*v as u32),
        Scalar::U16(v) => Ok(*v as u32),
        Scalar::U32(v) => Ok(*v),
        Scalar::U64(v) => {
            if *v > 0xffff_ffff {
                Err(ConfigError::OutOfRange { max: u32::MAX })
            } else {
                Ok(*v as u32)
            }
        },
        Scalar::F64 => Err(ConfigError::FloatingPoint),
        Scalar::Str(text) => match parse_prefixed_biguint(text.as_str()) {
            Ok(bytes) => match le_bytes_to_u32(bytes.as_slice()) {
                Some(number) => Ok(number),
                None => Err(ConfigError::OutOfRange { max: u32::MAX }),
            },
            Err(e) => Err(e),
        },
        _ => Err(ConfigError::InvalidType),
    }
}

/// The 8-bit number that a configuration value is: the 32-bit number, if it
/// is one and not above 255.
pub open spec fn u8_of(value: Scalar) -> Result<u8, ConfigError> {
    match u32_of(value) {
        Ok(number) => if number <= u8::MAX {
            Ok(number as u8)
        } else {
            Err(ConfigError::OutOfRange { max: 255 })
        },
        Err(e) => Err(e),
    }
}

/// Reads an 8-bit number.
pub fn deserialize_prefixed_u8(value: &Scalar) -> (result: Result<u8, ConfigError>)
    ensures
        result == u8_of(*value),
{
    match deserialize_prefixed_u32(value) {
        Ok(number) => {
            if number > 255 {
                Err(ConfigError::OutOfRange { max: 255 })
            } else {
                Ok(number as u8)
            }
        },
        Err(e) => Err(e),
    }
}

/// The 32-bit slot that a configuration value fills: the number, if it is
/// one, and 0 or 1 for a truth value.
pub open spec fn value_or_u32_of(value: Scalar) -> Result<u32, ConfigError> {
    match u32_of(value) {
        Ok(number) => Ok(number),
        Err(e) => match value {
            Scalar::Bool(flag) => Ok(if flag { 1u32 } else { 0u32 }),
            _ => Err(e),
        },
    }
}

/// Reads a number or a truth value into a 32-bit slot.
pub fn deserialize_value_or_u32(value: &Scalar) -> (result: Result<u32, ConfigError>)
    ensures
        result == value_or_u32_of(*value),
{
    match deserialize_prefixed_u32(value) {
        Ok(number) => Ok(number),
        Err(e) => match value {
            Scalar::Bool(flag) => Ok(if *flag { 1 } else { 0 }),
            _ => Err(e),
        },
    }
}

/// Gives every telemetry value the name under which it is configured. The
/// values come out in the order in which they are handed in.
pub fn deserialize_telemetry(entries: Option<Vec<(String, TelemetryValue)>>) -> (result: Option<
    Vec<TelemetryValue>,
>)
    ensures
        result is Some <==> entries is Some,
        result matches Some(named) ==> named@.len() == entries->0@.len() && forall|i: int|
            0 <= i < named@.len() ==> (#[trigger] named@[i]).name@ == entries->0@[i].0@
                && named@[i].value == entries->0@[i].1.value && named@[i].datatype
                == entries->0@[i].1.datatype,
{
    match entries {
        None => None,
        Some(list) => {
            let mut named: Vec<TelemetryValue> = Vec::new();
            let mut i: usize = 0;
            while i < list.len()
                invariant
                    i <= list@.len(),
                    named@.len() == i,
                    forall|k: int|
                        0 <= k < i ==> (#[trigger] named@[k]).name@ == list@[k].0@
                            && named@[k].value == list@[k].1.value && named@[k].datatype
                            == list@[k].1.datatype,
                decreases list@.len() - i,
            {
                named.push(
                    TelemetryValue {
                        name: list[i].0.clone(),
                        value: list[i].1.value,
                        datatype: list[i].1.datatype,
                    },
                );
                i += 1;
            }
            Some(named)
        },
    }
}

/// Gives every parameter the name under which it is configured. The
/// parameters come out in the order in which they are handed in.
pub fn deserialize_parameters(entries: Option<Vec<(String, Parameter)>>) -> (result: Option<
    Vec<Parameter>,
>)
    ensures
        result is Some <==> entries is Some,
        result matches Some(named) ==> named@.len() == entries->0@.len() && forall|i: int|
            0 <= i < named@.len() ==> (#[trigger] named@[i]).name@ == entries->0@[i].0@
                && named@[i].value == entries->0@[i].1.value && named@[i].locked
                == entries->0@[i].1.locked && named@[i].datatype == entries->0@[i].1.datatype,
{
    match entries {
        None => None,
        Some(list) => {
            let mut named: Vec<Parameter> = Vec::new();
            let mut i: usize = 0;
            while i < list.len()
                invariant
                    i <= list@.len(),
                    named@.len() == i,
                    forall|k: int|
                        0 <= k < i ==> (#[trigger] named@[k]).name@ == list@[k].0@
                            && named@[k].value == list@[k].1.value && named@[k].locked
                            == list@[k].1.locked && named@[k].datatype == list@[k].1.datatype,
                decreases list@.len() - i,
            {
                named.push(
                    Parameter {
                        name: list[i].0.clone(),
                        value: list[i].1.value,
                        locked: list[i].1.locked,
                        datatype: list[i].1.datatype,
                    },
                );
                i += 1;
            }
            Some(named)
        },
    }
}

} // verus!
