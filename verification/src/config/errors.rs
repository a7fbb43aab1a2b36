//! Why a configuration is turned down. Without a valid configuration there
//! is nothing to serve, so these end the start of the node.

use vstd::prelude::*;

verus! {

/// What is wrong with a configuration value.
#[derive(Clone, Debug, PartialEq, Eq)]
pub enum ConfigError {
    /// A key that must be there is not.
    MissingKey { key: String },
    /// The value under the key is not of the kind that is asked for.
    InvalidValue { key: String },
    /// The value is of a kind that is no number.
    InvalidType,
    /// The value is below zero.
    Negative,
    /// The value is a floating-point number.
    FloatingPoint,
    /// The text is no number in the base that its prefix names.
    InvalidNumber { radix: u32 },
    /// The text does not start with `0x` or `0b`.
    InvalidPrefix,
    /// The number does not fit the width that is asked for.
    OutOfRange { max: u32 },
    /// The text is longer than allowed, in bytes.
    StringTooLong { len: usize, max: usize },
    /// The list has more entries than can be announced.
    TooManyEntries { count: usize, max: usize },
}

/// What a configuration error is, whatever memory holds its key.
pub enum ConfigFault {
    MissingKey { key: Seq<char> },
    InvalidValue { key: Seq<char> },
    InvalidType,
    Negative,
    FloatingPoint,
    InvalidNumber { radix: u32 },
    InvalidPrefix,
    OutOfRange { max: u32 },
    StringTooLong { len: usize, max: usize },
    TooManyEntries { count: usize, max: usize },
}

impl View for ConfigError {
    type V = ConfigFault;

    open spec fn view(&self) -> ConfigFault {
        match self {
            ConfigError::MissingKey { key } => ConfigFault::MissingKey { key: key@ },
            ConfigError::InvalidValue { key } => ConfigFault::InvalidValue { key: key@ },
            ConfigError::InvalidType => ConfigFault::InvalidType,
            ConfigError::Negative => ConfigFault::Negative,
            ConfigError::FloatingPoint => ConfigFault::FloatingPoint,
            ConfigError::InvalidNumber { radix } => ConfigFault::InvalidNumber { radix: *radix },
            ConfigError::InvalidPrefix => ConfigFault::InvalidPrefix,
            ConfigError::OutOfRange { max } => ConfigFault::OutOfRange { max: *max },
            ConfigError::StringTooLong { len, max } => ConfigFault::StringTooLong {
                len: *len,
                max: *max,
            },
            ConfigError::TooManyEntries { count, max } => ConfigFault::TooManyEntries {
                count: *count,
                max: *max,
            },
        }
    }
}

} // verus!
