//! What the configuration holds once it is loaded.

use crate::config::channels::generic_channel_config::GenericChannelConfig;
use crate::config::errors::ConfigError;
use crate::text::utf8;
use vstd::prelude::*;

verus! {

/// Most telemetry values, and most parameters, that one node can announce.
pub const MAX_ENTRIES: usize = 255;

/// Most bytes that a device name can have.
pub const MAX_DEVICE_NAME_BYTES: usize = 53;

/// A variable of the generic channel and the value it starts with.
#[derive(Clone, Copy, Debug, PartialEq, Eq, Structural)]
pub struct Variable {
    pub id: u8,
    pub value: u32,
}

/// The settings that every node has.
#[derive(Clone, Copy, Debug, PartialEq, Eq, Structural)]
pub struct GeneralSettings {
    pub can_id: u8,
}

/// The whole configuration of a node.
#[derive(Clone, Debug, PartialEq, Eq)]
pub struct EmulatorConfig {
    pub general: GeneralSettings,
    pub generic_channel: Option<GenericChannelConfig>,
}

/// How the 32-bit slot of a telemetry value or a parameter is to be read.
#[derive(Clone, Copy, Debug, PartialEq, Eq, Structural)]
pub enum DataType {
    Float32,
    Int32,
    Int16,
    Int8,
    UInt32,
    UInt16,
    UInt8,
    Boolean,
}

/// A value that the node reports.
#[derive(Clone, Debug, PartialEq, Eq)]
pub struct TelemetryValue {
    pub name: String,
    pub value: u32,
    pub datatype: DataType,
}

/// A value that the master can set, unless it is locked.
#[derive(Clone, Debug, PartialEq, Eq)]
pub struct Parameter {
    pub name: String,
    pub value: u32,
    pub locked: bool,
    pub datatype: DataType,
}

/// The typed state of a node.
#[derive(Clone, Debug, PartialEq, Eq)]
pub struct EmulatorData {
    pub node_id: u8,
    pub frequency: u32,
    pub firmware_hash: u32,
    pub liquid_hash: u32,
    pub device_name: String,
    pub telemetry_values: Option<Vec<TelemetryValue>>,
    pub parameters: Option<Vec<Parameter>>,
}

/// Entries in a list that may be missing; none where it is.
pub open spec fn entry_count<T>(entries: Option<Vec<T>>) -> nat {
    match entries {
        Some(list) => list@.len(),
        None => 0,
    }
}

impl EmulatorData {
    /// Whether the state can be announced: the device name fits its 53
    /// bytes, and neither list has more than 255 entries.
    pub open spec fn wf(&self) -> bool {
        &&& utf8(self.device_name@).len() <= MAX_DEVICE_NAME_BYTES
        &&& entry_count(self.telemetry_values) <= MAX_ENTRIES
        &&& entry_count(self.parameters) <= MAX_ENTRIES
    }

    /// Checks that the state can be announced, and says what is wrong where
    /// it cannot: first the device name, then the telemetry values, then
    /// the parameters.
    pub fn validate(&self) -> (result: Result<(), ConfigError>)
        ensures
            result is Ok <==> self.wf(),
            result matches Err(e) ==> e == (if utf8(self.device_name@).len()
                > MAX_DEVICE_NAME_BYTES {
                ConfigError::StringTooLong {
                    len: utf8(self.device_name@).len() as usize,
                    max: MAX_DEVICE_NAME_BYTES,
                }
            } else if entry_count(self.telemetry_values) > MAX_ENTRIES {
                ConfigError::TooManyEntries {
                    count: entry_count(self.telemetry_values) as usize,
                    max: MAX_ENTRIES,
                }
            } else {
                ConfigError::TooManyEntries {
                    count: entry_count(self.parameters) as usize,
                    max: MAX_ENTRIES,
                }
            }),
    {
        let name_len: usize = self.device_name.as_str().as_bytes().len();
        if name_len > MAX_DEVICE_NAME_BYTES {
            return Err(ConfigError::StringTooLong { len: name_len, max: MAX_DEVICE_NAME_BYTES });
        }
        let telemetry: usize = match &self.telemetry_values {
            Some(list) => list.len(),
            None => 0,
        };
        if telemetry > MAX_ENTRIES {
            return Err(ConfigError::TooManyEntries { count: telemetry, max: MAX_ENTRIES });
        }
        let parameters: usize = match &self.parameters {
            Some(list) => list.len(),
            None => 0,
        };
        if parameters > MAX_ENTRIES {
            return Err(ConfigError::TooManyEntries { count: parameters, max: MAX_ENTRIES });
        }
        Ok(())
    }
}

} // verus!
