//! The state of the node and the configuration it is made from.

pub mod channel_parser;
pub mod channels;
pub mod config_representation;
pub mod errors;
pub mod max_bytes;
pub mod serde_deserializer;
pub mod state_storage;
