//! Emulator core for a single node on a CAN-FD bus: the identifier and
//! envelope codecs, the tagged wire format of channel commands, the node
//! state store and the command dispatch engine.

pub mod can_manager;
pub mod config;
pub mod le_bytes;
pub mod message_handling;
pub mod protocol;
pub mod text;
