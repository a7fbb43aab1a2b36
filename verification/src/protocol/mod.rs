//! The wire protocol: message identifiers, the frame envelope and the
//! channel commands carried inside it.

pub mod channels;
pub mod commands;
pub mod errors;
pub mod message;
pub mod padded_enum;
pub mod payloads;
pub mod raw_can_message;

pub use payloads::CanMessage;
pub use raw_can_message::CanMessageBufferType;
pub use raw_can_message::CanMessageData;
pub use raw_can_message::CanMessageDataInfo;
pub use raw_can_message::CanMessageId;
