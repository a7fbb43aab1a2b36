//! The command families that are carried inside the envelope.

pub mod generic_channel;

pub use generic_channel::FlashStatus;
pub use generic_channel::GenericCommand;
pub use generic_channel::GenericCommandDiscriminant;
pub use generic_channel::HeartBeatDataMsg;
pub use generic_channel::NodeInfoMsg;
