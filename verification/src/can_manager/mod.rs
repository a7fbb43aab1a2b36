//! The way to the bus: the frames that carry the envelopes.

pub mod errors;
pub mod socket_manager;

pub use socket_manager::frame_of_message;
pub use socket_manager::frame_to_send;
