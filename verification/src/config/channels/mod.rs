//! What is configured for each channel.

pub mod generic_channel_config;
