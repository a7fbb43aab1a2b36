//! What is configured for the generic channel. Numbers of any width are
//! held as their bytes, least significant first.

use crate::config::config_representation::Variable;
use crate::protocol::channels::generic_channel::FlashStatus;
use vstd::prelude::*;

verus! {

/// The configuration of the generic channel; every part may be missing.
#[derive(Clone, Debug, PartialEq, Eq)]
pub struct GenericChannelConfig {
    pub generic_request_data: Option<GenericReqdata>,
    pub generic_request_node_info: Option<GenericRequestNodeInfo>,
    pub generic_request_flash_clear: Option<GenericReqFlashClear>,
    pub variables: Option<Vec<Variable>>,
}

/// What the node answers to a request for data.
#[derive(Clone, Debug, PartialEq, Eq)]
pub struct GenericReqdata {
    pub channel_mask: u32,
    pub data: Vec<u8>,
}

/// What the node answers to a request for its node info.
#[derive(Clone, Debug, PartialEq, Eq)]
pub struct GenericRequestNodeInfo {
    pub firmware_version: u32,
    pub channel_mask: u32,
    pub data: Vec<u8>,
}

/// What the node answers to a request to clear the flash.
#[derive(Clone, Copy, Debug, PartialEq, Eq, Structural)]
pub struct GenericReqFlashClear {
    pub status: FlashStatus,
}

} // verus!
