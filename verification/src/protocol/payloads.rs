//! The payloads of the node-level messages.

use vstd::prelude::*;

verus! {

/// Bytes of a device name in a node info announcement.
pub const DEVICE_NAME_LEN: usize = 53;

/// Bytes of the value region of a parameter message.
pub const PARAMETER_VALUE_LEN: usize = 61;

/// What a node announces of itself.
#[derive(Clone, Copy, Debug, PartialEq, Eq)]
pub struct NodeInfoResPayload {
    pub tel_count: u8,
    pub par_count: u8,
    pub firmware_hash: u32,
    pub liquid_hash: u32,
    pub device_name: [u8; 53],
}

/// The counter of a heartbeat.
#[derive(Clone, Copy, Debug, PartialEq, Eq, Structural)]
pub struct HeartbeatPayload {
    pub counter: u32,
}

/// A parameter and the value to give it; the first four bytes of the value
/// region are the number, least significant byte first.
#[derive(Clone, Copy, Debug, PartialEq, Eq)]
pub struct ParameterSetReqPayload {
    pub parameter_id: u8,
    pub value: [u8; 61],
}

/// How a request to set a parameter ended.
#[derive(Clone, Copy, Debug, PartialEq, Eq, Structural)]
pub enum ParameterSetStatus {
    Success,
    InvalidParameterID,
    ParameterLocked,
}

/// The answer to a request to set a parameter.
#[derive(Clone, Copy, Debug, PartialEq, Eq)]
pub struct ParameterSetConfirmationPayload {
    pub parameter_id: u8,
    pub status: ParameterSetStatus,
    pub value: [u8; 61],
}

/// Whether a parameter can be set.
#[derive(Clone, Copy, Debug, PartialEq, Eq, Structural)]
pub enum ParameterLockStatus {
    Unlocked,
    Locked,
}

/// A parameter and the lock state to give it, or the one it was given.
#[derive(Clone, Copy, Debug, PartialEq, Eq, Structural)]
pub struct ParameterSetLockPayload {
    pub parameter_id: u8,
    pub parameter_lock: ParameterLockStatus,
}

/// A node-level message.
#[derive(Clone, Copy, Debug, PartialEq, Eq)]
pub enum CanMessage {
    NodeInfoReq,
    NodeInfoAnnouncement { payload: NodeInfoResPayload },
    HeartbeatReq { payload: HeartbeatPayload },
    HeartbeatRes { payload: HeartbeatPayload },
    ParameterSetReq { payload: ParameterSetReqPayload },
    ParameterSetConfirmation { payload: ParameterSetConfirmationPayload },
    ParameterSetLockReq { payload: ParameterSetLockPayload },
    ParameterSetLockConfirmation { payload: ParameterSetLockPayload },
}

} // verus!
