//! What the node does with a node-level message, and what it answers.

use crate::config::config_representation::{entry_count, EmulatorData, Parameter};
use crate::le_bytes::{copy_bytes_to_array, fit_to, le_u32, u32_from_le_bytes, zeros};
use crate::protocol::payloads::{
    CanMessage, HeartbeatPayload, NodeInfoResPayload, ParameterLockStatus,
    ParameterSetConfirmationPayload, ParameterSetLockPayload, ParameterSetStatus,
};
use crate::text::{decimal, decimal_string, utf8};
use vstd::prelude::*;

verus! {

/// What a request does to the parameter it names.
#[derive(Clone, Copy, Debug, PartialEq, Eq)]
pub enum ParameterUpdate {
    /// Give the parameter the number in the first four bytes of `value`,
    /// unless it is locked.
    SetValue { value: [u8; 61] },
    /// Lock or unlock the parameter, whoever locked it.
    SetLock { parameter_lock: ParameterLockStatus },
}

/// The name under which the parameter with this id is configured.
pub open spec fn parameter_name(parameter_id: u8) -> Seq<char> {
    decimal(parameter_id as nat)
}

/// Whether the parameter at place `i` is the first with this id.
pub open spec fn is_first_named(list: Seq<Parameter>, parameter_id: u8, i: int) -> bool {
    &&& 0 <= i < list.len()
    &&& list[i].name@ == parameter_name(parameter_id)
    &&& forall|j: int| 0 <= j < i ==> (#[trigger] list[j]).name@ != parameter_name(parameter_id)
}

/// Whether no parameter has this id.
pub open spec fn none_named(list: Seq<Parameter>, parameter_id: u8) -> bool {
    forall|j: int| 0 <= j < list.len() ==> (#[trigger] list[j]).name@ != parameter_name(parameter_id)
}

/// The parameter after the update.
pub open spec fn updated(parameter: Parameter, update: ParameterUpdate) -> Parameter {
    match update {
        ParameterUpdate::SetValue { value } => if parameter.locked {
            parameter
        } else {
            Parameter {
                name: parameter.name,
                value: le_u32(value@),
                locked: parameter.locked,
                datatype: parameter.datatype,
            }
        },
        ParameterUpdate::SetLock { parameter_lock } => Parameter {
            name: parameter.name,
            value: parameter.value,
            locked: parameter_lock == ParameterLockStatus::Locked,
            datatype: parameter.datatype,
        },
    }
}

/// Whether `message` says that no parameter has this id.
pub open spec fn is_invalid_id(message: CanMessage, parameter_id: u8) -> bool {
    &&& message matches CanMessage::ParameterSetConfirmation { payload }
    &&& payload.parameter_id == parameter_id
    &&& payload.status == ParameterSetStatus::InvalidParameterID
    &&& payload.value@ == zeros(61)
}

/// Whether `message` is the answer to an update of `parameter`, as it was
/// before the update.
pub open spec fn is_confirmation(
    message: CanMessage,
    parameter_id: u8,
    parameter: Parameter,
    update: ParameterUpdate,
) -> bool {
    match update {
        ParameterUpdate::SetValue { value } => {
            &&& message matches CanMessage::ParameterSetConfirmation { payload }
            &&& payload.parameter_id == parameter_id
            &&& if parameter.locked {
                payload.status == ParameterSetStatus::ParameterLocked && payload.value@ == zeros(61)
            } else {
                payload.status == ParameterSetStatus::Success && payload.value == value
            }
        },
        ParameterUpdate::SetLock { parameter_lock } => message
            == (CanMessage::ParameterSetLockConfirmation {
            payload: ParameterSetLockPayload { parameter_id, parameter_lock },
        }),
    }
}

/// Whether `after` and `response` are what an update of the parameter with
/// this id makes of `before`. The first parameter with the id is updated
/// and its confirmation is the response; where there is none, nothing
/// changes and the response says that the id is invalid.
pub open spec fn is_update(
    before: Option<Vec<Parameter>>,
    parameter_id: u8,
    update: ParameterUpdate,
    after: Option<Vec<Parameter>>,
    response: CanMessage,
) -> bool {
    match before {
        None => after is None && is_invalid_id(response, parameter_id),
        Some(list) => {
            &&& after is Some
            &&& after->0@.len() == list@.len()
            &&& none_named(list@, parameter_id) ==> after->0@ == list@ && is_invalid_id(
                response,
                parameter_id,
            )
            &&& forall|i: int| #[trigger]
                is_first_named(list@, parameter_id, i) ==> after->0@ == list@.update(
                    i,
                    updated(list@[i], update),
                ) && is_confirmation(response, parameter_id, list@[i], update)
        },
    }
}

/// The message that says that no parameter has this id.
fn invalid_id(parameter_id: u8) -> (message: CanMessage)
    ensures
        is_invalid_id(message, parameter_id),
{
    let value: [u8; 61] = [0u8; 61];
    assert(value@ =~= zeros(61));
    CanMessage::ParameterSetConfirmation {
        payload: ParameterSetConfirmationPayload {
            parameter_id,
            status: ParameterSetStatus::InvalidParameterID,
            value,
        },
    }
}

/// Applies `update` to `parameter` and gives the confirmation.
fn apply_update(parameter: &mut Parameter, parameter_id: u8, update: ParameterUpdate) -> (message:
    CanMessage)
    ensures
        *final(parameter) == updated(*old(parameter), update),
        is_confirmation(message, parameter_id, *old(parameter), update),
{
    match update {
        ParameterUpdate::SetValue { value } => {
            if parameter.locked {
                let nothing: [u8; 61] = [0u8; 61];
                assert(nothing@ =~= zeros(61));
                CanMessage::ParameterSetConfirmation {
                    payload: ParameterSetConfirmationPayload {
                        parameter_id,
                        status: ParameterSetStatus::ParameterLocked,
                        value: nothing,
                    },
                }
            } else {
                parameter.value = u32_from_le_bytes(value.as_slice());
                CanMessage::ParameterSetConfirmation {
                    payload: ParameterSetConfirmationPayload {
                        parameter_id,
                        status: ParameterSetStatus::Success,
                        value,
                    },
                }
            }
        },
        ParameterUpdate::SetLock { parameter_lock } => {
            parameter.locked = match parameter_lock {
                ParameterLockStatus::Locked => true,
                ParameterLockStatus::Unlocked => false,
            };
            CanMessage::ParameterSetLockConfirmation {
                payload: ParameterSetLockPayload { parameter_id, parameter_lock },
            }
        },
    }
}

/// The place of the first parameter with this id.
fn first_named(list: &Vec<Parameter>, parameter_id: u8) -> (place: Option<usize>)
    ensures
        place matches Some(i) ==> is_first_named(list@, parameter_id, i as int),
        place is None ==> none_named(list@, parameter_id),
{
    let name = decimal_string(parameter_id);
    let mut i: usize = 0;
    while i < list.len()
        invariant
            i <= list@.len(),
            name@ == parameter_name(parameter_id),
            forall|j: int| 0 <= j < i ==> (#[trigger] list@[j]).name@ != parameter_name(parameter_id),
        decreases list@.len() - i,
    {
        if list[i].name == name {
            return Some(i);
        }
        i += 1;
    }
    None
}

/// Where a parameter has the id, it is not so that none has it, and the
/// first that has it is the only first.
proof fn lemma_first_named(list: Seq<Parameter>, parameter_id: u8, i: int)
    requires
        is_first_named(list, parameter_id, i),
    ensures
        !none_named(list, parameter_id),
        forall|k: int| #[trigger] is_first_named(list, parameter_id, k) ==> k == i,
{
    assert(list[i].name@ == parameter_name(parameter_id));
    assert forall|k: int| #[trigger] is_first_named(list, parameter_id, k) implies k == i by {
        if k < i {
            assert(list[k].name@ != parameter_name(parameter_id));
        } else if i < k {
            assert(list[i].name@ != parameter_name(parameter_id));
        }
    }
}

/// Finds the first parameter with this id and applies `update` to it.
pub fn find_parameter_and_map(
    parameters: &mut Option<Vec<Parameter>>,
    parameter_id: u8,
    update: ParameterUpdate,
) -> (response: Option<CanMessage>)
    ensures
        response is Some,
        is_update(*old(parameters), parameter_id, update, *final(parameters), response->0),
{
    match parameters {
        None => Some(invalid_id(parameter_id)),
        Some(list) => {
            let ghost before = list@;
            match first_named(list, parameter_id) {
                None => {
                    proof {
                        assert forall|k: int| #[trigger]
                            is_first_named(before, parameter_id, k) implies false by {
                            assert(before[k].name@ != parameter_name(parameter_id));
                        }
                    }
                    Some(invalid_id(parameter_id))
                },
                Some(i) => {
                    let message = apply_update(&mut list[i], parameter_id, update);
                    proof {
                        lemma_first_named(before, parameter_id, i as int);
                        assert(list@ =~= before.update(i as int, updated(before[i as int], update)));
                    }
                    Some(message)
                },
            }
        },
    }
}

/// The counter after `counter`; after the largest comes zero.
pub open spec fn next_counter(counter: u32) -> u32 {
    if counter == u32::MAX {
        0
    } else {
        (counter + 1) as u32
    }
}

/// Whether `after` is `before` in everything but the parameters.
pub open spec fn same_but_parameters(before: EmulatorData, after: EmulatorData) -> bool {
    &&& after.node_id == before.node_id
    &&& after.frequency == before.frequency
    &&& after.firmware_hash == before.firmware_hash
    &&& after.liquid_hash == before.liquid_hash
    &&& after.device_name == before.device_name
    &&& after.telemetry_values == before.telemetry_values
}

/// Whether `after` and `response` are what the node makes of `msg` when it
/// finds the state `before`.
///
/// A node info request is answered with the counts of the configured
/// telemetry values and parameters, the two hashes and the device name,
/// zero-filled to 53 bytes. A heartbeat request is answered with the next
/// counter. A request to set a parameter or its lock updates the first
/// parameter with the id. None of the other messages is answered, and only
/// the two parameter requests change the state.
pub open spec fn is_answer(
    msg: CanMessage,
    before: EmulatorData,
    after: EmulatorData,
    response: Option<CanMessage>,
) -> bool {
    match msg {
        CanMessage::NodeInfoReq => {
            &&& after == before
            &&& response matches Some(CanMessage::NodeInfoAnnouncement { payload })
            &&& payload.tel_count == entry_count(before.telemetry_values)
            &&& payload.par_count == entry_count(before.parameters)
            &&& payload.firmware_hash == before.firmware_hash
            &&& payload.liquid_hash == before.liquid_hash
            &&& payload.device_name@ == fit_to(utf8(before.device_name@), 53)
        },
        CanMessage::HeartbeatReq { payload } => {
            &&& after == before
            &&& response == Some(
                CanMessage::HeartbeatRes {
                    payload: HeartbeatPayload { counter: next_counter(payload.counter) },
                },
            )
        },
        CanMessage::ParameterSetReq { payload } => {
            &&& same_but_parameters(before, after)
            &&& response is Some
            &&& is_update(
                before.parameters,
                payload.parameter_id,
                ParameterUpdate::SetValue { value: payload.value },
                after.parameters,
                response->0,
            )
        },
        CanMessage::ParameterSetLockReq { payload } => {
            &&& same_but_parameters(before, after)
            &&& response is Some
            &&& is_update(
                before.parameters,
                payload.parameter_id,
                ParameterUpdate::SetLock { parameter_lock: payload.parameter_lock },
                after.parameters,
                response->0,
            )
        },
        _ => after == before && response is None,
    }
}

/// Handles one node-level message: changes the state as the message asks
/// and gives the response to send, if there is one. Only a node info
/// request needs a state that can be announced; no message makes a state
/// that can be announced into one that cannot.
pub fn handle_message(msg: &CanMessage, emulator_data: &mut EmulatorData) -> (response: Option<
    CanMessage,
>)
    requires
        *msg is NodeInfoReq ==> old(emulator_data).wf(),
    ensures
        old(emulator_data).wf() ==> final(emulator_data).wf(),
        is_answer(*msg, *old(emulator_data), *final(emulator_data), response),
{
    match msg {
        CanMessage::NodeInfoReq => {
            let tel_count: usize = match &emulator_data.telemetry_values {
                Some(list) => list.len(),
                None => 0,
            };
            let par_count: usize = match &emulator_data.parameters {
                Some(list) => list.len(),
                None => 0,
            };
            Some(
                CanMessage::NodeInfoAnnouncement {
                    payload: NodeInfoResPayload {
                        tel_count: tel_count as u8,
                        par_count: par_count as u8,
                        firmware_hash: emulator_data.firmware_hash,
                        liquid_hash: emulator_data.liquid_hash,
                        device_name: copy_bytes_to_array::<53>(
                            emulator_data.device_name.as_str().as_bytes(),
                        ),
                    },
                },
            )
        },
        CanMessage::HeartbeatReq { payload } => Some(
            CanMessage::HeartbeatRes {
                payload: HeartbeatPayload { counter: payload.counter.wrapping_add(1) },
            },
        ),
        CanMessage::ParameterSetReq { payload } => find_parameter_and_map(
            &mut emulator_data.parameters,
            payload.parameter_id,
            ParameterUpdate::SetValue { value: payload.value },
        ),
        CanMessage::ParameterSetLockReq { payload } => find_parameter_and_map(
            &mut emulator_data.parameters,
            payload.parameter_id,
            ParameterUpdate::SetLock { parameter_lock: payload.parameter_lock },
        ),
        _ => None,
    }
}

/// A request to set a parameter that no configured parameter answers to
/// changes nothing.
pub proof fn lemma_unknown_parameter_changes_nothing(
    before: EmulatorData,
    after: EmulatorData,
    parameter_id: u8,
    update: ParameterUpdate,
    response: CanMessage,
)
    requires
        same_but_parameters(before, after),
        is_update(before.parameters, parameter_id, update, after.parameters, response),
        before.parameters matches Some(list) ==> none_named(list@, parameter_id),
    ensures
        is_invalid_id(response, parameter_id),
        entry_count(after.parameters) == entry_count(before.parameters),
        before.parameters matches Some(list) ==> after.parameters->0@ == list@,
{
}

/// A request to set a locked parameter leaves its value as it was and is
/// answered with `ParameterLocked` and a zeroed value region.
pub proof fn lemma_locked_parameter_keeps_value(
    before: Vec<Parameter>,
    after: Vec<Parameter>,
    parameter_id: u8,
    value: [u8; 61],
    response: CanMessage,
    i: int,
)
    requires
        is_update(
            Some(before),
            parameter_id,
            ParameterUpdate::SetValue { value },
            Some(after),
            response,
        ),
        is_first_named(before@, parameter_id, i),
        before@[i].locked,
    ensures
        after@ == before@,
        response matches CanMessage::ParameterSetConfirmation { payload } && payload.status
            == ParameterSetStatus::ParameterLocked && payload.value@ == zeros(61),
{
    assert(after@ =~= before@);
}

/// A request to set an unlocked parameter gives it the number in the first
/// four bytes of the value region, leaves the other parameters alone, and
/// is answered with `Success` and the value region as it was sent.
pub proof fn lemma_unlocked_parameter_takes_value(
    before: Vec<Parameter>,
    after: Vec<Parameter>,
    parameter_id: u8,
    value: [u8; 61],
    response: CanMessage,
    i: int,
)
    requires
        is_update(
            Some(before),
            parameter_id,
            ParameterUpdate::SetValue { value },
            Some(after),
            response,
        ),
        is_first_named(before@, parameter_id, i),
        !before@[i].locked,
    ensures
        after@.len() == before@.len(),
        after@[i].value == le_u32(value@),
        after@[i].name == before@[i].name,
        !after@[i].locked,
        forall|j: int| 0 <= j < before@.len() && j != i ==> after@[j] == before@[j],
        response matches CanMessage::ParameterSetConfirmation { payload } && payload.status
            == ParameterSetStatus::Success && payload.value == value,
{
}

} // verus!
