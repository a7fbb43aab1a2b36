//! The flat table of a configuration, read into the state of the node.
//!
//! The table is read in steps, one key at a time. The first step that
//! fails ends the reading with its error; what the steps before it stored
//! stays stored.

use crate::config::errors::{ConfigError, ConfigFault};
use crate::config::serde_deserializer::{parse_radix, radix_le_bytes, starts_with};
use crate::config::state_storage::StateStorage;
use crate::text::utf8;
use vstd::prelude::*;
use vstd::string::StringExecFns;

verus! {

/// A value of the table, as far as the node reads it.
#[derive(Clone, Debug, PartialEq, Eq)]
pub enum TableValue {
    Integer(i64),
    Text(String),
    /// Anything else: a truth value, a floating-point number, a date, a
    /// list, a table.
    Other,
}

/// A key of the table and the value under it.
#[derive(Clone, Debug, PartialEq, Eq)]
pub struct TableEntry {
    pub key: String,
    pub value: TableValue,
}

/// How a step reads its value.
#[derive(Clone, Copy, Debug, PartialEq, Eq, Structural)]
pub enum StepKind {
    /// An integer, stored under the key as eight bytes.
    Integer,
    /// Text with a `0b` or `0x` prefix, stored under the key as the bytes of
    /// the number it writes.
    Binary,
    /// The integer under the key with `.value` behind it, stored under the
    /// key with `GenericChannel.` before it as eight bytes.
    Variable,
}

/// One step of the reading.
#[derive(Clone, Debug, PartialEq, Eq)]
pub struct Step {
    pub kind: StepKind,
    pub key: String,
}

/// What a step is.
pub struct StepModel {
    pub kind: StepKind,
    pub key: Seq<char>,
}

impl View for Step {
    type V = StepModel;

    open spec fn view(&self) -> StepModel {
        StepModel { kind: self.kind, key: self.key@ }
    }
}

/// The models of a sequence of steps, one for one.
pub open spec fn step_models(steps: Seq<Step>) -> Seq<StepModel> {
    Seq::new(steps.len(), |i: int| steps[i]@)
}

/// The value under the first entry with this key.
pub open spec fn lookup(table: Seq<TableEntry>, key: Seq<char>) -> Option<TableValue>
    decreases table.len(),
{
    if table.len() == 0 {
        None
    } else if table[0].key@ == key {
        Some(table[0].value)
    } else {
        lookup(table.drop_first(), key)
    }
}

/// The `width` low bytes of `n`, least significant first.
pub open spec fn le_fixed(n: nat, width: nat) -> Seq<u8>
    decreases width,
{
    if width == 0 {
        Seq::empty()
    } else {
        seq![(n % 256) as u8] + le_fixed(n / 256, (width - 1) as nat)
    }
}

/// The number that stands for `v` in 64 bits: `v` itself where it is not
/// negative, and `v` plus two to the 64th where it is.
pub open spec fn twos_complement(v: i64) -> nat {
    if v >= 0 {
        v as nat
    } else {
        (v + 0x1_0000_0000_0000_0000) as nat
    }
}

/// The bytes that text with a `0b` or `0x` prefix writes.
pub open spec fn binary_bytes(text: Seq<u8>) -> Result<Seq<u8>, ConfigFault> {
    if starts_with(text, seq![0x30, 0x62]) {
        match radix_le_bytes(text.skip(2), 2) {
            Some(bytes) => Ok(bytes),
            None => Err(ConfigFault::InvalidNumber { radix: 2 }),
        }
    } else if starts_with(text, seq![0x30, 0x78]) {
        match radix_le_bytes(text.skip(2), 16) {
            Some(bytes) => Ok(bytes),
            None => Err(ConfigFault::InvalidNumber { radix: 16 }),
        }
    } else {
        Err(ConfigFault::InvalidPrefix)
    }
}

/// The key under which a variable step finds its value.
pub open spec fn value_key(key: Seq<char>) -> Seq<char> {
    key + ".value"@
}

/// The key under which a variable step stores its value.
pub open spec fn stored_key(key: Seq<char>) -> Seq<char> {
    "GenericChannel."@ + key
}

/// The state after one step, or the error with which the step fails.
pub open spec fn apply_step(
    step: StepModel,
    table: Seq<TableEntry>,
    state: Map<Seq<char>, Seq<u8>>,
) -> Result<Map<Seq<char>, Seq<u8>>, ConfigFault> {
    match step.kind {
        StepKind::Integer => match lookup(table, step.key) {
            None => Err(ConfigFault::MissingKey { key: step.key }),
            Some(TableValue::Integer(v)) => Ok(
                state.insert(step.key, le_fixed(twos_complement(v), 8)),
            ),
            Some(_) => Err(ConfigFault::InvalidValue { key: step.key }),
        },
        StepKind::Binary => match lookup(table, step.key) {
            None => Err(ConfigFault::MissingKey { key: step.key }),
            Some(TableValue::Text(text)) => match binary_bytes(utf8(text@)) {
                Ok(bytes) => Ok(state.insert(step.key, bytes)),
                Err(fault) => Err(fault),
            },
            Some(_) => Err(ConfigFault::InvalidValue { key: step.key }),
        },
        StepKind::Variable => match lookup(table, value_key(step.key)) {
            None => Err(ConfigFault::MissingKey { key: value_key(step.key) }),
            Some(TableValue::Integer(v)) => if v < 0 {
                Err(ConfigFault::Negative)
            } else {
                Ok(state.insert(stored_key(step.key), le_fixed(v as nat, 8)))
            },
            Some(_) => Err(ConfigFault::InvalidValue { key: value_key(step.key) }),
        },
    }
}

/// The state after the steps, taken in order up to the first that fails,
/// and the error of that step.
pub open spec fn run_steps(
    steps: Seq<StepModel>,
    table: Seq<TableEntry>,
    state: Map<Seq<char>, Seq<u8>>,
) -> (Map<Seq<char>, Seq<u8>>, Option<ConfigFault>)
    decreases steps.len(),
{
    if steps.len() == 0 {
        (state, None)
    } else {
        match apply_step(steps[0], table, state) {
            Err(fault) => (state, Some(fault)),
            Ok(next) => run_steps(steps.drop_first(), table, next),
        }
    }
}

/// The steps that every table is read with, in order.
pub open spec fn fixed_steps() -> Seq<StepModel> {
    seq![
        StepModel { kind: StepKind::Integer, key: "GenericChannel.id"@ },
        StepModel { kind: StepKind::Integer, key: "GenericChannel.GenericReqFlashClear"@ },
        StepModel {
            kind: StepKind::Binary,
            key: "GenericChannel.GenericRequestNodeInfo.firmware_version"@,
        },
        StepModel {
            kind: StepKind::Binary,
            key: "GenericChannel.GenericRequestNodeInfo.channel_mask"@,
        },
        StepModel {
            kind: StepKind::Binary,
            key: "GenericChannel.GenericRequestNodeInfo.channel_type"@,
        },
        StepModel { kind: StepKind::Binary, key: "GenericChannel.GenericReqData.channel_mask"@ },
        StepModel { kind: StepKind::Binary, key: "GenericChannel.GenericReqData.data"@ },
    ]
}

/// Whether a key names a variable.
pub open spec fn is_variable_key(key: Seq<char>) -> bool {
    starts_with(utf8(key), utf8("GenericChannel.variables"@))
}

/// One variable step for every key of the table that names a variable, in
/// the order of the table.
pub open spec fn variable_steps(table: Seq<TableEntry>) -> Seq<StepModel>
    decreases table.len(),
{
    if table.len() == 0 {
        Seq::empty()
    } else if is_variable_key(table.last().key@) {
        variable_steps(table.drop_last()).push(
            StepModel { kind: StepKind::Variable, key: table.last().key@ },
        )
    } else {
        variable_steps(table.drop_last())
    }
}

/// The steps that a table is read with: the fixed ones, then the variables.
pub open spec fn steps_of(table: Seq<TableEntry>) -> Seq<StepModel> {
    fixed_steps() + variable_steps(table)
}

/// The value under the first entry with this key, or the error that the key
/// is missing.
pub fn key_in_table<'a>(table: &'a Vec<TableEntry>, key: &String) -> (result: Result<
    &'a TableValue,
    ConfigError,
>)
    ensures
        result matches Ok(value) ==> lookup(table@, key@) == Some(*value),
        result matches Err(e) ==> lookup(table@, key@) is None && e@ == (ConfigFault::MissingKey {
            key: key@,
        }),
{
    let mut i: usize = 0;
    assert(table@.skip(0) =~= table@);
    while i < table.len()
        invariant
            i <= table@.len(),
            lookup(table@, key@) == lookup(table@.skip(i as int), key@),
        decreases table@.len() - i,
    {
        proof {
            assert(table@.skip(i as int).drop_first() =~= table@.skip(i + 1));
        }
        if table[i].key == *key {
            return Ok(&table[i].value);
        }
        i += 1;
    }
    Err(ConfigError::MissingKey { key: key.clone() })
}

/// The eight bytes of `n`, least significant first.
fn u64_le_8(n: u64) -> (bytes: Vec<u8>)
    ensures
        bytes@ == le_fixed(n as nat, 8),
{
    let mut bytes: Vec<u8> = Vec::new();
    let mut rest: u64 = n;
    let mut i: usize = 0;
    assert(le_fixed(rest as nat, 0) =~= Seq::empty());
    while i < 8
        invariant
            i <= 8,
            bytes@ + le_fixed(rest as nat, (8 - i) as nat) == le_fixed(n as nat, 8),
        decreases 8 - i,
    {
        let ghost before = bytes@;
        bytes.push((rest % 256) as u8);
        proof {
            assert(before + le_fixed(rest as nat, (8 - i) as nat) =~= bytes@ + le_fixed(
                (rest / 256) as nat,
                (8 - i - 1) as nat,
            ));
        }
        rest = rest / 256;
        i += 1;
    }
    assert(le_fixed(rest as nat, 0) =~= Seq::empty());
    assert(bytes@ =~= bytes@ + le_fixed(rest as nat, 0));
    bytes
}

/// The eight bytes of `v` in two's complement, least significant first.
fn i64_le_8(v: i64) -> (bytes: Vec<u8>)
    ensures
        bytes@ == le_fixed(twos_complement(v), 8),
{
    if v >= 0 {
        u64_le_8(v as u64)
    } else {
        let low: u64 = (v - i64::MIN) as u64;
        u64_le_8(low + 0x8000_0000_0000_0000u64)
    }
}

/// Whether `text` starts with the two bytes `first` and `second`.
fn has_prefix(text: &[u8], first: u8, second: u8) -> (found: bool)
    ensures
        found == starts_with(text@, seq![first, second]),
{
    if text.len() >= 2 && text[0] == first && text[1] == second {
        assert(text@.take(2) =~= seq![first, second]);
        true
    } else {
        if text.len() >= 2 {
            assert(text@.take(2)[0] == text@[0]);
            assert(text@.take(2)[1] == text@[1]);
        }
        false
    }
}

/// Stores the integer under `key`, as eight bytes, under the same key.
pub fn get_integer_value_and_set_in_states(
    table: &Vec<TableEntry>,
    key: &String,
    states: &mut StateStorage,
) -> (result: Result<(), ConfigError>)
    ensures
        match apply_step(StepModel { kind: StepKind::Integer, key: key@ }, table@, old(states)@) {
            Ok(next) => result is Ok && final(states)@ == next,
            Err(fault) => result is Err && result->Err_0@ == fault && final(states)@ == old(
                states,
            )@,
        },
{
    let value = match key_in_table(table, key) {
        Ok(value) => value,
        Err(e) => {
            return Err(e);
        },
    };
    match value {
        TableValue::Integer(v) => {
            states.set(key.clone(), i64_le_8(*v));
            Ok(())
        },
        _ => Err(ConfigError::InvalidValue { key: key.clone() }),
    }
}

/// Stores the bytes of the number that the text under `key` writes, under
/// the same key. The text must start with `0b` or `0x`.
pub fn get_binary_data_and_set_in_states(
    table: &Vec<TableEntry>,
    key: &String,
    states: &mut StateStorage,
) -> (result: Result<(), ConfigError>)
    ensures
        match apply_step(StepModel { kind: StepKind::Binary, key: key@ }, table@, old(states)@) {
            Ok(next) => result is Ok && final(states)@ == next,
            Err(fault) => result is Err && result->Err_0@ == fault && final(states)@ == old(
                states,
            )@,
        },
{
    let value = match key_in_table(table, key) {
        Ok(value) => value,
        Err(e) => {
            return Err(e);
        },
    };
    let text = match value {
        TableValue::Text(text) => text.as_str().as_bytes(),
        _ => {
            return Err(ConfigError::InvalidValue { key: key.clone() });
        },
    };
    let radix: u32 = if has_prefix(text, 0x30, 0x62) {
        2
    } else if has_prefix(text, 0x30, 0x78) {
        16
    } else {
        return Err(ConfigError::InvalidPrefix);
    };
    let digits = vstd::slice::slice_subrange(text, 2, text.len());
    assert(digits@ =~= text@.skip(2));
    match parse_radix(digits, radix) {
        Some(bytes) => {
            states.set(key.clone(), bytes);
            Ok(())
        },
        None => Err(ConfigError::InvalidNumber { radix }),
    }
}

/// Stores the value of the variable that `key` names: the integer under
/// the key with `.value` behind it, as eight bytes, under the key with
/// `GenericChannel.` before it.
pub fn get_variable_and_set_in_states(
    table: &Vec<TableEntry>,
    key: &String,
    states: &mut StateStorage,
) -> (result: Result<(), ConfigError>)
    ensures
        match apply_step(StepModel { kind: StepKind::Variable, key: key@ }, table@, old(states)@) {
            Ok(next) => result is Ok && final(states)@ == next,
            Err(fault) => result is Err && result->Err_0@ == fault && final(states)@ == old(
                states,
            )@,
        },
{
    let mut from = key.clone();
    from.append(".value");
    let value = match key_in_table(table, &from) {
        Ok(value) => value,
        Err(e) => {
            return Err(e);
        },
    };
    match value {
        TableValue::Integer(v) => {
            if *v < 0 {
                return Err(ConfigError::Negative);
            }
            let mut to = String::from_str("GenericChannel.");
            to.append(key.as_str());
            states.set(to, u64_le_8(*v as u64));
            Ok(())
        },
        _ => Err(ConfigError::InvalidValue { key: from }),
    }
}

/// Whether a key names a variable.
fn names_variable(key: &String) -> (found: bool)
    ensures
        found == is_variable_key(key@),
{
    let text = key.as_str().as_bytes();
    let prefix = "GenericChannel.variables".as_bytes();
    if text.len() < prefix.len() {
        return false;
    }
    let mut i: usize = 0;
    while i < prefix.len()
        invariant
            i <= prefix@.len(),
            prefix@.len() <= text@.len(),
            text@ == utf8(key@),
            prefix@ == utf8("GenericChannel.variables"@),
            forall|k: int| 0 <= k < i ==> text@[k] == prefix@[k],
        decreases prefix@.len() - i,
    {
        if text[i] != prefix[i] {
            assert(text@.take(prefix@.len() as int)[i as int] != prefix@[i as int]);
            return false;
        }
        i += 1;
    }
    assert(text@.take(prefix@.len() as int) =~= prefix@);
    true
}

/// The steps that a table is read with.
pub fn steps_for(table: &Vec<TableEntry>) -> (steps: Vec<Step>)
    ensures
        step_models(steps@) == steps_of(table@),
{
    let mut steps: Vec<Step> = Vec::new();
    steps.push(Step { kind: StepKind::Integer, key: String::from_str("GenericChannel.id") });
    steps.push(
        Step {
            kind: StepKind::Integer,
            key: String::from_str("GenericChannel.GenericReqFlashClear"),
        },
    );
    steps.push(
        Step {
            kind: StepKind::Binary,
            key: String::from_str("GenericChannel.GenericRequestNodeInfo.firmware_version"),
        },
    );
    steps.push(
        Step {
            kind: StepKind::Binary,
            key: String::from_str("GenericChannel.GenericRequestNodeInfo.channel_mask"),
        },
    );
    steps.push(
        Step {
            kind: StepKind::Binary,
            key: String::from_str("GenericChannel.GenericRequestNodeInfo.channel_type"),
        },
    );
    steps.push(
        Step {
            kind: StepKind::Binary,
            key: String::from_str("GenericChannel.GenericReqData.channel_mask"),
        },
    );
    steps.push(
        Step { kind: StepKind::Binary, key: String::from_str("GenericChannel.GenericReqData.data") },
    );
    assert(step_models(steps@) =~= fixed_steps());
    let mut i: usize = 0;
    assert(table@.take(0) =~= Seq::empty());
    assert(step_models(steps@) =~= fixed_steps() + variable_steps(table@.take(0)));
    while i < table.len()
        invariant
            i <= table@.len(),
            step_models(steps@) == fixed_steps() + variable_steps(table@.take(i as int)),
        decreases table@.len() - i,
    {
        let ghost before = step_models(steps@);
        proof {
            assert(table@.take(i + 1).drop_last() =~= table@.take(i as int));
        }
        if names_variable(&table[i].key) {
            steps.push(Step { kind: StepKind::Variable, key: table[i].key.clone() });
            assert(step_models(steps@) =~= before.push(
                StepModel { kind: StepKind::Variable, key: table@[i as int].key@ },
            ));
            assert(step_models(steps@) =~= fixed_steps() + variable_steps(table@.take(i + 1)));
        }
        i += 1;
    }
    assert(table@.take(table@.len() as int) =~= table@);
    steps
}

/// Reads the table into the state, one step after the other. The first
/// step that fails ends the reading with its error; what the steps before
/// it stored stays stored.
pub fn parse_generic_command_arguments(table: &Vec<TableEntry>, states: &mut StateStorage) -> (result:
    Result<(), ConfigError>)
    ensures
        final(states)@ == run_steps(steps_of(table@), table@, old(states)@).0,
        match run_steps(steps_of(table@), table@, old(states)@).1 {
            None => result is Ok,
            Some(fault) => result is Err && result->Err_0@ == fault,
        },
{
    let steps = steps_for(table);
    let ghost models = step_models(steps@);
    let ghost start = states@;
    let mut i: usize = 0;
    assert(models.skip(0) =~= models);
    while i < steps.len()
        invariant
            i <= steps@.len(),
            models == step_models(steps@),
            models == steps_of(table@),
            start == old(states)@,
            run_steps(models, table@, start) == run_steps(models.skip(i as int), table@, states@),
        decreases steps@.len() - i,
    {
        proof {
            assert(models.skip(i as int).drop_first() =~= models.skip(i + 1));
            assert(models.skip(i as int)[0] == steps@[i as int]@);
        }
        let step = &steps[i];
        let done = match step.kind {
            StepKind::Integer => get_integer_value_and_set_in_states(table, &step.key, states),
            StepKind::Binary => get_binary_data_and_set_in_states(table, &step.key, states),
            StepKind::Variable => get_variable_and_set_in_states(table, &step.key, states),
        };
        match done {
            Ok(_) => {},
            Err(e) => {
                return Err(e);
            },
        }
        i += 1;
    }
    Ok(())
}

} // verus!
