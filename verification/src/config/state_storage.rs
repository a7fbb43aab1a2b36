//! The state of the node: byte blobs under string keys. A key that was never
//! set reads as zeros, so that no command fails for want of configuration.

use crate::le_bytes::{copy_bytes_to_array, fit_to, le_u32, u32_from_le_bytes, zeros};
use vstd::hash_map::StringHashMap;
use vstd::prelude::*;

verus! {

/// The state of the node.
pub struct StateStorage {
    storage: StringHashMap<Vec<u8>>,
}

/// The first `n` bytes stored under `key`, zero-filled where fewer are
/// stored; zeros where nothing is stored.
pub open spec fn bytes_or_zeros(state: Map<Seq<char>, Seq<u8>>, key: Seq<char>, n: nat) -> Seq<
    u8,
> {
    if state.contains_key(key) {
        fit_to(state[key], n)
    } else {
        zeros(n)
    }
}

/// The number stored under `key`, least significant byte first; zero where
/// nothing is stored.
pub open spec fn u32_or_zero(state: Map<Seq<char>, Seq<u8>>, key: Seq<char>) -> u32 {
    le_u32(bytes_or_zeros(state, key, 4))
}

/// The first byte stored under `key`; zero where nothing is stored.
pub open spec fn u8_or_zero(state: Map<Seq<char>, Seq<u8>>, key: Seq<char>) -> u8 {
    bytes_or_zeros(state, key, 1)[0]
}

impl View for StateStorage {
    type V = Map<Seq<char>, Seq<u8>>;

    closed spec fn view(&self) -> Map<Seq<char>, Seq<u8>> {
        self.storage@.map_values(|bytes: Vec<u8>| bytes@)
    }
}

impl StateStorage {
    /// The state in which nothing is stored.
    pub fn new() -> (state: Self)
        ensures
            state@ == Map::<Seq<char>, Seq<u8>>::empty(),
    {
        let state = StateStorage { storage: StringHashMap::new() };
        assert(state@ =~= Map::<Seq<char>, Seq<u8>>::empty());
        state
    }

    /// Stores `value` under `key`, in place of what was there.
    pub fn set(&mut self, key: String, value: Vec<u8>)
        ensures
            final(self)@ == old(self)@.insert(key@, value@),
    {
        self.storage.insert(key, value);
        assert(self@ =~= old(self)@.insert(key@, value@));
    }

    /// What is stored under `key`.
    pub fn get(&self, key: String) -> (found: Option<&Vec<u8>>)
        ensures
            found is Some <==> self@.contains_key(key@),
            found matches Some(value) ==> value@ == self@[key@],
    {
        self.storage.get(key.as_str())
    }

    /// The number stored under `key`, or zero.
    pub fn get_u32_or_zero(&self, key: String) -> (value: u32)
        ensures
            value == u32_or_zero(self@, key@),
    {
        let bytes = self.get_value_slice_or_zeros::<4>(key);
        u32_from_le_bytes(bytes.as_slice())
    }

    /// The byte stored under `key`, or zero.
    pub fn get_u8_or_zero(&self, key: String) -> (value: u8)
        ensures
            value == u8_or_zero(self@, key@),
    {
        let bytes = self.get_value_slice_or_zeros::<1>(key);
        bytes[0]
    }

    /// The first `N` bytes stored under `key`, zero-filled where fewer are
    /// stored; zeros where nothing is stored.
    pub fn get_value_slice_or_zeros<const N: usize>(&self, key: String) -> (bytes: [u8; N])
        ensures
            bytes@ == bytes_or_zeros(self@, key@, N as nat),
    {
        match self.get(key) {
            Some(value) => copy_bytes_to_array::<N>(value.as_slice()),
            None => {
                let bytes: [u8; N] = [0u8; N];
                assert(bytes@ =~= zeros(N as nat));
                bytes
            },
        }
    }
}

} // verus!
