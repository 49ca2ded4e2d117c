use parity_scale_codec::{Compact, MaxEncodedLen};
use vstd::prelude::*;

verus! {

/// Largest number of public-input bytes the verifier is sized for.
pub const PUBS_SIZE: usize = 1024;

/// Largest number of verification-key bytes the verifier is sized for.
pub const VK_SIZE: usize = 1024;

/// The circuits whose verification keys the verifier knows how to decode.
#[derive(Clone, Copy, Debug, PartialEq, Eq, Structural)]
pub enum CircuitType {
    /// The zkMove virtual-machine circuit.
    ZkMove,
}

/// A verification key: its serialized bytes, the circuit they belong to, and
/// the size parameter `k` (the circuit has `2^k` rows).
#[derive(Clone, Debug, PartialEq, Eq)]
pub struct Vk {
    pub vk: Vec<u8>,
    pub circuit: CircuitType,
    pub k: u32,
}

/// `Compact::<u32>::max_encoded_len()` of parity-scale-codec: the source
/// (`impl_compact!`, `u32 => 5`) returns the constant 5, the longest SCALE
/// compact encoding of a `u32`.
#[verifier::external_body]
fn compact_u32_max_encoded_len() -> (n: usize)
    ensures
        n == 5,
{
    <Compact<u32> as MaxEncodedLen>::max_encoded_len()
}

impl Vk {
    /// Builds a key from its parts.
    pub fn new(vk: Vec<u8>, circuit: CircuitType, k: u32) -> (r: Self)
        ensures
            r.vk@ == vk@,
            r.circuit == circuit,
            r.k == k,
    {
        Vk { vk, circuit, k }
    }

    /// The serialized key bytes.
    pub fn get_vk(&self) -> (r: &Vec<u8>)
        ensures
            r@ == self.vk@,
    {
        &self.vk
    }

    /// The circuit the key belongs to.
    pub fn circuit(&self) -> (r: &CircuitType)
        ensures
            *r == self.circuit,
    {
        &self.circuit
    }

    /// The circuit size parameter.
    pub fn get_k(&self) -> (r: u32)
        ensures
            r == self.k,
    {
        self.k
    }

    /// The bound on a key's encoded size that the verifier declares: the
    /// longest compact `u32` length prefix plus `VK_SIZE` key bytes.
    pub fn max_encoded_len() -> (n: usize)
        ensures
            n == 5 + VK_SIZE,
    {
        compact_u32_max_encoded_len() + VK_SIZE
    }
}

} // verus!
