use core::marker::PhantomData;
use vstd::prelude::*;

use crate::error::VerifyError;
use crate::vk::Vk;
use crate::weight::Weight;

verus! {

/// Proof bytes, as submitted.
pub type Proof = Vec<u8>;

/// Public-input bytes, as submitted.
pub type Pubs = Vec<u8>;

/// The SHA2-256 digest of `data`.
pub uninterp spec fn sha2_256_digest(data: Seq<u8>) -> Seq<u8>;

/// `sp_io::hashing::sha2_256`: the SHA2-256 digest of `data` (computed by
/// `sp_crypto_hashing::sha2_256`, i.e. `sha2::Sha256::digest`). The digest is
/// named, not spelled out.
#[verifier::external_body]
fn sha2_256(data: &[u8]) -> (h: [u8; 32])
    ensures
        h@ == sha2_256_digest(data@),
{
    sp_io::hashing::sha2_256(data)
}

/// Runtime configuration of the verifier.
pub trait Config {
    /// The most public-input bytes a runtime accepts.
    fn max_pubs() -> u32;
}

/// The Halo2 verifier for zkMove circuits, configured by a runtime `T`.
pub struct Halo2<T> {
    config: PhantomData<T>,
}

/// The bytes `"halo2"` that name this verifier's context in statement hashes.
pub open spec fn halo2_context() -> Seq<u8> {
    seq![104u8, 97u8, 108u8, 111u8, 50u8]
}

/// What `validate_vk` answers when decoding the key succeeded (`decoded_ok`)
/// or failed.
pub open spec fn validate_vk_answer(decoded_ok: bool) -> Result<(), VerifyError> {
    if decoded_ok {
        Ok(())
    } else {
        Err(VerifyError::InvalidVerificationKey)
    }
}

/// What `verify_proof` answers when decoding the key succeeded (`decoded_ok`)
/// or failed, the proof being accepted by the circuit verifier.
pub open spec fn verify_proof_answer(decoded_ok: bool) -> Result<Option<Weight>, VerifyError> {
    if decoded_ok {
        Ok(None)
    } else {
        Err(VerifyError::InvalidVerificationKey)
    }
}

impl<T: Config> Halo2<T> {
    /// The context bytes of this verifier: `"halo2"`.
    pub fn hash_context_data() -> (r: &'static [u8])
        ensures
            r@ == halo2_context(),
    {
        let r: &'static [u8] = &[104u8, 97u8, 108u8, 111u8, 50u8];
        assert(r@ =~= halo2_context());
        r
    }

    /// Decodes a verification key for its circuit: `decoded` is what decoding
    /// `vk`'s bytes as a key of `vk`'s circuit gave. A key comes back as it
    /// was decoded; any decoding error becomes `InvalidVerificationKey`.
    pub fn deserialize_vk<K, E>(vk: &Vk, decoded: Result<K, E>) -> (r: Result<K, VerifyError>)
        ensures
            decoded matches Ok(key) ==> r == Ok::<K, VerifyError>(key),
            decoded is Err ==> r == Err::<K, VerifyError>(VerifyError::InvalidVerificationKey),
    {
        match vk.circuit() {
            crate::vk::CircuitType::ZkMove => match decoded {
                Ok(key) => Ok(key),
                Err(_) => Err(VerifyError::InvalidVerificationKey),
            },
        }
    }

    /// Checks that a verification key decodes for its circuit.
    pub fn validate_vk<K, E>(vk: &Vk, decoded: Result<K, E>) -> (r: Result<(), VerifyError>)
        ensures
            r == validate_vk_answer(decoded is Ok),
    {
        match Self::deserialize_vk(vk, decoded) {
            Ok(_) => Ok(()),
            Err(_) => Err(VerifyError::InvalidVerificationKey),
        }
    }

    /// Verifies a proof against a key and public inputs. `decoded` is what
    /// decoding the key gave and `accepted` whether the circuit verifier
    /// accepted the proof for the key and inputs; a rejected proof for a key
    /// that decodes is outside what this function answers.
    pub fn verify_proof<K, E>(vk: &Vk, decoded: Result<K, E>, accepted: bool) -> (r: Result<
        Option<Weight>,
        VerifyError,
    >)
        requires
            decoded is Ok ==> accepted,
        ensures
            r == verify_proof_answer(decoded is Ok),
    {
        match Self::deserialize_vk(vk, decoded) {
            Ok(_) => Ok(None),
            Err(e) => Err(e),
        }
    }

    /// The hash that identifies a verification key: SHA2-256 of its key
    /// bytes alone (circuit and `k` are not hashed).
    pub fn vk_hash(vk: &Vk) -> (h: [u8; 32])
        ensures
            h@ == sha2_256_digest(vk.vk@),
    {
        sha2_256(Self::vk_bytes(vk))
    }

    /// The bytes of a verification key that identify it: its key bytes.
    pub fn vk_bytes(vk: &Vk) -> (r: &[u8])
        ensures
            r@ == vk.vk@,
    {
        vk.get_vk().as_slice()
    }

    /// The bytes of the public inputs: the inputs themselves.
    pub fn pubs_bytes(pubs: &Pubs) -> (r: &[u8])
        ensures
            r@ == pubs@,
    {
        pubs.as_slice()
    }
}

/// Two keys with the same key bytes have the same hash, whatever their
/// circuit and size parameter: `vk_hash` hashes the key bytes only.
pub proof fn lemma_vk_hash_ignores_circuit_and_k(a: Vk, b: Vk)
    requires
        a.vk@ == b.vk@,
    ensures
        sha2_256_digest(a.vk@) == sha2_256_digest(b.vk@),
{
}

/// `verify_proof` refuses exactly the keys that `validate_vk` refuses, and
/// with the same error.
pub proof fn lemma_verify_proof_refuses_what_validate_vk_refuses(decoded_ok: bool)
    ensures
        verify_proof_answer(decoded_ok) is Err <==> validate_vk_answer(decoded_ok) is Err,
        verify_proof_answer(decoded_ok) is Err ==> verify_proof_answer(decoded_ok)
            == Err::<Option<Weight>, VerifyError>(VerifyError::InvalidVerificationKey)
            && validate_vk_answer(decoded_ok) == Err::<(), VerifyError>(
            VerifyError::InvalidVerificationKey,
        ),
{
}

} // verus!
