use vstd::prelude::*;

verus! {

/// Why a verifier refuses a request.
#[derive(Clone, Copy, Debug, PartialEq, Eq, Structural)]
pub enum VerifyError {
    /// The input is malformed.
    InvalidInput,
    /// The proof bytes are malformed.
    InvalidProofData,
    /// The proof does not verify.
    VerifyError,
    /// The verification key cannot be decoded for its circuit.
    InvalidVerificationKey,
}

} // verus!
