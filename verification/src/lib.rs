//! Verification-key handling, weights and proof-verification decisions of the
//! Halo2 (zkMove circuit) verifier.

pub mod error;
pub mod halo2;
pub mod vk;
pub mod weight;

pub use error::VerifyError;
pub use halo2::{Config, Halo2, Proof, Pubs};
pub use vk::{CircuitType, Vk, PUBS_SIZE, VK_SIZE};
pub use weight::{Halo2Weight, Weight, WeightInfo};
