//! Admission of off-chain-produced attestations into durable state.
//!
//! An attestation ("verification result") is a 105-byte record claiming that a
//! proof was checked off-chain. It is admitted only if it is well-formed, was
//! produced recently, is covered by a companion signature-verification
//! instruction in the same execution bundle, and carries a nullifier that was
//! never admitted before.

pub mod admission;
pub mod bytes;
pub mod ed25519;
pub mod errors;
pub mod permissions;
pub mod registry;
pub mod ultrahonk;

pub use errors::VeiledError;
pub use registry::NullifierAccount;
pub use registry::NullifierRegistry;
pub use ultrahonk::VerificationResult;
