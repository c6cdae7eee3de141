//! Error codes, one per distinct failure so callers and auditors can tell a
//! forgery attempt from a stale attestation or a genuine replay.

use vstd::prelude::*;

verus! {

/// Every way an admission attempt or a permission operation can fail.
/// All failures are terminal for the current attempt; nothing is retried.
#[derive(Clone, Copy, Debug, PartialEq, Eq, Structural)]
pub enum VeiledError {
    /// The attestation buffer is malformed, its validity flag is false, or no
    /// companion signature instruction in the bundle matched it.
    InvalidProof,
    /// The nullifier was already admitted once (replay).
    DuplicateNullifier,
    /// The attestation's timestamp is older than the tolerated window.
    ProofExpired,
    /// The label buffer trims to an empty or non-UTF-8 string.
    DomainTooLong,
    /// Reserved for malformed public inputs.
    InvalidPublicInputs,
    /// A locality index of the companion instruction points at a different
    /// instruction than itself.
    OffsetMismatch,
    /// The companion instruction's payload fails a length or bounds check.
    InvalidInstructionData,
    /// The companion instruction declares a signature count other than one.
    InvalidSignatureCount,
    /// The companion instruction's declared message size is not 41.
    InvalidMessageSize,
    /// The companion message's hash bytes differ from the attested hash.
    ProofHashMismatch,
    /// The companion message's validity-flag byte differs from the attested one.
    IsValidMismatch,
    /// The companion instruction's public key is not the expected authority.
    AuthorityMismatch,
    /// Reserved: a candidate instruction does not target the signature facility.
    BadEd25519Program,
    /// A companion instruction references accounts although the signature
    /// facility is stateless.
    BadEd25519Accounts,
    /// The permission grant was revoked.
    PermissionRevoked,
    /// The permission grant has expired.
    PermissionExpired,
    /// The permission was never granted.
    PermissionNotGranted,
    /// Reserved: the signer may not revoke this grant.
    UnauthorizedRevocation,
    /// More permissions were requested than a grant may hold.
    TooManyPermissions,
}

} // verus!
