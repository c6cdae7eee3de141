//! Attestation records: a fixed 105-byte buffer claiming that a proof was
//! checked off-chain, decoded into a structured record, plus the 41-byte
//! message a designated authority must have signed over it, and the freshness
//! check that bounds the replay window.

use vstd::prelude::*;

use crate::bytes::{copy_range, le64, le64_bytes, lemma_le64_roundtrip, push_all, read_u64_le};
use crate::ed25519::{
    instruction_models, scan_for_match, verify_ed25519_instruction, CompanionInstruction,
};
use crate::errors::VeiledError;

verus! {

/// Seconds an attestation stays acceptable after its embedded timestamp.
pub const MAX_ATTESTATION_AGE: i64 = 300;

/// A decoded attestation: the claim that a proof was checked off-chain and
/// found valid or invalid, plus the material to prove who said so and when.
pub struct VerificationResult {
    /// Whether the off-chain check found the proof valid.
    pub is_valid: bool,
    /// Hash of the checked proof; binds the attestation to one proof.
    pub proof_hash: Vec<u8>,
    /// Unix seconds at which the off-chain check ran.
    pub timestamp: u64,
    /// The authority's signature over the signed message.
    pub verifier_signature: Vec<u8>,
}

/// The mathematical value of an attestation.
pub struct AttestationModel {
    pub is_valid: bool,
    pub proof_hash: Seq<u8>,
    pub timestamp: u64,
    pub verifier_signature: Seq<u8>,
}

impl View for VerificationResult {
    type V = AttestationModel;

    open spec fn view(&self) -> AttestationModel {
        AttestationModel {
            is_valid: self.is_valid,
            proof_hash: self.proof_hash@,
            timestamp: self.timestamp,
            verifier_signature: self.verifier_signature@,
        }
    }
}

impl AttestationModel {
    /// The hash is 32 bytes and the signature 64.
    pub open spec fn wf(self) -> bool {
        self.proof_hash.len() == 32 && self.verifier_signature.len() == 64
    }
}

/// The attestation encoded in the first 105 bytes of `s`:
/// `[validity flag (1)][proof hash (32)][timestamp LE (8)][signature (64)]`.
pub open spec fn decoded_attestation(s: Seq<u8>) -> AttestationModel
    recommends
        s.len() >= 105,
{
    AttestationModel {
        is_valid: s[0] == 1,
        proof_hash: s.subrange(1, 33),
        timestamp: le64(s.subrange(33, 41)) as u64,
        verifier_signature: s.subrange(41, 105),
    }
}

/// The 105-byte encoding of an attestation.
pub open spec fn attestation_bytes(
    is_valid: bool,
    proof_hash: Seq<u8>,
    timestamp: u64,
    signature: Seq<u8>,
) -> Seq<u8> {
    seq![if is_valid { 1u8 } else { 0u8 }] + proof_hash + le64_bytes(timestamp) + signature
}

/// The 41-byte message the authority signs:
/// `proof hash (32) ‖ validity flag (1) ‖ timestamp LE (8)`.
/// It is reconstructed from the decoded attestation, never read from input.
pub open spec fn signed_message(a: AttestationModel) -> Seq<u8> {
    a.proof_hash + seq![if a.is_valid { 1u8 } else { 0u8 }] + le64_bytes(a.timestamp)
}

impl VerificationResult {
    /// Parses an attestation from an instruction payload. Buffers shorter
    /// than 105 bytes are malformed; bytes past the first 105 are ignored.
    pub fn from_instruction_data(data: &Vec<u8>) -> (r: Result<VerificationResult, VeiledError>)
        ensures
            data@.len() < 105 ==> r == Err::<VerificationResult, VeiledError>(
                VeiledError::InvalidProof,
            ),
            data@.len() >= 105 ==> (r matches Ok(v) && v@ == decoded_attestation(data@)
                && v@.wf()),
    {
        if data.len() < 105 {
            return Err(VeiledError::InvalidProof);
        }
        let is_valid = data[0] == 1;
        let proof_hash = copy_range(data, 1, 32);
        let timestamp = read_u64_le(data, 33);
        let verifier_signature = copy_range(data, 41, 64);
        let v = VerificationResult { is_valid, proof_hash, timestamp, verifier_signature };
        assert(v@ == decoded_attestation(data@));
        Ok(v)
    }

    /// Builds the 41-byte signed message for this attestation.
    pub fn build_signed_message(&self) -> (m: Vec<u8>)
        requires
            self@.wf(),
        ensures
            m@ == signed_message(self@),
            m@.len() == 41,
    {
        let mut m: Vec<u8> = Vec::new();
        push_all(&mut m, &self.proof_hash);
        m.push(if self.is_valid { 1u8 } else { 0u8 });
        crate::bytes::push_u64_le(&mut m, self.timestamp);
        assert(m@ =~= signed_message(self@));
        m
    }

    /// Validates that a signature-facility instruction in the bundle's
    /// instructions before `current_index` proves the verifier signed exactly
    /// this attestation's 41-byte message. The curve arithmetic is the
    /// facility's; this method only reconstructs the message and demands a
    /// byte-exact covering instruction.
    pub fn validate_signature(
        &self,
        verifier_pubkey: &Vec<u8>,
        instructions: &Vec<CompanionInstruction>,
        current_index: usize,
    ) -> (r: Result<(), VeiledError>)
        requires
            self@.wf(),
            verifier_pubkey@.len() == 32,
            current_index <= instructions@.len(),
        ensures
            r == scan_for_match(
                instruction_models(instructions@),
                current_index as int,
                verifier_pubkey@,
                signed_message(self@),
                self.verifier_signature@,
            ),
    {
        let message = self.build_signed_message();
        verify_ed25519_instruction(
            instructions,
            current_index,
            verifier_pubkey,
            &message,
            &self.verifier_signature,
        )
    }

    /// Rejects attestations older than `MAX_ATTESTATION_AGE` seconds. The age
    /// is the exact mathematical difference, never wrapped or saturated, so a
    /// timestamp at or ahead of the clock always passes and a wildly old one
    /// always fails. This check is independent of any signature material.
    pub fn is_recent(&self, current_timestamp: i64) -> (r: Result<(), VeiledError>)
        ensures
            r == (if current_timestamp - self.timestamp > MAX_ATTESTATION_AGE {
                Err::<(), VeiledError>(VeiledError::ProofExpired)
            } else {
                Ok::<(), VeiledError>(())
            }),
    {
        let age: i128 = current_timestamp as i128 - self.timestamp as i128;
        if age > MAX_ATTESTATION_AGE as i128 {
            Err(VeiledError::ProofExpired)
        } else {
            Ok(())
        }
    }
}

/// Formats the 105-byte attestation buffer a client submits.
pub fn create_instruction_data(
    is_valid: bool,
    proof_hash: &Vec<u8>,
    timestamp: u64,
    signature: &Vec<u8>,
) -> (r: Vec<u8>)
    requires
        proof_hash@.len() == 32,
        signature@.len() == 64,
    ensures
        r@ == attestation_bytes(is_valid, proof_hash@, timestamp, signature@),
        r@.len() == 105,
{
    let mut r: Vec<u8> = Vec::new();
    r.push(if is_valid { 1u8 } else { 0u8 });
    push_all(&mut r, proof_hash);
    crate::bytes::push_u64_le(&mut r, timestamp);
    push_all(&mut r, signature);
    assert(r@ =~= attestation_bytes(is_valid, proof_hash@, timestamp, signature@));
    r
}

/// Decoding reads only the first 105 bytes: two buffers that agree on them
/// decode to the same attestation.
pub proof fn lemma_decode_reads_prefix_only(s1: Seq<u8>, s2: Seq<u8>)
    requires
        s1.len() >= 105,
        s2.len() >= 105,
        s1.subrange(0, 105) == s2.subrange(0, 105),
    ensures
        decoded_attestation(s1) == decoded_attestation(s2),
{
    let p1 = s1.subrange(0, 105);
    let p2 = s2.subrange(0, 105);
    assert forall|j: int| 0 <= j < 105 implies s1[j] == s2[j] by {
        assert(p1[j] == p2[j]);
        assert(p1[j] == s1[0 + j]);
        assert(p2[j] == s2[0 + j]);
    }
    assert(s1.subrange(1, 33) =~= s2.subrange(1, 33));
    assert(s1.subrange(33, 41) =~= s2.subrange(33, 41));
    assert(s1.subrange(41, 105) =~= s2.subrange(41, 105));
}

/// Encoding then decoding an attestation gives back its fields.
pub proof fn lemma_encode_decode_roundtrip(
    is_valid: bool,
    proof_hash: Seq<u8>,
    timestamp: u64,
    signature: Seq<u8>,
)
    requires
        proof_hash.len() == 32,
        signature.len() == 64,
    ensures
        decoded_attestation(attestation_bytes(is_valid, proof_hash, timestamp, signature))
            == (AttestationModel { is_valid, proof_hash, timestamp, verifier_signature: signature }),
{
    let s = attestation_bytes(is_valid, proof_hash, timestamp, signature);
    assert(s.len() == 105);
    assert(s[0] == if is_valid { 1u8 } else { 0u8 });
    assert((s[0] == 1) == is_valid);
    assert(s.subrange(1, 33) =~= proof_hash);
    assert(s.subrange(33, 41) =~= le64_bytes(timestamp));
    lemma_le64_roundtrip(timestamp);
    assert(s.subrange(41, 105) =~= signature);
}

} // verus!
