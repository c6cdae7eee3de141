//! The admission controller: decodes an attestation, validates its label,
//! proves a companion signature instruction covers it, checks freshness and
//! the validity flag, and only then admits the nullifier into the registry.
//! Every step must succeed in sequence; any failure leaves the registry
//! unchanged.

use vstd::prelude::*;
use vstd::utf8::{decode_utf8, valid_utf8};

use crate::bytes::copy_range;
use crate::ed25519::{instruction_models, scan_for_match, CompanionInstruction, InstructionModel};
use crate::errors::VeiledError;
use crate::registry::{admit_model, NullifierRegistry, RecordModel, RECORD_LIFETIME};
use crate::ultrahonk::{decoded_attestation, signed_message, VerificationResult,
    MAX_ATTESTATION_AGE};

verus! {

/// Length of the label in a 32-byte label buffer: everything before the first
/// zero byte, or the whole buffer when no byte is zero.
pub open spec fn label_len(domain: Seq<u8>) -> int {
    match domain.index_of_first(0u8) {
        Some(i) => i,
        None => domain.len() as int,
    }
}

/// Trims a label buffer at its first zero byte.
pub fn trim_label(domain: &Vec<u8>) -> (r: Vec<u8>)
    ensures
        r@ == domain@.subrange(0, label_len(domain@)),
{
    let n = domain.len();
    let mut i: usize = 0;
    while i < n
        invariant
            i <= n,
            domain@.len() == n,
            forall|j: int| 0 <= j < i ==> domain@[j] != 0u8,
        decreases n - i,
    {
        if domain[i] == 0 {
            proof {
                domain@.index_of_first_ensures(0u8);
                assert(domain@[i as int] == 0u8);
                assert(label_len(domain@) == i);
            }
            return copy_range(domain, 0, i);
        }
        i = i + 1;
    }
    proof {
        domain@.index_of_first_ensures(0u8);
        assert(label_len(domain@) == n as int);
    }
    copy_range(domain, 0, n)
}

/// Relies on core::str::from_utf8: it returns a string slice over exactly the
/// given bytes when they are valid UTF-8, and fails otherwise.
#[verifier::external_body]
fn bytes_as_str(b: &Vec<u8>) -> (r: Option<&str>)
    ensures
        r is Some <==> valid_utf8(b@),
        r matches Some(s) ==> vstd::utf8::encode_utf8(s@) == b@,
{
    core::str::from_utf8(b.as_slice()).ok()
}

/// The outcome of one admission attempt over the registry `m`: either the new
/// registry contents, or the exact error and `m` untouched. The steps run in
/// this order: label trimming and UTF-8 validation, attestation decoding,
/// companion-signature matching, freshness, the validity flag, and last the
/// at-most-once nullifier admission.
pub open spec fn admission_outcome(
    m: Seq<RecordModel>,
    data: Seq<u8>,
    nullifier: Seq<u8>,
    domain: Seq<u8>,
    verifier_pubkey: Seq<u8>,
    instrs: Seq<InstructionModel>,
    upto: int,
    now: i64,
) -> Result<Seq<RecordModel>, VeiledError> {
    let lab = domain.subrange(0, label_len(domain));
    if lab.len() <= 0 {
        Err(VeiledError::DomainTooLong)
    } else if !valid_utf8(lab) {
        Err(VeiledError::DomainTooLong)
    } else if data.len() < 105 {
        Err(VeiledError::InvalidProof)
    } else {
        let att = decoded_attestation(data);
        match scan_for_match(instrs, upto, verifier_pubkey, signed_message(att),
            att.verifier_signature) {
            Err(e) => Err(e),
            Ok(_) => if now - att.timestamp > MAX_ATTESTATION_AGE {
                Err(VeiledError::ProofExpired)
            } else if !att.is_valid {
                Err(VeiledError::InvalidProof)
            } else {
                admit_model(m, nullifier, decode_utf8(lab), now)
            },
        }
    }
}

/// Validates one admission request end to end and commits the nullifier to
/// the registry only if every step succeeds; on any failure the registry is
/// left exactly as it was.
pub fn verify_auth(
    registry: &mut NullifierRegistry,
    verification_result: &Vec<u8>,
    nullifier: Vec<u8>,
    domain: &Vec<u8>,
    verifier_pubkey: &Vec<u8>,
    instructions: &Vec<CompanionInstruction>,
    current_index: usize,
    now: i64,
) -> (r: Result<(), VeiledError>)
    requires
        old(registry).wf(),
        domain@.len() == 32,
        verifier_pubkey@.len() == 32,
        current_index <= instructions@.len(),
        now + RECORD_LIFETIME <= i64::MAX,
    ensures
        final(registry).wf(),
        admission_outcome(
            old(registry)@,
            verification_result@,
            nullifier@,
            domain@,
            verifier_pubkey@,
            instruction_models(instructions@),
            current_index as int,
            now,
        ) matches Ok(m2) ==> (r == Ok::<(), VeiledError>(()) && final(registry)@ == m2),
        admission_outcome(
            old(registry)@,
            verification_result@,
            nullifier@,
            domain@,
            verifier_pubkey@,
            instruction_models(instructions@),
            current_index as int,
            now,
        ) matches Err(e) ==> (r == Err::<(), VeiledError>(e) && final(registry)@ == old(
            registry,
        )@),
{
    let trimmed = trim_label(domain);
    if trimmed.len() == 0 {
        return Err(VeiledError::DomainTooLong);
    }
    let s_opt = bytes_as_str(&trimmed);
    if s_opt.is_none() {
        return Err(VeiledError::DomainTooLong);
    }
    let s = s_opt.unwrap();
    proof {
        vstd::utf8::encode_utf8_decode_utf8(s@);
    }
    let domain_str = s.to_owned();
    assert(domain_str@ == decode_utf8(trimmed@));

    let att = match VerificationResult::from_instruction_data(verification_result) {
        Ok(v) => v,
        Err(e) => {
            return Err(e);
        },
    };
    match att.validate_signature(verifier_pubkey, instructions, current_index) {
        Ok(_) => {},
        Err(e) => {
            return Err(e);
        },
    }
    match att.is_recent(now) {
        Ok(_) => {},
        Err(e) => {
            return Err(e);
        },
    }
    if !att.is_valid {
        return Err(VeiledError::InvalidProof);
    }
    match registry.admit_nullifier(nullifier, domain_str, now) {
        Ok(_) => Ok(()),
        Err(e) => Err(e),
    }
}

/// A stale attestation is never admitted, whatever the signature material,
/// the label, or the registry contents: when the decoded timestamp is more
/// than `MAX_ATTESTATION_AGE` seconds before `now`, the outcome is an error.
pub proof fn lemma_stale_never_admitted(
    m: Seq<RecordModel>,
    data: Seq<u8>,
    nullifier: Seq<u8>,
    domain: Seq<u8>,
    verifier_pubkey: Seq<u8>,
    instrs: Seq<InstructionModel>,
    upto: int,
    now: i64,
)
    requires
        data.len() >= 105 ==> now - decoded_attestation(data).timestamp > MAX_ATTESTATION_AGE,
    ensures
        admission_outcome(m, data, nullifier, domain, verifier_pubkey, instrs, upto, now) is Err,
{
}

/// Replay protection, end to end: once an admission attempt for a nullifier
/// has succeeded, no later attempt with the same nullifier succeeds, whatever
/// its attestation, label, bundle or clock reading.
pub proof fn lemma_replay_never_admitted(
    m: Seq<RecordModel>,
    data1: Seq<u8>,
    domain1: Seq<u8>,
    pk1: Seq<u8>,
    instrs1: Seq<InstructionModel>,
    upto1: int,
    now1: i64,
    data2: Seq<u8>,
    domain2: Seq<u8>,
    pk2: Seq<u8>,
    instrs2: Seq<InstructionModel>,
    upto2: int,
    now2: i64,
    nullifier: Seq<u8>,
)
    requires
        admission_outcome(m, data1, nullifier, domain1, pk1, instrs1, upto1, now1) is Ok,
    ensures
        admission_outcome(m, data1, nullifier, domain1, pk1, instrs1, upto1, now1) matches Ok(m2)
            ==> admission_outcome(m2, data2, nullifier, domain2, pk2, instrs2, upto2, now2) is Err,
{
    let m2 = admission_outcome(m, data1, nullifier, domain1, pk1, instrs1, upto1, now1)->Ok_0;
    let lab1 = domain1.subrange(0, label_len(domain1));
    assert(m2 == admit_model(m, nullifier, decode_utf8(lab1), now1)->Ok_0);
    assert(m2[m.len() as int].nullifier == nullifier);
    assert(crate::registry::contains_nullifier(m2, nullifier));
}

} // verus!
