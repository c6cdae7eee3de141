//! End-to-end admission scenarios and the decoder, freshness, matcher and
//! registry properties on concrete values.

use veiled::admission::verify_auth;
use veiled::ed25519::{
    ed25519_ix_matches, AccountMeta, ed25519_program_id_bytes, verify_ed25519_instruction, CompanionInstruction,
};
use veiled::registry::RECORD_LIFETIME;
use veiled::ultrahonk::create_instruction_data;
use veiled::{NullifierRegistry, VeiledError, VerificationResult};

// The 41-byte signed message: hash (32) || validity flag (1) || timestamp LE (8).
fn signed_message(hash: &[u8; 32], is_valid: bool, timestamp: u64) -> Vec<u8> {
    let mut m = Vec::new();
    m.extend_from_slice(hash);
    m.push(if is_valid { 1 } else { 0 });
    m.extend_from_slice(&timestamp.to_le_bytes());
    m
}

// A well-formed companion instruction covering (pubkey, message, signature),
// with all three locality indices set as given.
fn companion(
    signature_ix_idx: u16,
    public_key_ix_idx: u16,
    message_ix_idx: u16,
    public_key: &[u8; 32],
    message: &[u8],
    signature: &[u8; 64],
) -> CompanionInstruction {
    let signature_offset: u16 = 16;
    let public_key_offset: u16 = 16 + 64;
    let message_offset: u16 = 16 + 64 + 32;
    let message_size = message.len() as u16;

    let mut data = Vec::new();
    data.push(1u8);
    data.push(0u8);
    data.extend_from_slice(&signature_offset.to_le_bytes());
    data.extend_from_slice(&signature_ix_idx.to_le_bytes());
    data.extend_from_slice(&public_key_offset.to_le_bytes());
    data.extend_from_slice(&public_key_ix_idx.to_le_bytes());
    data.extend_from_slice(&message_offset.to_le_bytes());
    data.extend_from_slice(&message_size.to_le_bytes());
    data.extend_from_slice(&message_ix_idx.to_le_bytes());
    data.extend_from_slice(signature);
    data.extend_from_slice(public_key);
    data.extend_from_slice(message);

    CompanionInstruction {
        program_id: ed25519_program_id_bytes(),
        accounts: vec![],
        data,
    }
}

fn domain_buffer(label: &str) -> Vec<u8> {
    let mut d = label.as_bytes().to_vec();
    assert!(d.len() <= 32);
    d.resize(32, 0);
    d
}

// Decoding: buffers shorter than 105 bytes fail with the malformed-input
// error; longer buffers are decoded from their first 105 bytes only.
#[test]
fn decode_rejects_short_buffers() {
    for len in [0usize, 1, 50, 104] {
        let data = vec![1u8; len];
        assert_eq!(
            VerificationResult::from_instruction_data(&data)
                .err()
                .unwrap(),
            VeiledError::InvalidProof
        );
    }
}

#[test]
fn decode_reads_exact_fields() {
    let hash = [0x11u8; 32];
    let sig = [0x22u8; 64];
    let buffer = create_instruction_data(true, &hash.to_vec(), 0x0102030405060708, &sig.to_vec());
    assert_eq!(buffer.len(), 105);
    assert_eq!(buffer[0], 1);
    // Little-endian timestamp bytes at offsets 33..41.
    assert_eq!(&buffer[33..41], &[8, 7, 6, 5, 4, 3, 2, 1]);

    let v = VerificationResult::from_instruction_data(&buffer).unwrap();
    assert!(v.is_valid);
    assert_eq!(v.proof_hash, hash.to_vec());
    assert_eq!(v.timestamp, 0x0102030405060708);
    assert_eq!(v.verifier_signature, sig.to_vec());
}

#[test]
fn decode_ignores_trailing_bytes() {
    let hash = [0x11u8; 32];
    let sig = [0x22u8; 64];
    let mut buffer = create_instruction_data(false, &hash.to_vec(), 77, &sig.to_vec());
    buffer.extend_from_slice(&[0xAB; 40]);
    let v = VerificationResult::from_instruction_data(&buffer).unwrap();
    assert!(!v.is_valid);
    assert_eq!(v.timestamp, 77);
    assert_eq!(v.proof_hash, hash.to_vec());
    assert_eq!(v.verifier_signature, sig.to_vec());
}

// A validity-flag byte other than exactly 1 decodes as "not valid".
#[test]
fn decode_flag_must_be_exactly_one() {
    let hash = [0x11u8; 32];
    let sig = [0x22u8; 64];
    let mut buffer = create_instruction_data(true, &hash.to_vec(), 77, &sig.to_vec());
    buffer[0] = 2;
    let v = VerificationResult::from_instruction_data(&buffer).unwrap();
    assert!(!v.is_valid);
}

// Freshness: older than 300 seconds fails, regardless of any signature
// material; the boundary value 300 still passes.
#[test]
fn freshness_window() {
    let v = VerificationResult {
        is_valid: true,
        proof_hash: vec![0u8; 32],
        timestamp: 1000,
        verifier_signature: vec![0u8; 64],
    };
    assert_eq!(v.is_recent(1300), Ok(()));
    assert_eq!(v.is_recent(1301), Err(VeiledError::ProofExpired));
    assert_eq!(v.is_recent(900), Ok(())); // clock behind the attestation
    assert_eq!(v.is_recent(i64::MIN), Ok(()));
    assert_eq!(v.is_recent(i64::MAX), Err(VeiledError::ProofExpired));

    // A timestamp beyond the signed 64-bit range is in the future and passes:
    // the age is computed without any wrap.
    let far_future = VerificationResult {
        is_valid: true,
        proof_hash: vec![0u8; 32],
        timestamp: u64::MAX,
        verifier_signature: vec![0u8; 64],
    };
    assert_eq!(far_future.is_recent(1000), Ok(()));
}

// Locality indices: each of the three fields individually off the sentinel
// fails with OffsetMismatch, even though every content byte matches.
#[test]
fn locality_index_mismatch_each_field() {
    let pubkey = [7u8; 32];
    let hash = [0x11u8; 32];
    let sig = [0x22u8; 64];
    let msg = signed_message(&hash, true, 500);

    for (s, p, m) in [
        (0u16, u16::MAX, u16::MAX),
        (u16::MAX, 3u16, u16::MAX),
        (u16::MAX, u16::MAX, 7u16),
    ] {
        let ix = companion(s, p, m, &pubkey, &msg, &sig);
        let r = ed25519_ix_matches(&ix, &pubkey.to_vec(), &msg, &sig.to_vec());
        assert_eq!(r, Err(VeiledError::OffsetMismatch));
    }
}

// Content checks: hash, flag and authority mismatches each give their own
// error; a signature mismatch only skips the candidate.
#[test]
fn content_checks_distinguish_errors() {
    let pubkey = [7u8; 32];
    let hash = [0x11u8; 32];
    let sig = [0x22u8; 64];
    let msg = signed_message(&hash, true, 500);

    // Hash differs in the instruction's message.
    let mut wrong_hash = hash;
    wrong_hash[0] = 0x12;
    let ix = companion(
        u16::MAX,
        u16::MAX,
        u16::MAX,
        &pubkey,
        &signed_message(&wrong_hash, true, 500),
        &sig,
    );
    assert_eq!(
        ed25519_ix_matches(&ix, &pubkey.to_vec(), &msg, &sig.to_vec()),
        Err(VeiledError::ProofHashMismatch)
    );

    // Only the validity-flag byte differs.
    let ix = companion(
        u16::MAX,
        u16::MAX,
        u16::MAX,
        &pubkey,
        &signed_message(&hash, false, 500),
        &sig,
    );
    assert_eq!(
        ed25519_ix_matches(&ix, &pubkey.to_vec(), &msg, &sig.to_vec()),
        Err(VeiledError::IsValidMismatch)
    );

    // Only the public key differs.
    let ix = companion(u16::MAX, u16::MAX, u16::MAX, &[8u8; 32], &msg, &sig);
    assert_eq!(
        ed25519_ix_matches(&ix, &pubkey.to_vec(), &msg, &sig.to_vec()),
        Err(VeiledError::AuthorityMismatch)
    );

    // Only the message's timestamp bytes differ: the candidate attests to a
    // different message and is skipped, not failed.
    let ix = companion(
        u16::MAX,
        u16::MAX,
        u16::MAX,
        &pubkey,
        &signed_message(&hash, true, 501),
        &sig,
    );
    assert_eq!(
        ed25519_ix_matches(&ix, &pubkey.to_vec(), &msg, &sig.to_vec()),
        Ok(false)
    );

    // Only the signature differs: the candidate is skipped, not failed.
    let ix = companion(u16::MAX, u16::MAX, u16::MAX, &pubkey, &msg, &[0x23u8; 64]);
    assert_eq!(
        ed25519_ix_matches(&ix, &pubkey.to_vec(), &msg, &sig.to_vec()),
        Ok(false)
    );

    // And the full match answers true.
    let ix = companion(u16::MAX, u16::MAX, u16::MAX, &pubkey, &msg, &sig);
    assert_eq!(
        ed25519_ix_matches(&ix, &pubkey.to_vec(), &msg, &sig.to_vec()),
        Ok(true)
    );
}

// Structural checks: header length, signature count, offset floor, slice
// bounds and message size each give their own error.
#[test]
fn structural_checks_distinguish_errors() {
    let pubkey = [7u8; 32];
    let hash = [0x11u8; 32];
    let sig = [0x22u8; 64];
    let msg = signed_message(&hash, true, 500);
    let pk_vec = pubkey.to_vec();
    let sig_vec = sig.to_vec();

    // Header too short.
    let mut ix = companion(u16::MAX, u16::MAX, u16::MAX, &pubkey, &msg, &sig);
    ix.data.truncate(15);
    assert_eq!(
        ed25519_ix_matches(&ix, &pk_vec, &msg, &sig_vec),
        Err(VeiledError::InvalidInstructionData)
    );

    // Signature count must be exactly 1.
    for count in [0u8, 2] {
        let mut ix = companion(u16::MAX, u16::MAX, u16::MAX, &pubkey, &msg, &sig);
        ix.data[0] = count;
        assert_eq!(
            ed25519_ix_matches(&ix, &pk_vec, &msg, &sig_vec),
            Err(VeiledError::InvalidSignatureCount)
        );
    }

    // An offset below the 16-byte header region.
    let mut ix = companion(u16::MAX, u16::MAX, u16::MAX, &pubkey, &msg, &sig);
    ix.data[2] = 15;
    ix.data[3] = 0;
    assert_eq!(
        ed25519_ix_matches(&ix, &pk_vec, &msg, &sig_vec),
        Err(VeiledError::InvalidInstructionData)
    );

    // A slice running past the end of the payload.
    let mut ix = companion(u16::MAX, u16::MAX, u16::MAX, &pubkey, &msg, &sig);
    let len = ix.data.len();
    ix.data.truncate(len - 1);
    assert_eq!(
        ed25519_ix_matches(&ix, &pk_vec, &msg, &sig_vec),
        Err(VeiledError::InvalidInstructionData)
    );

    // Message size must be exactly 41.
    let short_msg = &msg[..40];
    let ix = companion(u16::MAX, u16::MAX, u16::MAX, &pubkey, short_msg, &sig);
    assert_eq!(
        ed25519_ix_matches(&ix, &pk_vec, &msg, &sig_vec),
        Err(VeiledError::InvalidMessageSize)
    );
}

// The scan skips instructions that target other programs and finds a match
// deeper in the bundle.
#[test]
fn scan_skips_foreign_instructions() {
    let pubkey = [7u8; 32];
    let hash = [0x11u8; 32];
    let sig = [0x22u8; 64];
    let msg = signed_message(&hash, true, 500);

    let matching = companion(u16::MAX, u16::MAX, u16::MAX, &pubkey, &msg, &sig);
    let foreign = CompanionInstruction {
        program_id: vec![0u8; 32],
        accounts: vec![],
        data: vec![1, 2, 3],
    };
    let instructions = vec![matching, foreign];
    let r = verify_ed25519_instruction(&instructions, 2, &pubkey.to_vec(), &msg, &sig.to_vec());
    assert_eq!(r, Ok(()));
}

// Registry: a nullifier is admitted at most once; distinct nullifiers are
// admitted independently.
#[test]
fn registry_at_most_once() {
    let mut registry = NullifierRegistry::new();
    let n1 = vec![1u8; 32];
    let n2 = vec![2u8; 32];

    assert_eq!(
        registry.admit_nullifier(n1.clone(), String::from("a"), 100),
        Ok(())
    );
    assert_eq!(
        registry.admit_nullifier(n1.clone(), String::from("b"), 999),
        Err(VeiledError::DuplicateNullifier)
    );
    assert_eq!(
        registry.admit_nullifier(n2.clone(), String::from("c"), 100),
        Ok(())
    );

    assert!(registry.contains(&n1));
    assert!(registry.contains(&n2));
    let records = registry.records();
    assert_eq!(records.len(), 2);
    assert_eq!(records[0].nullifier, n1);
    assert_eq!(records[0].domain, "a");
    assert_eq!(records[0].created_at, 100);
    assert_eq!(records[0].expires_at, 100 + RECORD_LIFETIME);
    assert_eq!(records[1].nullifier, n2);
}

// End-to-end scenario A: a fresh, valid, covered attestation is admitted and
// the registry gains one record expiring 2592000 seconds after creation.
#[test]
fn scenario_a_admission_succeeds() {
    let now: i64 = 1_000_000;
    let timestamp = (now - 10) as u64;
    let hash = [0x11u8; 32];
    let sig = [0x22u8; 64];
    let pubkey = [7u8; 32];

    let buffer = create_instruction_data(true, &hash.to_vec(), timestamp, &sig.to_vec());
    let msg = signed_message(&hash, true, timestamp);
    let ix = companion(u16::MAX, u16::MAX, u16::MAX, &pubkey, &msg, &sig);
    let instructions = vec![ix];

    let mut registry = NullifierRegistry::new();
    let nullifier = vec![5u8; 32];
    let domain = domain_buffer("example.app");

    let r = verify_auth(
        &mut registry,
        &buffer,
        nullifier.clone(),
        &domain,
        &pubkey.to_vec(),
        &instructions,
        1,
        now,
    );
    assert_eq!(r, Ok(()));

    let records = registry.records();
    assert_eq!(records.len(), 1);
    assert_eq!(records[0].nullifier, nullifier);
    assert_eq!(records[0].domain, "example.app");
    assert_eq!(records[0].created_at, now);
    assert_eq!(records[0].expires_at, records[0].created_at + 2592000);
}

// Scenario B: the same request with a timestamp 400 seconds old fails stale.
#[test]
fn scenario_b_stale_fails() {
    let now: i64 = 1_000_000;
    let timestamp = (now - 400) as u64;
    let hash = [0x11u8; 32];
    let sig = [0x22u8; 64];
    let pubkey = [7u8; 32];

    let buffer = create_instruction_data(true, &hash.to_vec(), timestamp, &sig.to_vec());
    let msg = signed_message(&hash, true, timestamp);
    let ix = companion(u16::MAX, u16::MAX, u16::MAX, &pubkey, &msg, &sig);
    let instructions = vec![ix];

    let mut registry = NullifierRegistry::new();
    let r = verify_auth(
        &mut registry,
        &buffer,
        vec![5u8; 32],
        &domain_buffer("example.app"),
        &pubkey.to_vec(),
        &instructions,
        1,
        now,
    );
    assert_eq!(r, Err(VeiledError::ProofExpired));
    assert_eq!(registry.records().len(), 0);
}

// Scenario C: the same request with the signature locality index 0 fails with
// OffsetMismatch.
#[test]
fn scenario_c_offset_mismatch_fails() {
    let now: i64 = 1_000_000;
    let timestamp = (now - 10) as u64;
    let hash = [0x11u8; 32];
    let sig = [0x22u8; 64];
    let pubkey = [7u8; 32];

    let buffer = create_instruction_data(true, &hash.to_vec(), timestamp, &sig.to_vec());
    let msg = signed_message(&hash, true, timestamp);
    let ix = companion(0, u16::MAX, u16::MAX, &pubkey, &msg, &sig);
    let instructions = vec![ix];

    let mut registry = NullifierRegistry::new();
    let r = verify_auth(
        &mut registry,
        &buffer,
        vec![5u8; 32],
        &domain_buffer("example.app"),
        &pubkey.to_vec(),
        &instructions,
        1,
        now,
    );
    assert_eq!(r, Err(VeiledError::OffsetMismatch));
    assert_eq!(registry.records().len(), 0);
}

// Scenario D: running scenario A twice with the same nullifier fails the
// second time with DuplicateNullifier and leaves the first record unchanged.
#[test]
fn scenario_d_replay_fails() {
    let now: i64 = 1_000_000;
    let timestamp = (now - 10) as u64;
    let hash = [0x11u8; 32];
    let sig = [0x22u8; 64];
    let pubkey = [7u8; 32];

    let buffer = create_instruction_data(true, &hash.to_vec(), timestamp, &sig.to_vec());
    let msg = signed_message(&hash, true, timestamp);
    let ix = companion(u16::MAX, u16::MAX, u16::MAX, &pubkey, &msg, &sig);
    let instructions = vec![ix];

    let mut registry = NullifierRegistry::new();
    let nullifier = vec![5u8; 32];

    let first = verify_auth(
        &mut registry,
        &buffer,
        nullifier.clone(),
        &domain_buffer("example.app"),
        &pubkey.to_vec(),
        &instructions,
        1,
        now,
    );
    assert_eq!(first, Ok(()));

    let second = verify_auth(
        &mut registry,
        &buffer,
        nullifier.clone(),
        &domain_buffer("example.app"),
        &pubkey.to_vec(),
        &instructions,
        1,
        now + 5,
    );
    assert_eq!(second, Err(VeiledError::DuplicateNullifier));

    let records = registry.records();
    assert_eq!(records.len(), 1);
    assert_eq!(records[0].nullifier, nullifier);
    assert_eq!(records[0].created_at, now);
    assert_eq!(records[0].expires_at, now + 2592000);
}

// Label handling: an empty label and a non-UTF-8 label are both rejected
// before anything else runs; a label is trimmed at its first zero byte.
#[test]
fn label_validation() {
    let now: i64 = 1_000_000;
    let timestamp = (now - 10) as u64;
    let hash = [0x11u8; 32];
    let sig = [0x22u8; 64];
    let pubkey = [7u8; 32];
    let buffer = create_instruction_data(true, &hash.to_vec(), timestamp, &sig.to_vec());
    let msg = signed_message(&hash, true, timestamp);
    let ix = companion(u16::MAX, u16::MAX, u16::MAX, &pubkey, &msg, &sig);
    let instructions = vec![ix];

    // Empty label: first byte zero.
    let mut registry = NullifierRegistry::new();
    let r = verify_auth(
        &mut registry,
        &buffer,
        vec![5u8; 32],
        &vec![0u8; 32],
        &pubkey.to_vec(),
        &instructions,
        1,
        now,
    );
    assert_eq!(r, Err(VeiledError::DomainTooLong));

    // Invalid UTF-8 label: 0xFF is never valid.
    let mut bad = vec![0xFFu8; 4];
    bad.resize(32, 0);
    let r = verify_auth(
        &mut registry,
        &buffer,
        vec![5u8; 32],
        &bad,
        &pubkey.to_vec(),
        &instructions,
        1,
        now,
    );
    assert_eq!(r, Err(VeiledError::DomainTooLong));
    assert_eq!(registry.records().len(), 0);

    // A full 32-byte label without any zero byte is kept whole.
    let full = vec![b'x'; 32];
    let r = verify_auth(
        &mut registry,
        &buffer,
        vec![5u8; 32],
        &full,
        &pubkey.to_vec(),
        &instructions,
        1,
        now,
    );
    assert_eq!(r, Ok(()));
    assert_eq!(registry.records()[0].domain, "x".repeat(32));
}

// A companion instruction that references accounts is a hard failure, not a
// skip: the signature facility is stateless.
#[test]
fn companion_with_accounts_fails() {
    let now: i64 = 1_000_000;
    let timestamp = (now - 10) as u64;
    let hash = [0x11u8; 32];
    let sig = [0x22u8; 64];
    let pubkey = [7u8; 32];
    let buffer = create_instruction_data(true, &hash.to_vec(), timestamp, &sig.to_vec());
    let msg = signed_message(&hash, true, timestamp);
    let mut ix = companion(u16::MAX, u16::MAX, u16::MAX, &pubkey, &msg, &sig);
    ix.accounts.push(AccountMeta::new(vec![0u8; 32], false));
    let instructions = vec![ix];

    let mut registry = NullifierRegistry::new();
    let r = verify_auth(
        &mut registry,
        &buffer,
        vec![5u8; 32],
        &domain_buffer("example.app"),
        &pubkey.to_vec(),
        &instructions,
        1,
        now,
    );
    assert_eq!(r, Err(VeiledError::BadEd25519Accounts));
}

// An attestation whose validity flag is false is rejected even when covered
// by a matching companion signature.
#[test]
fn invalid_flag_rejected() {
    let now: i64 = 1_000_000;
    let timestamp = (now - 10) as u64;
    let hash = [0x11u8; 32];
    let sig = [0x22u8; 64];
    let pubkey = [7u8; 32];

    let buffer = create_instruction_data(false, &hash.to_vec(), timestamp, &sig.to_vec());
    let msg = signed_message(&hash, false, timestamp);
    let ix = companion(u16::MAX, u16::MAX, u16::MAX, &pubkey, &msg, &sig);
    let instructions = vec![ix];

    let mut registry = NullifierRegistry::new();
    let r = verify_auth(
        &mut registry,
        &buffer,
        vec![5u8; 32],
        &domain_buffer("example.app"),
        &pubkey.to_vec(),
        &instructions,
        1,
        now,
    );
    assert_eq!(r, Err(VeiledError::InvalidProof));
    assert_eq!(registry.records().len(), 0);
}

// A fresh attestation cannot ride on an old signed message: when the
// companion instruction's message carries a different (older) timestamp than
// the attestation, the candidate does not cover the attested message and the
// admission fails for want of a valid companion signature.
#[test]
fn stale_message_cannot_cover_fresh_attestation() {
    let now: i64 = 1_000_000;
    let fresh_timestamp = (now - 10) as u64;
    let old_timestamp = (now - 100_000) as u64;
    let hash = [0x11u8; 32];
    let sig = [0x22u8; 64];
    let pubkey = [7u8; 32];

    // The attestation claims a fresh timestamp...
    let buffer = create_instruction_data(true, &hash.to_vec(), fresh_timestamp, &sig.to_vec());
    // ...but the companion instruction covers the old message: same hash,
    // flag and signature bytes, older timestamp.
    let old_msg = signed_message(&hash, true, old_timestamp);
    let ix = companion(u16::MAX, u16::MAX, u16::MAX, &pubkey, &old_msg, &sig);
    let instructions = vec![ix];

    let mut registry = NullifierRegistry::new();
    let r = verify_auth(
        &mut registry,
        &buffer,
        vec![5u8; 32],
        &domain_buffer("example.app"),
        &pubkey.to_vec(),
        &instructions,
        1,
        now,
    );
    assert_eq!(r, Err(VeiledError::InvalidProof));
    assert_eq!(registry.records().len(), 0);
}

// No matching companion instruction in the bundle: admission fails.
#[test]
fn no_companion_found() {
    let now: i64 = 1_000_000;
    let timestamp = (now - 10) as u64;
    let hash = [0x11u8; 32];
    let sig = [0x22u8; 64];
    let pubkey = [7u8; 32];
    let buffer = create_instruction_data(true, &hash.to_vec(), timestamp, &sig.to_vec());

    let foreign = CompanionInstruction {
        program_id: vec![3u8; 32],
        accounts: vec![],
        data: vec![],
    };
    let instructions = vec![foreign];

    let mut registry = NullifierRegistry::new();
    let r = verify_auth(
        &mut registry,
        &buffer,
        vec![5u8; 32],
        &domain_buffer("example.app"),
        &pubkey.to_vec(),
        &instructions,
        1,
        now,
    );
    assert_eq!(r, Err(VeiledError::InvalidProof));
}
