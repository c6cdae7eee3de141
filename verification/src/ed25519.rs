//! Companion-signature matching: proves that a signature-verification
//! instruction co-located in the same execution bundle covers exactly the
//! (public key, message, signature) triple implied by a decoded attestation.
//!
//! The signature facility's payload layout is
//! `[count:1][pad:1][offset table:14][data blobs...]`, the table holding seven
//! little-endian 16-bit fields: signature offset, signature locality index,
//! public-key offset, public-key locality index, message offset, message size,
//! message locality index. The locality indices must all equal the 16-bit
//! maximum, the sentinel for "this very instruction's data section"; anything
//! else lets an attacker point the verifier at bytes of a different
//! instruction, which is the forgery this module exists to prevent.

use vstd::prelude::*;

use crate::bytes::{le16, range_eq, read_u16_le};
use crate::errors::VeiledError;

verus! {

/// The locality sentinel meaning "this very instruction".
pub const LOCALITY_SENTINEL: usize = 0xFFFF;

/// Fixed identifier of the signature-verification facility
/// (the Ed25519 built-in program).
pub open spec fn ed25519_program_id() -> Seq<u8> {
    seq![
        0x03u8, 0x7du8, 0x46u8, 0xd6u8, 0x7cu8, 0x93u8, 0xfbu8, 0xbeu8,
        0x12u8, 0xf9u8, 0x42u8, 0x8fu8, 0x83u8, 0x8du8, 0x40u8, 0xffu8,
        0x05u8, 0x70u8, 0x74u8, 0x49u8, 0x27u8, 0xf4u8, 0x8au8, 0x64u8,
        0xfcu8, 0xcau8, 0x70u8, 0x44u8, 0x80u8, 0x00u8, 0x00u8, 0x00u8,
    ]
}

/// The signature facility's identifier as bytes.
pub fn ed25519_program_id_bytes() -> (r: Vec<u8>)
    ensures
        r@ == ed25519_program_id(),
{
    let mut r: Vec<u8> = Vec::new();
    r.push(0x03u8);
    r.push(0x7du8);
    r.push(0x46u8);
    r.push(0xd6u8);
    r.push(0x7cu8);
    r.push(0x93u8);
    r.push(0xfbu8);
    r.push(0xbeu8);
    r.push(0x12u8);
    r.push(0xf9u8);
    r.push(0x42u8);
    r.push(0x8fu8);
    r.push(0x83u8);
    r.push(0x8du8);
    r.push(0x40u8);
    r.push(0xffu8);
    r.push(0x05u8);
    r.push(0x70u8);
    r.push(0x74u8);
    r.push(0x49u8);
    r.push(0x27u8);
    r.push(0xf4u8);
    r.push(0x8au8);
    r.push(0x64u8);
    r.push(0xfcu8);
    r.push(0xcau8);
    r.push(0x70u8);
    r.push(0x44u8);
    r.push(0x80u8);
    r.push(0x00u8);
    r.push(0x00u8);
    r.push(0x00u8);
    assert(r@ =~= ed25519_program_id());
    r
}

/// One account reference attached to an instruction.
pub struct AccountMeta {
    pub pubkey: Vec<u8>,
    pub is_signer: bool,
    pub is_writable: bool,
}

impl AccountMeta {
    /// A writable account reference.
    pub fn new(pubkey: Vec<u8>, is_signer: bool) -> (r: AccountMeta)
        ensures
            r.pubkey@ == pubkey@,
            r.is_signer == is_signer,
            r.is_writable,
    {
        AccountMeta { pubkey, is_signer, is_writable: true }
    }
}

/// One instruction of the execution bundle, as the environment reports it:
/// the identifier of the program it targets, the accounts it references, and
/// its raw payload.
pub struct CompanionInstruction {
    pub program_id: Vec<u8>,
    pub accounts: Vec<AccountMeta>,
    pub data: Vec<u8>,
}

/// The mathematical value of a bundle instruction. Only the account count
/// matters to the matcher: the signature facility is stateless, so any
/// attached account is a tamper signal.
pub struct InstructionModel {
    pub program_id: Seq<u8>,
    pub num_accounts: nat,
    pub data: Seq<u8>,
}

impl View for CompanionInstruction {
    type V = InstructionModel;

    open spec fn view(&self) -> InstructionModel {
        InstructionModel {
            program_id: self.program_id@,
            num_accounts: self.accounts@.len(),
            data: self.data@,
        }
    }
}

/// The models of a vector of bundle instructions.
pub open spec fn instruction_models(s: Seq<CompanionInstruction>) -> Seq<InstructionModel> {
    Seq::new(s.len(), |i: int| s[i]@)
}

/// Whether one signature-facility payload covers the expected triple, or the
/// exact reason it is rejected. The checks run in this order: header length,
/// signature count, locality indices, offset lower bounds, slice bounds,
/// message size, message hash bytes, message validity-flag byte, the
/// remaining message bytes (the timestamp), public key, and last the
/// signature. The embedded message must equal the expected 41 bytes in full;
/// a mismatch in its timestamp bytes skips the candidate (as a signature
/// mismatch does) rather than failing the scan, since an earlier instruction
/// may still cover the exact message.
pub open spec fn ix_match(
    data: Seq<u8>,
    expected_pubkey: Seq<u8>,
    expected_message: Seq<u8>,
    expected_signature: Seq<u8>,
) -> Result<bool, VeiledError>
    recommends
        expected_pubkey.len() == 32,
        expected_message.len() == 41,
        expected_signature.len() == 64,
{
    if data.len() < 16 {
        Err(VeiledError::InvalidInstructionData)
    } else if data[0] != 1 {
        Err(VeiledError::InvalidSignatureCount)
    } else {
        let sig_off = le16(data, 2);
        let sig_idx = le16(data, 4);
        let pk_off = le16(data, 6);
        let pk_idx = le16(data, 8);
        let msg_off = le16(data, 10);
        let msg_size = le16(data, 12);
        let msg_idx = le16(data, 14);
        if !(sig_idx == LOCALITY_SENTINEL && pk_idx == LOCALITY_SENTINEL && msg_idx
            == LOCALITY_SENTINEL) {
            Err(VeiledError::OffsetMismatch)
        } else if !(sig_off >= 16 && pk_off >= 16 && msg_off >= 16) {
            Err(VeiledError::InvalidInstructionData)
        } else if data.len() < sig_off + 64 {
            Err(VeiledError::InvalidInstructionData)
        } else if data.len() < pk_off + 32 {
            Err(VeiledError::InvalidInstructionData)
        } else if data.len() < msg_off + msg_size {
            Err(VeiledError::InvalidInstructionData)
        } else if msg_size != 41 {
            Err(VeiledError::InvalidMessageSize)
        } else if data.subrange(msg_off, msg_off + 32) != expected_message.subrange(0, 32) {
            Err(VeiledError::ProofHashMismatch)
        } else if data[msg_off + 32] != expected_message[32] {
            Err(VeiledError::IsValidMismatch)
        } else if data.subrange(msg_off + 33, msg_off + 41) != expected_message.subrange(33, 41) {
            Ok(false)
        } else if data.subrange(pk_off, pk_off + 32) != expected_pubkey.subrange(0, 32) {
            Err(VeiledError::AuthorityMismatch)
        } else if data.subrange(sig_off, sig_off + 64) != expected_signature.subrange(0, 64) {
            Ok(false)
        } else {
            Ok(true)
        }
    }
}

/// The result of scanning instructions `0 .. upto` of the bundle, most recent
/// first, for a signature-facility instruction covering the expected triple.
/// Instructions targeting other programs are skipped; a facility instruction
/// with accounts, or one failing a structural or content check, fails the
/// whole scan; one whose signature bytes or message-timestamp bytes merely
/// differ is skipped.
pub open spec fn scan_for_match(
    instrs: Seq<InstructionModel>,
    upto: int,
    expected_pubkey: Seq<u8>,
    expected_message: Seq<u8>,
    expected_signature: Seq<u8>,
) -> Result<(), VeiledError>
    recommends
        upto <= instrs.len(),
    decreases upto,
{
    if upto <= 0 {
        Err(VeiledError::InvalidProof)
    } else {
        let ix = instrs[upto - 1];
        if ix.program_id != ed25519_program_id() {
            scan_for_match(instrs, upto - 1, expected_pubkey, expected_message, expected_signature)
        } else if ix.num_accounts != 0 {
            Err(VeiledError::BadEd25519Accounts)
        } else {
            match ix_match(ix.data, expected_pubkey, expected_message, expected_signature) {
                Err(e) => Err(e),
                Ok(true) => Ok(()),
                Ok(false) => scan_for_match(
                    instrs,
                    upto - 1,
                    expected_pubkey,
                    expected_message,
                    expected_signature,
                ),
            }
        }
    }
}

/// Checks whether a single signature-facility instruction covers the expected
/// (public key, message, signature) triple, byte for byte — all 41 bytes of
/// the message included — rejecting any payload whose locality indices,
/// offsets, bounds or content disagree.
pub fn ed25519_ix_matches(
    ix: &CompanionInstruction,
    expected_pubkey: &Vec<u8>,
    expected_message: &Vec<u8>,
    expected_signature: &Vec<u8>,
) -> (r: Result<bool, VeiledError>)
    requires
        expected_pubkey@.len() == 32,
        expected_message@.len() == 41,
        expected_signature@.len() == 64,
    ensures
        r == ix_match(ix.data@, expected_pubkey@, expected_message@, expected_signature@),
{
    let data = &ix.data;
    let n = data.len();
    if n < 16 {
        return Err(VeiledError::InvalidInstructionData);
    }
    if data[0] != 1 {
        return Err(VeiledError::InvalidSignatureCount);
    }
    let signature_offset = read_u16_le(data, 2);
    let signature_ix_idx = read_u16_le(data, 4);
    let public_key_offset = read_u16_le(data, 6);
    let public_key_ix_idx = read_u16_le(data, 8);
    let message_offset = read_u16_le(data, 10);
    let message_size = read_u16_le(data, 12);
    let message_ix_idx = read_u16_le(data, 14);

    if !(signature_ix_idx == LOCALITY_SENTINEL && public_key_ix_idx == LOCALITY_SENTINEL
        && message_ix_idx == LOCALITY_SENTINEL) {
        return Err(VeiledError::OffsetMismatch);
    }
    if !(signature_offset >= 16 && public_key_offset >= 16 && message_offset >= 16) {
        return Err(VeiledError::InvalidInstructionData);
    }
    if n < signature_offset + 64 {
        return Err(VeiledError::InvalidInstructionData);
    }
    if n < public_key_offset + 32 {
        return Err(VeiledError::InvalidInstructionData);
    }
    if n < message_offset + message_size {
        return Err(VeiledError::InvalidInstructionData);
    }
    if message_size != 41 {
        return Err(VeiledError::InvalidMessageSize);
    }
    if !range_eq(data, message_offset, expected_message, 0, 32) {
        return Err(VeiledError::ProofHashMismatch);
    }
    if data[message_offset + 32] != expected_message[32] {
        return Err(VeiledError::IsValidMismatch);
    }
    if !range_eq(data, message_offset + 33, expected_message, 33, 8) {
        return Ok(false);
    }
    if !range_eq(data, public_key_offset, expected_pubkey, 0, 32) {
        return Err(VeiledError::AuthorityMismatch);
    }
    if !range_eq(data, signature_offset, expected_signature, 0, 64) {
        return Ok(false);
    }
    Ok(true)
}

/// Scans the bundle instructions before `current_index`, most recent first,
/// for a signature-facility instruction covering the expected triple.
pub fn verify_ed25519_instruction(
    instructions: &Vec<CompanionInstruction>,
    current_index: usize,
    expected_pubkey: &Vec<u8>,
    expected_message: &Vec<u8>,
    expected_signature: &Vec<u8>,
) -> (r: Result<(), VeiledError>)
    requires
        current_index <= instructions@.len(),
        expected_pubkey@.len() == 32,
        expected_message@.len() == 41,
        expected_signature@.len() == 64,
    ensures
        r == scan_for_match(
            instruction_models(instructions@),
            current_index as int,
            expected_pubkey@,
            expected_message@,
            expected_signature@,
        ),
{
    let ghost models = instruction_models(instructions@);
    let mut k = current_index;
    while k > 0
        invariant
            k <= current_index,
            current_index <= instructions@.len(),
            expected_pubkey@.len() == 32,
            expected_message@.len() == 41,
            expected_signature@.len() == 64,
            models == instruction_models(instructions@),
            scan_for_match(
                models,
                current_index as int,
                expected_pubkey@,
                expected_message@,
                expected_signature@,
            ) == scan_for_match(
                models,
                k as int,
                expected_pubkey@,
                expected_message@,
                expected_signature@,
            ),
        decreases k,
    {
        k = k - 1;
        let ix = &instructions[k];
        assert(models[k as int] == instructions@[k as int]@);
        if bytes_eq_program(&ix.program_id) {
            if ix.accounts.len() != 0 {
                assert(scan_for_match(
                    models,
                    k + 1 as int,
                    expected_pubkey@,
                    expected_message@,
                    expected_signature@,
                ) == Err::<(), VeiledError>(VeiledError::BadEd25519Accounts));
                return Err(VeiledError::BadEd25519Accounts);
            }
            match ed25519_ix_matches(ix, expected_pubkey, expected_message, expected_signature) {
                Err(e) => {
                    assert(scan_for_match(
                        models,
                        k + 1 as int,
                        expected_pubkey@,
                        expected_message@,
                        expected_signature@,
                    ) == Err::<(), VeiledError>(e));
                    return Err(e);
                },
                Ok(true) => {
                    assert(scan_for_match(
                        models,
                        k + 1 as int,
                        expected_pubkey@,
                        expected_message@,
                        expected_signature@,
                    ) == Ok::<(), VeiledError>(()));
                    return Ok(());
                },
                Ok(false) => {
                    assert(scan_for_match(
                        models,
                        k + 1 as int,
                        expected_pubkey@,
                        expected_message@,
                        expected_signature@,
                    ) == scan_for_match(
                        models,
                        k as int,
                        expected_pubkey@,
                        expected_message@,
                        expected_signature@,
                    ));
                },
            }
        } else {
            assert(scan_for_match(
                models,
                k + 1 as int,
                expected_pubkey@,
                expected_message@,
                expected_signature@,
            ) == scan_for_match(
                models,
                k as int,
                expected_pubkey@,
                expected_message@,
                expected_signature@,
            ));
        }
    }
    assert(scan_for_match(
        models,
        0,
        expected_pubkey@,
        expected_message@,
        expected_signature@,
    ) == Err::<(), VeiledError>(VeiledError::InvalidProof));
    Err(VeiledError::InvalidProof)
}

/// A payload that passes every structural check of the matcher: header
/// length, signature count, locality sentinels, offset lower bounds, slice
/// bounds and message size. Only the content checks remain after these.
pub open spec fn structurally_valid(data: Seq<u8>) -> bool {
    &&& data.len() >= 16
    &&& data[0] == 1
    &&& le16(data, 4) == LOCALITY_SENTINEL
    &&& le16(data, 8) == LOCALITY_SENTINEL
    &&& le16(data, 14) == LOCALITY_SENTINEL
    &&& le16(data, 2) >= 16
    &&& le16(data, 6) >= 16
    &&& le16(data, 10) >= 16
    &&& data.len() >= le16(data, 2) + 64
    &&& data.len() >= le16(data, 6) + 32
    &&& data.len() >= le16(data, 10) + le16(data, 12)
    &&& le16(data, 12) == 41
}

/// Forgery prevention: a payload whose three locality indices are not all the
/// sentinel is rejected with `OffsetMismatch`, whatever its content — even if
/// the signature, key and message bytes would otherwise match.
pub proof fn lemma_locality_mismatch_rejected(
    data: Seq<u8>,
    expected_pubkey: Seq<u8>,
    expected_message: Seq<u8>,
    expected_signature: Seq<u8>,
)
    requires
        data.len() >= 16,
        data[0] == 1,
        le16(data, 4) != LOCALITY_SENTINEL || le16(data, 8) != LOCALITY_SENTINEL || le16(data, 14)
            != LOCALITY_SENTINEL,
    ensures
        ix_match(data, expected_pubkey, expected_message, expected_signature) == Err::<
            bool,
            VeiledError,
        >(VeiledError::OffsetMismatch),
{
}

/// A structurally valid payload whose message hash bytes differ from the
/// attested content hash is rejected with `ProofHashMismatch`.
pub proof fn lemma_content_hash_mismatch_rejected(
    data: Seq<u8>,
    expected_pubkey: Seq<u8>,
    expected_message: Seq<u8>,
    expected_signature: Seq<u8>,
)
    requires
        structurally_valid(data),
        data.subrange(le16(data, 10), le16(data, 10) + 32) != expected_message.subrange(0, 32),
    ensures
        ix_match(data, expected_pubkey, expected_message, expected_signature) == Err::<
            bool,
            VeiledError,
        >(VeiledError::ProofHashMismatch),
{
}

/// A structurally valid payload matching on the hash but differing on the
/// validity-flag byte is rejected with `IsValidMismatch`.
pub proof fn lemma_validity_flag_mismatch_rejected(
    data: Seq<u8>,
    expected_pubkey: Seq<u8>,
    expected_message: Seq<u8>,
    expected_signature: Seq<u8>,
)
    requires
        structurally_valid(data),
        data.subrange(le16(data, 10), le16(data, 10) + 32) == expected_message.subrange(0, 32),
        data[le16(data, 10) + 32] != expected_message[32],
    ensures
        ix_match(data, expected_pubkey, expected_message, expected_signature) == Err::<
            bool,
            VeiledError,
        >(VeiledError::IsValidMismatch),
{
}

/// A structurally valid payload whose embedded message matches on the hash
/// and the flag but differs in its remaining bytes (the timestamp) is skipped
/// (`Ok(false)`), not failed: it attests to a different message, and an
/// earlier instruction of the bundle might still cover the exact one.
pub proof fn lemma_message_tail_mismatch_skips(
    data: Seq<u8>,
    expected_pubkey: Seq<u8>,
    expected_message: Seq<u8>,
    expected_signature: Seq<u8>,
)
    requires
        structurally_valid(data),
        data.subrange(le16(data, 10), le16(data, 10) + 32) == expected_message.subrange(0, 32),
        data[le16(data, 10) + 32] == expected_message[32],
        data.subrange(le16(data, 10) + 33, le16(data, 10) + 41) != expected_message.subrange(
            33,
            41,
        ),
    ensures
        ix_match(data, expected_pubkey, expected_message, expected_signature) == Ok::<
            bool,
            VeiledError,
        >(false),
{
}

/// A structurally valid payload matching the full message but carrying a
/// public key other than the expected authority's is rejected with
/// `AuthorityMismatch`.
pub proof fn lemma_authority_mismatch_rejected(
    data: Seq<u8>,
    expected_pubkey: Seq<u8>,
    expected_message: Seq<u8>,
    expected_signature: Seq<u8>,
)
    requires
        structurally_valid(data),
        data.subrange(le16(data, 10), le16(data, 10) + 32) == expected_message.subrange(0, 32),
        data[le16(data, 10) + 32] == expected_message[32],
        data.subrange(le16(data, 10) + 33, le16(data, 10) + 41) == expected_message.subrange(
            33,
            41,
        ),
        data.subrange(le16(data, 6), le16(data, 6) + 32) != expected_pubkey.subrange(0, 32),
    ensures
        ix_match(data, expected_pubkey, expected_message, expected_signature) == Err::<
            bool,
            VeiledError,
        >(VeiledError::AuthorityMismatch),
{
}

/// A structurally valid payload matching message and authority but carrying
/// different signature bytes is skipped (`Ok(false)`), not failed: an earlier
/// instruction of the bundle might still match.
pub proof fn lemma_signature_mismatch_skips(
    data: Seq<u8>,
    expected_pubkey: Seq<u8>,
    expected_message: Seq<u8>,
    expected_signature: Seq<u8>,
)
    requires
        structurally_valid(data),
        data.subrange(le16(data, 10), le16(data, 10) + 32) == expected_message.subrange(0, 32),
        data[le16(data, 10) + 32] == expected_message[32],
        data.subrange(le16(data, 10) + 33, le16(data, 10) + 41) == expected_message.subrange(
            33,
            41,
        ),
        data.subrange(le16(data, 6), le16(data, 6) + 32) == expected_pubkey.subrange(0, 32),
        data.subrange(le16(data, 2), le16(data, 2) + 64) != expected_signature.subrange(0, 64),
    ensures
        ix_match(data, expected_pubkey, expected_message, expected_signature) == Ok::<
            bool,
            VeiledError,
        >(false),
{
}

/// A skipped candidate does not end the scan: when the most recent candidate
/// merely fails the signature or message-timestamp comparison, the scan's
/// outcome is that of the scan over the remaining, earlier instructions.
pub proof fn lemma_skipped_candidate_continues(
    instrs: Seq<InstructionModel>,
    upto: int,
    expected_pubkey: Seq<u8>,
    expected_message: Seq<u8>,
    expected_signature: Seq<u8>,
)
    requires
        0 < upto <= instrs.len(),
        instrs[upto - 1].program_id == ed25519_program_id(),
        instrs[upto - 1].num_accounts == 0,
        ix_match(instrs[upto - 1].data, expected_pubkey, expected_message, expected_signature)
            == Ok::<bool, VeiledError>(false),
    ensures
        scan_for_match(instrs, upto, expected_pubkey, expected_message, expected_signature)
            == scan_for_match(
            instrs,
            upto - 1,
            expected_pubkey,
            expected_message,
            expected_signature,
        ),
{
}

/// True when `id` is the signature facility's identifier.
fn bytes_eq_program(id: &Vec<u8>) -> (r: bool)
    ensures
        r == (id@ == ed25519_program_id()),
{
    let expected = ed25519_program_id_bytes();
    crate::bytes::bytes_eq(id, &expected)
}

} // verus!
