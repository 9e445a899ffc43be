//! Checks that the transaction's companion signature-verification
//! instruction authorizes exactly the payload being processed.
//!
//! The companion instruction's data ends with the signed 32-byte message;
//! before it stand the signers' public keys, one after another. Its data
//! starts with a 2-byte header, and each signature takes a block of 110 bytes
//! (signature, public key and offsets), which gives the number of signers.
use crate::digest::{keccak256, keccak256_of};
use crate::state::CustomError;
use vstd::prelude::*;
use vstd::slice::slice_subrange;

verus! {

/// Address of the native ed25519 signature-verification program.
pub const ED25519_PROGRAM_ID: [u8; 32] = [
    3, 125, 70, 214, 124, 147, 251, 190, 18, 249, 66, 143, 131, 141, 64, 255, 5, 112, 116, 73, 39,
    244, 138, 100, 252, 202, 112, 68, 128, 0, 0, 0,
];

/// The instruction that precedes the bridge's own in the same transaction.
#[derive(Clone, Debug, PartialEq, Eq)]
pub struct CompanionInstruction {
    /// The program that issued it.
    pub program_id: [u8; 32],
    pub data: Vec<u8>,
}

/// `a - b`, or `0` where that would be negative.
pub open spec fn saturating_sub(a: int, b: int) -> int {
    if a >= b {
        a - b
    } else {
        0
    }
}

/// The signed message: the last 32 bytes of the data (all of it when shorter).
pub open spec fn signed_message(d: Seq<u8>) -> Seq<u8> {
    d.subrange(saturating_sub(d.len() as int, 32), d.len() as int)
}

/// The single signer's key: the 32 bytes before the message.
pub open spec fn sole_signer(d: Seq<u8>) -> Seq<u8> {
    d.subrange(saturating_sub(d.len() as int, 64), saturating_sub(d.len() as int, 32))
}

/// Number of signature blocks that data of this length holds.
pub open spec fn signature_count(d: Seq<u8>) -> int {
    (d.len() - 34) / 110
}

/// The signers' keys, in order: the `32 * signature_count` bytes before the message.
pub open spec fn signer_keys(d: Seq<u8>) -> Seq<u8> {
    d.subrange(
        saturating_sub(d.len() as int, 32 * signature_count(d) + 32),
        saturating_sub(d.len() as int, 32),
    )
}

/// The instruction was issued by the signature-verification program itself.
pub open spec fn from_signature_program(ix: CompanionInstruction) -> bool {
    ix.program_id@ == ED25519_PROGRAM_ID@
}

/// `ix` proves that `signer` signed `digest`.
pub open spec fn send_signature_valid(ix: CompanionInstruction, digest: Seq<u8>, signer: Seq<u8>) -> bool {
    &&& from_signature_program(ix)
    &&& signed_message(ix.data@) == digest
    &&& sole_signer(ix.data@) == signer
}

/// `ix` proves that the committee whose keys hash to `keys_digest` signed
/// `digest`, and that committee is `receive_signer`.
pub open spec fn receive_signature_valid(
    ix: CompanionInstruction,
    digest: Seq<u8>,
    keys_digest: Seq<u8>,
    receive_signer: Seq<u8>,
) -> bool {
    &&& from_signature_program(ix)
    &&& ix.data@.len() >= 34
    &&& signed_message(ix.data@) == digest
    &&& keys_digest == receive_signer
}

/// Whether two byte strings are equal.
pub fn bytes_eq(a: &[u8], b: &[u8]) -> (r: bool)
    ensures
        r == (a@ == b@),
{
    if a.len() != b.len() {
        return false;
    }
    let mut i: usize = 0;
    while i < a.len()
        invariant
            i <= a@.len(),
            a@.len() == b@.len(),
            forall|j: int| 0 <= j < i ==> a@[j] == b@[j],
        decreases a@.len() - i,
    {
        if a[i] != b[i] {
            return false;
        }
        i = i + 1;
    }
    proof {
        assert(a@ =~= b@);
    }
    true
}

fn is_from_signature_program(ix: &CompanionInstruction) -> (r: bool)
    ensures
        r == from_signature_program(*ix),
{
    let id = ED25519_PROGRAM_ID;
    bytes_eq(ix.program_id.as_slice(), id.as_slice())
}

fn message_of(d: &[u8]) -> (r: &[u8])
    ensures
        r@ == signed_message(d@),
{
    let n = d.len();
    let start: usize = if n >= 32 { n - 32 } else { 0 };
    slice_subrange(d, start, n)
}

/// Checks an outbound authorization: the companion instruction comes from the
/// signature-verification program, its message is `digest` and its signer is
/// `send_signer`; any failure is `InvalidSignature`.
pub fn verify_send_signature(
    ix: &CompanionInstruction,
    digest: &[u8; 32],
    send_signer: &[u8; 32],
) -> (r: Result<(), CustomError>)
    ensures
        r is Ok <==> send_signature_valid(*ix, digest@, send_signer@),
        r matches Err(e) ==> e == CustomError::InvalidSignature,
{
    if !is_from_signature_program(ix) {
        return Err(CustomError::InvalidSignature);
    }
    let d = ix.data.as_slice();
    let n = d.len();
    let message = message_of(d);
    let key_start: usize = if n >= 64 { n - 64 } else { 0 };
    let key_end: usize = if n >= 32 { n - 32 } else { 0 };
    let signer = slice_subrange(d, key_start, key_end);
    if !bytes_eq(message, digest.as_slice()) || !bytes_eq(signer, send_signer.as_slice()) {
        return Err(CustomError::InvalidSignature);
    }
    Ok(())
}

/// Checks an inbound authorization, given the digest of the signers' keys:
/// the companion instruction comes from the signature-verification program and
/// holds at least a header and a message, its message is `digest`, and the
/// committee is `receive_signer`; any failure is `InvalidSignature`.
pub fn check_receive_signature(
    ix: &CompanionInstruction,
    digest: &[u8; 32],
    keys_digest: &[u8; 32],
    receive_signer: &[u8; 32],
) -> (r: Result<(), CustomError>)
    ensures
        r is Ok <==> receive_signature_valid(*ix, digest@, keys_digest@, receive_signer@),
        r matches Err(e) ==> e == CustomError::InvalidSignature,
{
    if !is_from_signature_program(ix) || ix.data.len() < 34 {
        return Err(CustomError::InvalidSignature);
    }
    let message = message_of(ix.data.as_slice());
    if !bytes_eq(message, digest.as_slice()) || !bytes_eq(
        keys_digest.as_slice(),
        receive_signer.as_slice(),
    ) {
        return Err(CustomError::InvalidSignature);
    }
    Ok(())
}

/// The digest of the signers' keys, the committee's aggregate identity.
pub fn signer_keys_digest(ix: &CompanionInstruction) -> (r: [u8; 32])
    requires
        ix.data@.len() >= 34,
    ensures
        r@ == keccak256_of(signer_keys(ix.data@)),
{
    let d = ix.data.as_slice();
    let n = d.len();
    let count: usize = (n - 34) / 110;
    proof {
        assert(32 * count + 32 <= n) by (nonlinear_arith)
            requires
                count == (n - 34) / 110,
                n >= 34,
        ;
    }
    let keys = slice_subrange(d, n - (32 * count + 32), n - 32);
    keccak256(keys)
}

/// Checks an inbound authorization against the aggregate identity of the
/// signers that the companion instruction names.
pub fn verify_receive_signature(
    ix: &CompanionInstruction,
    digest: &[u8; 32],
    receive_signer: &[u8; 32],
) -> (r: Result<(), CustomError>)
    ensures
        r is Ok <==> receive_signature_valid(
            *ix,
            digest@,
            keccak256_of(signer_keys(ix.data@)),
            receive_signer@,
        ),
        r matches Err(e) ==> e == CustomError::InvalidSignature,
{
    if ix.data.len() < 34 {
        return Err(CustomError::InvalidSignature);
    }
    let keys_digest = signer_keys_digest(ix);
    check_receive_signature(ix, digest, &keys_digest, receive_signer)
}

} // verus!
