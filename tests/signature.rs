use anchor_lang::solana_program::keccak;
use bridge_svm::signature::{
    bytes_eq, check_receive_signature, signer_keys_digest, verify_receive_signature,
    verify_send_signature, CompanionInstruction, ED25519_PROGRAM_ID,
};
use bridge_svm::state::CustomError;

/// Instruction data with a 2-byte header, one block of 110 bytes per key
/// (the keys gathered just before the message), then the message.
fn sig_data(keys: &[[u8; 32]], message: &[u8; 32]) -> Vec<u8> {
    let mut d = vec![keys.len() as u8, 0];
    d.extend(std::iter::repeat(0xEE).take(78 * keys.len()));
    for k in keys {
        d.extend_from_slice(k);
    }
    d.extend_from_slice(message);
    d
}

fn ix(data: Vec<u8>) -> CompanionInstruction {
    CompanionInstruction { program_id: ED25519_PROGRAM_ID, data }
}

#[test]
fn program_id_is_the_ed25519_program() {
    assert_eq!(
        ED25519_PROGRAM_ID,
        anchor_lang::solana_program::ed25519_program::ID.to_bytes()
    );
}

#[test]
fn send_signature_accepts_matching_signer_and_digest() {
    let digest = [5u8; 32];
    let signer = [6u8; 32];
    let i = ix(sig_data(&[signer], &digest));
    assert_eq!(verify_send_signature(&i, &digest, &signer), Ok(()));
}

#[test]
fn send_signature_rejects_mismatches() {
    let digest = [5u8; 32];
    let signer = [6u8; 32];
    let i = ix(sig_data(&[signer], &digest));
    assert_eq!(verify_send_signature(&i, &[4u8; 32], &signer), Err(CustomError::InvalidSignature));
    assert_eq!(verify_send_signature(&i, &digest, &[7u8; 32]), Err(CustomError::InvalidSignature));
    let forged = CompanionInstruction { program_id: [1u8; 32], data: i.data.clone() };
    assert_eq!(verify_send_signature(&forged, &digest, &signer), Err(CustomError::InvalidSignature));
    let short = ix(digest.to_vec());
    assert_eq!(verify_send_signature(&short, &digest, &signer), Err(CustomError::InvalidSignature));
    let empty = ix(vec![]);
    assert_eq!(verify_send_signature(&empty, &digest, &signer), Err(CustomError::InvalidSignature));
}

#[test]
fn receive_signature_uses_hash_of_keys_in_order() {
    let digest = [8u8; 32];
    let (k1, k2) = ([1u8; 32], [2u8; 32]);
    let mut keys = k1.to_vec();
    keys.extend_from_slice(&k2);
    let aggregate = keccak::hash(&keys).to_bytes();
    let i = ix(sig_data(&[k1, k2], &digest));
    assert_eq!(signer_keys_digest(&i), aggregate);
    assert_eq!(verify_receive_signature(&i, &digest, &aggregate), Ok(()));
    let swapped = ix(sig_data(&[k2, k1], &digest));
    assert_eq!(
        verify_receive_signature(&swapped, &digest, &aggregate),
        Err(CustomError::InvalidSignature)
    );
    assert_eq!(
        verify_receive_signature(&i, &[0u8; 32], &aggregate),
        Err(CustomError::InvalidSignature)
    );
}

#[test]
fn receive_signature_rejects_foreign_or_short_instruction() {
    let digest = [8u8; 32];
    let k = [1u8; 32];
    let aggregate = keccak::hash(&k).to_bytes();
    let good = sig_data(&[k], &digest);
    let forged = CompanionInstruction { program_id: [0u8; 32], data: good.clone() };
    assert_eq!(
        verify_receive_signature(&forged, &digest, &aggregate),
        Err(CustomError::InvalidSignature)
    );
    let short = ix(good[good.len() - 33..].to_vec());
    assert_eq!(
        verify_receive_signature(&short, &digest, &aggregate),
        Err(CustomError::InvalidSignature)
    );
}

#[test]
fn check_receive_signature_compares_given_digests() {
    let digest = [8u8; 32];
    let i = ix(sig_data(&[[1u8; 32]], &digest));
    assert_eq!(check_receive_signature(&i, &digest, &[3u8; 32], &[3u8; 32]), Ok(()));
    assert_eq!(
        check_receive_signature(&i, &digest, &[3u8; 32], &[4u8; 32]),
        Err(CustomError::InvalidSignature)
    );
}

#[test]
fn byte_equality() {
    assert!(bytes_eq(&[1, 2, 3], &[1, 2, 3]));
    assert!(!bytes_eq(&[1, 2, 3], &[1, 2, 4]));
    assert!(!bytes_eq(&[1, 2], &[1, 2, 3]));
    assert!(bytes_eq(&[], &[]));
}
