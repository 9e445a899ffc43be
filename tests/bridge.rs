use anchor_lang::solana_program::keccak;
use bridge_svm::admin::initialize;
use bridge_svm::bridge::{
    inbound_payload, receive, receive_with_digests, send, send_with_digest, ReceiveContext,
    SendContext,
};
use bridge_svm::codec::{ReceivePayload, SendPayload};
use bridge_svm::custody::{Balances, CustodyOp};
use bridge_svm::signature::{CompanionInstruction, ED25519_PROGRAM_ID};
use bridge_svm::state::{
    CustomError, GlobalState, NonceAccount, TokenConfig, AMB_CHAIN_ID, SOLANA_CHAIN_ID,
};

const ADMIN: [u8; 32] = [1u8; 32];
const SEND_SIGNER: [u8; 32] = [2u8; 32];
const COMMITTEE: [[u8; 32]; 2] = [[3u8; 32], [4u8; 32]];
const MINT: [u8; 32] = [5u8; 32];
const AMB_TOKEN: [u8; 20] = [6u8; 20];
const SENDER: [u8; 32] = [7u8; 32];
const RECIPIENT: [u8; 20] = [8u8; 20];
const NOW: u64 = 1_700_000_000;

fn sig_data(keys: &[[u8; 32]], message: &[u8; 32]) -> Vec<u8> {
    let mut d = vec![keys.len() as u8, 0];
    d.extend(std::iter::repeat(0xEE).take(78 * keys.len()));
    for k in keys {
        d.extend_from_slice(k);
    }
    d.extend_from_slice(message);
    d
}

fn committee_id() -> [u8; 32] {
    keccak::hash(&COMMITTEE.concat()).to_bytes()
}

fn global() -> GlobalState {
    initialize(ADMIN, SEND_SIGNER, committee_id())
}

fn token(mintable: bool) -> TokenConfig {
    TokenConfig::new(MINT, AMB_TOKEN, 18, mintable, 254)
}

fn payload(amount: u64, timestamp: u64) -> SendPayload {
    SendPayload {
        token_address: MINT,
        token_address_to: AMB_TOKEN,
        amount_to_send: amount,
        fee_amount: 2_500,
        chain_from: SOLANA_CHAIN_ID,
        chain_to: AMB_CHAIN_ID,
        timestamp,
        flags: [0u8; 32],
        flag_data: vec![9, 9],
    }
}

fn signed_send(p: &SendPayload) -> (Vec<u8>, SendContext) {
    let bytes = p.try_to_vec().unwrap();
    let digest = keccak::hash(&bytes).to_bytes();
    let ctx = SendContext {
        sender: SENDER,
        mint: MINT,
        mint_decimals: 6,
        now: NOW,
        instruction: CompanionInstruction {
            program_id: ED25519_PROGRAM_ID,
            data: sig_data(&[SEND_SIGNER], &digest),
        },
    };
    (bytes, ctx)
}

fn nonce_flags(n: u64) -> Vec<u8> {
    let mut d = n.to_be_bytes().to_vec();
    d.push(0xAB);
    d
}

fn signed_receive(amount: u64, event_id: u64, flag_data: &[u8]) -> ReceiveContext {
    let p = ReceivePayload {
        to: [10u8; 32],
        token_address_to: MINT,
        amount_to: amount,
        chain_from: AMB_CHAIN_ID,
        chain_to: SOLANA_CHAIN_ID,
        event_id,
        flags: [0u8; 32],
        flag_data: flag_data.to_vec(),
    };
    let digest = keccak::hash(&p.try_to_vec().unwrap()).to_bytes();
    ReceiveContext {
        receiver: [10u8; 32],
        mint: MINT,
        instruction: CompanionInstruction {
            program_id: ED25519_PROGRAM_ID,
            data: sig_data(&COMMITTEE, &digest),
        },
    }
}

#[test]
fn send_accepts_and_emits_event() {
    let mut state = global();
    let (bytes, ctx) = signed_send(&payload(1_488_000_000, NOW - 60));
    let plan = send(&mut state, &token(false), &ctx, &bytes, RECIPIENT).unwrap();
    assert_eq!(state.nonce, 1);
    assert_eq!(plan.fee_amount, 2_500);
    assert_eq!(plan.custody, CustodyOp::EscrowIn { amount: 1_488_000_000 });
    let ev = plan.event;
    assert_eq!(ev.event_id, 1);
    assert_eq!(ev.from, SENDER);
    assert_eq!(ev.to, RECIPIENT);
    assert_eq!(ev.token_address_from, MINT);
    assert_eq!(ev.token_address_to, AMB_TOKEN);
    assert_eq!(ev.amount_from, 1_488_000_000);
    assert_eq!(&ev.amount_to[23..], &[80, 170, 37, 244, 60, 245, 64, 0, 0]);
    assert_eq!(ev.chain_from, SOLANA_CHAIN_ID);
    assert_eq!(ev.chain_to, AMB_CHAIN_ID);
    assert_eq!(ev.flag_data, vec![9, 9]);
}

#[test]
fn send_while_paused_changes_nothing() {
    let mut state = global();
    state.pause = true;
    let before = state;
    let (bytes, ctx) = signed_send(&payload(100, NOW));
    assert_eq!(send(&mut state, &token(false), &ctx, &bytes, RECIPIENT), Err(CustomError::Paused));
    assert_eq!(state, before);
    state.pause = false;
    assert!(send(&mut state, &token(false), &ctx, &bytes, RECIPIENT).is_ok());
}

#[test]
fn send_rejects_bad_signature() {
    let mut state = global();
    let (bytes, mut ctx) = signed_send(&payload(100, NOW));
    ctx.instruction.data = sig_data(&[[9u8; 32]], &keccak::hash(&bytes).to_bytes());
    assert_eq!(send(&mut state, &token(false), &ctx, &bytes, RECIPIENT), Err(CustomError::InvalidSignature));
    let (_, ctx_other) = signed_send(&payload(101, NOW));
    assert_eq!(
        send(&mut state, &token(false), &ctx_other, &bytes, RECIPIENT),
        Err(CustomError::InvalidSignature)
    );
    ctx.instruction.program_id = [0u8; 32];
    assert_eq!(send(&mut state, &token(false), &ctx, &bytes, RECIPIENT), Err(CustomError::InvalidSignature));
    assert_eq!(state.nonce, 0);
}

#[test]
fn send_rejects_stale_or_misbound_payloads() {
    let mut state = global();
    let (bytes, ctx) = signed_send(&payload(100, NOW - 1800));
    assert_eq!(send(&mut state, &token(false), &ctx, &bytes, RECIPIENT), Err(CustomError::InvalidArgs));
    let (bytes, ctx) = signed_send(&payload(100, NOW - 1799));
    assert!(send(&mut state, &token(false), &ctx, &bytes, RECIPIENT).is_ok());
    let mut p = payload(100, NOW);
    p.chain_to = 1;
    let (bytes, ctx) = signed_send(&p);
    assert_eq!(send(&mut state, &token(false), &ctx, &bytes, RECIPIENT), Err(CustomError::InvalidArgs));
    let mut p = payload(100, NOW);
    p.chain_from = AMB_CHAIN_ID;
    let (bytes, ctx) = signed_send(&p);
    assert_eq!(send(&mut state, &token(false), &ctx, &bytes, RECIPIENT), Err(CustomError::InvalidArgs));
    let mut p = payload(100, NOW);
    p.token_address_to = [0u8; 20];
    let (bytes, ctx) = signed_send(&p);
    assert_eq!(send(&mut state, &token(false), &ctx, &bytes, RECIPIENT), Err(CustomError::InvalidArgs));
    let mut p = payload(100, NOW);
    p.token_address = [0u8; 32];
    let (bytes, ctx) = signed_send(&p);
    assert_eq!(send(&mut state, &token(false), &ctx, &bytes, RECIPIENT), Err(CustomError::InvalidArgs));
    let (bytes, mut ctx) = signed_send(&payload(100, NOW));
    ctx.mint = [0u8; 32];
    assert_eq!(send(&mut state, &token(false), &ctx, &bytes, RECIPIENT), Err(CustomError::InvalidToken));
    assert_eq!(state.nonce, 1);
}

#[test]
fn send_rejects_malformed_payload() {
    let mut state = global();
    let (bytes, ctx) = signed_send(&payload(100, NOW));
    assert_eq!(
        send(&mut state, &token(false), &ctx, &bytes[..100], RECIPIENT),
        Err(CustomError::InvalidSerialization)
    );
}

#[test]
fn send_rejects_scaling_overflow() {
    let mut state = global();
    let config = TokenConfig::new(MINT, AMB_TOKEN, 40, false, 254);
    let (bytes, ctx) = signed_send(&payload(u64::MAX, NOW));
    assert_eq!(send(&mut state, &config, &ctx, &bytes, RECIPIENT), Err(CustomError::ArithmeticOverflow));
    assert_eq!(state.nonce, 0);
    let mut full = global();
    full.nonce = u64::MAX;
    let (bytes, ctx) = signed_send(&payload(1, NOW));
    assert_eq!(send(&mut full, &token(false), &ctx, &bytes, RECIPIENT), Err(CustomError::ArithmeticOverflow));
}

#[test]
fn send_mintable_burns_and_native_escrows() {
    let before = Balances { user: 1_000, escrow: 300, supply: 5_000 };
    let mut state = global();
    let (bytes, ctx) = signed_send(&payload(400, NOW));
    let plan = send(&mut state, &token(true), &ctx, &bytes, RECIPIENT).unwrap();
    assert_eq!(plan.custody, CustodyOp::BurnFrom { amount: 400 });
    assert_eq!(before.apply(plan.custody), Ok(Balances { user: 600, escrow: 300, supply: 4_600 }));
    let plan = send(&mut state, &token(false), &ctx, &bytes, RECIPIENT).unwrap();
    assert_eq!(plan.custody, CustodyOp::EscrowIn { amount: 400 });
    assert_eq!(before.apply(plan.custody), Ok(Balances { user: 600, escrow: 700, supply: 5_000 }));
}

#[test]
fn consecutive_sends_number_events_without_gaps() {
    let mut state = global();
    state.nonce = 41;
    for i in 1..=5u64 {
        let (bytes, ctx) = signed_send(&payload(10 * i, NOW));
        let plan = send(&mut state, &token(false), &ctx, &bytes, RECIPIENT).unwrap();
        assert_eq!(plan.event.event_id, 41 + i);
        assert_eq!(state.nonce, 41 + i);
    }
}

#[test]
fn send_with_given_digest() {
    let mut state = global();
    let (bytes, ctx) = signed_send(&payload(100, NOW));
    let digest = keccak::hash(&bytes).to_bytes();
    assert!(send_with_digest(&mut state, &token(false), &ctx, &bytes, &digest, RECIPIENT).is_ok());
    assert_eq!(
        send_with_digest(&mut state, &token(false), &ctx, &bytes, &[0u8; 32], RECIPIENT),
        Err(CustomError::InvalidSignature)
    );
}

#[test]
fn receive_mints_or_releases_and_advances_nonce() {
    let state = global();
    let mut acct = NonceAccount::new();
    let flags = nonce_flags(0);
    let ctx = signed_receive(900, 77, &flags);
    let plan = receive(&state, &token(true), &mut acct, &ctx, 900, 77, [0u8; 32], flags.clone()).unwrap();
    assert_eq!(plan.custody, CustodyOp::MintTo { amount: 900 });
    assert_eq!(plan.event.event_id, 77);
    assert_eq!(plan.event.to, [10u8; 32]);
    assert_eq!(plan.event.token_address_to, MINT);
    assert_eq!(plan.event.chain_from, AMB_CHAIN_ID);
    assert_eq!(plan.event.chain_to, SOLANA_CHAIN_ID);
    assert_eq!(acct.nonce_counter, 1);
    let flags = nonce_flags(1);
    let ctx = signed_receive(50, 78, &flags);
    let plan = receive(&state, &token(false), &mut acct, &ctx, 50, 78, [0u8; 32], flags).unwrap();
    assert_eq!(plan.custody, CustodyOp::EscrowOut { amount: 50 });
    assert_eq!(acct.nonce_counter, 2);
}

#[test]
fn replayed_receive_is_rejected() {
    let state = global();
    let mut acct = NonceAccount::new();
    let flags = nonce_flags(0);
    let ctx = signed_receive(900, 77, &flags);
    let balances = Balances { user: 0, escrow: 1_000, supply: 1_000 };
    let plan = receive(&state, &token(false), &mut acct, &ctx, 900, 77, [0u8; 32], flags.clone()).unwrap();
    let after_first = balances.apply(plan.custody).unwrap();
    assert_eq!(after_first, Balances { user: 900, escrow: 100, supply: 1_000 });
    let after_account = acct;
    assert_eq!(
        receive(&state, &token(false), &mut acct, &ctx, 900, 77, [0u8; 32], flags),
        Err(CustomError::InvalidNonce)
    );
    assert_eq!(acct, after_account);
    assert_eq!(after_first, Balances { user: 900, escrow: 100, supply: 1_000 });
}

#[test]
fn receive_with_wrong_digest_is_rejected() {
    let state = global();
    let mut acct = NonceAccount::new();
    let flags = nonce_flags(0);
    let ctx = signed_receive(900, 77, &flags);
    assert_eq!(
        receive(&state, &token(true), &mut acct, &ctx, 901, 77, [0u8; 32], flags.clone()),
        Err(CustomError::InvalidSignature)
    );
    assert_eq!(
        receive(&state, &token(true), &mut acct, &ctx, 900, 77, [1u8; 32], flags),
        Err(CustomError::InvalidSignature)
    );
    assert_eq!(acct.nonce_counter, 0);
}

#[test]
fn receive_rejects_pause_missing_nonce_and_wrong_order() {
    let mut state = global();
    let mut acct = NonceAccount::new();
    let flags = nonce_flags(0);
    let ctx = signed_receive(900, 77, &flags);
    state.pause = true;
    assert_eq!(
        receive(&state, &token(true), &mut acct, &ctx, 900, 77, [0u8; 32], flags.clone()),
        Err(CustomError::Paused)
    );
    state.pause = false;
    let short = vec![0u8; 7];
    let ctx_short = signed_receive(900, 77, &short);
    assert_eq!(
        receive(&state, &token(true), &mut acct, &ctx_short, 900, 77, [0u8; 32], short),
        Err(CustomError::InvalidNonce)
    );
    let ahead = nonce_flags(1);
    let ctx_ahead = signed_receive(900, 77, &ahead);
    assert_eq!(
        receive(&state, &token(true), &mut acct, &ctx_ahead, 900, 77, [0u8; 32], ahead),
        Err(CustomError::InvalidNonce)
    );
    let other = TokenConfig::new([0u8; 32], AMB_TOKEN, 18, true, 1);
    assert_eq!(
        receive(&state, &other, &mut acct, &ctx, 900, 77, [0u8; 32], flags),
        Err(CustomError::InvalidToken)
    );
    assert_eq!(acct.nonce_counter, 0);
}

#[test]
fn receive_with_digests_checks_payload_binding() {
    let state = global();
    let mut acct = NonceAccount::new();
    let flags = nonce_flags(0);
    let ctx = signed_receive(900, 77, &flags);
    let mut p = inbound_payload(&ctx, 900, 77, [0u8; 32], flags);
    let digest = keccak::hash(&p.try_to_vec().unwrap()).to_bytes();
    let committee = committee_id();
    p.chain_from = 1;
    assert_eq!(
        receive_with_digests(&state, &token(true), &mut acct, &ctx, p.clone(), &digest, &committee),
        Err(CustomError::InvalidArgs)
    );
    p.chain_from = AMB_CHAIN_ID;
    assert!(receive_with_digests(&state, &token(true), &mut acct, &ctx, p, &digest, &committee).is_ok());
    assert_eq!(acct.nonce_counter, 1);
}
