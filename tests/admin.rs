use bridge_svm::admin::{
    change_mint_authority, initialize, initialize_token, set_pause, set_signers, withdraw,
};
use bridge_svm::custody::{receive_custody, send_custody, Balances, CustodyOp};
use bridge_svm::state::{CustomError, GlobalState, NonceAccount, TokenConfig};

const ADMIN: [u8; 32] = [1u8; 32];
const OTHER: [u8; 32] = [2u8; 32];
const MINT: [u8; 32] = [3u8; 32];
const AUTHORITY: [u8; 32] = [4u8; 32];

fn state() -> GlobalState {
    initialize(ADMIN, [5u8; 32], [6u8; 32])
}

#[test]
fn initialize_sets_fresh_state() {
    let s = state();
    assert_eq!(s.admin, ADMIN);
    assert_eq!(s.send_signer, [5u8; 32]);
    assert_eq!(s.receive_signer, [6u8; 32]);
    assert_eq!(s.nonce, 0);
    assert!(!s.pause);
}

#[test]
fn initialize_token_checks_custody_setup() {
    let s = state();
    let native = initialize_token(&s, &ADMIN, MINT, None, AUTHORITY, 250, true, [7u8; 20], 18, false);
    assert_eq!(native, Ok(TokenConfig::new(MINT, [7u8; 20], 18, false, 250)));
    let synthetic =
        initialize_token(&s, &ADMIN, MINT, Some(AUTHORITY), AUTHORITY, 250, false, [7u8; 20], 18, true);
    assert_eq!(synthetic.unwrap().is_mintable, true);
    assert_eq!(
        initialize_token(&s, &ADMIN, MINT, Some(OTHER), AUTHORITY, 250, false, [7u8; 20], 18, true),
        Err(CustomError::CustodyMismatch)
    );
    assert_eq!(
        initialize_token(&s, &ADMIN, MINT, None, AUTHORITY, 250, false, [7u8; 20], 18, true),
        Err(CustomError::CustodyMismatch)
    );
    assert_eq!(
        initialize_token(&s, &ADMIN, MINT, Some(AUTHORITY), AUTHORITY, 250, true, [7u8; 20], 18, true),
        Err(CustomError::CustodyMismatch)
    );
    assert_eq!(
        initialize_token(&s, &ADMIN, MINT, None, AUTHORITY, 250, false, [7u8; 20], 18, false),
        Err(CustomError::CustodyMismatch)
    );
    assert_eq!(
        initialize_token(&s, &OTHER, MINT, None, AUTHORITY, 250, true, [7u8; 20], 18, false),
        Err(CustomError::NotAdmin)
    );
}

#[test]
fn pause_and_signers_need_admin() {
    let mut s = state();
    assert_eq!(set_pause(&mut s, &OTHER, true), Err(CustomError::NotAdmin));
    assert!(!s.pause);
    assert_eq!(set_pause(&mut s, &ADMIN, true), Ok(()));
    assert!(s.pause);
    assert_eq!(set_signers(&mut s, &OTHER, [8u8; 32], [9u8; 32]), Err(CustomError::NotAdmin));
    assert_eq!(s.send_signer, [5u8; 32]);
    assert_eq!(set_signers(&mut s, &ADMIN, [8u8; 32], [9u8; 32]), Ok(()));
    assert_eq!(s.send_signer, [8u8; 32]);
    assert_eq!(s.receive_signer, [9u8; 32]);
    assert_eq!(s.nonce, 0);
}

#[test]
fn withdraw_moves_fees_to_admin() {
    let s = state();
    assert_eq!(withdraw(&s, &ADMIN, 1_000, 10, 400), Ok((600, 410)));
    assert_eq!(withdraw(&s, &ADMIN, 1_000, 10, 1_000), Ok((0, 1_010)));
    assert_eq!(withdraw(&s, &ADMIN, 1_000, 10, 1_001), Err(CustomError::InsufficientFunds));
    assert_eq!(withdraw(&s, &OTHER, 1_000, 10, 1), Err(CustomError::NotAdmin));
    assert_eq!(withdraw(&s, &ADMIN, 1_000, u64::MAX, 1), Err(CustomError::ArithmeticOverflow));
}

#[test]
fn mint_authority_change_needs_admin_and_matching_token() {
    let s = state();
    let config = TokenConfig::new(MINT, [7u8; 20], 18, true, 250);
    assert_eq!(change_mint_authority(&s, &ADMIN, &config, &MINT), Ok(()));
    assert_eq!(change_mint_authority(&s, &OTHER, &config, &MINT), Err(CustomError::NotAdmin));
    assert_eq!(change_mint_authority(&s, &ADMIN, &config, &OTHER), Err(CustomError::InvalidToken));
}

#[test]
fn nonce_account_advances_only_on_match() {
    let mut a = NonceAccount::new();
    assert_eq!(a.nonce_counter, 0);
    assert_eq!(a.check_and_advance(1), Err(CustomError::InvalidNonce));
    assert_eq!(a.nonce_counter, 0);
    assert_eq!(a.check_and_advance(0), Ok(()));
    assert_eq!(a.check_and_advance(0), Err(CustomError::InvalidNonce));
    assert_eq!(a.nonce_counter, 1);
    let mut full = NonceAccount { nonce_counter: u64::MAX };
    assert_eq!(full.check_and_advance(u64::MAX), Err(CustomError::ArithmeticOverflow));
    assert_eq!(full.nonce_counter, u64::MAX);
}

#[test]
fn custody_branch_follows_mintable_flag() {
    let synthetic = TokenConfig::new(MINT, [7u8; 20], 18, true, 250);
    let native = TokenConfig::new(MINT, [7u8; 20], 18, false, 250);
    assert_eq!(send_custody(&synthetic, 5), CustodyOp::BurnFrom { amount: 5 });
    assert_eq!(send_custody(&native, 5), CustodyOp::EscrowIn { amount: 5 });
    assert_eq!(receive_custody(&synthetic, 5), CustodyOp::MintTo { amount: 5 });
    assert_eq!(receive_custody(&native, 5), CustodyOp::EscrowOut { amount: 5 });
}

#[test]
fn custody_movements_and_failures() {
    let b = Balances { user: 100, escrow: 50, supply: 200 };
    assert_eq!(b.apply(CustodyOp::EscrowIn { amount: 100 }), Ok(Balances { user: 0, escrow: 150, supply: 200 }));
    assert_eq!(b.apply(CustodyOp::EscrowIn { amount: 101 }), Err(CustomError::InsufficientFunds));
    assert_eq!(b.apply(CustodyOp::EscrowOut { amount: 50 }), Ok(Balances { user: 150, escrow: 0, supply: 200 }));
    assert_eq!(b.apply(CustodyOp::EscrowOut { amount: 51 }), Err(CustomError::InsufficientFunds));
    assert_eq!(b.apply(CustodyOp::MintTo { amount: 7 }), Ok(Balances { user: 107, escrow: 50, supply: 207 }));
    assert_eq!(b.apply(CustodyOp::BurnFrom { amount: 7 }), Ok(Balances { user: 93, escrow: 50, supply: 193 }));
    assert_eq!(b.apply(CustodyOp::BurnFrom { amount: 101 }), Err(CustomError::InsufficientFunds));
    let full = Balances { user: 1, escrow: 0, supply: u64::MAX };
    assert_eq!(full.apply(CustodyOp::MintTo { amount: 1 }), Err(CustomError::ArithmeticOverflow));
}
