//! Administrative operations: bootstrapping the records, halting the bridge,
//! rotating signers, withdrawing collected fees and handing over a mint.
use crate::signature::bytes_eq;
use crate::state::{CustomError, GlobalState, TokenConfig};
use vstd::prelude::*;

verus! {

/// The global state as created at bootstrap, with `admin` as administrator.
pub fn initialize(admin: [u8; 32], send_signer: [u8; 32], receive_signer: [u8; 32]) -> (r: GlobalState)
    ensures
        r == (GlobalState { admin, send_signer, receive_signer, nonce: 0, pause: false }),
{
    GlobalState { admin, send_signer, receive_signer, nonce: 0, pause: false }
}

fn check_admin(state: &GlobalState, caller: &[u8; 32]) -> (r: Result<(), CustomError>)
    ensures
        r is Ok <==> state.admin@ == caller@,
        r matches Err(e) ==> e == CustomError::NotAdmin,
{
    if bytes_eq(state.admin.as_slice(), caller.as_slice()) {
        Ok(())
    } else {
        Err(CustomError::NotAdmin)
    }
}

/// The custody mode agrees with the accounts set up for the token: a
/// synthetic token has no escrow account and the bridge's authority as its
/// mint authority; a native token has an escrow account.
pub open spec fn custody_setup_valid(
    is_mintable: bool,
    has_escrow_account: bool,
    mint_authority: Option<[u8; 32]>,
    authority: [u8; 32],
) -> bool {
    &&& is_mintable == !has_escrow_account
    &&& is_mintable ==> (mint_authority matches Some(a) && a@ == authority@)
}

/// Creates the configuration of the token `mint`, whose program-derived
/// authority is `authority` (derived with salt `bump`).
pub fn initialize_token(
    state: &GlobalState,
    caller: &[u8; 32],
    mint: [u8; 32],
    mint_authority: Option<[u8; 32]>,
    authority: [u8; 32],
    bump: u8,
    has_escrow_account: bool,
    amb_token: [u8; 20],
    amb_decimals: u8,
    is_mintable: bool,
) -> (r: Result<TokenConfig, CustomError>)
    ensures
        state.admin@ != caller@ ==> r == Err::<TokenConfig, CustomError>(CustomError::NotAdmin),
        state.admin@ == caller@ && !custody_setup_valid(
            is_mintable,
            has_escrow_account,
            mint_authority,
            authority,
        ) ==> r == Err::<TokenConfig, CustomError>(CustomError::CustodyMismatch),
        r is Ok <==> state.admin@ == caller@ && custody_setup_valid(
            is_mintable,
            has_escrow_account,
            mint_authority,
            authority,
        ),
        r matches Ok(c) ==> c == (TokenConfig {
            token: mint,
            amb_token,
            amb_decimals,
            is_mintable,
            bump,
        }),
{
    match check_admin(state, caller) {
        Ok(()) => {},
        Err(e) => {
            return Err(e);
        },
    }
    if is_mintable == has_escrow_account {
        return Err(CustomError::CustodyMismatch);
    }
    if is_mintable {
        match mint_authority {
            Some(a) => {
                if !bytes_eq(a.as_slice(), authority.as_slice()) {
                    return Err(CustomError::CustodyMismatch);
                }
            },
            None => {
                return Err(CustomError::CustodyMismatch);
            },
        }
    }
    Ok(TokenConfig::new(mint, amb_token, amb_decimals, is_mintable, bump))
}

/// Halts or resumes the bridge; only the administrator may.
pub fn set_pause(state: &mut GlobalState, caller: &[u8; 32], pause: bool) -> (r: Result<(), CustomError>)
    ensures
        r is Ok <==> old(state).admin@ == caller@,
        r matches Err(e) ==> e == CustomError::NotAdmin && *final(state) == *old(state),
        r is Ok ==> *final(state) == (GlobalState { pause, ..*old(state) }),
{
    check_admin(state, caller)?;
    state.pause = pause;
    Ok(())
}

/// Replaces both trusted signer identities; only the administrator may.
pub fn set_signers(
    state: &mut GlobalState,
    caller: &[u8; 32],
    send_signer: [u8; 32],
    receive_signer: [u8; 32],
) -> (r: Result<(), CustomError>)
    ensures
        r is Ok <==> old(state).admin@ == caller@,
        r matches Err(e) ==> e == CustomError::NotAdmin && *final(state) == *old(state),
        r is Ok ==> *final(state) == (GlobalState { send_signer, receive_signer, ..*old(state) }),
{
    check_admin(state, caller)?;
    state.send_signer = send_signer;
    state.receive_signer = receive_signer;
    Ok(())
}

/// Moves `amount` of collected fees from the state account's balance
/// `vault_lamports` to the administrator's balance `admin_lamports`, and
/// returns both new balances.
pub fn withdraw(
    state: &GlobalState,
    caller: &[u8; 32],
    vault_lamports: u64,
    admin_lamports: u64,
    amount: u64,
) -> (r: Result<(u64, u64), CustomError>)
    ensures
        state.admin@ != caller@ ==> r == Err::<(u64, u64), CustomError>(CustomError::NotAdmin),
        state.admin@ == caller@ && vault_lamports < amount ==> r == Err::<(u64, u64), CustomError>(
            CustomError::InsufficientFunds,
        ),
        state.admin@ == caller@ && vault_lamports >= amount && admin_lamports + amount > u64::MAX
            ==> r == Err::<(u64, u64), CustomError>(CustomError::ArithmeticOverflow),
        r is Ok <==> state.admin@ == caller@ && amount <= vault_lamports && admin_lamports + amount
            <= u64::MAX,
        r matches Ok(b) ==> b.0 == vault_lamports - amount && b.1 == admin_lamports + amount,
{
    check_admin(state, caller)?;
    if vault_lamports < amount {
        return Err(CustomError::InsufficientFunds);
    }
    if admin_lamports > u64::MAX - amount {
        return Err(CustomError::ArithmeticOverflow);
    }
    Ok((vault_lamports - amount, admin_lamports + amount))
}

/// Authorizes handing the mint authority of `mint` from the bridge to
/// another key: only the administrator may, and only through the token's own
/// configuration.
pub fn change_mint_authority(
    state: &GlobalState,
    caller: &[u8; 32],
    config: &TokenConfig,
    mint: &[u8; 32],
) -> (r: Result<(), CustomError>)
    ensures
        state.admin@ != caller@ ==> r == Err::<(), CustomError>(CustomError::NotAdmin),
        state.admin@ == caller@ && config.token@ != mint@ ==> r == Err::<(), CustomError>(
            CustomError::InvalidToken,
        ),
        r is Ok <==> state.admin@ == caller@ && config.token@ == mint@,
{
    check_admin(state, caller)?;
    if !bytes_eq(config.token.as_slice(), mint.as_slice()) {
        return Err(CustomError::InvalidToken);
    }
    Ok(())
}

} // verus!
