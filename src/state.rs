//! The bridge's records and its error taxonomy.
use vstd::prelude::*;

verus! {

/// The local chain's id ("SOLANADN" in ASCII).
pub const SOLANA_CHAIN_ID: u64 = 0x534f4c414e41444e;

/// The remote chain's id.
pub const AMB_CHAIN_ID: u64 = 22040;

/// How long, in seconds, an outbound authorization stays valid after its timestamp.
pub const SIGNATURE_VALIDITY_TIME: u64 = 1800;

/// The process-wide configuration record.
#[derive(Clone, Copy, Debug, PartialEq, Eq)]
pub struct GlobalState {
    pub admin: [u8; 32],
    /// Identity that must sign outbound payloads.
    pub send_signer: [u8; 32],
    /// Aggregate identity (digest of the committee's keys) that must sign inbound payloads.
    pub receive_signer: [u8; 32],
    /// Outbound sequence counter; its value after a Send is that Send's event id.
    pub nonce: u64,
    pub pause: bool,
}

/// Per-token configuration, fixed when the token is set up.
#[derive(Clone, Copy, Debug, PartialEq, Eq)]
pub struct TokenConfig {
    /// The local mint.
    pub token: [u8; 32],
    /// The token's address on the remote chain.
    pub amb_token: [u8; 20],
    /// The token's decimals on the remote chain.
    pub amb_decimals: u8,
    /// `true`: synthetic token, minted and burned by the bridge; `false`: native
    /// token, held in the bridge's escrow account.
    pub is_mintable: bool,
    /// Salt of the program-derived authority of this token.
    pub bump: u8,
}

impl TokenConfig {
    pub fn new(token: [u8; 32], amb_token: [u8; 20], amb_decimals: u8, is_mintable: bool, bump: u8) -> (r: TokenConfig)
        ensures
            r == (TokenConfig { token, amb_token, amb_decimals, is_mintable, bump }),
    {
        TokenConfig { token, amb_token, amb_decimals, is_mintable, bump }
    }
}

/// Per-recipient replay counter of inbound transfers.
#[derive(Clone, Copy, Debug, PartialEq, Eq, Structural)]
pub struct NonceAccount {
    pub nonce_counter: u64,
}

impl NonceAccount {
    /// The record as lazily created on first use.
    pub fn new() -> (r: NonceAccount)
        ensures
            r.nonce_counter == 0,
    {
        NonceAccount { nonce_counter: 0 }
    }

    /// Accepts `expected` only if it is the current counter, and then advances
    /// the counter by one; on any failure the counter is left as it was.
    pub fn check_and_advance(&mut self, expected: u64) -> (r: Result<(), CustomError>)
        ensures
            old(self).nonce_counter != expected ==> r == Err::<(), CustomError>(
                CustomError::InvalidNonce,
            ),
            old(self).nonce_counter == expected && expected == u64::MAX ==> r == Err::<
                (),
                CustomError,
            >(CustomError::ArithmeticOverflow),
            r is Ok <==> old(self).nonce_counter == expected && expected < u64::MAX,
            r is Ok ==> final(self).nonce_counter == old(self).nonce_counter + 1,
            r is Err ==> *final(self) == *old(self),
    {
        if self.nonce_counter != expected {
            return Err(CustomError::InvalidNonce);
        }
        if self.nonce_counter == u64::MAX {
            return Err(CustomError::ArithmeticOverflow);
        }
        self.nonce_counter = self.nonce_counter + 1;
        Ok(())
    }
}

/// Every way a bridge operation can be rejected.
#[derive(Clone, Copy, Debug, PartialEq, Eq, Structural)]
pub enum CustomError {
    /// Missing or wrong signer, digest mismatch, or a companion instruction
    /// not issued by the signature-verification program.
    InvalidSignature,
    /// Replayed or out-of-order inbound transfer, or no nonce in its flag data.
    InvalidNonce,
    /// The token configuration does not belong to the mint acted on.
    InvalidToken,
    /// A payload that cannot be decoded or encoded.
    InvalidSerialization,
    /// Wrong chain id, token binding or a stale authorization.
    InvalidArgs,
    /// The bridge is halted.
    Paused,
    /// The caller is not the administrator.
    NotAdmin,
    /// A counter or an amount would overflow.
    ArithmeticOverflow,
    /// An account holds less than is to be taken from it.
    InsufficientFunds,
    /// The custody mode does not agree with the escrow account or the mint authority.
    CustodyMismatch,
}

} // verus!
