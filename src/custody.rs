//! Which value movement a transfer makes, chosen by the token's custody mode,
//! and what that movement does to the balances involved.
use crate::state::{CustomError, TokenConfig};
use vstd::prelude::*;

verus! {

/// One of the four custody primitives, carried out under the token's
/// program-derived authority.
#[derive(Clone, Copy, Debug, PartialEq, Eq, Structural)]
pub enum CustodyOp {
    /// Move `amount` from the user's token account into the bridge's escrow.
    EscrowIn { amount: u64 },
    /// Move `amount` from the bridge's escrow to the user.
    EscrowOut { amount: u64 },
    /// Mint `amount` of the synthetic token to the user.
    MintTo { amount: u64 },
    /// Burn `amount` from the user's balance.
    BurnFrom { amount: u64 },
}

/// The movement of an outbound transfer: burn for a synthetic token, escrow for a native one.
pub open spec fn outbound_custody(config: TokenConfig, amount: u64) -> CustodyOp {
    if config.is_mintable {
        CustodyOp::BurnFrom { amount }
    } else {
        CustodyOp::EscrowIn { amount }
    }
}

/// The movement of an inbound transfer: mint for a synthetic token, release
/// from escrow for a native one.
pub open spec fn inbound_custody(config: TokenConfig, amount: u64) -> CustodyOp {
    if config.is_mintable {
        CustodyOp::MintTo { amount }
    } else {
        CustodyOp::EscrowOut { amount }
    }
}

pub fn send_custody(config: &TokenConfig, amount: u64) -> (r: CustodyOp)
    ensures
        r == outbound_custody(*config, amount),
{
    if config.is_mintable {
        CustodyOp::BurnFrom { amount }
    } else {
        CustodyOp::EscrowIn { amount }
    }
}

pub fn receive_custody(config: &TokenConfig, amount: u64) -> (r: CustodyOp)
    ensures
        r == inbound_custody(*config, amount),
{
    if config.is_mintable {
        CustodyOp::MintTo { amount }
    } else {
        CustodyOp::EscrowOut { amount }
    }
}

/// The balances of one token that a transfer can touch: the user's account,
/// the bridge's escrow account and the token's total supply.
#[derive(Clone, Copy, Debug, PartialEq, Eq, Structural)]
pub struct Balances {
    pub user: u64,
    pub escrow: u64,
    pub supply: u64,
}

impl Balances {
    /// Both accounts together hold no more than the supply.
    pub open spec fn wf(self) -> bool {
        self.user + self.escrow <= self.supply
    }
}

/// The balances after `op`, or `None` when the account it draws on is short
/// or the supply would overflow.
pub open spec fn custody_effect(b: Balances, op: CustodyOp) -> Option<Balances> {
    match op {
        CustodyOp::EscrowIn { amount } => if amount <= b.user {
            Some(
                Balances {
                    user: (b.user - amount) as u64,
                    escrow: (b.escrow + amount) as u64,
                    supply: b.supply,
                },
            )
        } else {
            None
        },
        CustodyOp::EscrowOut { amount } => if amount <= b.escrow {
            Some(
                Balances {
                    user: (b.user + amount) as u64,
                    escrow: (b.escrow - amount) as u64,
                    supply: b.supply,
                },
            )
        } else {
            None
        },
        CustodyOp::MintTo { amount } => if b.supply + amount <= u64::MAX {
            Some(
                Balances {
                    user: (b.user + amount) as u64,
                    escrow: b.escrow,
                    supply: (b.supply + amount) as u64,
                },
            )
        } else {
            None
        },
        CustodyOp::BurnFrom { amount } => if amount <= b.user {
            Some(
                Balances {
                    user: (b.user - amount) as u64,
                    escrow: b.escrow,
                    supply: (b.supply - amount) as u64,
                },
            )
        } else {
            None
        },
    }
}

impl Balances {
    /// Applies `op`: `InsufficientFunds` when the account it draws on is
    /// short, `ArithmeticOverflow` when minting would overflow the supply.
    pub fn apply(&self, op: CustodyOp) -> (r: Result<Balances, CustomError>)
        requires
            self.wf(),
        ensures
            match custody_effect(*self, op) {
                Some(n) => r == Ok::<Balances, CustomError>(n) && n.wf(),
                None => r == Err::<Balances, CustomError>(
                    if op is MintTo {
                        CustomError::ArithmeticOverflow
                    } else {
                        CustomError::InsufficientFunds
                    },
                ),
            },
    {
        match op {
            CustodyOp::EscrowIn { amount } => {
                if amount > self.user {
                    return Err(CustomError::InsufficientFunds);
                }
                Ok(Balances { user: self.user - amount, escrow: self.escrow + amount, supply: self.supply })
            },
            CustodyOp::EscrowOut { amount } => {
                if amount > self.escrow {
                    return Err(CustomError::InsufficientFunds);
                }
                Ok(Balances { user: self.user + amount, escrow: self.escrow - amount, supply: self.supply })
            },
            CustodyOp::MintTo { amount } => {
                if amount > u64::MAX - self.supply {
                    return Err(CustomError::ArithmeticOverflow);
                }
                Ok(Balances { user: self.user + amount, escrow: self.escrow, supply: self.supply + amount })
            },
            CustodyOp::BurnFrom { amount } => {
                if amount > self.user {
                    return Err(CustomError::InsufficientFunds);
                }
                Ok(Balances { user: self.user - amount, escrow: self.escrow, supply: self.supply - amount })
            },
        }
    }
}

} // verus!
