use vstd::prelude::*;

use crate::errors::FlashLoanError;
use crate::events::LiquidityDeposited;
use crate::instructions::{follows, Effects};
use crate::math::{shares_for_deposit, spec_shares_for_deposit};
use crate::pubkey::Pubkey;
use crate::state::{DepositReceipt, LendingPool};
use crate::token::{TokenAccount, TokenTransfer};

verus! {

/// The accounts of a deposit.
#[derive(Debug, Clone, Copy, PartialEq, Eq)]
pub struct Deposit {
    /// Identity of the pool record
    pub pool_key: Pubkey,
    pub pool: LendingPool,
    /// The depositor's receipt in this pool, empty before the first deposit
    pub receipt: DepositReceipt,
    /// Bump of the receipt's derived address
    pub receipt_bump: u8,
    pub vault: TokenAccount,
    pub depositor_token_account: TokenAccount,
    pub depositor: Pubkey,
}

impl Deposit {
    /// The first constraint on the accounts that does not hold, if any: the
    /// pool is active, the vault is the pool's, and the depositor pays in the
    /// pool's asset.
    pub open spec fn violation(&self) -> Option<FlashLoanError> {
        if !self.pool.is_active {
            Some(FlashLoanError::PoolPaused)
        } else if self.vault.key != self.pool.vault {
            Some(FlashLoanError::InvalidVault)
        } else if self.depositor_token_account.mint != self.pool.token_mint {
            Some(FlashLoanError::MintMismatch)
        } else {
            None
        }
    }

    pub fn validate(&self) -> (r: Result<(), FlashLoanError>)
        ensures
            r is Ok <==> self.violation() is None,
            r matches Err(e) ==> self.violation() == Some(e),
    {
        if !self.pool.is_active {
            return Err(FlashLoanError::PoolPaused);
        }
        if self.vault.key != self.pool.vault {
            return Err(FlashLoanError::InvalidVault);
        }
        if self.depositor_token_account.mint != self.pool.token_mint {
            return Err(FlashLoanError::MintMismatch);
        }
        Ok(())
    }
}

/// The receipt after `shares` were minted to it at time `now`. A receipt that
/// no deposit has filled in yet is bound to the pool and the depositor first.
pub open spec fn receipt_after_deposit(ctx: Deposit, shares: u64, now: i64) -> DepositReceipt {
    if ctx.receipt.is_initialized() {
        DepositReceipt {
            shares: (ctx.receipt.shares + shares) as u64,
            last_deposit_ts: now,
            ..ctx.receipt
        }
    } else {
        DepositReceipt {
            pool: ctx.pool_key,
            depositor: ctx.depositor,
            shares: (ctx.receipt.shares + shares) as u64,
            last_deposit_ts: now,
            bump: ctx.receipt_bump,
        }
    }
}

/// What a deposit of `amount` at time `now` does to the accounts, and what it
/// asks for: the first constraint that the accounts break, else the error
/// where the deposit itself is rejected, else the accounts as committed, the
/// transfer from the depositor into the vault, and the event.
pub open spec fn spec_handle_deposit(ctx: Deposit, amount: u64, now: i64) -> Result<
    (Deposit, Effects<LiquidityDeposited>),
    FlashLoanError,
> {
    match ctx.violation() {
        Some(e) => Err(e),
        None => {
            if amount == 0 {
                Err(FlashLoanError::ZeroDeposit)
            } else {
                match spec_shares_for_deposit(amount, ctx.pool.total_deposits, ctx.pool.total_shares) {
                    Err(e) => Err(e),
                    Ok(shares) => {
                        if ctx.pool.total_deposits + amount > u64::MAX
                            || ctx.pool.total_shares + shares > u64::MAX
                            || ctx.receipt.shares + shares > u64::MAX {
                            Err(FlashLoanError::MathOverflow)
                        } else {
                            Ok(
                                (
                                    Deposit {
                                        pool: LendingPool {
                                            total_deposits: (ctx.pool.total_deposits + amount) as u64,
                                            total_shares: (ctx.pool.total_shares + shares) as u64,
                                            ..ctx.pool
                                        },
                                        receipt: receipt_after_deposit(ctx, shares, now),
                                        ..ctx
                                    },
                                    Effects {
                                        transfer: TokenTransfer {
                                            from: ctx.depositor_token_account.key,
                                            to: ctx.vault.key,
                                            authority: ctx.depositor,
                                            amount,
                                            vault_authority: None,
                                        },
                                        event: LiquidityDeposited {
                                            pool: ctx.pool_key,
                                            depositor: ctx.depositor,
                                            amount,
                                            shares_minted: shares,
                                        },
                                    },
                                ),
                            )
                        }
                    },
                }
            }
        },
    }
}

/// Checks the constraints on the accounts, then commits a deposit of `amount`
/// made at time `now`. On an error the accounts
/// are left as they were.
pub fn handle_deposit(ctx: &mut Deposit, amount: u64, now: i64) -> (r: Result<
    Effects<LiquidityDeposited>,
    FlashLoanError,
>)
    ensures
        follows(r, *old(ctx), *final(ctx), spec_handle_deposit(*old(ctx), amount, now)),
{
    match ctx.validate() {
        Ok(()) => {},
        Err(e) => {
            return Err(e);
        },
    }
    if amount == 0 {
        return Err(FlashLoanError::ZeroDeposit);
    }
    let shares: u64 = match shares_for_deposit(
        amount,
        ctx.pool.total_deposits,
        ctx.pool.total_shares,
    ) {
        Ok(shares) => shares,
        Err(e) => {
            return Err(e);
        },
    };
    let total_deposits: u64 = match ctx.pool.total_deposits.checked_add(amount) {
        Some(v) => v,
        None => {
            return Err(FlashLoanError::MathOverflow);
        },
    };
    let total_shares: u64 = match ctx.pool.total_shares.checked_add(shares) {
        Some(v) => v,
        None => {
            return Err(FlashLoanError::MathOverflow);
        },
    };
    let receipt_shares: u64 = match ctx.receipt.shares.checked_add(shares) {
        Some(v) => v,
        None => {
            return Err(FlashLoanError::MathOverflow);
        },
    };

    ctx.pool.total_deposits = total_deposits;
    ctx.pool.total_shares = total_shares;
    if ctx.receipt.pool == Pubkey::default() {
        ctx.receipt.pool = ctx.pool_key;
        ctx.receipt.depositor = ctx.depositor;
        ctx.receipt.bump = ctx.receipt_bump;
    }
    ctx.receipt.shares = receipt_shares;
    ctx.receipt.last_deposit_ts = now;

    Ok(
        Effects {
            transfer: TokenTransfer {
                from: ctx.depositor_token_account.key,
                to: ctx.vault.key,
                authority: ctx.depositor,
                amount,
                vault_authority: None,
            },
            event: LiquidityDeposited {
                pool: ctx.pool_key,
                depositor: ctx.depositor,
                amount,
                shares_minted: shares,
            },
        },
    )
}

} // verus!
