use vstd::prelude::*;

use crate::authority::VaultAuthority;
use crate::errors::FlashLoanError;
use crate::events::LiquidityWithdrawn;
use crate::instructions::{follows, Effects};
use crate::math::{amount_for_shares, spec_amount_for_shares};
use crate::pubkey::Pubkey;
use crate::state::{DepositReceipt, LendingPool};
use crate::token::{TokenAccount, TokenTransfer};

verus! {

/// The accounts of a withdrawal.
#[derive(Debug, Clone, Copy, PartialEq, Eq)]
pub struct Withdraw {
    /// Identity of the pool record
    pub pool_key: Pubkey,
    pub pool: LendingPool,
    pub receipt: DepositReceipt,
    pub vault: TokenAccount,
    pub depositor_token_account: TokenAccount,
    pub depositor: Pubkey,
}

impl Withdraw {
    /// The first constraint on the accounts that does not hold, if any: the
    /// receipt is the caller's and of this pool, the vault is the pool's, and
    /// the depositor is paid in the pool's asset. A paused pool is no
    /// obstacle.
    pub open spec fn violation(&self) -> Option<FlashLoanError> {
        if self.receipt.depositor != self.depositor {
            Some(FlashLoanError::Unauthorized)
        } else if self.receipt.pool != self.pool_key {
            Some(FlashLoanError::InvalidVault)
        } else if self.vault.key != self.pool.vault {
            Some(FlashLoanError::InvalidVault)
        } else if self.depositor_token_account.mint != self.pool.token_mint {
            Some(FlashLoanError::MintMismatch)
        } else {
            None
        }
    }

    pub fn validate(&self) -> (r: Result<(), FlashLoanError>)
        ensures
            r is Ok <==> self.violation() is None,
            r matches Err(e) ==> self.violation() == Some(e),
    {
        if self.receipt.depositor != self.depositor {
            return Err(FlashLoanError::Unauthorized);
        }
        if self.receipt.pool != self.pool_key {
            return Err(FlashLoanError::InvalidVault);
        }
        if self.vault.key != self.pool.vault {
            return Err(FlashLoanError::InvalidVault);
        }
        if self.depositor_token_account.mint != self.pool.token_mint {
            return Err(FlashLoanError::MintMismatch);
        }
        Ok(())
    }
}

/// What burning `shares_to_burn` shares does to the accounts, and what it
/// asks for: the first constraint that the accounts break, else the error
/// where the withdrawal itself is rejected, else the accounts as committed,
/// the transfer out of the vault that the pool's authority signs, and the
/// event.
pub open spec fn spec_handle_withdraw(ctx: Withdraw, shares_to_burn: u64) -> Result<
    (Withdraw, Effects<LiquidityWithdrawn>),
    FlashLoanError,
> {
    match ctx.violation() {
        Some(e) => Err(e),
        None => {
            if shares_to_burn == 0 {
                Err(FlashLoanError::ZeroWithdraw)
            } else if ctx.receipt.shares < shares_to_burn {
                Err(FlashLoanError::InsufficientShares)
            } else {
                match spec_amount_for_shares(
                    shares_to_burn,
                    ctx.pool.total_deposits,
                    ctx.pool.total_shares,
                ) {
                    Err(e) => Err(e),
                    Ok(amount) => {
                        if ctx.pool.total_deposits < amount || ctx.pool.total_shares < shares_to_burn {
                            Err(FlashLoanError::MathOverflow)
                        } else {
                            Ok(
                                (
                                    Withdraw {
                                        pool: LendingPool {
                                            total_deposits: (ctx.pool.total_deposits - amount) as u64,
                                            total_shares: (ctx.pool.total_shares - shares_to_burn) as u64,
                                            ..ctx.pool
                                        },
                                        receipt: DepositReceipt {
                                            shares: (ctx.receipt.shares - shares_to_burn) as u64,
                                            ..ctx.receipt
                                        },
                                        ..ctx
                                    },
                                    Effects {
                                        transfer: TokenTransfer {
                                            from: ctx.vault.key,
                                            to: ctx.depositor_token_account.key,
                                            authority: ctx.pool_key,
                                            amount,
                                            vault_authority: Some(VaultAuthority::of(ctx.pool)),
                                        },
                                        event: LiquidityWithdrawn {
                                            pool: ctx.pool_key,
                                            depositor: ctx.depositor,
                                            amount,
                                            shares_burned: shares_to_burn,
                                        },
                                    },
                                ),
                            )
                        }
                    },
                }
            }
        },
    }
}

/// Checks the constraints on the accounts, then commits the burning of
/// `shares_to_burn` shares of the receipt. On an error
/// the accounts are left as they were.
pub fn handle_withdraw(ctx: &mut Withdraw, shares_to_burn: u64) -> (r: Result<
    Effects<LiquidityWithdrawn>,
    FlashLoanError,
>)
    ensures
        follows(r, *old(ctx), *final(ctx), spec_handle_withdraw(*old(ctx), shares_to_burn)),
{
    match ctx.validate() {
        Ok(()) => {},
        Err(e) => {
            return Err(e);
        },
    }
    if shares_to_burn == 0 {
        return Err(FlashLoanError::ZeroWithdraw);
    }
    if ctx.receipt.shares < shares_to_burn {
        return Err(FlashLoanError::InsufficientShares);
    }
    let amount: u64 = match amount_for_shares(
        shares_to_burn,
        ctx.pool.total_deposits,
        ctx.pool.total_shares,
    ) {
        Ok(amount) => amount,
        Err(e) => {
            return Err(e);
        },
    };
    let total_deposits: u64 = match ctx.pool.total_deposits.checked_sub(amount) {
        Some(v) => v,
        None => {
            return Err(FlashLoanError::MathOverflow);
        },
    };
    let total_shares: u64 = match ctx.pool.total_shares.checked_sub(shares_to_burn) {
        Some(v) => v,
        None => {
            return Err(FlashLoanError::MathOverflow);
        },
    };
    let vault_authority = VaultAuthority::derive(&ctx.pool);

    ctx.pool.total_deposits = total_deposits;
    ctx.pool.total_shares = total_shares;
    ctx.receipt.shares = ctx.receipt.shares - shares_to_burn;

    Ok(
        Effects {
            transfer: TokenTransfer {
                from: ctx.vault.key,
                to: ctx.depositor_token_account.key,
                authority: ctx.pool_key,
                amount,
                vault_authority: Some(vault_authority),
            },
            event: LiquidityWithdrawn {
                pool: ctx.pool_key,
                depositor: ctx.depositor,
                amount,
                shares_burned: shares_to_burn,
            },
        },
    )
}

} // verus!
