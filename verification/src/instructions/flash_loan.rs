use vstd::prelude::*;

use crate::authority::VaultAuthority;
use crate::errors::FlashLoanError;
use crate::events::{FlashLoanBorrowed, FlashLoanRepaid};
use crate::instructions::{follows, Effects};
use crate::math::{fee_for_borrow, spec_fee_for_borrow};
use crate::pubkey::Pubkey;
use crate::state::{FlashLoanReceipt, LendingPool};
use crate::token::{TokenAccount, TokenTransfer};

verus! {

/// The accounts of a flash borrow.
#[derive(Debug, Clone, Copy, PartialEq, Eq)]
pub struct BorrowFlashLoan {
    /// Identity of the pool record
    pub pool_key: Pubkey,
    pub pool: LendingPool,
    /// The record that the store made for this loan; the borrow fills it in
    pub flash_loan_receipt: FlashLoanReceipt,
    /// Bump of the receipt's derived address
    pub flash_loan_receipt_bump: u8,
    pub vault: TokenAccount,
    pub borrower_token_account: TokenAccount,
    pub borrower: Pubkey,
}

impl BorrowFlashLoan {
    /// The first constraint on the accounts that does not hold, if any: the
    /// pool is active, the vault is the pool's, and the borrower is paid in
    /// the pool's asset.
    pub open spec fn violation(&self) -> Option<FlashLoanError> {
        if !self.pool.is_active {
            Some(FlashLoanError::PoolPaused)
        } else if self.vault.key != self.pool.vault {
            Some(FlashLoanError::InvalidVault)
        } else if self.borrower_token_account.mint != self.pool.token_mint {
            Some(FlashLoanError::MintMismatch)
        } else {
            None
        }
    }

    pub fn validate(&self) -> (r: Result<(), FlashLoanError>)
        ensures
            r is Ok <==> self.violation() is None,
            r matches Err(e) ==> self.violation() == Some(e),
    {
        if !self.pool.is_active {
            return Err(FlashLoanError::PoolPaused);
        }
        if self.vault.key != self.pool.vault {
            return Err(FlashLoanError::InvalidVault);
        }
        if self.borrower_token_account.mint != self.pool.token_mint {
            return Err(FlashLoanError::MintMismatch);
        }
        Ok(())
    }
}

/// What borrowing `amount` does to the accounts, and what it asks for: the
/// first constraint that the accounts break, else the error where the borrow
/// itself is rejected, else the accounts with the obligation recorded, the
/// transfer out of the vault that the pool's authority signs, and the event.
/// The pool's own record is not touched.
pub open spec fn spec_borrow_handler(ctx: BorrowFlashLoan, amount: u64) -> Result<
    (BorrowFlashLoan, Effects<FlashLoanBorrowed>),
    FlashLoanError,
> {
    match ctx.violation() {
        Some(e) => Err(e),
        None => {
            if amount == 0 {
                Err(FlashLoanError::InvalidAmount)
            } else if ctx.vault.amount < amount {
                Err(FlashLoanError::InsufficientLiquidity)
            } else {
                match spec_fee_for_borrow(amount, ctx.pool.fee_basis_points) {
                    Err(e) => Err(e),
                    Ok(fee) => Ok(
                        (
                            BorrowFlashLoan {
                                flash_loan_receipt: FlashLoanReceipt {
                                    pool: ctx.pool_key,
                                    borrower: ctx.borrower,
                                    amount,
                                    fee,
                                    bump: ctx.flash_loan_receipt_bump,
                                },
                                ..ctx
                            },
                            Effects {
                                transfer: TokenTransfer {
                                    from: ctx.vault.key,
                                    to: ctx.borrower_token_account.key,
                                    authority: ctx.pool_key,
                                    amount,
                                    vault_authority: Some(VaultAuthority::of(ctx.pool)),
                                },
                                event: FlashLoanBorrowed {
                                    pool: ctx.pool_key,
                                    borrower: ctx.borrower,
                                    amount,
                                    fee,
                                },
                            },
                        ),
                    ),
                }
            }
        },
    }
}

/// Checks the constraints on the accounts, then records the obligation for a
/// flash borrow of `amount`. On an error the
/// accounts are left as they were.
pub fn borrow_handler(ctx: &mut BorrowFlashLoan, amount: u64) -> (r: Result<
    Effects<FlashLoanBorrowed>,
    FlashLoanError,
>)
    ensures
        follows(r, *old(ctx), *final(ctx), spec_borrow_handler(*old(ctx), amount)),
{
    match ctx.validate() {
        Ok(()) => {},
        Err(e) => {
            return Err(e);
        },
    }
    if amount == 0 {
        return Err(FlashLoanError::InvalidAmount);
    }
    if ctx.vault.amount < amount {
        return Err(FlashLoanError::InsufficientLiquidity);
    }
    let fee: u64 = match fee_for_borrow(amount, ctx.pool.fee_basis_points) {
        Ok(fee) => fee,
        Err(e) => {
            return Err(e);
        },
    };

    ctx.flash_loan_receipt = FlashLoanReceipt {
        pool: ctx.pool_key,
        borrower: ctx.borrower,
        amount,
        fee,
        bump: ctx.flash_loan_receipt_bump,
    };

    Ok(
        Effects {
            transfer: TokenTransfer {
                from: ctx.vault.key,
                to: ctx.borrower_token_account.key,
                authority: ctx.pool_key,
                amount,
                vault_authority: Some(VaultAuthority::derive(&ctx.pool)),
            },
            event: FlashLoanBorrowed { pool: ctx.pool_key, borrower: ctx.borrower, amount, fee },
        },
    )
}

/// The accounts of a repayment.
#[derive(Debug, Clone, Copy, PartialEq, Eq)]
pub struct RepayFlashLoan {
    /// Identity of the pool record
    pub pool_key: Pubkey,
    pub pool: LendingPool,
    /// The obligation that the borrower presents
    pub flash_loan_receipt: FlashLoanReceipt,
    pub vault: TokenAccount,
    pub borrower_token_account: TokenAccount,
    pub borrower: Pubkey,
}

impl RepayFlashLoan {
    /// The first constraint on the accounts that does not hold, if any: the
    /// obligation is the caller's and of this pool, the vault is the pool's,
    /// and the borrower pays in the pool's asset. A paused pool is no
    /// obstacle.
    pub open spec fn violation(&self) -> Option<FlashLoanError> {
        if self.flash_loan_receipt.borrower != self.borrower {
            Some(FlashLoanError::Unauthorized)
        } else if self.flash_loan_receipt.pool != self.pool_key {
            Some(FlashLoanError::InvalidVault)
        } else if self.vault.key != self.pool.vault {
            Some(FlashLoanError::InvalidVault)
        } else if self.borrower_token_account.mint != self.pool.token_mint {
            Some(FlashLoanError::MintMismatch)
        } else {
            None
        }
    }

    pub fn validate(&self) -> (r: Result<(), FlashLoanError>)
        ensures
            r is Ok <==> self.violation() is None,
            r matches Err(e) ==> self.violation() == Some(e),
    {
        if self.flash_loan_receipt.borrower != self.borrower {
            return Err(FlashLoanError::Unauthorized);
        }
        if self.flash_loan_receipt.pool != self.pool_key {
            return Err(FlashLoanError::InvalidVault);
        }
        if self.vault.key != self.pool.vault {
            return Err(FlashLoanError::InvalidVault);
        }
        if self.borrower_token_account.mint != self.pool.token_mint {
            return Err(FlashLoanError::MintMismatch);
        }
        Ok(())
    }
}

/// What repaying the presented obligation does to the accounts, and what it
/// asks for: the first constraint that the accounts break, else the error
/// where a sum leaves 64 bits, else the accounts as committed, the transfer
/// of principal and fee into the vault, and the event. Only the
/// fee is new to the pool: the principal returns to the vault it came from.
/// The obligation is closed.
pub open spec fn spec_repay_handler(ctx: RepayFlashLoan) -> Result<
    (RepayFlashLoan, Effects<FlashLoanRepaid>),
    FlashLoanError,
> {
    match ctx.violation() {
        Some(e) => Err(e),
        None => {
            let principal = ctx.flash_loan_receipt.amount;
            let fee = ctx.flash_loan_receipt.fee;
            if principal + fee > u64::MAX || ctx.pool.total_deposits + fee > u64::MAX
                || ctx.pool.total_fees_earned + fee > u64::MAX {
                Err(FlashLoanError::MathOverflow)
            } else {
                Ok(
                    (
                        RepayFlashLoan {
                            pool: LendingPool {
                                total_deposits: (ctx.pool.total_deposits + fee) as u64,
                                total_fees_earned: (ctx.pool.total_fees_earned + fee) as u64,
                                ..ctx.pool
                            },
                            flash_loan_receipt: FlashLoanReceipt::spec_closed(),
                            ..ctx
                        },
                        Effects {
                            transfer: TokenTransfer {
                                from: ctx.borrower_token_account.key,
                                to: ctx.vault.key,
                                authority: ctx.borrower,
                                amount: (principal + fee) as u64,
                                vault_authority: None,
                            },
                            event: FlashLoanRepaid {
                                pool: ctx.pool_key,
                                borrower: ctx.borrower,
                                amount_repaid: (principal + fee) as u64,
                                fee_paid: fee,
                            },
                        },
                    ),
                )
            }
        },
    }
}

/// Checks the constraints on the accounts, then commits the repayment of the
/// presented obligation and closes it. On an
/// error the accounts are left as they were.
pub fn repay_handler(ctx: &mut RepayFlashLoan) -> (r: Result<
    Effects<FlashLoanRepaid>,
    FlashLoanError,
>)
    ensures
        follows(r, *old(ctx), *final(ctx), spec_repay_handler(*old(ctx))),
{
    match ctx.validate() {
        Ok(()) => {},
        Err(e) => {
            return Err(e);
        },
    }
    let fee: u64 = ctx.flash_loan_receipt.fee;
    let repayment: u64 = match ctx.flash_loan_receipt.amount.checked_add(fee) {
        Some(v) => v,
        None => {
            return Err(FlashLoanError::MathOverflow);
        },
    };
    let total_deposits: u64 = match ctx.pool.total_deposits.checked_add(fee) {
        Some(v) => v,
        None => {
            return Err(FlashLoanError::MathOverflow);
        },
    };
    let total_fees_earned: u64 = match ctx.pool.total_fees_earned.checked_add(fee) {
        Some(v) => v,
        None => {
            return Err(FlashLoanError::MathOverflow);
        },
    };

    ctx.pool.total_deposits = total_deposits;
    ctx.pool.total_fees_earned = total_fees_earned;
    ctx.flash_loan_receipt = FlashLoanReceipt::closed();

    Ok(
        Effects {
            transfer: TokenTransfer {
                from: ctx.borrower_token_account.key,
                to: ctx.vault.key,
                authority: ctx.borrower,
                amount: repayment,
                vault_authority: None,
            },
            event: FlashLoanRepaid {
                pool: ctx.pool_key,
                borrower: ctx.borrower,
                amount_repaid: repayment,
                fee_paid: fee,
            },
        },
    )
}

} // verus!
