//! Accounting and authorization engine of a share-based liquidity pool with
//! single-round-trip flash loans.
//!
//! The engine decides amounts and authorizes moves; it performs no transfer
//! itself. Every operation either commits completely or leaves the accounts it
//! was handed exactly as they were.
//!
//! The functions of this module are the operations as a caller reaches them.
//! Each hands over to its handler in [`instructions`], which checks the
//! constraints on the accounts before it commits anything.

use vstd::prelude::*;

pub mod authority;
pub mod constants;
pub mod errors;
pub mod events;
pub mod instructions;
pub mod laws;
pub mod math;
pub mod pubkey;
pub mod state;
pub mod system;
pub mod token;

pub use crate::authority::VaultAuthority;
pub use crate::errors::FlashLoanError;
pub use crate::events::{
    FlashLoanBorrowed, FlashLoanRepaid, LiquidityDeposited, LiquidityWithdrawn, PoolInitialized,
};
pub use crate::instructions::deposit::{handle_deposit, spec_handle_deposit, Deposit};
pub use crate::instructions::flash_loan::{
    borrow_handler, repay_handler, spec_borrow_handler, spec_repay_handler, BorrowFlashLoan,
    RepayFlashLoan,
};
pub use crate::instructions::initialize_pool::{
    handle_initialize_pool, spec_handle_initialize_pool, InitializePool,
};
pub use crate::instructions::update_pool::{
    handle_update_pool, spec_handle_update_pool, UpdatePoolConfig,
};
pub use crate::instructions::withdraw::{handle_withdraw, spec_handle_withdraw, Withdraw};
pub use crate::instructions::{follows, Effects};
pub use crate::pubkey::Pubkey;
pub use crate::state::{DepositReceipt, FlashLoanReceipt, LendingPool};
pub use crate::token::{TokenAccount, TokenTransfer};

verus! {

/// A pool's set-up has no constraint on its accounts: it is what its handler
/// does.
pub open spec fn spec_initialize_pool(ctx: InitializePool, fee_basis_points: u16) -> Result<
    (InitializePool, PoolInitialized),
    FlashLoanError,
> {
    spec_handle_initialize_pool(ctx, fee_basis_points)
}

/// A deposit is what its handler does: rejected with the first constraint
/// that its accounts break, and priced and committed otherwise.
pub open spec fn spec_deposit(ctx: Deposit, amount: u64, now: i64) -> Result<
    (Deposit, Effects<LiquidityDeposited>),
    FlashLoanError,
> {
    spec_handle_deposit(ctx, amount, now)
}

/// A withdrawal is what its handler does: rejected with the first constraint
/// that its accounts break, and priced and committed otherwise.
pub open spec fn spec_withdraw(ctx: Withdraw, shares_to_burn: u64) -> Result<
    (Withdraw, Effects<LiquidityWithdrawn>),
    FlashLoanError,
> {
    spec_handle_withdraw(ctx, shares_to_burn)
}

/// A flash borrow is what its handler does: rejected with the first
/// constraint that its accounts break, and recorded otherwise.
pub open spec fn spec_borrow_flash_loan(ctx: BorrowFlashLoan, amount: u64) -> Result<
    (BorrowFlashLoan, Effects<FlashLoanBorrowed>),
    FlashLoanError,
> {
    spec_borrow_handler(ctx, amount)
}

/// A repayment is what its handler does: rejected with the first constraint
/// that its accounts break, and committed otherwise.
pub open spec fn spec_repay_flash_loan(ctx: RepayFlashLoan) -> Result<
    (RepayFlashLoan, Effects<FlashLoanRepaid>),
    FlashLoanError,
> {
    spec_repay_handler(ctx)
}

/// A change of configuration is what its handler does: rejected where the
/// caller is not the admin, and committed otherwise.
pub open spec fn spec_update_pool_config(
    ctx: UpdatePoolConfig,
    new_fee_basis_points: Option<u16>,
    is_active: Option<bool>,
) -> Result<(UpdatePoolConfig, ()), FlashLoanError> {
    spec_handle_update_pool(ctx, new_fee_basis_points, is_active)
}

/// Sets up a pool for one asset, with no deposits and active.
pub fn initialize_pool(ctx: &mut InitializePool, fee_basis_points: u16) -> (r: Result<
    PoolInitialized,
    FlashLoanError,
>)
    ensures
        follows(r, *old(ctx), *final(ctx), spec_initialize_pool(*old(ctx), fee_basis_points)),
{
    handle_initialize_pool(ctx, fee_basis_points)
}

/// Deposits `amount` at time `now` and mints the depositor's shares. Open to
/// any caller while the pool is active.
pub fn deposit(ctx: &mut Deposit, amount: u64, now: i64) -> (r: Result<
    Effects<LiquidityDeposited>,
    FlashLoanError,
>)
    ensures
        follows(r, *old(ctx), *final(ctx), spec_deposit(*old(ctx), amount, now)),
{
    handle_deposit(ctx, amount, now)
}

/// Burns `shares_to_burn` of the caller's shares for their part of the
/// deposits, fees included. Open to the receipt's owner, also while the pool
/// is paused.
pub fn withdraw(ctx: &mut Withdraw, shares_to_burn: u64) -> (r: Result<
    Effects<LiquidityWithdrawn>,
    FlashLoanError,
>)
    ensures
        follows(r, *old(ctx), *final(ctx), spec_withdraw(*old(ctx), shares_to_burn)),
{
    handle_withdraw(ctx, shares_to_burn)
}

/// Lends `amount` out of the vault against an obligation of principal and
/// fee. Open to any caller while the pool is active.
pub fn borrow_flash_loan(ctx: &mut BorrowFlashLoan, amount: u64) -> (r: Result<
    Effects<FlashLoanBorrowed>,
    FlashLoanError,
>)
    ensures
        follows(r, *old(ctx), *final(ctx), spec_borrow_flash_loan(*old(ctx), amount)),
{
    borrow_handler(ctx, amount)
}

/// Takes principal and fee back and closes the obligation. Open to the
/// borrower named in it, also while the pool is paused.
pub fn repay_flash_loan(ctx: &mut RepayFlashLoan) -> (r: Result<
    Effects<FlashLoanRepaid>,
    FlashLoanError,
>)
    ensures
        follows(r, *old(ctx), *final(ctx), spec_repay_flash_loan(*old(ctx))),
{
    repay_handler(ctx)
}

/// Changes the fee, the active flag, both or neither. Open to the pool's
/// admin only.
pub fn update_pool_config(
    ctx: &mut UpdatePoolConfig,
    new_fee_basis_points: Option<u16>,
    is_active: Option<bool>,
) -> (r: Result<(), FlashLoanError>)
    ensures
        follows(
            r,
            *old(ctx),
            *final(ctx),
            spec_update_pool_config(*old(ctx), new_fee_basis_points, is_active),
        ),
{
    handle_update_pool(ctx, new_fee_basis_points, is_active)
}

} // verus!
