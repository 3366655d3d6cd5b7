//! What holds of the operations together: the invariants of a pool's record
//! that every operation keeps, and what sequences of operations add up to.
//!
//! Each law is stated of a handler. The operations of the crate root hand on
//! to their handlers, so what holds of a handler holds of its operation; the
//! first clause of a law says so where the law is used of an operation.

use vstd::prelude::*;

use crate::constants::MAX_FEE_BASIS_POINTS;
use crate::errors::{rejected_with, FlashLoanError};
use crate::instructions::deposit::{spec_handle_deposit, Deposit};
use crate::instructions::flash_loan::{
    spec_borrow_handler, spec_repay_handler, BorrowFlashLoan, RepayFlashLoan,
};
use crate::instructions::initialize_pool::{spec_handle_initialize_pool, InitializePool};
use crate::instructions::update_pool::{spec_handle_update_pool, UpdatePoolConfig};
use crate::instructions::withdraw::{spec_handle_withdraw, Withdraw};
use crate::math::{
    lemma_amount_for_shares_bounds, lemma_shares_for_deposit_bounds, spec_amount_for_shares,
    spec_fee_for_borrow, spec_shares_for_deposit,
};
use crate::state::{shares_held, DepositReceipt, FlashLoanReceipt, LendingPool};
use crate::{
    spec_borrow_flash_loan, spec_deposit, spec_initialize_pool, spec_repay_flash_loan,
    spec_update_pool_config, spec_withdraw,
};

verus! {

/// Two records of one pool whose configuration and identity agree: they may
/// differ in the three counters only.
pub open spec fn same_pool(a: LendingPool, b: LendingPool) -> bool {
    a == LendingPool {
        total_deposits: a.total_deposits,
        total_shares: a.total_shares,
        total_fees_earned: a.total_fees_earned,
        ..b
    }
}

/// The value of a share has not fallen from `before` to `after`:
/// `after.total_deposits / after.total_shares` is at least
/// `before.total_deposits / before.total_shares`, compared without division.
pub open spec fn share_value_kept(before: LendingPool, after: LendingPool) -> bool {
    after.total_deposits * before.total_shares >= before.total_deposits * after.total_shares
}

/// A pool is set up exactly when its fee is at most 100%, and then starts
/// well formed, active, and with every counter at zero.
pub proof fn lemma_initialize_pool_starts_well_formed(ctx: InitializePool, fee_basis_points: u16)
    ensures
        spec_initialize_pool(ctx, fee_basis_points) == spec_handle_initialize_pool(
            ctx,
            fee_basis_points,
        ),
        spec_initialize_pool(ctx, fee_basis_points) is Ok <==> fee_basis_points
            <= MAX_FEE_BASIS_POINTS,
        fee_basis_points > MAX_FEE_BASIS_POINTS ==> rejected_with(
            spec_initialize_pool(ctx, fee_basis_points),
            FlashLoanError::InvalidFee,
        ),
        spec_initialize_pool(ctx, fee_basis_points) matches Ok((next, _)) ==> {
            &&& next.pool.well_formed()
            &&& next.pool.is_active
            &&& next.pool.total_deposits == 0
            &&& next.pool.total_shares == 0
            &&& next.pool.total_fees_earned == 0
            &&& next.pool.fee_basis_points == fee_basis_points
            &&& next.pool.admin == ctx.admin
            &&& next.pool.token_mint == ctx.token_mint
            &&& next.pool.vault == ctx.vault
        },
{
}

/// A committed deposit keeps each invariant of the pool's record that held
/// before it, touches nothing but the two totals, never lowers the value of a
/// share, and mints what it adds to the receipt.
pub proof fn lemma_deposit_keeps_pool_sound(ctx: Deposit, amount: u64, now: i64)
    ensures
        spec_deposit(ctx, amount, now) == spec_handle_deposit(ctx, amount, now),
        spec_handle_deposit(ctx, amount, now) matches Ok((next, effects)) ==> {
            &&& same_pool(next.pool, ctx.pool)
            &&& next.pool.total_fees_earned == ctx.pool.total_fees_earned
            &&& next.pool.total_deposits == ctx.pool.total_deposits + amount
            &&& next.pool.total_shares == ctx.pool.total_shares + effects.event.shares_minted
            &&& next.receipt.shares == ctx.receipt.shares + effects.event.shares_minted
            &&& effects.transfer.amount == amount
            &&& ctx.pool.balanced() ==> next.pool.balanced()
            &&& ctx.pool.fully_backed() ==> next.pool.fully_backed()
            &&& ctx.pool.balanced() ==> share_value_kept(ctx.pool, next.pool)
        },
{
    if spec_handle_deposit(ctx, amount, now) is Ok {
        let next = spec_handle_deposit(ctx, amount, now)->Ok_0.0;
        let td = ctx.pool.total_deposits;
        let ts = ctx.pool.total_shares;
        lemma_shares_for_deposit_bounds(amount, td, ts);
        let shares = spec_shares_for_deposit(amount, td, ts)->Ok_0;
        if ts > 0 {
            assert((td + amount) * ts >= td * (ts + shares)) by (nonlinear_arith)
                requires
                    shares * td <= amount * ts,
            ;
        }
    }
}

/// A committed withdrawal keeps each invariant of the pool's record that held
/// before it, touches nothing but the two totals, never lowers the value of a
/// share, and pays out no more than the pool holds.
pub proof fn lemma_withdraw_keeps_pool_sound(ctx: Withdraw, shares_to_burn: u64)
    ensures
        spec_withdraw(ctx, shares_to_burn) == spec_handle_withdraw(ctx, shares_to_burn),
        spec_handle_withdraw(ctx, shares_to_burn) matches Ok((next, effects)) ==> {
            &&& same_pool(next.pool, ctx.pool)
            &&& next.pool.total_fees_earned == ctx.pool.total_fees_earned
            &&& next.pool.total_deposits == ctx.pool.total_deposits - effects.event.amount
            &&& next.pool.total_shares == ctx.pool.total_shares - shares_to_burn
            &&& next.receipt.shares == ctx.receipt.shares - shares_to_burn
            &&& effects.transfer.amount == effects.event.amount
            &&& effects.event.amount <= ctx.pool.total_deposits
            &&& ctx.pool.balanced() ==> next.pool.balanced()
            &&& ctx.pool.fully_backed() ==> next.pool.fully_backed()
            &&& share_value_kept(ctx.pool, next.pool)
        },
{
    if spec_handle_withdraw(ctx, shares_to_burn) is Ok {
        let td = ctx.pool.total_deposits;
        let ts = ctx.pool.total_shares;
        lemma_amount_for_shares_bounds(shares_to_burn, td, ts);
        let amount = spec_amount_for_shares(shares_to_burn, td, ts)->Ok_0;
        assert((td - amount) * ts >= td * (ts - shares_to_burn)) by (nonlinear_arith)
            requires
                amount * ts <= shares_to_burn * td,
        ;
    }
}

/// A committed borrow records the obligation and leaves the pool's record as
/// it was: deposits, shares and fees earned are those from before the borrow.
pub proof fn lemma_borrow_leaves_pool_untouched(ctx: BorrowFlashLoan, amount: u64)
    ensures
        spec_borrow_flash_loan(ctx, amount) == spec_borrow_handler(ctx, amount),
        spec_borrow_handler(ctx, amount) matches Ok((next, effects)) ==> {
            &&& next.pool == ctx.pool
            &&& next.vault == ctx.vault
            &&& next.flash_loan_receipt.pool == ctx.pool_key
            &&& next.flash_loan_receipt.borrower == ctx.borrower
            &&& next.flash_loan_receipt.amount == amount
            &&& spec_fee_for_borrow(amount, ctx.pool.fee_basis_points) == Ok::<
                u64,
                FlashLoanError,
            >(next.flash_loan_receipt.fee)
            &&& effects.transfer.amount == amount
            &&& amount <= ctx.vault.amount
        },
{
}

/// A committed repayment adds the fee, and nothing else, to the deposits and
/// to the fees earned, leaves the shares alone, and so never lowers the value
/// of a share. It keeps the pool fully backed. It keeps shares and deposits
/// zero together wherever shares are outstanding or the fee is zero: a fee
/// paid into a pool without shares would belong to nobody.
pub proof fn lemma_repay_keeps_pool_sound(ctx: RepayFlashLoan)
    ensures
        spec_repay_flash_loan(ctx) == spec_repay_handler(ctx),
        spec_repay_handler(ctx) matches Ok((next, effects)) ==> {
            &&& same_pool(next.pool, ctx.pool)
            &&& next.pool.total_deposits == ctx.pool.total_deposits + ctx.flash_loan_receipt.fee
            &&& next.pool.total_fees_earned == ctx.pool.total_fees_earned
                + ctx.flash_loan_receipt.fee
            &&& next.pool.total_shares == ctx.pool.total_shares
            &&& effects.transfer.amount == ctx.flash_loan_receipt.amount
                + ctx.flash_loan_receipt.fee
            &&& ctx.pool.fully_backed() ==> next.pool.fully_backed()
            &&& ctx.pool.balanced() && (ctx.pool.total_shares > 0 || ctx.flash_loan_receipt.fee
                == 0) ==> next.pool.balanced()
            &&& share_value_kept(ctx.pool, next.pool)
        },
{
    if spec_repay_handler(ctx) is Ok {
        let td = ctx.pool.total_deposits;
        let ts = ctx.pool.total_shares;
        let fee = ctx.flash_loan_receipt.fee;
        assert((td + fee) * ts >= td * ts) by (nonlinear_arith)
            requires
                0 <= fee,
                0 <= ts,
        ;
    }
}

/// A committed change of configuration replaces the fee and the active flag
/// as asked, leaves every counter alone, and keeps the pool well formed.
pub proof fn lemma_update_keeps_pool_sound(
    ctx: UpdatePoolConfig,
    new_fee_basis_points: Option<u16>,
    is_active: Option<bool>,
)
    ensures
        spec_update_pool_config(ctx, new_fee_basis_points, is_active)
            == spec_handle_update_pool(ctx, new_fee_basis_points, is_active),
        spec_handle_update_pool(ctx, new_fee_basis_points, is_active) matches Ok((next, _)) ==> {
            &&& next.pool.total_deposits == ctx.pool.total_deposits
            &&& next.pool.total_shares == ctx.pool.total_shares
            &&& next.pool.total_fees_earned == ctx.pool.total_fees_earned
            &&& next.pool.admin == ctx.pool.admin
            &&& next.pool.token_mint == ctx.pool.token_mint
            &&& next.pool.vault == ctx.pool.vault
            &&& new_fee_basis_points matches Some(fee) ==> next.pool.fee_basis_points == fee
            &&& new_fee_basis_points is None ==> next.pool.fee_basis_points
                == ctx.pool.fee_basis_points
            &&& is_active matches Some(active) ==> next.pool.is_active == active
            &&& is_active is None ==> next.pool.is_active == ctx.pool.is_active
            &&& ctx.pool.well_formed() ==> next.pool.well_formed()
        },
{
}

/// Replacing one receipt changes the shares held together by what that
/// receipt gained or lost.
pub proof fn lemma_shares_held_update(
    receipts: Seq<DepositReceipt>,
    i: int,
    receipt: DepositReceipt,
)
    requires
        0 <= i < receipts.len(),
    ensures
        shares_held(receipts.update(i, receipt)) == shares_held(receipts) - receipts[i].shares
            + receipt.shares,
        receipts[i].shares <= shares_held(receipts),
    decreases receipts.len(),
{
    let updated = receipts.update(i, receipt);
    if i == receipts.len() - 1 {
        assert(updated.drop_last() =~= receipts.drop_last());
    } else {
        assert(updated.drop_last() =~= receipts.drop_last().update(i, receipt));
        lemma_shares_held_update(receipts.drop_last(), i, receipt);
    }
}

/// A receipt that the store adds holds what it holds on top of the others;
/// an empty one changes nothing.
pub proof fn lemma_shares_held_push(receipts: Seq<DepositReceipt>, receipt: DepositReceipt)
    ensures
        shares_held(receipts.push(receipt)) == shares_held(receipts) + receipt.shares,
        shares_held(receipts.push(DepositReceipt::spec_empty())) == shares_held(receipts),
{
    assert(receipts.push(receipt).drop_last() =~= receipts);
    assert(receipts.push(DepositReceipt::spec_empty()).drop_last() =~= receipts);
}

/// Where the receipts of a pool hold its outstanding shares between them, they
/// still do after a deposit to one of them has been committed and its receipt
/// put back.
pub proof fn lemma_deposit_keeps_shares_accounted(
    receipts: Seq<DepositReceipt>,
    i: int,
    ctx: Deposit,
    amount: u64,
    now: i64,
)
    requires
        0 <= i < receipts.len(),
        receipts[i] == ctx.receipt,
        shares_held(receipts) == ctx.pool.total_shares,
    ensures
        spec_handle_deposit(ctx, amount, now) matches Ok((next, _)) ==> shares_held(
            receipts.update(i, next.receipt),
        ) == next.pool.total_shares,
        spec_deposit(ctx, amount, now) matches Ok((next, _)) ==> shares_held(
            receipts.update(i, next.receipt),
        ) == next.pool.total_shares,
{
    if spec_handle_deposit(ctx, amount, now) is Ok {
        let next = spec_handle_deposit(ctx, amount, now)->Ok_0.0;
        lemma_shares_held_update(receipts, i, next.receipt);
    }
}

/// Where the receipts of a pool hold its outstanding shares between them, they
/// still do after a withdrawal from one of them has been committed and its
/// receipt put back. No receipt holds more than the pool has outstanding.
pub proof fn lemma_withdraw_keeps_shares_accounted(
    receipts: Seq<DepositReceipt>,
    i: int,
    ctx: Withdraw,
    shares_to_burn: u64,
)
    requires
        0 <= i < receipts.len(),
        receipts[i] == ctx.receipt,
        shares_held(receipts) == ctx.pool.total_shares,
    ensures
        ctx.receipt.shares <= ctx.pool.total_shares,
        spec_handle_withdraw(ctx, shares_to_burn) matches Ok((next, _)) ==> shares_held(
            receipts.update(i, next.receipt),
        ) == next.pool.total_shares,
        spec_withdraw(ctx, shares_to_burn) matches Ok((next, _)) ==> shares_held(
            receipts.update(i, next.receipt),
        ) == next.pool.total_shares,
{
    lemma_shares_held_update(receipts, i, ctx.receipt);
    if spec_handle_withdraw(ctx, shares_to_burn) is Ok {
        let next = spec_handle_withdraw(ctx, shares_to_burn)->Ok_0.0;
        lemma_shares_held_update(receipts, i, next.receipt);
    }
}

/// The accounts of a withdrawal by the depositor of `ctx`, on the accounts as
/// the deposit left them.
pub open spec fn withdrawal_after(ctx: Deposit) -> Withdraw {
    Withdraw {
        pool_key: ctx.pool_key,
        pool: ctx.pool,
        receipt: ctx.receipt,
        vault: ctx.vault,
        depositor_token_account: ctx.depositor_token_account,
        depositor: ctx.depositor,
    }
}

/// A depositor who deposits into a pool without shares, and at once burns all
/// the shares of the receipt, is paid exactly what was deposited, and leaves
/// the pool and the receipt empty again.
pub proof fn lemma_sole_depositor_round_trip(ctx: Deposit, amount: u64, now: i64)
    requires
        ctx.pool.total_shares == 0,
        ctx.pool.total_deposits == 0,
        ctx.receipt.shares == 0,
        ctx.receipt.is_initialized() ==> ctx.receipt.pool == ctx.pool_key && ctx.receipt.depositor
            == ctx.depositor,
        spec_deposit(ctx, amount, now) is Ok,
    ensures
        ({
            let (deposited, minted) = spec_deposit(ctx, amount, now)->Ok_0;
            &&& minted.event.shares_minted == amount
            &&& deposited.receipt.shares == amount
            &&& spec_withdraw(withdrawal_after(deposited), deposited.receipt.shares) matches Ok(
                (withdrawn, paid),
            ) && {
                &&& paid.event.amount == amount
                &&& paid.transfer.amount == amount
                &&& withdrawn.pool.total_deposits == 0
                &&& withdrawn.pool.total_shares == 0
                &&& withdrawn.receipt.shares == 0
            }
        }),
{
    lemma_amount_for_shares_bounds(amount, amount, amount);
}

/// Whether `repay` presents the obligation that the borrow recorded in
/// `lent`, on the same accounts; the balances may have changed since.
pub open spec fn repays(repay: RepayFlashLoan, lent: BorrowFlashLoan) -> bool {
    &&& repay.pool_key == lent.pool_key
    &&& repay.pool == lent.pool
    &&& repay.flash_loan_receipt == lent.flash_loan_receipt
    &&& repay.borrower == lent.borrower
    &&& repay.vault.key == lent.vault.key
    &&& repay.borrower_token_account.mint == lent.borrower_token_account.mint
}

/// A borrow followed by its repayment adds exactly the fee to the deposits
/// and to the fees earned, and leaves the shares as they were. The repayment
/// asks for principal and fee, closes the obligation, and is rejected only
/// where a sum leaves 64 bits.
pub proof fn lemma_borrow_then_repay(borrow: BorrowFlashLoan, amount: u64, repay: RepayFlashLoan)
    requires
        spec_borrow_flash_loan(borrow, amount) is Ok,
        repays(repay, spec_borrow_flash_loan(borrow, amount)->Ok_0.0),
    ensures
        ({
            let fee = spec_fee_for_borrow(amount, borrow.pool.fee_basis_points)->Ok_0;
            &&& spec_fee_for_borrow(amount, borrow.pool.fee_basis_points) is Ok
            &&& spec_repay_flash_loan(repay) is Ok <==> amount + fee <= u64::MAX
                && borrow.pool.total_deposits + fee <= u64::MAX && borrow.pool.total_fees_earned
                + fee <= u64::MAX
            &&& spec_repay_flash_loan(repay) matches Err(e) ==> e == FlashLoanError::MathOverflow
            &&& spec_repay_flash_loan(repay) matches Ok((repaid, effects)) ==> {
                &&& repaid.pool.total_deposits == borrow.pool.total_deposits + fee
                &&& repaid.pool.total_fees_earned == borrow.pool.total_fees_earned + fee
                &&& repaid.pool.total_shares == borrow.pool.total_shares
                &&& same_pool(repaid.pool, borrow.pool)
                &&& effects.transfer.amount == amount + fee
                &&& effects.event.fee_paid == fee
                &&& repaid.flash_loan_receipt == FlashLoanReceipt::spec_closed()
            }
        }),
{
}

/// A borrow of more than the vault holds is never committed: it is rejected
/// for want of liquidity wherever the accounts meet their constraints, and
/// with the first constraint that they break otherwise.
pub proof fn lemma_borrow_beyond_vault_is_rejected(ctx: BorrowFlashLoan, amount: u64)
    requires
        amount > ctx.vault.amount,
    ensures
        spec_borrow_flash_loan(ctx, amount) == spec_borrow_handler(ctx, amount),
        spec_borrow_handler(ctx, amount) is Err,
        ctx.violation() is None ==> rejected_with(
            spec_borrow_handler(ctx, amount),
            FlashLoanError::InsufficientLiquidity,
        ),
        ctx.violation() matches Some(e) ==> rejected_with(spec_borrow_handler(ctx, amount), e),
{
}

/// A change of configuration asked for by anyone but the pool's admin is
/// rejected as unauthorized, whatever it asks for.
pub proof fn lemma_config_is_admin_only(
    ctx: UpdatePoolConfig,
    new_fee_basis_points: Option<u16>,
    is_active: Option<bool>,
)
    requires
        ctx.admin != ctx.pool.admin,
    ensures
        rejected_with(
            spec_handle_update_pool(ctx, new_fee_basis_points, is_active),
            FlashLoanError::Unauthorized,
        ),
        rejected_with(
            spec_update_pool_config(ctx, new_fee_basis_points, is_active),
            FlashLoanError::Unauthorized,
        ),
{
}

/// The record of `pool` with its active flag set to `is_active`.
pub open spec fn with_active(pool: LendingPool, is_active: bool) -> LendingPool {
    LendingPool { is_active, ..pool }
}

/// A paused pool takes no deposit and lends nothing, but whether a
/// withdrawal or a repayment is committed does not depend on the pause, nor
/// does what it pays or asks for.
pub proof fn lemma_pause_closes_entry_not_exit(
    deposit: Deposit,
    amount: u64,
    now: i64,
    borrow: BorrowFlashLoan,
    withdraw: Withdraw,
    shares_to_burn: u64,
    repay: RepayFlashLoan,
)
    ensures
        !deposit.pool.is_active ==> rejected_with(
            spec_handle_deposit(deposit, amount, now),
            FlashLoanError::PoolPaused,
        ),
        !deposit.pool.is_active ==> rejected_with(
            spec_deposit(deposit, amount, now),
            FlashLoanError::PoolPaused,
        ),
        !borrow.pool.is_active ==> rejected_with(
            spec_borrow_handler(borrow, amount),
            FlashLoanError::PoolPaused,
        ),
        !borrow.pool.is_active ==> rejected_with(
            spec_borrow_flash_loan(borrow, amount),
            FlashLoanError::PoolPaused,
        ),
        spec_withdraw(
            Withdraw { pool: with_active(withdraw.pool, false), ..withdraw },
            shares_to_burn,
        ) is Ok <==> spec_withdraw(
            Withdraw { pool: with_active(withdraw.pool, true), ..withdraw },
            shares_to_burn,
        ) is Ok,
        spec_withdraw(
            Withdraw { pool: with_active(withdraw.pool, false), ..withdraw },
            shares_to_burn,
        ) matches Ok((_, paused)) ==> spec_withdraw(
            Withdraw { pool: with_active(withdraw.pool, true), ..withdraw },
            shares_to_burn,
        ) matches Ok((_, active)) && paused.event == active.event,
        spec_repay_flash_loan(RepayFlashLoan { pool: with_active(repay.pool, false), ..repay })
            is Ok <==> spec_repay_flash_loan(
            RepayFlashLoan { pool: with_active(repay.pool, true), ..repay },
        ) is Ok,
        spec_repay_flash_loan(
            RepayFlashLoan { pool: with_active(repay.pool, false), ..repay },
        ) matches Ok((_, paused)) ==> spec_repay_flash_loan(
            RepayFlashLoan { pool: with_active(repay.pool, true), ..repay },
        ) matches Ok((_, active)) && paused == active,
{
}

/// An amount of zero is rejected as invalid by every operation that takes an
/// amount, each with its own error, wherever the accounts meet their
/// constraints.
pub proof fn lemma_zero_amount_is_rejected(
    deposit: Deposit,
    now: i64,
    withdraw: Withdraw,
    borrow: BorrowFlashLoan,
)
    ensures
        deposit.violation() is None ==> rejected_with(
            spec_handle_deposit(deposit, 0, now),
            FlashLoanError::ZeroDeposit,
        ),
        withdraw.violation() is None ==> rejected_with(
            spec_handle_withdraw(withdraw, 0),
            FlashLoanError::ZeroWithdraw,
        ),
        borrow.violation() is None ==> rejected_with(
            spec_borrow_handler(borrow, 0),
            FlashLoanError::InvalidAmount,
        ),
        deposit.violation() is None ==> rejected_with(
            spec_deposit(deposit, 0, now),
            FlashLoanError::ZeroDeposit,
        ),
        withdraw.violation() is None ==> rejected_with(
            spec_withdraw(withdraw, 0),
            FlashLoanError::ZeroWithdraw,
        ),
        borrow.violation() is None ==> rejected_with(
            spec_borrow_flash_loan(borrow, 0),
            FlashLoanError::InvalidAmount,
        ),
        FlashLoanError::ZeroDeposit.is_invalid_amount(),
        FlashLoanError::ZeroWithdraw.is_invalid_amount(),
        FlashLoanError::InvalidAmount.is_invalid_amount(),
{
}

/// No handler commits on accounts that break a constraint: it is rejected
/// with the first one broken, whatever else was asked for. So nobody but the
/// owner of a receipt withdraws from it, nobody but the borrower named in an
/// obligation repays it, neither is taken for another pool than its own, and
/// nobody but the admin configures.
pub proof fn lemma_constraints_come_first(
    deposit: Deposit,
    withdraw: Withdraw,
    borrow: BorrowFlashLoan,
    repay: RepayFlashLoan,
    update: UpdatePoolConfig,
    amount: u64,
    now: i64,
    new_fee_basis_points: Option<u16>,
    is_active: Option<bool>,
)
    ensures
        deposit.violation() matches Some(e) ==> rejected_with(
            spec_handle_deposit(deposit, amount, now),
            e,
        ),
        withdraw.violation() matches Some(e) ==> rejected_with(
            spec_handle_withdraw(withdraw, amount),
            e,
        ),
        borrow.violation() matches Some(e) ==> rejected_with(spec_borrow_handler(borrow, amount), e),
        repay.violation() matches Some(e) ==> rejected_with(spec_repay_handler(repay), e),
        update.violation() matches Some(e) ==> rejected_with(
            spec_handle_update_pool(update, new_fee_basis_points, is_active),
            e,
        ),
        withdraw.receipt.depositor != withdraw.depositor ==> rejected_with(
            spec_handle_withdraw(withdraw, amount),
            FlashLoanError::Unauthorized,
        ),
        withdraw.receipt.depositor == withdraw.depositor && withdraw.receipt.pool
            != withdraw.pool_key ==> rejected_with(
            spec_handle_withdraw(withdraw, amount),
            FlashLoanError::InvalidVault,
        ),
        repay.flash_loan_receipt.borrower != repay.borrower ==> rejected_with(
            spec_repay_handler(repay),
            FlashLoanError::Unauthorized,
        ),
        repay.flash_loan_receipt.borrower == repay.borrower && repay.flash_loan_receipt.pool
            != repay.pool_key ==> rejected_with(
            spec_repay_handler(repay),
            FlashLoanError::InvalidVault,
        ),
        update.pool.admin != update.admin ==> rejected_with(
            spec_handle_update_pool(update, new_fee_basis_points, is_active),
            FlashLoanError::Unauthorized,
        ),
        spec_deposit(deposit, amount, now) == spec_handle_deposit(deposit, amount, now),
        spec_withdraw(withdraw, amount) == spec_handle_withdraw(withdraw, amount),
        spec_borrow_flash_loan(borrow, amount) == spec_borrow_handler(borrow, amount),
        spec_repay_flash_loan(repay) == spec_repay_handler(repay),
        spec_update_pool_config(update, new_fee_basis_points, is_active)
            == spec_handle_update_pool(update, new_fee_basis_points, is_active),
{
}

} // verus!
