//! Conversions between asset amounts and pool shares, and the flash-loan fee.
//!
//! The functions here have no state of their own: each is a function of the
//! pool totals it is handed.

use vstd::prelude::*;

use crate::errors::FlashLoanError;

verus! {

/// One hundred percent, in basis points.
pub const BASIS_POINTS_DENOMINATOR: u64 = 10_000;

/// Shares minted for `amount` in a pool with the given totals: one share per
/// unit while no share exists, the pro-rata part of the outstanding shares
/// afterwards, rounded down.
pub open spec fn spec_shares_for_deposit(amount: u64, total_deposits: u64, total_shares: u64)
    -> Result<u64, FlashLoanError> {
    if total_shares == 0 {
        Ok(amount)
    } else if total_deposits == 0 {
        Err(FlashLoanError::MathOverflow)
    } else if amount * total_shares / (total_deposits as int) > u64::MAX {
        Err(FlashLoanError::MathOverflow)
    } else {
        Ok((amount * total_shares / (total_deposits as int)) as u64)
    }
}

/// Assets redeemed for `shares` in a pool with the given totals: the pro-rata
/// part of the deposits, rounded down.
pub open spec fn spec_amount_for_shares(shares: u64, total_deposits: u64, total_shares: u64)
    -> Result<u64, FlashLoanError> {
    if total_shares == 0 {
        Err(FlashLoanError::MathOverflow)
    } else if shares * total_deposits / (total_shares as int) > u64::MAX {
        Err(FlashLoanError::MathOverflow)
    } else {
        Ok((shares * total_deposits / (total_shares as int)) as u64)
    }
}

/// Fee owed for borrowing `amount` at `fee_basis_points`: the rate applied to
/// the amount, rounded up. The rounded-up quotient is computed within 64 bits
/// as `(amount * rate + 9999) / 10000`.
pub open spec fn spec_fee_for_borrow(amount: u64, fee_basis_points: u16)
    -> Result<u64, FlashLoanError> {
    if amount * fee_basis_points + (BASIS_POINTS_DENOMINATOR - 1) > u64::MAX {
        Err(FlashLoanError::MathOverflow)
    } else {
        Ok(((amount * fee_basis_points + (BASIS_POINTS_DENOMINATOR - 1))
            / (BASIS_POINTS_DENOMINATOR as int)) as u64)
    }
}

/// The quotient of a division rounded down is the one integer `q` with
/// `d * q <= x < d * q + d`.
proof fn lemma_floor_quotient(x: int, d: int)
    requires
        0 <= x,
        0 < d,
    ensures
        0 <= x / d,
        d * (x / d) <= x < d * (x / d) + d,
{
    vstd::arithmetic::div_mod::lemma_fundamental_div_mod(x, d);
    vstd::arithmetic::div_mod::lemma_mod_bound(x, d);
    vstd::arithmetic::div_mod::lemma_div_pos_is_pos(x, d);
}

/// A deposit into a pool with shares is priced at the pool's own price,
/// rounded down: `shares / amount <= total_shares / total_deposits`, and one
/// share more would be above it. While no share is worth less than one unit,
/// every deposit is priced, and mints at most one share per unit.
pub proof fn lemma_shares_for_deposit_bounds(amount: u64, total_deposits: u64, total_shares: u64)
    ensures
        total_shares <= total_deposits ==> spec_shares_for_deposit(
            amount,
            total_deposits,
            total_shares,
        ) is Ok,
        spec_shares_for_deposit(amount, total_deposits, total_shares) matches Ok(shares) ==> {
            &&& total_shares <= total_deposits ==> shares <= amount
            &&& total_shares > 0 ==> shares * total_deposits <= amount * total_shares
            &&& total_shares > 0 ==> amount * total_shares < (shares + 1) * total_deposits
        },
{
    if total_shares > 0 && total_deposits > 0 {
        let x = amount * total_shares;
        let d = total_deposits as int;
        assert(0 <= x) by (nonlinear_arith)
            requires
                x == amount * total_shares,
        ;
        lemma_floor_quotient(x, d);
        let q = x / d;
        if total_shares <= total_deposits {
            assert(q <= amount) by (nonlinear_arith)
                requires
                    d * q <= x,
                    x == amount * total_shares,
                    0 < total_shares <= d,
                    0 <= amount,
                    0 <= q,
            ;
        }
        assert(q * d <= x && x < (q + 1) * d) by (nonlinear_arith)
            requires
                d * q <= x < d * q + d,
        ;
    }
}

/// Burning no more shares than exist is always priced, and pays out the
/// pro-rata part of the deposits rounded down: all of them for all shares,
/// less than all of them for fewer, never more than the shares' part, and,
/// while no share is worth less than one unit, at least one unit per share
/// and no more than leaves the rest backed.
pub proof fn lemma_amount_for_shares_bounds(shares: u64, total_deposits: u64, total_shares: u64)
    requires
        0 < total_shares,
        shares <= total_shares,
    ensures
        spec_amount_for_shares(shares, total_deposits, total_shares) is Ok,
        ({
            let amount = spec_amount_for_shares(shares, total_deposits, total_shares)->Ok_0;
            &&& amount <= total_deposits
            &&& shares == total_shares ==> amount == total_deposits
            &&& shares < total_shares && total_deposits > 0 ==> amount < total_deposits
            &&& amount * total_shares <= shares * total_deposits
            &&& shares * total_deposits < (amount + 1) * total_shares
            &&& total_shares <= total_deposits ==> shares <= amount
            &&& total_shares <= total_deposits ==> total_shares - shares <= total_deposits - amount
        }),
{
    let x = shares * total_deposits;
    let d = total_shares as int;
    let td = total_deposits as int;
    assert(0 <= x) by (nonlinear_arith)
        requires
            x == shares * total_deposits,
    ;
    lemma_floor_quotient(x, d);
    let q = x / d;
    assert(q <= td) by (nonlinear_arith)
        requires
            d * q <= x,
            x == shares * td,
            0 <= shares <= d,
            0 < d,
            0 <= td,
            0 <= q,
    ;
    if shares == total_shares {
        assert(q == td) by (nonlinear_arith)
            requires
                d * q <= x < d * q + d,
                x == d * td,
                0 < d,
        ;
    }
    if shares < total_shares && total_deposits > 0 {
        assert(q < td) by (nonlinear_arith)
            requires
                d * q <= x,
                x == shares * td,
                0 <= shares < d,
                0 < td,
                0 <= q,
        ;
    }
    assert(q * d <= x && x < (q + 1) * d) by (nonlinear_arith)
        requires
            d * q <= x < d * q + d,
    ;
    if total_shares <= total_deposits {
        assert(shares <= q) by (nonlinear_arith)
            requires
                x < d * q + d,
                x == shares * td,
                0 < d <= td,
                0 <= shares,
                0 <= q,
        ;
        assert(d - shares <= td - q) by (nonlinear_arith)
            requires
                d * q <= x,
                x == shares * td,
                0 <= shares <= d,
                0 < d <= td,
                0 <= q,
        ;
    }
}

/// The fee is the rate applied to the amount, rounded up: the least whole
/// number of units that is no less than `amount * rate / 10000`.
pub proof fn lemma_fee_is_ceiling(amount: u64, fee_basis_points: u16)
    requires
        spec_fee_for_borrow(amount, fee_basis_points) is Ok,
    ensures
        ({
            let fee = spec_fee_for_borrow(amount, fee_basis_points)->Ok_0;
            &&& amount * fee_basis_points <= fee * BASIS_POINTS_DENOMINATOR
            &&& (fee - 1) * BASIS_POINTS_DENOMINATOR < amount * fee_basis_points
        }),
{
    let x = amount * fee_basis_points + (BASIS_POINTS_DENOMINATOR - 1);
    assert(0 <= amount * fee_basis_points) by (nonlinear_arith);
    lemma_floor_quotient(x, BASIS_POINTS_DENOMINATOR as int);
}

/// The fee is zero only where the amount or the rate is: no borrower rounds
/// a rate down to nothing.
pub proof fn lemma_fee_is_positive(amount: u64, fee_basis_points: u16)
    requires
        spec_fee_for_borrow(amount, fee_basis_points) is Ok,
    ensures
        spec_fee_for_borrow(amount, fee_basis_points)->Ok_0 > 0 <==> amount > 0
            && fee_basis_points > 0,
{
    lemma_fee_is_ceiling(amount, fee_basis_points);
    if amount > 0 && fee_basis_points > 0 {
        assert(0 < amount * fee_basis_points) by (nonlinear_arith)
            requires
                amount > 0,
                fee_basis_points > 0,
        ;
    } else {
        assert(amount * fee_basis_points == 0) by (nonlinear_arith)
            requires
                amount == 0 || fee_basis_points == 0,
        ;
    }
}

/// At a rate of at most 100% the fee is at most the amount, and is computed
/// without overflow for every amount up to `(u64::MAX - 9999) / 10000`.
pub proof fn lemma_fee_in_range(amount: u64, fee_basis_points: u16)
    requires
        fee_basis_points <= BASIS_POINTS_DENOMINATOR,
    ensures
        amount <= (u64::MAX - (BASIS_POINTS_DENOMINATOR - 1)) / (BASIS_POINTS_DENOMINATOR
            as int) ==> spec_fee_for_borrow(amount, fee_basis_points) is Ok,
        spec_fee_for_borrow(amount, fee_basis_points) matches Ok(fee) ==> fee <= amount,
{
    assert(0 <= amount * fee_basis_points <= amount * BASIS_POINTS_DENOMINATOR)
        by (nonlinear_arith)
        requires
            0 <= fee_basis_points <= BASIS_POINTS_DENOMINATOR,
            0 <= amount,
    ;
    if spec_fee_for_borrow(amount, fee_basis_points) is Ok {
        lemma_fee_is_ceiling(amount, fee_basis_points);
    }
}

proof fn lemma_product_fits_u128(a: u64, b: u64)
    ensures
        0 <= a * b <= u128::MAX,
{
    assert(0 <= a * b <= 0xffff_ffff_ffff_ffff * 0xffff_ffff_ffff_ffff) by (nonlinear_arith)
        requires
            0 <= a <= 0xffff_ffff_ffff_ffff,
            0 <= b <= 0xffff_ffff_ffff_ffff,
    ;
}

pub fn shares_for_deposit(amount: u64, total_deposits: u64, total_shares: u64) -> (r: Result<
    u64,
    FlashLoanError,
>)
    ensures
        r == spec_shares_for_deposit(amount, total_deposits, total_shares),
{
    if total_shares == 0 {
        return Ok(amount);
    }
    if total_deposits == 0 {
        return Err(FlashLoanError::MathOverflow);
    }
    proof {
        lemma_product_fits_u128(amount, total_shares);
    }
    let product: u128 = (amount as u128) * (total_shares as u128);
    let quotient: u128 = product / (total_deposits as u128);
    if quotient > u64::MAX as u128 {
        Err(FlashLoanError::MathOverflow)
    } else {
        Ok(quotient as u64)
    }
}

pub fn amount_for_shares(shares: u64, total_deposits: u64, total_shares: u64) -> (r: Result<
    u64,
    FlashLoanError,
>)
    ensures
        r == spec_amount_for_shares(shares, total_deposits, total_shares),
{
    if total_shares == 0 {
        return Err(FlashLoanError::MathOverflow);
    }
    proof {
        lemma_product_fits_u128(shares, total_deposits);
    }
    let product: u128 = (shares as u128) * (total_deposits as u128);
    let quotient: u128 = product / (total_shares as u128);
    if quotient > u64::MAX as u128 {
        Err(FlashLoanError::MathOverflow)
    } else {
        Ok(quotient as u64)
    }
}

pub fn fee_for_borrow(amount: u64, fee_basis_points: u16) -> (r: Result<u64, FlashLoanError>)
    ensures
        r == spec_fee_for_borrow(amount, fee_basis_points),
{
    let scaled: u64 = match amount.checked_mul(fee_basis_points as u64) {
        Some(v) => v,
        None => {
            return Err(FlashLoanError::MathOverflow);
        },
    };
    match scaled.checked_add(BASIS_POINTS_DENOMINATOR - 1) {
        Some(v) => Ok(v / BASIS_POINTS_DENOMINATOR),
        None => Err(FlashLoanError::MathOverflow),
    }
}

} // verus!
