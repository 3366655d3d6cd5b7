use vstd::prelude::*;

use crate::constants::MAX_FEE_BASIS_POINTS;
use crate::errors::FlashLoanError;
use crate::events::PoolInitialized;
use crate::instructions::follows;
use crate::pubkey::Pubkey;
use crate::state::LendingPool;

verus! {

/// The accounts of a pool's set-up.
#[derive(Debug, Clone, Copy, PartialEq, Eq)]
pub struct InitializePool {
    /// Identity of the pool record
    pub pool_key: Pubkey,
    /// The record that the store made for this pool; the set-up fills it in
    pub pool: LendingPool,
    /// Bump of the pool's derived address
    pub pool_bump: u8,
    /// The asset that the pool will lend
    pub token_mint: Pubkey,
    /// Identity of the vault that the store made for this pool
    pub vault: Pubkey,
    /// Bump of the vault's derived address
    pub vault_bump: u8,
    pub admin: Pubkey,
}

/// What setting a pool up at `fee_basis_points` does to the accounts: the
/// error where the fee is above 100%, else the accounts with the new pool
/// record, and the event.
pub open spec fn spec_handle_initialize_pool(ctx: InitializePool, fee_basis_points: u16) -> Result<
    (InitializePool, PoolInitialized),
    FlashLoanError,
> {
    if fee_basis_points > MAX_FEE_BASIS_POINTS {
        Err(FlashLoanError::InvalidFee)
    } else {
        Ok(
            (
                InitializePool {
                    pool: LendingPool::spec_new(
                        ctx.admin,
                        ctx.token_mint,
                        ctx.vault,
                        fee_basis_points,
                        ctx.pool_bump,
                        ctx.vault_bump,
                    ),
                    ..ctx
                },
                PoolInitialized {
                    pool: ctx.pool_key,
                    admin: ctx.admin,
                    token_mint: ctx.token_mint,
                    fee_basis_points,
                },
            ),
        )
    }
}

/// Sets a pool up at `fee_basis_points`. On an error the accounts are left as
/// they were.
pub fn handle_initialize_pool(ctx: &mut InitializePool, fee_basis_points: u16) -> (r: Result<
    PoolInitialized,
    FlashLoanError,
>)
    ensures
        follows(r, *old(ctx), *final(ctx), spec_handle_initialize_pool(*old(ctx), fee_basis_points)),
{
    if fee_basis_points > MAX_FEE_BASIS_POINTS {
        return Err(FlashLoanError::InvalidFee);
    }
    ctx.pool = LendingPool {
        admin: ctx.admin,
        token_mint: ctx.token_mint,
        vault: ctx.vault,
        total_deposits: 0,
        total_shares: 0,
        total_fees_earned: 0,
        fee_basis_points,
        bump: ctx.pool_bump,
        vault_bump: ctx.vault_bump,
        is_active: true,
        _reserved: [0u8; 64],
    };

    Ok(
        PoolInitialized {
            pool: ctx.pool_key,
            admin: ctx.admin,
            token_mint: ctx.token_mint,
            fee_basis_points,
        },
    )
}

} // verus!
