use vstd::prelude::*;

use crate::constants::MAX_FEE_BASIS_POINTS;
use crate::errors::FlashLoanError;
use crate::instructions::follows;
use crate::pubkey::Pubkey;
use crate::state::LendingPool;

verus! {

/// The accounts of a change of configuration.
#[derive(Debug, Clone, Copy, PartialEq, Eq)]
pub struct UpdatePoolConfig {
    pub pool: LendingPool,
    /// Who asks for the change
    pub admin: Pubkey,
}

impl UpdatePoolConfig {
    /// The constraint on the accounts, if it does not hold: the caller is the
    /// pool's admin.
    pub open spec fn violation(&self) -> Option<FlashLoanError> {
        if self.pool.admin != self.admin {
            Some(FlashLoanError::Unauthorized)
        } else {
            None
        }
    }

    pub fn validate(&self) -> (r: Result<(), FlashLoanError>)
        ensures
            r is Ok <==> self.violation() is None,
            r matches Err(e) ==> self.violation() == Some(e),
    {
        if self.pool.admin != self.admin {
            return Err(FlashLoanError::Unauthorized);
        }
        Ok(())
    }
}

/// What a change of configuration does to the accounts: the rejection where
/// the caller is not the pool's admin, else the error where the new fee is
/// above 100%, else the accounts with each given setting replaced and every
/// other field as it was.
pub open spec fn spec_handle_update_pool(
    ctx: UpdatePoolConfig,
    new_fee_basis_points: Option<u16>,
    is_active: Option<bool>,
) -> Result<(UpdatePoolConfig, ()), FlashLoanError> {
    match ctx.violation() {
        Some(e) => Err(e),
        None => {
            if new_fee_basis_points matches Some(fee) && fee > MAX_FEE_BASIS_POINTS {
                Err(FlashLoanError::InvalidFee)
            } else {
                Ok(
                    (UpdatePoolConfig {
                        pool: LendingPool {
                            fee_basis_points: match new_fee_basis_points {
                                Some(fee) => fee,
                                None => ctx.pool.fee_basis_points,
                            },
                            is_active: match is_active {
                                Some(active) => active,
                                None => ctx.pool.is_active,
                            },
                            ..ctx.pool
                        },
                        ..ctx
                    }, ()),
                )
            }
        },
    }
}

/// Replaces the fee, the active flag, both or neither, for the pool's admin
/// and for nobody else. On an error the
/// accounts are left as they were.
pub fn handle_update_pool(
    ctx: &mut UpdatePoolConfig,
    new_fee_basis_points: Option<u16>,
    is_active: Option<bool>,
) -> (r: Result<(), FlashLoanError>)
    ensures
        follows(
            r,
            *old(ctx),
            *final(ctx),
            spec_handle_update_pool(*old(ctx), new_fee_basis_points, is_active),
        ),
{
    match ctx.validate() {
        Ok(()) => {},
        Err(e) => {
            return Err(e);
        },
    }
    if let Some(fee) = new_fee_basis_points {
        if fee > MAX_FEE_BASIS_POINTS {
            return Err(FlashLoanError::InvalidFee);
        }
        ctx.pool.fee_basis_points = fee;
    }
    if let Some(active) = is_active {
        ctx.pool.is_active = active;
    }
    Ok(())
}

} // verus!
