//! The three persisted records: the pool, a depositor's receipt and a
//! borrower's flash-loan receipt.

use vstd::prelude::*;

use crate::constants::MAX_FEE_BASIS_POINTS;
use crate::pubkey::Pubkey;

verus! {

/// The ledger of one asset pool.
#[derive(Debug, Clone, Copy, PartialEq, Eq)]
pub struct LendingPool {
    /// Admin authority who created the pool
    pub admin: Pubkey,
    /// The asset this pool lends
    pub token_mint: Pubkey,
    /// The pool's token vault, which only the pool's derived authority moves
    pub vault: Pubkey,
    /// Total deposits tracked (grows with fees)
    pub total_deposits: u64,
    /// Total shares issued to depositors
    pub total_shares: u64,
    /// Accumulated fees earned (lifetime counter)
    pub total_fees_earned: u64,
    /// Fee in basis points (e.g., 9 = 0.09%)
    pub fee_basis_points: u16,
    /// Bump of the pool's derived address
    pub bump: u8,
    /// Bump of the vault's derived address
    pub vault_bump: u8,
    /// Whether the pool is active
    pub is_active: bool,
    /// Reserved for future upgrades
    pub _reserved: [u8; 64],
}

impl LendingPool {
    /// Bytes of the persisted record, its 8-byte tag included.
    pub const SIZE: usize = 8 + 32 + 32 + 32 + 8 + 8 + 8 + 2 + 1 + 1 + 1 + 64;

    /// The record of a pool that has just been set up: no deposits, no
    /// shares, no fees earned, active, its reserved bytes zero.
    pub open spec fn spec_new(
        admin: Pubkey,
        token_mint: Pubkey,
        vault: Pubkey,
        fee_basis_points: u16,
        bump: u8,
        vault_bump: u8,
    ) -> LendingPool {
        LendingPool {
            admin,
            token_mint,
            vault,
            total_deposits: 0,
            total_shares: 0,
            total_fees_earned: 0,
            fee_basis_points,
            bump,
            vault_bump,
            is_active: true,
            _reserved: vstd::array::spec_array_fill_for_copy_type::<u8, 64>(0u8),
        }
    }

    /// The fee is at most 100%.
    pub open spec fn fee_in_range(&self) -> bool {
        self.fee_basis_points <= MAX_FEE_BASIS_POINTS
    }

    /// Shares are outstanding exactly when deposits back them.
    pub open spec fn balanced(&self) -> bool {
        self.total_shares == 0 <==> self.total_deposits == 0
    }

    /// No share is worth less than one unit of the asset.
    pub open spec fn fully_backed(&self) -> bool {
        self.total_shares <= self.total_deposits
    }

    pub open spec fn well_formed(&self) -> bool {
        &&& self.fee_in_range()
        &&& self.balanced()
        &&& self.fully_backed()
    }
}

/// The shares one depositor holds in one pool.
#[derive(Debug, Clone, Copy, PartialEq, Eq)]
pub struct DepositReceipt {
    /// The lending pool this deposit belongs to
    pub pool: Pubkey,
    /// The depositor's wallet
    pub depositor: Pubkey,
    /// Shares owned by this depositor
    pub shares: u64,
    /// Timestamp of last deposit
    pub last_deposit_ts: i64,
    /// Bump of the receipt's derived address
    pub bump: u8,
}

impl DepositReceipt {
    /// Bytes of the persisted record, its 8-byte tag included.
    pub const SIZE: usize = 8 + 32 + 32 + 8 + 8 + 1;

    /// The record as the store hands it out before the first deposit.
    pub open spec fn spec_empty() -> DepositReceipt {
        DepositReceipt {
            pool: Pubkey::spec_default(),
            depositor: Pubkey::spec_default(),
            shares: 0,
            last_deposit_ts: 0,
            bump: 0,
        }
    }

    /// Whether a deposit has filled the record in.
    pub open spec fn is_initialized(&self) -> bool {
        self.pool != Pubkey::spec_default()
    }

    pub fn empty() -> (receipt: DepositReceipt)
        ensures
            receipt == DepositReceipt::spec_empty(),
    {
        DepositReceipt {
            pool: Pubkey::default(),
            depositor: Pubkey::default(),
            shares: 0,
            last_deposit_ts: 0,
            bump: 0,
        }
    }
}

/// The shares that the given receipts hold together.
pub open spec fn shares_held(receipts: Seq<DepositReceipt>) -> nat
    decreases receipts.len(),
{
    if receipts.len() == 0 {
        0
    } else {
        shares_held(receipts.drop_last()) + receipts.last().shares as nat
    }
}

/// What one borrower owes one pool until the loan is repaid.
#[derive(Debug, Clone, Copy, PartialEq, Eq)]
pub struct FlashLoanReceipt {
    /// The pool being borrowed from
    pub pool: Pubkey,
    /// The borrower
    pub borrower: Pubkey,
    /// Amount borrowed
    pub amount: u64,
    /// Fee owed
    pub fee: u64,
    /// Bump of the receipt's derived address
    pub bump: u8,
}

impl FlashLoanReceipt {
    /// Bytes of the persisted record, its 8-byte tag included.
    pub const SIZE: usize = 8 + 32 + 32 + 8 + 8 + 1;

    /// The record of a loan that is not, or no longer, outstanding.
    pub open spec fn spec_closed() -> FlashLoanReceipt {
        FlashLoanReceipt {
            pool: Pubkey::spec_default(),
            borrower: Pubkey::spec_default(),
            amount: 0,
            fee: 0,
            bump: 0,
        }
    }

    pub fn closed() -> (receipt: FlashLoanReceipt)
        ensures
            receipt == FlashLoanReceipt::spec_closed(),
    {
        FlashLoanReceipt {
            pool: Pubkey::default(),
            borrower: Pubkey::default(),
            amount: 0,
            fee: 0,
            bump: 0,
        }
    }
}

} // verus!
