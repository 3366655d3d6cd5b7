//! Token accounts as the engine reads them, and the transfers it orders.
//!
//! Balances are moved by the custody of the asset, not here. An operation
//! reads the balances it is shown and returns the transfer that has to go
//! with its commit.

use vstd::prelude::*;

use crate::authority::VaultAuthority;
use crate::pubkey::Pubkey;

verus! {

/// A custody account of some asset, as far as the engine reads it.
#[derive(Debug, Clone, Copy, PartialEq, Eq)]
pub struct TokenAccount {
    /// The account's own identity
    pub key: Pubkey,
    /// The asset that the account holds
    pub mint: Pubkey,
    /// The balance at the time the operation starts
    pub amount: u64,
}

/// A transfer of `amount` units that a committed operation orders.
#[derive(Debug, Clone, Copy, PartialEq, Eq)]
pub struct TokenTransfer {
    /// The account debited
    pub from: Pubkey,
    /// The account credited
    pub to: Pubkey,
    /// Who signs for the debit
    pub authority: Pubkey,
    /// Units moved
    pub amount: u64,
    /// Present where the pool itself signs, that is on every transfer out of
    /// a vault; absent where a wallet signs for its own account.
    pub vault_authority: Option<VaultAuthority>,
}

} // verus!
