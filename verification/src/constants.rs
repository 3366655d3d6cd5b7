use vstd::prelude::*;

verus! {

/// Seed of a pool's address: the ASCII bytes of `lending_pool`.
pub const LENDING_POOL_SEED: [u8; 12] = [108, 101, 110, 100, 105, 110, 103, 95, 112, 111, 111, 108];

/// Seed of a vault's address: the ASCII bytes of `pool_vault`.
pub const POOL_VAULT_SEED: [u8; 10] = [112, 111, 111, 108, 95, 118, 97, 117, 108, 116];

/// Seed of a deposit receipt's address: the ASCII bytes of `deposit_receipt`.
pub const DEPOSIT_RECEIPT_SEED: [u8; 15] = [
    100, 101, 112, 111, 115, 105, 116, 95, 114, 101, 99, 101, 105, 112, 116,
];

/// Seed of a flash-loan receipt's address: the ASCII bytes of
/// `flash_loan_receipt`.
pub const FLASH_LOAN_RECEIPT_SEED: [u8; 18] = [
    102, 108, 97, 115, 104, 95, 108, 111, 97, 110, 95, 114, 101, 99, 101, 105, 112, 116,
];

/// Default fee: 9 basis points, that is 0.09%.
pub const DEFAULT_FEE_BASIS_POINTS: u16 = 9;

/// Highest fee a pool accepts: 10000 basis points, that is 100%.
pub const MAX_FEE_BASIS_POINTS: u16 = 10_000;

} // verus!
