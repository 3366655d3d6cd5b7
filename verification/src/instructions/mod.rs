//! The operations on a pool, one module each: the accounts an operation is
//! handed, the constraints they must meet, and the handler that checks those
//! constraints and commits the operation.

use vstd::prelude::*;

use crate::errors::FlashLoanError;
use crate::token::TokenTransfer;

pub mod deposit;
pub mod flash_loan;
pub mod initialize_pool;
pub mod update_pool;
pub mod withdraw;

verus! {

/// What a committed operation asks of its surroundings: the transfer to
/// carry out and the event to report.
#[derive(Debug, PartialEq, Eq)]
pub struct Effects<E> {
    pub transfer: TokenTransfer,
    pub event: E,
}

/// Whether an operation that returned `returned`, and made `after` of the
/// accounts `before`, did what `model` says: it committed the accounts of the
/// model and returned what the model returns, or it was rejected with the
/// model's error and left the accounts exactly as they were.
pub open spec fn follows<C, T>(
    returned: Result<T, FlashLoanError>,
    before: C,
    after: C,
    model: Result<(C, T), FlashLoanError>,
) -> bool {
    match returned {
        Ok(value) => model == Ok::<(C, T), FlashLoanError>((after, value)),
        Err(e) => model == Err::<(C, T), FlashLoanError>(e) && after == before,
    }
}

} // verus!
