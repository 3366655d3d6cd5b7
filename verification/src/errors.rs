use vstd::prelude::*;

verus! {

/// Reasons for which an operation on a pool is rejected.
#[derive(Debug, Clone, Copy, PartialEq, Eq, Structural, Hash)]
pub enum FlashLoanError {
    /// The fee is above 10000 basis points.
    InvalidFee,
    /// The vault holds less than the amount asked for.
    InsufficientLiquidity,
    /// A flash loan of zero was asked for.
    InvalidAmount,
    /// The pool was paused by its admin.
    PoolPaused,
    /// The signer is not the authority the operation expects.
    Unauthorized,
    /// A token account holds another asset than the pool's.
    MintMismatch,
    /// An account does not belong to the pool it is presented with.
    InvalidVault,
    /// A fixed-width computation left its width, or divided by zero.
    MathOverflow,
    /// More shares were to be burned than the receipt holds.
    InsufficientShares,
    /// A deposit of zero was asked for.
    ZeroDeposit,
    /// A withdrawal of zero shares was asked for.
    ZeroWithdraw,
}

impl FlashLoanError {
    /// Whether the error rejects an amount of zero: each operation has its
    /// own variant for it.
    pub open spec fn spec_is_invalid_amount(&self) -> bool {
        *self == FlashLoanError::InvalidAmount || *self == FlashLoanError::ZeroDeposit || *self
            == FlashLoanError::ZeroWithdraw
    }

    #[verifier::when_used_as_spec(spec_is_invalid_amount)]
    pub fn is_invalid_amount(&self) -> (r: bool)
        ensures
            r == self.spec_is_invalid_amount(),
    {
        match self {
            FlashLoanError::InvalidAmount
            | FlashLoanError::ZeroDeposit
            | FlashLoanError::ZeroWithdraw => true,
            _ => false,
        }
    }

    /// What the error tells the caller.
    pub open spec fn spec_message(&self) -> Seq<char> {
        match self {
            FlashLoanError::InvalidFee => "Invalid fee: must be between 0 and 10000 basis points"@,
            FlashLoanError::InsufficientLiquidity => "Insufficient pool liquidity for flash loan"@,
            FlashLoanError::InvalidAmount => "Flash loan amount must be greater than zero"@,
            FlashLoanError::PoolPaused => "Pool is paused by admin"@,
            FlashLoanError::Unauthorized => "Unauthorized: signer does not match expected authority"@,
            FlashLoanError::MintMismatch => "Token mint does not match pool's token mint"@,
            FlashLoanError::InvalidVault => "Vault account does not match pool's vault"@,
            FlashLoanError::MathOverflow => "Math overflow"@,
            FlashLoanError::InsufficientShares => "Insufficient shares for withdrawal"@,
            FlashLoanError::ZeroDeposit => "Deposit amount must be greater than zero"@,
            FlashLoanError::ZeroWithdraw => "Withdraw amount must be greater than zero"@,
        }
    }

    pub fn message(&self) -> (text: String)
        ensures
            text@ == self.spec_message(),
    {
        match self {
            FlashLoanError::InvalidFee => "Invalid fee: must be between 0 and 10000 basis points".to_owned(),
            FlashLoanError::InsufficientLiquidity => "Insufficient pool liquidity for flash loan".to_owned(),
            FlashLoanError::InvalidAmount => "Flash loan amount must be greater than zero".to_owned(),
            FlashLoanError::PoolPaused => "Pool is paused by admin".to_owned(),
            FlashLoanError::Unauthorized => "Unauthorized: signer does not match expected authority".to_owned(),
            FlashLoanError::MintMismatch => "Token mint does not match pool's token mint".to_owned(),
            FlashLoanError::InvalidVault => "Vault account does not match pool's vault".to_owned(),
            FlashLoanError::MathOverflow => "Math overflow".to_owned(),
            FlashLoanError::InsufficientShares => "Insufficient shares for withdrawal".to_owned(),
            FlashLoanError::ZeroDeposit => "Deposit amount must be greater than zero".to_owned(),
            FlashLoanError::ZeroWithdraw => "Withdraw amount must be greater than zero".to_owned(),
        }
    }
}

/// Whether `result` is the rejection with `error`.
pub open spec fn rejected_with<T>(result: Result<T, FlashLoanError>, error: FlashLoanError) -> bool {
    result matches Err(e) && e == error
}

} // verus!
