use solana_flash_loan::{
    borrow_flash_loan, borrow_handler, deposit, handle_deposit, handle_initialize_pool,
    handle_update_pool, handle_withdraw, initialize_pool, repay_flash_loan, repay_handler,
    update_pool_config, withdraw, BorrowFlashLoan, Deposit, DepositReceipt, FlashLoanBorrowed,
    FlashLoanError, FlashLoanReceipt, FlashLoanRepaid, InitializePool, LendingPool,
    LiquidityDeposited, LiquidityWithdrawn, PoolInitialized, Pubkey, RepayFlashLoan, TokenAccount,
    TokenTransfer, UpdatePoolConfig, Withdraw,
};

fn key(tag: u8) -> Pubkey {
    Pubkey::new_from_array([tag; 32])
}

const POOL: u8 = 1;
const MINT: u8 = 2;
const VAULT: u8 = 3;
const ADMIN: u8 = 4;
const ALICE: u8 = 10;
const ALICE_TOKENS: u8 = 11;
const BOB: u8 = 20;
const BOB_TOKENS: u8 = 21;

fn new_pool(fee_basis_points: u16) -> LendingPool {
    let mut ctx = InitializePool {
        pool_key: key(POOL),
        pool: blank_pool(),
        pool_bump: 254,
        token_mint: key(MINT),
        vault: key(VAULT),
        vault_bump: 253,
        admin: key(ADMIN),
    };
    initialize_pool(&mut ctx, fee_basis_points).unwrap();
    ctx.pool
}

fn blank_pool() -> LendingPool {
    LendingPool {
        admin: Pubkey::default(),
        token_mint: Pubkey::default(),
        vault: Pubkey::default(),
        total_deposits: 0,
        total_shares: 0,
        total_fees_earned: 0,
        fee_basis_points: 0,
        bump: 0,
        vault_bump: 0,
        is_active: false,
        _reserved: [0; 64],
    }
}

fn pool_with(total_deposits: u64, total_shares: u64) -> LendingPool {
    let mut pool = new_pool(9);
    pool.total_deposits = total_deposits;
    pool.total_shares = total_shares;
    pool
}

fn vault(amount: u64) -> TokenAccount {
    TokenAccount { key: key(VAULT), mint: key(MINT), amount }
}

fn wallet(tag: u8, amount: u64) -> TokenAccount {
    TokenAccount { key: key(tag), mint: key(MINT), amount }
}

fn deposit_accounts(pool: LendingPool, receipt: DepositReceipt) -> Deposit {
    Deposit {
        pool_key: key(POOL),
        pool,
        receipt,
        receipt_bump: 250,
        vault: vault(pool.total_deposits),
        depositor_token_account: wallet(ALICE_TOKENS, u64::MAX),
        depositor: key(ALICE),
    }
}

fn alice_receipt(shares: u64) -> DepositReceipt {
    DepositReceipt {
        pool: key(POOL),
        depositor: key(ALICE),
        shares,
        last_deposit_ts: 5,
        bump: 250,
    }
}

fn withdraw_accounts(pool: LendingPool, receipt: DepositReceipt) -> Withdraw {
    Withdraw {
        pool_key: key(POOL),
        pool,
        receipt,
        vault: vault(pool.total_deposits),
        depositor_token_account: wallet(ALICE_TOKENS, 0),
        depositor: key(ALICE),
    }
}

fn borrow_accounts(pool: LendingPool, vault_balance: u64) -> BorrowFlashLoan {
    BorrowFlashLoan {
        pool_key: key(POOL),
        pool,
        flash_loan_receipt: FlashLoanReceipt::closed(),
        flash_loan_receipt_bump: 249,
        vault: vault(vault_balance),
        borrower_token_account: wallet(BOB_TOKENS, 0),
        borrower: key(BOB),
    }
}

fn bob_owes(amount: u64, fee: u64) -> FlashLoanReceipt {
    FlashLoanReceipt { pool: key(POOL), borrower: key(BOB), amount, fee, bump: 249 }
}

fn repay_accounts(pool: LendingPool, receipt: FlashLoanReceipt) -> RepayFlashLoan {
    RepayFlashLoan {
        pool_key: key(POOL),
        pool,
        flash_loan_receipt: receipt,
        vault: vault(0),
        borrower_token_account: wallet(BOB_TOKENS, u64::MAX),
        borrower: key(BOB),
    }
}

// ---- set-up ----

#[test]
fn initialize_sets_every_field() {
    let mut ctx = InitializePool {
        pool_key: key(POOL),
        pool: pool_with(77, 66),
        pool_bump: 254,
        token_mint: key(MINT),
        vault: key(VAULT),
        vault_bump: 253,
        admin: key(ADMIN),
    };
    let event = initialize_pool(&mut ctx, 9).unwrap();
    assert_eq!(
        event,
        PoolInitialized {
            pool: key(POOL),
            admin: key(ADMIN),
            token_mint: key(MINT),
            fee_basis_points: 9
        }
    );
    assert_eq!(
        ctx.pool,
        LendingPool {
            admin: key(ADMIN),
            token_mint: key(MINT),
            vault: key(VAULT),
            total_deposits: 0,
            total_shares: 0,
            total_fees_earned: 0,
            fee_basis_points: 9,
            bump: 254,
            vault_bump: 253,
            is_active: true,
            _reserved: [0; 64],
        }
    );
}

#[test]
fn initialize_accepts_the_whole_fee_range() {
    assert_eq!(new_pool(0).fee_basis_points, 0);
    assert_eq!(new_pool(10_000).fee_basis_points, 10_000);
}

#[test]
fn initialize_rejects_a_fee_above_one_hundred_percent() {
    let mut ctx = InitializePool {
        pool_key: key(POOL),
        pool: blank_pool(),
        pool_bump: 254,
        token_mint: key(MINT),
        vault: key(VAULT),
        vault_bump: 253,
        admin: key(ADMIN),
    };
    let before = ctx;
    assert_eq!(initialize_pool(&mut ctx, 10_001), Err(FlashLoanError::InvalidFee));
    assert_eq!(ctx, before);
    assert_eq!(handle_initialize_pool(&mut ctx, u16::MAX), Err(FlashLoanError::InvalidFee));
    assert_eq!(ctx, before);
}

// ---- deposit ----

#[test]
fn first_deposit_mints_one_share_per_unit_and_binds_the_receipt() {
    let mut ctx = deposit_accounts(new_pool(9), DepositReceipt::empty());
    let effects = deposit(&mut ctx, 1_000_000, 1_700_000_000).unwrap();
    assert_eq!(
        effects.event,
        LiquidityDeposited {
            pool: key(POOL),
            depositor: key(ALICE),
            amount: 1_000_000,
            shares_minted: 1_000_000
        }
    );
    assert_eq!(
        effects.transfer,
        TokenTransfer {
            from: key(ALICE_TOKENS),
            to: key(VAULT),
            authority: key(ALICE),
            amount: 1_000_000,
            vault_authority: None,
        }
    );
    assert_eq!(ctx.pool.total_deposits, 1_000_000);
    assert_eq!(ctx.pool.total_shares, 1_000_000);
    assert_eq!(ctx.pool.total_fees_earned, 0);
    assert_eq!(
        ctx.receipt,
        DepositReceipt {
            pool: key(POOL),
            depositor: key(ALICE),
            shares: 1_000_000,
            last_deposit_ts: 1_700_000_000,
            bump: 250,
        }
    );
}

#[test]
fn later_deposit_is_priced_pro_rata_and_reuses_the_receipt() {
    let mut receipt = alice_receipt(40);
    receipt.bump = 99;
    let mut ctx = deposit_accounts(pool_with(200, 100), receipt);
    let effects = deposit(&mut ctx, 100, 6).unwrap();
    assert_eq!(effects.event.shares_minted, 50);
    assert_eq!(effects.event.amount, 100);
    assert_eq!(ctx.pool.total_deposits, 300);
    assert_eq!(ctx.pool.total_shares, 150);
    assert_eq!(
        ctx.receipt,
        DepositReceipt {
            pool: key(POOL),
            depositor: key(ALICE),
            shares: 90,
            last_deposit_ts: 6,
            bump: 99
        }
    );
}

#[test]
fn deposit_below_the_price_of_one_share_mints_none() {
    let mut ctx = deposit_accounts(pool_with(2, 1), alice_receipt(1));
    let effects = deposit(&mut ctx, 1, 6).unwrap();
    assert_eq!(effects.event.shares_minted, 0);
    assert_eq!(ctx.pool.total_deposits, 3);
    assert_eq!(ctx.pool.total_shares, 1);
    assert_eq!(ctx.receipt.shares, 1);
}

#[test]
fn deposit_of_zero_is_rejected() {
    let mut ctx = deposit_accounts(new_pool(9), DepositReceipt::empty());
    let before = ctx;
    assert_eq!(deposit(&mut ctx, 0, 1), Err(FlashLoanError::ZeroDeposit));
    assert_eq!(ctx, before);
    assert_eq!(handle_deposit(&mut ctx, 0, 1), Err(FlashLoanError::ZeroDeposit));
    assert_eq!(ctx, before);
}

#[test]
fn deposit_into_a_paused_pool_is_rejected() {
    let mut pool = new_pool(9);
    pool.is_active = false;
    let mut ctx = deposit_accounts(pool, DepositReceipt::empty());
    let before = ctx;
    assert_eq!(deposit(&mut ctx, 10, 1), Err(FlashLoanError::PoolPaused));
    assert_eq!(ctx, before);
    // The pause is checked before the amount.
    assert_eq!(deposit(&mut ctx, 0, 1), Err(FlashLoanError::PoolPaused));
    assert_eq!(ctx, before);
}

#[test]
fn deposit_checks_the_vault_before_the_asset() {
    let mut ctx = deposit_accounts(new_pool(9), DepositReceipt::empty());
    ctx.vault.key = key(99);
    ctx.depositor_token_account.mint = key(98);
    let before = ctx;
    assert_eq!(deposit(&mut ctx, 10, 1), Err(FlashLoanError::InvalidVault));
    assert_eq!(ctx, before);
    ctx.vault.key = key(VAULT);
    let before = ctx;
    assert_eq!(deposit(&mut ctx, 10, 1), Err(FlashLoanError::MintMismatch));
    assert_eq!(ctx, before);
    assert_eq!(ctx.validate(), Err(FlashLoanError::MintMismatch));
}

#[test]
fn deposit_reports_overflow_and_commits_nothing() {
    let mut ctx = deposit_accounts(pool_with(u64::MAX, u64::MAX), alice_receipt(0));
    let before = ctx;
    assert_eq!(deposit(&mut ctx, 1, 1), Err(FlashLoanError::MathOverflow));
    assert_eq!(ctx, before);

    // The deposits fit, the receipt does not.
    let mut ctx = deposit_accounts(pool_with(10, 10), alice_receipt(u64::MAX));
    let before = ctx;
    assert_eq!(deposit(&mut ctx, 1, 1), Err(FlashLoanError::MathOverflow));
    assert_eq!(ctx, before);

    // Shares without deposits cannot be priced.
    let mut ctx = deposit_accounts(pool_with(0, 10), alice_receipt(0));
    let before = ctx;
    assert_eq!(deposit(&mut ctx, 1, 1), Err(FlashLoanError::MathOverflow));
    assert_eq!(ctx, before);
}

#[test]
fn deposit_handler_rejects_a_paused_pool_itself() {
    let mut pool = new_pool(9);
    pool.is_active = false;
    let mut ctx = deposit_accounts(pool, DepositReceipt::empty());
    let before = ctx;
    assert_eq!(ctx.validate(), Err(FlashLoanError::PoolPaused));
    assert_eq!(handle_deposit(&mut ctx, 10, 1), Err(FlashLoanError::PoolPaused));
    assert_eq!(ctx, before);

    ctx.pool.is_active = true;
    ctx.vault.key = key(99);
    let before = ctx;
    assert_eq!(handle_deposit(&mut ctx, 10, 1), Err(FlashLoanError::InvalidVault));
    assert_eq!(ctx, before);

    ctx.vault.key = key(VAULT);
    ctx.depositor_token_account.mint = key(98);
    let before = ctx;
    assert_eq!(handle_deposit(&mut ctx, 10, 1), Err(FlashLoanError::MintMismatch));
    assert_eq!(ctx, before);

    ctx.depositor_token_account.mint = key(MINT);
    let effects = handle_deposit(&mut ctx, 10, 1).unwrap();
    assert_eq!(effects.event.shares_minted, 10);
    assert_eq!(ctx.pool.total_shares, 10);
}

// ---- withdraw ----

#[test]
fn withdrawal_pays_the_share_of_deposits_and_fees() {
    let mut ctx = withdraw_accounts(pool_with(1_000_450, 1_000_000), alice_receipt(1_000_000));
    let pool_before = ctx.pool;
    let effects = withdraw(&mut ctx, 400_000).unwrap();
    assert_eq!(
        effects.event,
        LiquidityWithdrawn {
            pool: key(POOL),
            depositor: key(ALICE),
            amount: 400_180,
            shares_burned: 400_000
        }
    );
    assert_eq!(effects.transfer.from, key(VAULT));
    assert_eq!(effects.transfer.to, key(ALICE_TOKENS));
    assert_eq!(effects.transfer.authority, key(POOL));
    assert_eq!(effects.transfer.amount, 400_180);
    let authority = effects.transfer.vault_authority.unwrap();
    assert_eq!(authority.token_mint(), key(MINT));
    assert_eq!(authority.bump(), pool_before.bump);
    assert_eq!(ctx.pool.total_deposits, 600_270);
    assert_eq!(ctx.pool.total_shares, 600_000);
    assert_eq!(ctx.receipt.shares, 600_000);
    assert_eq!(ctx.receipt.last_deposit_ts, 5);
    assert_eq!(ctx.pool.total_fees_earned, pool_before.total_fees_earned);
}

#[test]
fn vault_authority_signs_with_the_pool_seeds() {
    let mut ctx = withdraw_accounts(pool_with(10, 10), alice_receipt(10));
    let effects = withdraw(&mut ctx, 1).unwrap();
    let seeds = effects.transfer.vault_authority.unwrap().signer_seeds();
    assert_eq!(seeds, vec![b"lending_pool".to_vec(), vec![MINT; 32], vec![254u8]]);
}

#[test]
fn withdrawal_of_zero_shares_is_rejected() {
    let mut ctx = withdraw_accounts(pool_with(10, 10), alice_receipt(10));
    let before = ctx;
    assert_eq!(withdraw(&mut ctx, 0), Err(FlashLoanError::ZeroWithdraw));
    assert_eq!(ctx, before);
}

#[test]
fn withdrawal_of_more_than_the_receipt_holds_is_rejected() {
    let mut ctx = withdraw_accounts(pool_with(100, 100), alice_receipt(10));
    let before = ctx;
    assert_eq!(withdraw(&mut ctx, 11), Err(FlashLoanError::InsufficientShares));
    assert_eq!(ctx, before);
    assert_eq!(handle_withdraw(&mut ctx, u64::MAX), Err(FlashLoanError::InsufficientShares));
    assert_eq!(ctx, before);
}

#[test]
fn withdrawal_from_somebody_elses_receipt_is_unauthorized() {
    let mut ctx = withdraw_accounts(pool_with(100, 100), alice_receipt(10));
    ctx.depositor = key(BOB);
    let before = ctx;
    assert_eq!(withdraw(&mut ctx, 1), Err(FlashLoanError::Unauthorized));
    assert_eq!(ctx, before);
}

#[test]
fn withdrawal_checks_pool_vault_and_asset_in_turn() {
    let mut ctx = withdraw_accounts(pool_with(100, 100), alice_receipt(10));
    ctx.receipt.pool = key(77);
    ctx.depositor_token_account.mint = key(98);
    let before = ctx;
    assert_eq!(withdraw(&mut ctx, 1), Err(FlashLoanError::InvalidVault));
    assert_eq!(ctx, before);

    ctx.receipt.pool = key(POOL);
    assert_eq!(withdraw(&mut ctx, 1), Err(FlashLoanError::MintMismatch));

    ctx.vault.key = key(99);
    assert_eq!(withdraw(&mut ctx, 1), Err(FlashLoanError::InvalidVault));

    // The owner is checked first of all.
    ctx.depositor = key(BOB);
    assert_eq!(withdraw(&mut ctx, 0), Err(FlashLoanError::Unauthorized));
}

#[test]
fn withdrawal_is_open_while_the_pool_is_paused() {
    let mut pool = pool_with(100, 100);
    pool.is_active = false;
    let mut ctx = withdraw_accounts(pool, alice_receipt(10));
    let effects = withdraw(&mut ctx, 10).unwrap();
    assert_eq!(effects.event.amount, 10);
    assert_eq!(ctx.pool.total_deposits, 90);
    assert!(!ctx.pool.is_active);
}

#[test]
fn withdrawal_reports_what_it_cannot_compute() {
    // Shares on the receipt that the pool does not know of.
    let mut ctx = withdraw_accounts(pool_with(0, 0), alice_receipt(10));
    let before = ctx;
    assert_eq!(withdraw(&mut ctx, 5), Err(FlashLoanError::MathOverflow));
    assert_eq!(ctx, before);

    let mut ctx = withdraw_accounts(pool_with(100, 5), alice_receipt(10));
    let before = ctx;
    assert_eq!(withdraw(&mut ctx, 10), Err(FlashLoanError::MathOverflow));
    assert_eq!(ctx, before);

    let mut ctx = withdraw_accounts(pool_with(u64::MAX, 1), alice_receipt(2));
    let before = ctx;
    assert_eq!(withdraw(&mut ctx, 2), Err(FlashLoanError::MathOverflow));
    assert_eq!(ctx, before);
}

#[test]
fn withdraw_handler_rejects_a_stranger_itself() {
    let mut ctx = withdraw_accounts(pool_with(100, 100), alice_receipt(10));
    ctx.depositor = key(BOB);
    let before = ctx;
    assert_eq!(handle_withdraw(&mut ctx, 10), Err(FlashLoanError::Unauthorized));
    assert_eq!(ctx, before);
    assert_eq!(ctx.receipt.shares, 10);
    assert_eq!(ctx.pool.total_deposits, 100);

    let mut ctx = withdraw_accounts(pool_with(100, 100), alice_receipt(10));
    ctx.receipt.pool = key(77);
    let before = ctx;
    assert_eq!(handle_withdraw(&mut ctx, 10), Err(FlashLoanError::InvalidVault));
    assert_eq!(ctx, before);

    let mut ctx = withdraw_accounts(pool_with(100, 100), alice_receipt(10));
    ctx.vault.key = key(99);
    let before = ctx;
    assert_eq!(handle_withdraw(&mut ctx, 10), Err(FlashLoanError::InvalidVault));
    assert_eq!(ctx, before);

    let mut ctx = withdraw_accounts(pool_with(100, 100), alice_receipt(10));
    ctx.depositor_token_account.mint = key(98);
    let before = ctx;
    assert_eq!(handle_withdraw(&mut ctx, 10), Err(FlashLoanError::MintMismatch));
    assert_eq!(ctx, before);
}

// ---- borrow ----

#[test]
fn borrow_records_principal_and_fee() {
    let mut ctx = borrow_accounts(pool_with(1_000_000, 1_000_000), 1_000_000);
    let pool_before = ctx.pool;
    let effects = borrow_flash_loan(&mut ctx, 500_000).unwrap();
    assert_eq!(
        effects.event,
        FlashLoanBorrowed { pool: key(POOL), borrower: key(BOB), amount: 500_000, fee: 450 }
    );
    assert_eq!(effects.transfer.from, key(VAULT));
    assert_eq!(effects.transfer.to, key(BOB_TOKENS));
    assert_eq!(effects.transfer.authority, key(POOL));
    assert_eq!(effects.transfer.amount, 500_000);
    assert_eq!(
        effects.transfer.vault_authority.unwrap().signer_seeds(),
        vec![b"lending_pool".to_vec(), vec![MINT; 32], vec![254u8]]
    );
    assert_eq!(ctx.flash_loan_receipt, bob_owes(500_000, 450));
    assert_eq!(ctx.pool, pool_before);
}

#[test]
fn borrow_of_the_whole_vault_is_allowed() {
    let mut ctx = borrow_accounts(pool_with(1_000, 1_000), 1_000);
    let effects = borrow_flash_loan(&mut ctx, 1_000).unwrap();
    assert_eq!(effects.event.fee, 1);
}

#[test]
fn borrow_of_zero_is_rejected() {
    let mut ctx = borrow_accounts(pool_with(1_000, 1_000), 1_000);
    let before = ctx;
    assert_eq!(borrow_flash_loan(&mut ctx, 0), Err(FlashLoanError::InvalidAmount));
    assert_eq!(ctx, before);
}

#[test]
fn borrow_beyond_the_vault_is_rejected_and_mutates_nothing() {
    let mut ctx = borrow_accounts(pool_with(1_000, 1_000), 999);
    let before = ctx;
    assert_eq!(borrow_flash_loan(&mut ctx, 1_000), Err(FlashLoanError::InsufficientLiquidity));
    assert_eq!(ctx, before);
    assert_eq!(borrow_handler(&mut ctx, u64::MAX), Err(FlashLoanError::InsufficientLiquidity));
    assert_eq!(ctx, before);

    let mut empty = borrow_accounts(new_pool(9), 0);
    let before = empty;
    assert_eq!(borrow_flash_loan(&mut empty, 1), Err(FlashLoanError::InsufficientLiquidity));
    assert_eq!(empty, before);
}

#[test]
fn borrow_from_a_paused_pool_is_rejected() {
    let mut pool = pool_with(1_000, 1_000);
    pool.is_active = false;
    let mut ctx = borrow_accounts(pool, 1_000);
    let before = ctx;
    assert_eq!(borrow_flash_loan(&mut ctx, 10), Err(FlashLoanError::PoolPaused));
    assert_eq!(borrow_flash_loan(&mut ctx, 0), Err(FlashLoanError::PoolPaused));
    assert_eq!(ctx, before);
}

#[test]
fn borrow_checks_the_vault_and_the_asset() {
    let mut ctx = borrow_accounts(pool_with(1_000, 1_000), 1_000);
    ctx.borrower_token_account.mint = key(98);
    let before = ctx;
    assert_eq!(borrow_flash_loan(&mut ctx, 10), Err(FlashLoanError::MintMismatch));
    assert_eq!(ctx, before);
    ctx.vault.key = key(99);
    assert_eq!(borrow_flash_loan(&mut ctx, 10), Err(FlashLoanError::InvalidVault));
}

#[test]
fn borrow_reports_a_fee_that_leaves_64_bits() {
    let mut ctx = borrow_accounts(pool_with(u64::MAX, u64::MAX), u64::MAX);
    let before = ctx;
    assert_eq!(borrow_flash_loan(&mut ctx, u64::MAX / 2), Err(FlashLoanError::MathOverflow));
    assert_eq!(ctx, before);
}

#[test]
fn borrow_handler_rejects_a_paused_pool_itself() {
    let mut pool = pool_with(1_000, 1_000);
    pool.is_active = false;
    let mut ctx = borrow_accounts(pool, 1_000);
    let before = ctx;
    assert_eq!(borrow_handler(&mut ctx, 10), Err(FlashLoanError::PoolPaused));
    assert_eq!(ctx, before);
    assert_eq!(ctx.flash_loan_receipt, FlashLoanReceipt::closed());

    let mut ctx = borrow_accounts(pool_with(1_000, 1_000), 1_000);
    ctx.vault.key = key(99);
    let before = ctx;
    assert_eq!(borrow_handler(&mut ctx, 10), Err(FlashLoanError::InvalidVault));
    assert_eq!(ctx, before);

    let mut ctx = borrow_accounts(pool_with(1_000, 1_000), 1_000);
    ctx.borrower_token_account.mint = key(98);
    let before = ctx;
    assert_eq!(borrow_handler(&mut ctx, 10), Err(FlashLoanError::MintMismatch));
    assert_eq!(ctx, before);
}

// ---- repay ----

#[test]
fn repayment_adds_the_fee_and_closes_the_obligation() {
    let mut ctx = repay_accounts(pool_with(1_000_000, 1_000_000), bob_owes(500_000, 450));
    let effects = repay_flash_loan(&mut ctx).unwrap();
    assert_eq!(
        effects.event,
        FlashLoanRepaid {
            pool: key(POOL),
            borrower: key(BOB),
            amount_repaid: 500_450,
            fee_paid: 450
        }
    );
    assert_eq!(
        effects.transfer,
        TokenTransfer {
            from: key(BOB_TOKENS),
            to: key(VAULT),
            authority: key(BOB),
            amount: 500_450,
            vault_authority: None,
        }
    );
    assert_eq!(ctx.pool.total_deposits, 1_000_450);
    assert_eq!(ctx.pool.total_fees_earned, 450);
    assert_eq!(ctx.pool.total_shares, 1_000_000);
    assert_eq!(ctx.flash_loan_receipt, FlashLoanReceipt::closed());
}

#[test]
fn repayment_by_another_than_the_borrower_is_unauthorized() {
    let mut ctx = repay_accounts(pool_with(1_000, 1_000), bob_owes(500, 1));
    ctx.borrower = key(ALICE);
    let before = ctx;
    assert_eq!(repay_flash_loan(&mut ctx), Err(FlashLoanError::Unauthorized));
    assert_eq!(ctx, before);
}

#[test]
fn repayment_checks_pool_vault_and_asset_in_turn() {
    let mut ctx = repay_accounts(pool_with(1_000, 1_000), bob_owes(500, 1));
    ctx.flash_loan_receipt.pool = key(77);
    ctx.borrower_token_account.mint = key(98);
    let before = ctx;
    assert_eq!(repay_flash_loan(&mut ctx), Err(FlashLoanError::InvalidVault));
    assert_eq!(ctx, before);
    ctx.flash_loan_receipt.pool = key(POOL);
    assert_eq!(repay_flash_loan(&mut ctx), Err(FlashLoanError::MintMismatch));
    ctx.vault.key = key(99);
    assert_eq!(repay_flash_loan(&mut ctx), Err(FlashLoanError::InvalidVault));
}

#[test]
fn repayment_is_open_while_the_pool_is_paused() {
    let mut pool = pool_with(1_000, 1_000);
    pool.is_active = false;
    let mut ctx = repay_accounts(pool, bob_owes(500, 1));
    repay_flash_loan(&mut ctx).unwrap();
    assert_eq!(ctx.pool.total_deposits, 1_001);
}

#[test]
fn repayment_reports_overflow_and_commits_nothing() {
    let mut ctx = repay_accounts(pool_with(1_000, 1_000), bob_owes(u64::MAX, 1));
    let before = ctx;
    assert_eq!(repay_flash_loan(&mut ctx), Err(FlashLoanError::MathOverflow));
    assert_eq!(ctx, before);

    let mut ctx = repay_accounts(pool_with(u64::MAX, 1_000), bob_owes(5, 1));
    let before = ctx;
    assert_eq!(repay_handler(&mut ctx), Err(FlashLoanError::MathOverflow));
    assert_eq!(ctx, before);

    let mut pool = pool_with(1_000, 1_000);
    pool.total_fees_earned = u64::MAX;
    let mut ctx = repay_accounts(pool, bob_owes(5, 1));
    let before = ctx;
    assert_eq!(repay_flash_loan(&mut ctx), Err(FlashLoanError::MathOverflow));
    assert_eq!(ctx, before);
}

#[test]
fn repay_handler_rejects_a_stranger_itself() {
    let mut ctx = repay_accounts(pool_with(1_000, 1_000), bob_owes(500, 1));
    ctx.borrower = key(ALICE);
    let before = ctx;
    assert_eq!(repay_handler(&mut ctx), Err(FlashLoanError::Unauthorized));
    assert_eq!(ctx, before);
    assert_eq!(ctx.flash_loan_receipt, bob_owes(500, 1));

    let mut ctx = repay_accounts(pool_with(1_000, 1_000), bob_owes(500, 1));
    ctx.flash_loan_receipt.pool = key(77);
    let before = ctx;
    assert_eq!(repay_handler(&mut ctx), Err(FlashLoanError::InvalidVault));
    assert_eq!(ctx, before);

    let mut ctx = repay_accounts(pool_with(1_000, 1_000), bob_owes(500, 1));
    ctx.vault.key = key(99);
    assert_eq!(repay_handler(&mut ctx), Err(FlashLoanError::InvalidVault));

    let mut ctx = repay_accounts(pool_with(1_000, 1_000), bob_owes(500, 1));
    ctx.borrower_token_account.mint = key(98);
    assert_eq!(repay_handler(&mut ctx), Err(FlashLoanError::MintMismatch));
}

#[test]
fn closed_obligation_cannot_be_repaid_again() {
    let mut ctx = repay_accounts(pool_with(1_000, 1_000), bob_owes(500, 1));
    repay_flash_loan(&mut ctx).unwrap();
    assert_eq!(ctx.flash_loan_receipt, FlashLoanReceipt::closed());
    let before = ctx;
    assert_eq!(repay_flash_loan(&mut ctx), Err(FlashLoanError::Unauthorized));
    assert_eq!(repay_handler(&mut ctx), Err(FlashLoanError::Unauthorized));
    assert_eq!(ctx, before);
    assert_eq!(ctx.pool.total_deposits, 1_001);
}

// ---- configuration ----

#[test]
fn admin_changes_fee_and_pause() {
    let pool = pool_with(1_000, 900);
    let mut ctx = UpdatePoolConfig { pool, admin: key(ADMIN) };
    update_pool_config(&mut ctx, Some(25), Some(false)).unwrap();
    assert_eq!(ctx.pool, LendingPool { fee_basis_points: 25, is_active: false, ..pool });
    update_pool_config(&mut ctx, None, Some(true)).unwrap();
    assert_eq!(ctx.pool, LendingPool { fee_basis_points: 25, is_active: true, ..pool });
    update_pool_config(&mut ctx, Some(10_000), None).unwrap();
    assert_eq!(ctx.pool, LendingPool { fee_basis_points: 10_000, is_active: true, ..pool });
    update_pool_config(&mut ctx, None, None).unwrap();
    assert_eq!(ctx.pool, LendingPool { fee_basis_points: 10_000, is_active: true, ..pool });
}

#[test]
fn configuration_by_a_non_admin_is_unauthorized_and_mutates_nothing() {
    let mut ctx = UpdatePoolConfig { pool: pool_with(1_000, 900), admin: key(ALICE) };
    let before = ctx;
    assert_eq!(
        update_pool_config(&mut ctx, Some(25), Some(false)),
        Err(FlashLoanError::Unauthorized)
    );
    assert_eq!(ctx, before);
    assert_eq!(update_pool_config(&mut ctx, None, None), Err(FlashLoanError::Unauthorized));
    assert_eq!(update_pool_config(&mut ctx, Some(10_001), None), Err(FlashLoanError::Unauthorized));
    assert_eq!(ctx, before);
}

#[test]
fn configuration_rejects_a_fee_above_one_hundred_percent_whole() {
    let mut ctx = UpdatePoolConfig { pool: pool_with(1_000, 900), admin: key(ADMIN) };
    let before = ctx;
    assert_eq!(
        update_pool_config(&mut ctx, Some(10_001), Some(false)),
        Err(FlashLoanError::InvalidFee)
    );
    assert_eq!(ctx, before);
    assert_eq!(handle_update_pool(&mut ctx, Some(u16::MAX), None), Err(FlashLoanError::InvalidFee));
    assert_eq!(ctx, before);
}

#[test]
fn update_handler_rejects_a_non_admin_itself() {
    let mut ctx = UpdatePoolConfig { pool: pool_with(1_000, 900), admin: key(ALICE) };
    let before = ctx;
    assert_eq!(
        handle_update_pool(&mut ctx, Some(0), Some(false)),
        Err(FlashLoanError::Unauthorized)
    );
    assert_eq!(ctx, before);
    assert_eq!(ctx.pool.fee_basis_points, 9);
    assert!(ctx.pool.is_active);
    assert_eq!(handle_update_pool(&mut ctx, None, None), Err(FlashLoanError::Unauthorized));
    assert_eq!(handle_update_pool(&mut ctx, Some(10_001), None), Err(FlashLoanError::Unauthorized));
    assert_eq!(ctx, before);

    ctx.admin = key(ADMIN);
    assert_eq!(handle_update_pool(&mut ctx, Some(0), Some(false)), Ok(()));
    assert_eq!(ctx.pool.fee_basis_points, 0);
    assert!(!ctx.pool.is_active);
}
