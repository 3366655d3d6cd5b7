//! A pool in its surroundings: the record of the pool, the receipts and the
//! obligations that the store keeps for it, and the balance that the custody
//! of the asset keeps in its vault.
//!
//! This is a model, in ghost code only. The engine itself holds no store
//! and moves no balance; the model says what its surroundings do with what an
//! operation returns, and states what then holds of every state that can be
//! reached. Two things are assumed of the surroundings: the store keeps one
//! receipt for a depositor and one obligation for a borrower, and the balance
//! of the vault changes by nothing but the transfers that the engine orders,
//! each of which moves funds between the vault and another account.

use vstd::prelude::*;

use crate::instructions::deposit::Deposit;
use crate::instructions::flash_loan::{BorrowFlashLoan, RepayFlashLoan};
use crate::instructions::update_pool::UpdatePoolConfig;
use crate::instructions::withdraw::Withdraw;
use crate::laws::{
    lemma_borrow_leaves_pool_untouched, lemma_deposit_keeps_pool_sound,
    lemma_repay_keeps_pool_sound, lemma_shares_held_push, lemma_shares_held_update,
    lemma_update_keeps_pool_sound, lemma_withdraw_keeps_pool_sound,
};
use crate::pubkey::Pubkey;
use crate::state::{shares_held, DepositReceipt, FlashLoanReceipt, LendingPool};
use crate::token::{TokenAccount, TokenTransfer};
use crate::{
    spec_borrow_flash_loan, spec_deposit, spec_repay_flash_loan, spec_update_pool_config,
    spec_withdraw,
};

verus! {

/// One pool and what its surroundings keep for it.
pub struct PoolSystem {
    /// Identity of the pool record
    pub pool_key: Pubkey,
    pub pool: LendingPool,
    /// The vault, with the balance that the custody keeps in it
    pub vault: TokenAccount,
    /// The receipts that the store keeps for the pool's depositors
    pub receipts: Seq<DepositReceipt>,
    /// The obligations that are outstanding
    pub loans: Seq<FlashLoanReceipt>,
}

/// What a caller asks of the system.
pub enum Operation {
    /// A deposit to the receipt at `slot`; at the slot one past the last, the
    /// store makes an empty receipt first.
    Deposit {
        slot: int,
        depositor: Pubkey,
        wallet: TokenAccount,
        amount: u64,
        now: i64,
        receipt_bump: u8,
    },
    /// A withdrawal from the receipt at `slot`.
    Withdraw { slot: int, depositor: Pubkey, wallet: TokenAccount, shares_to_burn: u64 },
    /// A flash borrow, for which the store makes a record.
    Borrow { borrower: Pubkey, wallet: TokenAccount, amount: u64, receipt_bump: u8 },
    /// The repayment of the obligation at `slot`.
    Repay { slot: int, borrower: Pubkey, wallet: TokenAccount },
    /// A change of configuration.
    Configure { admin: Pubkey, new_fee_basis_points: Option<u16>, is_active: Option<bool> },
}

/// The principal that the given obligations lent out together.
pub open spec fn principal_lent(loans: Seq<FlashLoanReceipt>) -> nat
    decreases loans.len(),
{
    if loans.len() == 0 {
        0
    } else {
        principal_lent(loans.drop_last()) + loans.last().amount as nat
    }
}

/// The vault after the custody has carried out `order` between it and
/// `wallet`, or nothing where the custody refuses: where the order is not
/// between these two accounts, where the source is short, where the vault
/// would hold more than 64 bits count, or where the vault is debited without
/// the pool's authority.
pub open spec fn settle(vault: TokenAccount, wallet: TokenAccount, order: TokenTransfer) -> Option<
    TokenAccount,
> {
    if wallet.key == vault.key {
        None
    } else if order.from == wallet.key && order.to == vault.key {
        if wallet.amount >= order.amount && vault.amount + order.amount <= u64::MAX {
            Some(TokenAccount { amount: (vault.amount + order.amount) as u64, ..vault })
        } else {
            None
        }
    } else if order.from == vault.key && order.to == wallet.key {
        if vault.amount >= order.amount && order.vault_authority is Some {
            Some(TokenAccount { amount: (vault.amount - order.amount) as u64, ..vault })
        } else {
            None
        }
    } else {
        None
    }
}

/// Whether the store keeps a receipt for `depositor`.
pub open spec fn holds_receipt(receipts: Seq<DepositReceipt>, depositor: Pubkey) -> bool {
    exists|i: int| 0 <= i < receipts.len() && (#[trigger] receipts[i]).depositor == depositor
}

/// Whether an obligation of `borrower` is outstanding.
pub open spec fn owes(loans: Seq<FlashLoanReceipt>, borrower: Pubkey) -> bool {
    exists|i: int| 0 <= i < loans.len() && (#[trigger] loans[i]).borrower == borrower
}

/// The receipts with the slot that a deposit goes to: the store makes an
/// empty receipt where the slot is one past the last.
pub open spec fn receipts_for_deposit(s: PoolSystem, slot: int) -> Seq<DepositReceipt> {
    if slot == s.receipts.len() {
        s.receipts.push(DepositReceipt::spec_empty())
    } else {
        s.receipts
    }
}

/// The system after `op`, or nothing where the operation is rejected, the
/// store has no such record, or the custody refuses the transfer: then the
/// unit of work that `op` belongs to fails.
pub open spec fn step(s: PoolSystem, op: Operation) -> Option<PoolSystem> {
    match op {
        Operation::Deposit { slot, depositor, wallet, amount, now, receipt_bump } => {
            let receipts = receipts_for_deposit(s, slot);
            if !(0 <= slot < receipts.len()) {
                None
            } else if slot == s.receipts.len() && holds_receipt(s.receipts, depositor) {
                None
            } else if slot < s.receipts.len() && s.receipts[slot].depositor != depositor {
                None
            } else {
                match spec_deposit(
                    Deposit {
                        pool_key: s.pool_key,
                        pool: s.pool,
                        receipt: receipts[slot],
                        receipt_bump,
                        vault: s.vault,
                        depositor_token_account: wallet,
                        depositor,
                    },
                    amount,
                    now,
                ) {
                    Err(_) => None,
                    Ok((next, effects)) => match settle(s.vault, wallet, effects.transfer) {
                        None => None,
                        Some(vault) => Some(
                            PoolSystem {
                                pool: next.pool,
                                vault,
                                receipts: receipts.update(slot, next.receipt),
                                ..s
                            },
                        ),
                    },
                }
            }
        },
        Operation::Withdraw { slot, depositor, wallet, shares_to_burn } => {
            if !(0 <= slot < s.receipts.len()) {
                None
            } else {
                match spec_withdraw(
                    Withdraw {
                        pool_key: s.pool_key,
                        pool: s.pool,
                        receipt: s.receipts[slot],
                        vault: s.vault,
                        depositor_token_account: wallet,
                        depositor,
                    },
                    shares_to_burn,
                ) {
                    Err(_) => None,
                    Ok((next, effects)) => match settle(s.vault, wallet, effects.transfer) {
                        None => None,
                        Some(vault) => Some(
                            PoolSystem {
                                pool: next.pool,
                                vault,
                                receipts: s.receipts.update(slot, next.receipt),
                                ..s
                            },
                        ),
                    },
                }
            }
        },
        Operation::Borrow { borrower, wallet, amount, receipt_bump } => if owes(
            s.loans,
            borrower,
        ) {
            None
        } else {
            match spec_borrow_flash_loan(
                BorrowFlashLoan {
                    pool_key: s.pool_key,
                    pool: s.pool,
                    flash_loan_receipt: FlashLoanReceipt::spec_closed(),
                    flash_loan_receipt_bump: receipt_bump,
                    vault: s.vault,
                    borrower_token_account: wallet,
                    borrower,
                },
                amount,
            ) {
                Err(_) => None,
                Ok((next, effects)) => match settle(s.vault, wallet, effects.transfer) {
                    None => None,
                    Some(vault) => Some(
                        PoolSystem {
                            pool: next.pool,
                            vault,
                            loans: s.loans.push(next.flash_loan_receipt),
                            ..s
                        },
                    ),
                },
            }
        },
        Operation::Repay { slot, borrower, wallet } => {
            if !(0 <= slot < s.loans.len()) {
                None
            } else {
                match spec_repay_flash_loan(
                    RepayFlashLoan {
                        pool_key: s.pool_key,
                        pool: s.pool,
                        flash_loan_receipt: s.loans[slot],
                        vault: s.vault,
                        borrower_token_account: wallet,
                        borrower,
                    },
                ) {
                    Err(_) => None,
                    Ok((next, effects)) => match settle(s.vault, wallet, effects.transfer) {
                        None => None,
                        Some(vault) => Some(
                            PoolSystem {
                                pool: next.pool,
                                vault,
                                loans: s.loans.remove(slot),
                                ..s
                            },
                        ),
                    },
                }
            }
        },
        Operation::Configure { admin, new_fee_basis_points, is_active } => {
            match spec_update_pool_config(
                UpdatePoolConfig { pool: s.pool, admin },
                new_fee_basis_points,
                is_active,
            ) {
                Err(_) => None,
                Ok((next, _)) => Some(PoolSystem { pool: next.pool, ..s }),
            }
        },
    }
}

/// The sums add up: the receipts hold the outstanding shares between them,
/// and the vault holds the deposits but for the principal that is lent out.
pub open spec fn accounted(s: PoolSystem) -> bool {
    &&& shares_held(s.receipts) == s.pool.total_shares
    &&& s.vault.amount + principal_lent(s.loans) == s.pool.total_deposits
}

/// The store is keyed: every receipt and every obligation is of this pool,
/// no depositor has two receipts, no borrower two obligations, and every
/// obligation is for a positive principal.
pub open spec fn keyed(s: PoolSystem) -> bool {
    &&& forall|i: int| 0 <= i < s.receipts.len() ==> (#[trigger] s.receipts[i]).pool == s.pool_key
    &&& forall|i: int, j: int|
        0 <= i < j < s.receipts.len() ==> (#[trigger] s.receipts[i]).depositor
            != (#[trigger] s.receipts[j]).depositor
    &&& forall|i: int|
        0 <= i < s.loans.len() ==> (#[trigger] s.loans[i]).pool == s.pool_key && s.loans[i].amount
            > 0
    &&& forall|i: int, j: int|
        0 <= i < j < s.loans.len() ==> (#[trigger] s.loans[i]).borrower
            != (#[trigger] s.loans[j]).borrower
}

/// What holds of every state that the system reaches: the pool's record is
/// well formed, the vault is the pool's, the sums add up, and the store is
/// keyed.
pub open spec fn sound(s: PoolSystem) -> bool {
    &&& s.pool.well_formed()
    &&& s.vault.key == s.pool.vault
    &&& accounted(s)
    &&& keyed(s)
}

/// The system of a pool that has just been set up: no receipts, no
/// obligations, an empty vault.
pub open spec fn initial(pool_key: Pubkey, pool: LendingPool) -> PoolSystem {
    PoolSystem {
        pool_key,
        pool,
        vault: TokenAccount { key: pool.vault, mint: pool.token_mint, amount: 0 },
        receipts: Seq::empty(),
        loans: Seq::empty(),
    }
}

/// An obligation that the store adds owes its principal on top of the others.
pub proof fn lemma_principal_lent_push(loans: Seq<FlashLoanReceipt>, loan: FlashLoanReceipt)
    ensures
        principal_lent(loans.push(loan)) == principal_lent(loans) + loan.amount,
{
    assert(loans.push(loan).drop_last() =~= loans);
}

/// An obligation that the store removes no longer owes its principal, and
/// owed no more than all of them together.
pub proof fn lemma_principal_lent_remove(loans: Seq<FlashLoanReceipt>, i: int)
    requires
        0 <= i < loans.len(),
    ensures
        principal_lent(loans.remove(i)) == principal_lent(loans) - loans[i].amount,
        loans[i].amount <= principal_lent(loans),
    decreases loans.len(),
{
    if i == loans.len() - 1 {
        assert(loans.remove(i) =~= loans.drop_last());
    } else {
        assert(loans.remove(i).drop_last() =~= loans.drop_last().remove(i));
        assert(loans.remove(i).last() == loans.last());
        lemma_principal_lent_remove(loans.drop_last(), i);
    }
}

/// A pool that was set up starts sound.
pub proof fn lemma_initial_is_sound(pool_key: Pubkey, pool: LendingPool)
    requires
        pool.well_formed(),
        pool.total_deposits == 0,
        pool.total_shares == 0,
    ensures
        sound(initial(pool_key, pool)),
{
}

/// Every operation that the system carries out leaves it sound: shares and
/// deposits are zero together, the receipts hold the pool's shares, and the
/// vault with the principal lent out makes up the deposits. No operation
/// lowers the fees earned, nor the value of a share.
pub proof fn lemma_step_keeps_sound(s: PoolSystem, op: Operation)
    requires
        sound(s),
        step(s, op) is Some,
    ensures
        sound(step(s, op)->Some_0),
        step(s, op)->Some_0.pool_key == s.pool_key,
        step(s, op)->Some_0.pool.total_fees_earned >= s.pool.total_fees_earned,
        crate::laws::share_value_kept(s.pool, step(s, op)->Some_0.pool),
{
    let t = step(s, op)->Some_0;
    match op {
        Operation::Deposit { slot, depositor, wallet, amount, now, receipt_bump } => {
            let receipts = receipts_for_deposit(s, slot);
            let ctx = Deposit {
                pool_key: s.pool_key,
                pool: s.pool,
                receipt: receipts[slot],
                receipt_bump,
                vault: s.vault,
                depositor_token_account: wallet,
                depositor,
            };
            lemma_deposit_keeps_pool_sound(ctx, amount, now);
            lemma_shares_held_push(s.receipts, DepositReceipt::spec_empty());
            let next = spec_deposit(ctx, amount, now)->Ok_0.0;
            lemma_shares_held_update(receipts, slot, next.receipt);
            assert(next.receipt.depositor == depositor);
            assert(next.receipt.pool == s.pool_key);
            assert forall|i: int, j: int| 0 <= i < j < t.receipts.len() implies (
            #[trigger] t.receipts[i]).depositor != (#[trigger] t.receipts[j]).depositor by {
                if slot < s.receipts.len() {
                    assert(s.receipts[i].depositor != s.receipts[j].depositor);
                } else if j == slot {
                    assert(s.receipts[i].depositor != depositor);
                } else {
                    assert(s.receipts[i].depositor != s.receipts[j].depositor);
                }
            }
        },
        Operation::Withdraw { slot, depositor, wallet, shares_to_burn } => {
            let ctx = Withdraw {
                pool_key: s.pool_key,
                pool: s.pool,
                receipt: s.receipts[slot],
                vault: s.vault,
                depositor_token_account: wallet,
                depositor,
            };
            lemma_withdraw_keeps_pool_sound(ctx, shares_to_burn);
            let next = spec_withdraw(ctx, shares_to_burn)->Ok_0.0;
            lemma_shares_held_update(s.receipts, slot, next.receipt);
            assert forall|i: int, j: int| 0 <= i < j < t.receipts.len() implies (
            #[trigger] t.receipts[i]).depositor != (#[trigger] t.receipts[j]).depositor by {
                assert(s.receipts[i].depositor != s.receipts[j].depositor);
            }
        },
        Operation::Borrow { borrower, wallet, amount, receipt_bump } => {
            let ctx = BorrowFlashLoan {
                pool_key: s.pool_key,
                pool: s.pool,
                flash_loan_receipt: FlashLoanReceipt::spec_closed(),
                flash_loan_receipt_bump: receipt_bump,
                vault: s.vault,
                borrower_token_account: wallet,
                borrower,
            };
            lemma_borrow_leaves_pool_untouched(ctx, amount);
            let next = spec_borrow_flash_loan(ctx, amount)->Ok_0.0;
            lemma_principal_lent_push(s.loans, next.flash_loan_receipt);
            assert forall|i: int, j: int| 0 <= i < j < t.loans.len() implies (
            #[trigger] t.loans[i]).borrower != (#[trigger] t.loans[j]).borrower by {
                if j == s.loans.len() {
                    assert(s.loans[i].borrower != borrower);
                } else {
                    assert(s.loans[i].borrower != s.loans[j].borrower);
                }
            }
            assert(s.pool.total_deposits * s.pool.total_shares >= s.pool.total_deposits
                * s.pool.total_shares);
        },
        Operation::Repay { slot, borrower, wallet } => {
            let ctx = RepayFlashLoan {
                pool_key: s.pool_key,
                pool: s.pool,
                flash_loan_receipt: s.loans[slot],
                vault: s.vault,
                borrower_token_account: wallet,
                borrower,
            };
            lemma_repay_keeps_pool_sound(ctx);
            lemma_principal_lent_remove(s.loans, slot);
            assert(s.loans[slot].amount > 0);
            assert forall|i: int| 0 <= i < t.loans.len() implies (#[trigger] t.loans[i]).pool
                == s.pool_key && t.loans[i].amount > 0 by {
                let k = if i < slot {
                    i
                } else {
                    i + 1
                };
                assert(t.loans[i] == s.loans[k]);
            }
            assert forall|i: int, j: int| 0 <= i < j < t.loans.len() implies (
            #[trigger] t.loans[i]).borrower != (#[trigger] t.loans[j]).borrower by {
                let ki = if i < slot {
                    i
                } else {
                    i + 1
                };
                let kj = if j < slot {
                    j
                } else {
                    j + 1
                };
                assert(t.loans[i] == s.loans[ki]);
                assert(t.loans[j] == s.loans[kj]);
                assert(s.loans[ki].borrower != s.loans[kj].borrower);
            }
        },
        Operation::Configure { admin, new_fee_basis_points, is_active } => {
            lemma_update_keeps_pool_sound(
                UpdatePoolConfig { pool: s.pool, admin },
                new_fee_basis_points,
                is_active,
            );
            assert(s.pool.total_deposits * s.pool.total_shares >= s.pool.total_deposits
                * s.pool.total_shares);
        },
    }
}

/// The system after the operations `ops`, one after the other, or nothing
/// where one of them fails.
pub open spec fn run(s: PoolSystem, ops: Seq<Operation>) -> Option<PoolSystem>
    decreases ops.len(),
{
    if ops.len() == 0 {
        Some(s)
    } else {
        match run(s, ops.drop_last()) {
            None => None,
            Some(t) => step(t, ops.last()),
        }
    }
}

/// The borrows among `ops`, less the repayments.
pub open spec fn borrows_less_repayments(ops: Seq<Operation>) -> int
    decreases ops.len(),
{
    if ops.len() == 0 {
        0
    } else {
        borrows_less_repayments(ops.drop_last()) + match ops.last() {
            Operation::Borrow { .. } => 1int,
            Operation::Repay { .. } => -1int,
            _ => 0int,
        }
    }
}

/// The system after `ops` were run as one indivisible unit of work. The
/// surroundings keep what the unit did only where none of its operations
/// failed and no obligation is outstanding at its end; otherwise the system
/// is as it was before the unit began.
pub open spec fn unit(s: PoolSystem, ops: Seq<Operation>) -> PoolSystem {
    match run(s, ops) {
        Some(t) => if t.loans.len() == 0 {
            t
        } else {
            s
        },
        None => s,
    }
}

/// Operations that are carried out one after the other leave the system
/// sound, never lower the fees earned, and leave as many obligations
/// outstanding as there were, and borrows more than repayments.
pub proof fn lemma_run_keeps_sound(s: PoolSystem, ops: Seq<Operation>)
    requires
        sound(s),
        run(s, ops) is Some,
    ensures
        sound(run(s, ops)->Some_0),
        run(s, ops)->Some_0.pool_key == s.pool_key,
        run(s, ops)->Some_0.pool.total_fees_earned >= s.pool.total_fees_earned,
        run(s, ops)->Some_0.loans.len() == s.loans.len() + borrows_less_repayments(ops),
    decreases ops.len(),
{
    if ops.len() > 0 {
        let before = run(s, ops.drop_last())->Some_0;
        lemma_run_keeps_sound(s, ops.drop_last());
        lemma_step_keeps_sound(before, ops.last());
    }
}

/// Between units no credit is outstanding. A unit that begins in a sound
/// system without obligations ends in one: shares and deposits are zero
/// together, the receipts hold the pool's shares, and the vault holds
/// exactly the deposits. A unit in which an operation fails, or which
/// borrows more often than it repays, leaves the system as it was before
/// the unit began: the pool's record, the balance of the vault, the receipts.
pub proof fn lemma_unit_keeps_sound(s: PoolSystem, ops: Seq<Operation>)
    requires
        sound(s),
        s.loans.len() == 0,
    ensures
        sound(unit(s, ops)),
        unit(s, ops).loans.len() == 0,
        unit(s, ops).vault.amount == unit(s, ops).pool.total_deposits,
        unit(s, ops).pool.balanced(),
        shares_held(unit(s, ops).receipts) == unit(s, ops).pool.total_shares,
        unit(s, ops).pool.total_fees_earned >= s.pool.total_fees_earned,
        run(s, ops) is None ==> unit(s, ops) == s,
        borrows_less_repayments(ops) != 0 ==> unit(s, ops) == s,
{
    assert(principal_lent(s.loans) == 0);
    if run(s, ops) is Some {
        lemma_run_keeps_sound(s, ops);
        let t = run(s, ops)->Some_0;
        if t.loans.len() == 0 {
            assert(principal_lent(t.loans) == 0);
        }
    }
}

} // verus!
