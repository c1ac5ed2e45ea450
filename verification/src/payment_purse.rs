//! A trial of the payment purse: what is paid in arrives, and cannot be
//! taken out again. Each function decides the next step from what the last
//! one brought.

use crate::uint::U512;
use vstd::prelude::*;

verus! {

/// How a transfer between two purses ended.
#[derive(Clone, Copy, Debug, PartialEq, Eq)]
pub enum PurseTransferResult {
    TransferSuccessful,
    TransferError,
}

/// What the trial does next.
#[derive(Clone, Copy, Debug, PartialEq, Eq)]
pub enum Step {
    /// Read the balance of the payment purse.
    ReadBalance,
    /// Try to transfer the amount back from the payment purse.
    Withdraw,
    /// Revert with this code.
    Revert(u32),
    /// Return: the purse behaved as it should.
    Finish,
}

/// The step after the deposit, by how the deposit ended.
pub open spec fn step_after_deposit(deposit: PurseTransferResult) -> Step {
    match deposit {
        PurseTransferResult::TransferError => Step::Revert(1),
        PurseTransferResult::TransferSuccessful => Step::ReadBalance,
    }
}

/// The step after the balance was asked for: `balance` is the number read,
/// if the purse had a balance.
pub open spec fn step_after_balance(balance: Option<nat>, payment_amount: nat) -> Step {
    match balance {
        None => Step::Revert(2),
        Some(amount) => if amount != payment_amount {
            Step::Revert(3)
        } else {
            Step::Withdraw
        },
    }
}

/// The step after the attempt to withdraw, by how the attempt ended.
pub open spec fn step_after_withdrawal(withdrawal: PurseTransferResult) -> Step {
    match withdrawal {
        PurseTransferResult::TransferSuccessful => Step::Revert(4),
        PurseTransferResult::TransferError => Step::Finish,
    }
}

/// The number that a balance stands for.
pub open spec fn balance_value(balance: Option<U512>) -> Option<nat> {
    match balance {
        None => None,
        Some(amount) => Some(amount.value()),
    }
}

/// The amount to pay, from the argument that carries it.
pub fn payment_amount(arg: u32) -> (amount: U512)
    ensures
        amount.value() == arg,
{
    U512::from_u32(arg)
}

/// Decides the step after the deposit into the payment purse: a failed
/// deposit reverts with 1, a successful one is followed by reading the
/// balance.
pub fn after_deposit(deposit: PurseTransferResult) -> (step: Step)
    ensures
        step == step_after_deposit(deposit),
{
    match deposit {
        PurseTransferResult::TransferError => Step::Revert(1),
        PurseTransferResult::TransferSuccessful => Step::ReadBalance,
    }
}

/// Decides the step after the balance of the payment purse was asked for:
/// no balance reverts with 2, a balance other than the amount paid with 3,
/// and the amount itself is followed by the attempt to withdraw.
pub fn after_balance(balance: Option<U512>, payment_amount: &U512) -> (step: Step)
    ensures
        step == step_after_balance(balance_value(balance), payment_amount.value()),
{
    match balance {
        None => Step::Revert(2),
        Some(payment_balance) => {
            if !payment_balance.equals(payment_amount) {
                Step::Revert(3)
            } else {
                Step::Withdraw
            }
        },
    }
}

/// Decides the step after the attempt to withdraw from the payment purse:
/// a successful withdrawal reverts with 4, a refused one ends the trial.
pub fn after_withdrawal(withdrawal: PurseTransferResult) -> (step: Step)
    ensures
        step == step_after_withdrawal(withdrawal),
{
    match withdrawal {
        PurseTransferResult::TransferSuccessful => Step::Revert(4),
        PurseTransferResult::TransferError => Step::Finish,
    }
}

/// The trial ends well in one way only: the deposit succeeded, the balance
/// read is the amount paid, and the withdrawal was refused.
pub proof fn lemma_finishes_only_when_all_hold(
    deposit: PurseTransferResult,
    balance: Option<nat>,
    payment_amount: nat,
    withdrawal: PurseTransferResult,
)
    ensures
        (step_after_deposit(deposit) == Step::ReadBalance && step_after_balance(
            balance,
            payment_amount,
        ) == Step::Withdraw && step_after_withdrawal(withdrawal) == Step::Finish) <==> (deposit
            == PurseTransferResult::TransferSuccessful && balance == Some(payment_amount)
            && withdrawal == PurseTransferResult::TransferError),
{
}

} // verus!
