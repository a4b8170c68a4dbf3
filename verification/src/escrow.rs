//! The ledger of escrowed funds of one rental model.

use vstd::prelude::*;
use crate::error::ContractError;
use crate::payment::{Payment, PaymentView};

verus! {

/// Running totals of what was deposited under one rental model of a record and
/// of what the owner has withdrawn from it.
///
/// `deposit_total` counts every deposit ever taken. It does not go down when a
/// deposit is refunded or forwarded: only clearing the ledger resets it.
#[derive(Clone, Copy, Debug, PartialEq, Eq, Structural)]
pub struct EscrowLedger {
    /// Sum of all deposits taken.
    pub deposit_total: u128,
    /// Sum of all withdrawals granted.
    pub withdrawn_total: u128,
}

/// One call on a ledger.
pub enum LedgerCall {
    /// A deposit of the given amount.
    Deposit(u128),
    /// A request to withdraw the given amount.
    Withdraw(u128),
}

impl EscrowLedger {
    /// The ledger's invariant: no more has been withdrawn than was deposited.
    pub open spec fn wf(self) -> bool {
        self.withdrawn_total <= self.deposit_total
    }

    /// The ledger after a deposit of `amount`, or `Overflow` where the total
    /// could not be held.
    pub open spec fn deposited(self, amount: u128) -> Result<EscrowLedger, ContractError> {
        if self.deposit_total + amount <= u128::MAX {
            Ok(EscrowLedger { deposit_total: (self.deposit_total + amount) as u128, ..self })
        } else {
            Err(ContractError::Overflow)
        }
    }

    /// The ledger after a withdrawal of `amount`, or `UnavailableAmount` where
    /// that would take out more than was deposited.
    pub open spec fn withdrawn(self, amount: u128) -> Result<EscrowLedger, ContractError> {
        if self.withdrawn_total + amount <= self.deposit_total {
            Ok(EscrowLedger { withdrawn_total: (self.withdrawn_total + amount) as u128, ..self })
        } else {
            Err(ContractError::UnavailableAmount)
        }
    }

    /// The ledger after `call`: a refused call leaves it as it was.
    pub open spec fn after(self, call: LedgerCall) -> EscrowLedger {
        let outcome = match call {
            LedgerCall::Deposit(amount) => self.deposited(amount),
            LedgerCall::Withdraw(amount) => self.withdrawn(amount),
        };
        match outcome {
            Ok(ledger) => ledger,
            Err(_) => self,
        }
    }

    /// The ledger after the calls of `calls`, in order.
    pub open spec fn after_all(self, calls: Seq<LedgerCall>) -> EscrowLedger
        decreases calls.len(),
    {
        if calls.len() == 0 {
            self
        } else {
            self.after_all(calls.drop_last()).after(calls.last())
        }
    }

    /// A ledger on which nothing was deposited.
    pub fn new() -> (ledger: EscrowLedger)
        ensures
            ledger == (EscrowLedger { deposit_total: 0, withdrawn_total: 0 }),
            ledger.wf(),
    {
        EscrowLedger { deposit_total: 0, withdrawn_total: 0 }
    }

    /// Adds `amount` to the deposits. Fails with `Overflow`, changing nothing,
    /// where the total could not be held.
    pub fn record_deposit(&mut self, amount: u128) -> (outcome: Result<(), ContractError>)
        ensures
            match old(self).deposited(amount) {
                Ok(ledger) => outcome == Ok::<(), ContractError>(()) && *final(self) == ledger,
                Err(error) => outcome == Err::<(), ContractError>(error) && *final(self) == *old(self),
            },
            old(self).wf() ==> final(self).wf(),
    {
        match self.deposit_total.checked_add(amount) {
            Some(total) => {
                self.deposit_total = total;
                Ok(())
            },
            None => Err(ContractError::Overflow),
        }
    }

    /// Grants a withdrawal of `amount`: adds it to the withdrawals and gives the
    /// instruction to pay it to `owner` in `denom`. Fails with
    /// `UnavailableAmount`, changing nothing, where the withdrawals would
    /// exceed the deposits.
    pub fn authorize_withdrawal(&mut self, amount: u128, owner: &String, denom: String) -> (outcome: Result<
        Payment,
        ContractError,
    >)
        ensures
            match old(self).withdrawn(amount) {
                Ok(ledger) => outcome is Ok && outcome->Ok_0@ == (PaymentView {
                    to_address: owner@,
                    denom: denom@,
                    amount,
                }) && *final(self) == ledger,
                Err(error) => outcome is Err && outcome->Err_0 == error && *final(self) == *old(self),
            },
            old(self).wf() ==> final(self).wf(),
    {
        let total = match self.withdrawn_total.checked_add(amount) {
            Some(total) => total,
            None => {
                return Err(ContractError::UnavailableAmount);
            },
        };
        if total > self.deposit_total {
            return Err(ContractError::UnavailableAmount);
        }
        self.withdrawn_total = total;
        Ok(Payment { to_address: owner.clone(), denom, amount })
    }
}

/// A call keeps the ledger's invariant, and lowers neither total.
pub proof fn lemma_call_keeps_ledger(ledger: EscrowLedger, call: LedgerCall)
    requires
        ledger.wf(),
    ensures
        ledger.after(call).wf(),
        ledger.after(call).deposit_total >= ledger.deposit_total,
        ledger.after(call).withdrawn_total >= ledger.withdrawn_total,
{
}

/// Whatever deposits and withdrawals are called on a ledger, in whatever order,
/// the withdrawals never exceed the deposits.
pub proof fn lemma_withdrawals_never_exceed_deposits(ledger: EscrowLedger, calls: Seq<LedgerCall>)
    requires
        ledger.wf(),
    ensures
        ledger.after_all(calls).wf(),
        ledger.after_all(calls).withdrawn_total <= ledger.after_all(calls).deposit_total,
    decreases calls.len(),
{
    if calls.len() > 0 {
        lemma_withdrawals_never_exceed_deposits(ledger, calls.drop_last());
        lemma_call_keeps_ledger(ledger.after_all(calls.drop_last()), calls.last());
    }
}

} // verus!
