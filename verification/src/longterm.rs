//! The long-term lease: one tenant at a time.
//!
//! A record goes from unlisted to listed, from listed to reserved when a
//! tenant applies, and from reserved to active when the tenant takes up the
//! lease. The owner can reject and the tenant can cancel a reservation, which
//! both clear it. Closing the lease clears the reservation, the ledger and the
//! flags, and keeps the listing.

use vstd::prelude::*;
use crate::error::ContractError;
use crate::escrow::EscrowLedger;
use crate::payment::{one_payment, Payment, PaymentView, payments_view};

verus! {

/// The terms on which the owner offers a lease.
#[derive(Clone, Debug, PartialEq, Eq)]
pub struct Landlord {
    /// Denomination of rent and deposit.
    pub denom: String,
    /// Rent for one month.
    pub price_per_month: u64,
    /// Deposit that is refunded at the end of the lease.
    pub refundable_deposit: u64,
    /// The advertised period. It is not read by any rule.
    pub available_period: Vec<String>,
}

/// What a [`Landlord`] holds.
pub struct LandlordView {
    pub denom: Seq<char>,
    pub price_per_month: u64,
    pub refundable_deposit: u64,
    pub available_period: Seq<Seq<char>>,
}

impl View for Landlord {
    type V = LandlordView;

    open spec fn view(&self) -> LandlordView {
        LandlordView {
            denom: self.denom@,
            price_per_month: self.price_per_month,
            refundable_deposit: self.refundable_deposit,
            available_period: self.available_period.deep_view(),
        }
    }
}

/// The terms that a tenant declares with a reservation. They are recorded as
/// given: no funds are held against them.
#[derive(Clone, Debug, PartialEq, Eq)]
pub struct Tenant {
    /// The deposit that the tenant declares.
    pub deposit_amount: u64,
    /// Its denomination.
    pub deposit_denom: String,
    /// The period asked for. It is not read by any rule.
    pub renting_period: Vec<String>,
}

/// What a [`Tenant`] holds.
pub struct TenantView {
    pub deposit_amount: u64,
    pub deposit_denom: Seq<char>,
    pub renting_period: Seq<Seq<char>>,
}

impl View for Tenant {
    type V = TenantView;

    open spec fn view(&self) -> TenantView {
        TenantView {
            deposit_amount: self.deposit_amount,
            deposit_denom: self.deposit_denom@,
            renting_period: self.renting_period.deep_view(),
        }
    }
}

/// Whether the lease's registration with the authority has been recorded.
/// Withdrawals ask that it was recorded, not what was recorded.
#[derive(Clone, Copy, Debug, PartialEq, Eq, Structural)]
pub enum ComplianceFlag {
    /// Nothing was recorded.
    Unset,
    /// The registration was recorded as confirmed (`true`) or not (`false`).
    Confirmed(bool),
}

/// The long-term side of a record.
#[derive(Clone, Debug, PartialEq, Eq)]
pub struct LongTermRental {
    /// `Some(true)` while the record is offered for a lease.
    pub listed: Option<bool>,
    /// The terms of the offer, present while it is listed.
    pub landlord: Option<Landlord>,
    /// `Some(true)` while a tenant holds a reservation.
    pub reserved: Option<bool>,
    /// The tenant who holds the reservation.
    pub tenant_address: Option<String>,
    /// The terms that the tenant declared.
    pub tenant: Option<Tenant>,
    /// Deposits of the tenant, and withdrawals by the owner.
    pub escrow: EscrowLedger,
    /// `Some(true)` once the tenant has taken up the lease.
    pub renting_active: Option<bool>,
    /// The compliance flag.
    pub compliance_flag: ComplianceFlag,
}

/// What a [`LongTermRental`] holds.
pub struct LongTermRentalView {
    pub listed: Option<bool>,
    pub landlord: Option<LandlordView>,
    pub reserved: Option<bool>,
    pub tenant_address: Option<Seq<char>>,
    pub tenant: Option<TenantView>,
    pub escrow: EscrowLedger,
    pub renting_active: Option<bool>,
    pub compliance_flag: ComplianceFlag,
}

impl View for LongTermRental {
    type V = LongTermRentalView;

    open spec fn view(&self) -> LongTermRentalView {
        LongTermRentalView {
            listed: self.listed,
            landlord: match self.landlord {
                Some(landlord) => Some(landlord@),
                None => None,
            },
            reserved: self.reserved,
            tenant_address: match self.tenant_address {
                Some(address) => Some(address@),
                None => None,
            },
            tenant: match self.tenant {
                Some(tenant) => Some(tenant@),
                None => None,
            },
            escrow: self.escrow,
            renting_active: self.renting_active,
            compliance_flag: self.compliance_flag,
        }
    }
}

/// What a long-term operation does: the new state and the payments to send, or
/// the failure.
pub type LongTermOutcome = Result<(LongTermRentalView, Seq<PaymentView>), ContractError>;

impl LongTermRentalView {
    /// The long-term side of a new record: not listed, not reserved, nothing
    /// deposited, no flag set.
    pub open spec fn empty() -> LongTermRentalView {
        LongTermRentalView {
            listed: None,
            landlord: None,
            reserved: None,
            tenant_address: None,
            tenant: None,
            escrow: EscrowLedger { deposit_total: 0, withdrawn_total: 0 },
            renting_active: None,
            compliance_flag: ComplianceFlag::Unset,
        }
    }

    /// The state's invariant: the terms of the offer are present exactly while
    /// the record is listed; the tenant and the tenant's terms are present
    /// exactly while a reservation is held; and no more has been withdrawn than
    /// was deposited.
    pub open spec fn wf(self) -> bool {
        &&& self.listed == Some(true) <==> self.landlord is Some
        &&& self.reserved == Some(true) <==> self.tenant_address is Some
        &&& self.reserved == Some(true) <==> self.tenant is Some
        &&& self.escrow.wf()
    }

    /// Whether `caller` holds the reservation.
    pub open spec fn is_tenant(self, caller: Seq<char>) -> bool {
        self.tenant_address == Some(caller)
    }

    /// The state once the record is offered on `terms`.
    pub open spec fn list(self, terms: LandlordView) -> LongTermRentalView {
        LongTermRentalView { listed: Some(true), landlord: Some(terms), ..self }
    }

    /// The state once the offer is withdrawn.
    pub open spec fn unlist(self) -> LongTermRentalView {
        LongTermRentalView { listed: None, landlord: None, ..self }
    }

    /// The state once `tenant_address` holds a reservation on `terms`.
    pub open spec fn reserve(self, tenant_address: Seq<char>, terms: TenantView) -> LongTermRentalView {
        LongTermRentalView {
            reserved: Some(true),
            tenant_address: Some(tenant_address),
            tenant: Some(terms),
            ..self
        }
    }

    /// The state once the reservation is cleared. The ledger and the flags
    /// stay as they are.
    pub open spec fn release(self) -> LongTermRentalView {
        LongTermRentalView { reserved: None, tenant_address: None, tenant: None, ..self }
    }

    /// What `caller` cancelling the reservation does: it is cleared where
    /// `caller` holds it, and the call fails with `NotReserved` where not.
    pub open spec fn cancel(self, caller: Seq<char>) -> LongTermOutcome {
        if self.is_tenant(caller) {
            Ok((self.release(), Seq::empty()))
        } else {
            Err(ContractError::NotReserved)
        }
    }

    /// The state once the tenant has taken up the lease.
    pub open spec fn activate(self) -> LongTermRentalView {
        LongTermRentalView { renting_active: Some(true), ..self }
    }

    /// What a deposit of `amount` by `caller` does.
    ///
    /// It fails with `NotReserved` where `caller` does not hold the
    /// reservation; else with `RentalNotActivated` where the lease was not
    /// taken up; else with `Overflow` where the ledger cannot hold the amount.
    /// Otherwise the amount is added to the deposits.
    pub open spec fn deposit(self, caller: Seq<char>, amount: u128) -> LongTermOutcome {
        if !self.is_tenant(caller) {
            Err(ContractError::NotReserved)
        } else if self.renting_active != Some(true) {
            Err(ContractError::RentalNotActivated)
        } else {
            match self.escrow.deposited(amount) {
                Err(error) => Err(error),
                Ok(escrow) => Ok((LongTermRentalView { escrow, ..self }, Seq::empty())),
            }
        }
    }

    /// What the owner's withdrawal of `amount` does.
    ///
    /// It fails with `EjariNotConfirmed` where the compliance flag is unset,
    /// whatever the ledger holds; else with `UnavailableAmount` where the
    /// ledger does not grant the amount. Otherwise the amount is added to the
    /// withdrawals and paid to `owner` in `denom`, the denomination that the
    /// owner names. A flag recorded as `false` opens withdrawals as one
    /// recorded as `true` does.
    pub open spec fn withdraw(self, owner: Seq<char>, amount: u128, denom: Seq<char>) -> LongTermOutcome {
        if self.compliance_flag is Unset {
            Err(ContractError::EjariNotConfirmed)
        } else {
            match self.escrow.withdrawn(amount) {
                Err(error) => Err(error),
                Ok(escrow) => Ok(
                    (
                        LongTermRentalView { escrow, ..self },
                        seq![PaymentView { to_address: owner, denom, amount }],
                    ),
                ),
            }
        }
    }

    /// The state once the compliance flag is recorded as `value`.
    pub open spec fn set_compliance(self, value: bool) -> LongTermRentalView {
        LongTermRentalView { compliance_flag: ComplianceFlag::Confirmed(value), ..self }
    }

    /// The state once the lease is closed: the reservation, the ledger and
    /// the flags are cleared, and the listing stays.
    pub open spec fn finalize(self) -> LongTermRentalView {
        LongTermRentalView {
            reserved: None,
            tenant_address: None,
            tenant: None,
            escrow: EscrowLedger { deposit_total: 0, withdrawn_total: 0 },
            renting_active: None,
            compliance_flag: ComplianceFlag::Unset,
            ..self
        }
    }
}

/// Whether `before`, `after` and `outcome` are what `expected` says: on success
/// the new state and the payments, on failure the error and the old state.
pub open spec fn long_term_settled(
    expected: LongTermOutcome,
    before: LongTermRentalView,
    after: LongTermRentalView,
    outcome: Result<Vec<Payment>, ContractError>,
) -> bool {
    match expected {
        Ok((state, payments)) => outcome is Ok && after == state && payments_view(outcome->Ok_0@)
            == payments,
        Err(error) => outcome is Err && outcome->Err_0 == error && after == before,
    }
}

impl LongTermRental {
    /// The long-term side of a new record.
    pub fn new() -> (state: LongTermRental)
        ensures
            state@ == LongTermRentalView::empty(),
            state@.wf(),
    {
        LongTermRental {
            listed: None,
            landlord: None,
            reserved: None,
            tenant_address: None,
            tenant: None,
            escrow: EscrowLedger::new(),
            renting_active: None,
            compliance_flag: ComplianceFlag::Unset,
        }
    }

    /// Whether the state's invariant holds.
    pub fn is_wf(&self) -> (valid: bool)
        ensures
            valid == self@.wf(),
    {
        let listed = match self.listed {
            Some(listed) => listed,
            None => false,
        };
        let reserved = match self.reserved {
            Some(reserved) => reserved,
            None => false,
        };
        listed == self.landlord.is_some() && reserved == self.tenant_address.is_some() && reserved
            == self.tenant.is_some() && self.escrow.withdrawn_total <= self.escrow.deposit_total
    }

    /// Whether `caller` holds the reservation.
    pub fn is_tenant(&self, caller: &String) -> (held: bool)
        ensures
            held == self@.is_tenant(caller@),
    {
        match &self.tenant_address {
            Some(address) => *address == *caller,
            None => false,
        }
    }

    /// Offers the record for a lease on `terms`.
    pub fn list(&mut self, terms: Landlord)
        ensures
            final(self)@ == old(self)@.list(terms@),
            old(self)@.wf() ==> final(self)@.wf(),
    {
        self.listed = Some(true);
        self.landlord = Some(terms);
    }

    /// Withdraws the offer.
    pub fn unlist(&mut self)
        ensures
            final(self)@ == old(self)@.unlist(),
            old(self)@.wf() ==> final(self)@.wf(),
    {
        self.listed = None;
        self.landlord = None;
    }

    /// Records a reservation of `tenant_address` on `terms`. The terms are
    /// taken as declared.
    pub fn reserve(&mut self, tenant_address: String, terms: Tenant)
        ensures
            final(self)@ == old(self)@.reserve(tenant_address@, terms@),
            old(self)@.wf() ==> final(self)@.wf(),
    {
        self.reserved = Some(true);
        self.tenant_address = Some(tenant_address);
        self.tenant = Some(terms);
    }

    /// Clears the reservation. Nothing is paid back: nothing was taken with it.
    pub fn release(&mut self)
        ensures
            final(self)@ == old(self)@.release(),
            old(self)@.wf() ==> final(self)@.wf(),
    {
        self.reserved = None;
        self.tenant_address = None;
        self.tenant = None;
    }

    /// Clears the reservation on behalf of `caller`, who must hold it.
    pub fn cancel(&mut self, caller: &String) -> (outcome: Result<Vec<Payment>, ContractError>)
        ensures
            long_term_settled(old(self)@.cancel(caller@), old(self)@, final(self)@, outcome),
            outcome is Err ==> *final(self) == *old(self),
            old(self)@.wf() ==> final(self)@.wf(),
    {
        if !self.is_tenant(caller) {
            return Err(ContractError::NotReserved);
        }
        self.release();
        Ok(crate::payment::no_payment())
    }

    /// Marks the lease as taken up.
    pub fn activate(&mut self)
        ensures
            final(self)@ == old(self)@.activate(),
            old(self)@.wf() ==> final(self)@.wf(),
    {
        self.renting_active = Some(true);
    }

    /// Takes a deposit of `amount` from `caller`, who must hold the
    /// reservation of a lease that was taken up.
    pub fn deposit(&mut self, caller: &String, amount: u128) -> (outcome: Result<Vec<Payment>, ContractError>)
        ensures
            long_term_settled(old(self)@.deposit(caller@, amount), old(self)@, final(self)@, outcome),
            outcome is Err ==> *final(self) == *old(self),
            old(self)@.wf() ==> final(self)@.wf(),
    {
        if !self.is_tenant(caller) {
            return Err(ContractError::NotReserved);
        }
        match self.renting_active {
            Some(true) => {},
            _ => {
                return Err(ContractError::RentalNotActivated);
            },
        }
        match self.escrow.record_deposit(amount) {
            Ok(()) => Ok(crate::payment::no_payment()),
            Err(error) => Err(error),
        }
    }

    /// Grants the owner a withdrawal of `amount` from the deposits and pays it
    /// to `owner` in `denom`, once the compliance flag is recorded.
    pub fn withdraw(&mut self, owner: &String, amount: u128, denom: String) -> (outcome: Result<
        Vec<Payment>,
        ContractError,
    >)
        ensures
            long_term_settled(old(self)@.withdraw(owner@, amount, denom@), old(self)@, final(self)@, outcome),
            outcome is Err ==> *final(self) == *old(self),
            old(self)@.wf() ==> final(self)@.wf(),
            old(self).compliance_flag is Unset ==> outcome == Err::<Vec<Payment>, ContractError>(
                ContractError::EjariNotConfirmed,
            ),
            old(self).compliance_flag is Confirmed ==> (outcome is Ok <==> old(self).escrow.withdrawn_total
                + amount <= old(self).escrow.deposit_total),
    {
        match self.compliance_flag {
            ComplianceFlag::Unset => {
                return Err(ContractError::EjariNotConfirmed);
            },
            ComplianceFlag::Confirmed(_) => {},
        }
        match self.escrow.authorize_withdrawal(amount, owner, denom) {
            Ok(payment) => Ok(one_payment(payment)),
            Err(error) => Err(error),
        }
    }

    /// Records the compliance flag as `value`.
    pub fn set_compliance(&mut self, value: bool)
        ensures
            final(self)@ == old(self)@.set_compliance(value),
            old(self)@.wf() ==> final(self)@.wf(),
    {
        self.compliance_flag = ComplianceFlag::Confirmed(value);
    }

    /// Closes the lease: clears the reservation, the ledger and the flags, and
    /// keeps the listing.
    pub fn finalize(&mut self)
        ensures
            final(self)@ == old(self)@.finalize(),
            old(self)@.wf() ==> final(self)@.wf(),
    {
        self.reserved = None;
        self.tenant = None;
        self.tenant_address = None;
        self.escrow = EscrowLedger::new();
        self.renting_active = None;
        self.compliance_flag = ComplianceFlag::Unset;
    }
}

/// While the compliance flag is unset a withdrawal fails with
/// `EjariNotConfirmed`, whatever the ledger holds and whatever amount is asked
/// for. Once it is recorded, as `true` or as `false`, a withdrawal succeeds
/// exactly where the ledger covers the amount.
pub proof fn lemma_withdrawal_asks_for_compliance_flag(
    state: LongTermRentalView,
    owner: Seq<char>,
    amount: u128,
    denom: Seq<char>,
    value: bool,
)
    ensures
        state.compliance_flag is Unset ==> state.withdraw(owner, amount, denom) == Err::<
            (LongTermRentalView, Seq<PaymentView>),
            ContractError,
        >(ContractError::EjariNotConfirmed),
        state.compliance_flag is Confirmed ==> (state.withdraw(owner, amount, denom) is Ok
            <==> state.escrow.withdrawn_total + amount <= state.escrow.deposit_total),
        state.set_compliance(value).withdraw(owner, amount, denom) is Ok <==> state.escrow.withdrawn_total
            + amount <= state.escrow.deposit_total,
{
}

} // verus!
