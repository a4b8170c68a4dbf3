//! The operations that callers invoke on a record.

use vstd::prelude::*;
use crate::date::{parse_period, period_of};
use crate::error::ContractError;
use crate::expiration::{expiration_or_never, Expiration};
use crate::longterm::{Landlord, LandlordView, Tenant, TenantView};
use crate::msg::ExecuteMsg;
use crate::payment::{no_payment, Coin, Payment};
use crate::rules::{lemma_new_approval_stays_unique, lemma_others_stay_unique};
use crate::token::{approvals_view, option_string_view, settled, Approval, ApprovalView, Caller, TokenInfo, TokenInfoView};

verus! {

/// The rental contract. It holds no state of its own: every operation is handed
/// the record it works on and changes it in place, or fails and leaves it as
/// it was.
#[derive(Clone, Copy, Debug, Default, PartialEq, Eq)]
pub struct Cw721Contract {}

impl Cw721Contract {
    /// Succeeds where `caller` may act as the owner of `token`, and fails with
    /// `NotOwner` where not.
    pub fn check_can_approve<T>(&self, caller: &Caller, token: &TokenInfo<T>) -> (outcome: Result<
        (),
        ContractError,
    >)
        ensures
            outcome is Ok <==> token@.can_approve(caller@),
            outcome is Err ==> outcome->Err_0 == ContractError::NotOwner,
    {
        if token.can_approve(caller) {
            Ok(())
        } else {
            Err(ContractError::NotOwner)
        }
    }

    /// Succeeds where `caller` may dispose of `token`, and fails with `NotOwner`
    /// where not.
    pub fn check_can_send<T>(&self, caller: &Caller, token: &TokenInfo<T>) -> (outcome: Result<
        (),
        ContractError,
    >)
        ensures
            outcome is Ok <==> token@.can_send(caller@),
            outcome is Err ==> outcome->Err_0 == ContractError::NotOwner,
    {
        if token.can_send(caller) {
            Ok(())
        } else {
            Err(ContractError::NotOwner)
        }
    }

    /// Makes the record of a new token, owned by the caller. `existing` is
    /// what the registry holds under the token's identifier: where it holds a
    /// record the call fails with `Claimed`.
    pub fn mint<T>(
        &self,
        existing: Option<TokenInfo<T>>,
        caller: &Caller,
        token_uri: Option<String>,
        extension: T,
    ) -> (outcome: Result<TokenInfo<T>, ContractError>)
        ensures
            match outcome {
                Ok(token) => existing is None && token@ == TokenInfoView::fresh(
                    caller.sender@,
                    option_string_view(token_uri),
                    extension,
                ) && token@.wf(),
                Err(error) => existing is Some && error == ContractError::Claimed,
            },
    {
        match existing {
            Some(_) => Err(ContractError::Claimed),
            None => Ok(TokenInfo::new(caller.sender.clone(), token_uri, extension)),
        }
    }

    /// Decides a blanket grant: it lapses at `expires`, or never where none is
    /// given. A grant that would have lapsed already is refused with `Expired`.
    pub fn approve_all(&self, caller: &Caller, expires: Option<Expiration>) -> (outcome: Result<
        Expiration,
        ContractError,
    >)
        ensures
            match outcome {
                Ok(granted) => granted == expiration_or_never(expires) && !granted.expired_at(caller.block),
                Err(error) => error == ContractError::Expired && expiration_or_never(expires).expired_at(
                    caller.block,
                ),
            },
    {
        let expires = match expires {
            Some(expires) => expires,
            None => Expiration::default(),
        };
        if expires.is_expired(&caller.block) {
            Err(ContractError::Expired)
        } else {
            Ok(expires)
        }
    }

    /// Hands the record to `recipient` and drops all approvals.
    pub fn _transfer_nft<T>(&self, token: &mut TokenInfo<T>, caller: &Caller, recipient: String) -> (outcome:
        Result<Vec<Payment>, ContractError>)
        ensures
            settled(old(token)@.transfer(caller@, recipient@), *old(token), *final(token), outcome),
            old(token)@.wf() ==> final(token)@.wf(),
    {
        if !token.can_send(caller) {
            return Err(ContractError::NotOwner);
        }
        token.owner = recipient;
        token.approvals = Vec::new();
        assert(token@.approvals =~= Seq::empty());
        Ok(no_payment())
    }

    /// Decides whether the record may be removed. The record is not changed.
    pub fn burn<T>(&self, token: &TokenInfo<T>, caller: &Caller) -> (outcome: Result<Vec<Payment>, ContractError>)
        ensures
            settled(token@.burn(caller@), *token, *token, outcome),
    {
        if !token.can_send(caller) {
            return Err(ContractError::NotOwner);
        }
        Ok(no_payment())
    }

    /// Drops any approval for `spender` and, where `add` is set, enters a new
    /// one that lapses at `expires`.
    pub fn _update_approvals<T>(
        &self,
        token: &mut TokenInfo<T>,
        caller: &Caller,
        spender: String,
        add: bool,
        expires: Option<Expiration>,
    ) -> (outcome: Result<Vec<Payment>, ContractError>)
        ensures
            settled(
                old(token)@.update_approvals(caller@, spender@, add, expires),
                *old(token),
                *final(token),
                outcome,
            ),
            old(token)@.wf() ==> final(token)@.wf(),
    {
        if !token.can_approve(caller) {
            return Err(ContractError::NotOwner);
        }
        let expires = match expires {
            Some(expires) => expires,
            None => Expiration::default(),
        };
        if add && expires.is_expired(&caller.block) {
            return Err(ContractError::Expired);
        }
        let ghost before = token@.approvals;
        let ghost others = |approval: ApprovalView| approval.spender != spender@;
        let mut kept: Vec<Approval> = Vec::new();
        let mut i: usize = 0;
        assert(before.take(0) =~= Seq::empty());
        assert(approvals_view(kept@) =~= Seq::empty());
        proof {
            reveal(Seq::filter);
        }
        while i < token.approvals.len()
            invariant
                i <= token.approvals.len(),
                before == token@.approvals,
                others == |approval: ApprovalView| approval.spender != spender@,
                approvals_view(kept@) == before.take(i as int).filter(others),
            decreases token.approvals.len() - i,
        {
            proof {
                assert(before.take(i + 1) =~= before.take(i as int).push(before[i as int]));
                before.take(i as int).lemma_filter_push(before[i as int], others);
                assert(before[i as int] == token.approvals[i as int]@);
            }
            if token.approvals[i].spender != spender {
                let approval = Approval {
                    spender: token.approvals[i].spender.clone(),
                    expires: token.approvals[i].expires,
                };
                assert(approvals_view(kept@.push(approval)) =~= approvals_view(kept@).push(approval@));
                kept.push(approval);
            }
            i += 1;
        }
        proof {
            assert(before.take(i as int) =~= before);
            lemma_others_stay_unique(before, spender@);
            if crate::token::spenders_unique(before) {
                lemma_new_approval_stays_unique(before, spender@, expires);
            }
        }
        if add {
            let approval = Approval { spender, expires };
            assert(approvals_view(kept@.push(approval)) =~= approvals_view(kept@).push(approval@));
            kept.push(approval);
        }
        token.approvals = kept;
        Ok(no_payment())
    }

    /// Carries out the command `msg` of `caller` on `token`.
    pub fn execute<T>(&self, token: &mut TokenInfo<T>, caller: &Caller, msg: ExecuteMsg) -> (outcome: Result<
        Vec<Payment>,
        ContractError,
    >)
        requires
            old(token)@.shortterm_rental.wf(),
        ensures
            settled(old(token)@.execute(caller@, msg@), *old(token), *final(token), outcome),
            final(token)@.shortterm_rental.wf(),
            old(token)@.wf() ==> final(token)@.wf(),
    {
        match msg {
            ExecuteMsg::SetMetadata { token_uri } => self.setmetadata(token, caller, token_uri),
            ExecuteMsg::SetListForLongTermRental {
                islisted,
                denom,
                price_per_month,
                refundable_deposit,
                available_period,
            } => self.setlistforlongtermrental(
                token,
                caller,
                islisted,
                denom,
                price_per_month,
                refundable_deposit,
                available_period,
            ),
            ExecuteMsg::SetListForShortTermRental {
                denom,
                price_per_day,
                auto_approve,
                available_period,
            } => self.setlistforshorttermrental(token, caller, denom, price_per_day, auto_approve, available_period),
            ExecuteMsg::SetUnlistForLongtermRental => self.setunlistforlongtermrental(token, caller),
            ExecuteMsg::SetUnlistForShorttermRental => self.setunlistforshorttermrental(token, caller),
            ExecuteMsg::SetReservationForLongTerm {
                isreserved,
                deposit_amount,
                deposit_denom,
                renting_period,
            } => self.setreservationforlongterm(
                token,
                caller,
                isreserved,
                deposit_amount,
                deposit_denom,
                renting_period,
            ),
            ExecuteMsg::SetReservationForShortTerm { renting_period, funds } => self.setreservationforshortterm(
                token,
                caller,
                renting_period,
                &funds,
            ),
            ExecuteMsg::SetApproveForShortTerm { traveler, renting_period } => self.setapproveforshortterm(
                token,
                caller,
                renting_period,
                traveler,
            ),
            ExecuteMsg::RejectReservationForLongterm => self.rejectreservationforlongterm(token, caller),
            ExecuteMsg::RejectReservationForShortterm {
                traveler,
                renting_period,
            } => self.rejectreservationforshortterm(token, caller, traveler, renting_period),
            ExecuteMsg::CancelReservationForLongterm => self.cancelreservationforlongterm(token, caller),
            ExecuteMsg::CancelReservationForShortterm { renting_period } => self.cancelreservationforshortterm(
                token,
                caller,
                renting_period,
            ),
            ExecuteMsg::FinalizeShortTermRental { traveler, renting_period } => self.finalizeshorttermrental(
                token,
                caller,
                traveler,
                renting_period,
            ),
            ExecuteMsg::ProceedLongtermRental => self.proceedlongtermrental(token, caller),
            ExecuteMsg::SetEjariForLongTermRental { ejari } => self.setejariforlongtermrental(token, caller, ejari),
            ExecuteMsg::DepositForLongTermRental { amount } => self.depositforlongtermrental(token, caller, amount),
            ExecuteMsg::WithdrawToLandlord { amount, denom } => self.withdrawtolandlord(token, caller, amount, denom),
            ExecuteMsg::WithdrawToHost { amount, denom } => self.withdrawtohost(token, caller, amount, denom),
            ExecuteMsg::FinalizeLongTermRental => self.finalizelongtermrental(token, caller),
            ExecuteMsg::Approve { spender, expires } => self._update_approvals(token, caller, spender, true, expires),
            ExecuteMsg::Revoke { spender } => self._update_approvals(token, caller, spender, false, None),
            ExecuteMsg::TransferNft { recipient } => self._transfer_nft(token, caller, recipient),
            ExecuteMsg::Burn => self.burn(token, caller),
        }
    }

    /// Sets where the property's metadata is found.
    pub fn setmetadata<T>(&self, token: &mut TokenInfo<T>, caller: &Caller, token_uri: String) -> (outcome:
        Result<Vec<Payment>, ContractError>)
        ensures
            settled(old(token)@.set_metadata(caller@, token_uri@), *old(token), *final(token), outcome),
            old(token)@.wf() ==> final(token)@.wf(),
    {
        if !token.can_approve(caller) {
            return Err(ContractError::NotOwner);
        }
        token.token_uri = Some(token_uri);
        Ok(no_payment())
    }

    /// Offers the record for a lease. The record is listed whatever
    /// `_islisted` holds.
    pub fn setlistforlongtermrental<T>(
        &self,
        token: &mut TokenInfo<T>,
        caller: &Caller,
        _islisted: bool,
        denom: String,
        price_per_month: u64,
        refundable_deposit: u64,
        available_period: Vec<String>,
    ) -> (outcome: Result<Vec<Payment>, ContractError>)
        ensures
            settled(
                old(token)@.list_long_term(
                    caller@,
                    LandlordView {
                        denom: denom@,
                        price_per_month,
                        refundable_deposit,
                        available_period: available_period.deep_view(),
                    },
                ),
                *old(token),
                *final(token),
                outcome,
            ),
            old(token)@.wf() ==> final(token)@.wf(),
    {
        if !token.can_approve(caller) {
            return Err(ContractError::NotOwner);
        }
        token.longterm_rental.list(Landlord { denom, price_per_month, refundable_deposit, available_period });
        Ok(no_payment())
    }

    /// Offers the record for short stays.
    pub fn setlistforshorttermrental<T>(
        &self,
        token: &mut TokenInfo<T>,
        caller: &Caller,
        denom: String,
        price_per_day: u64,
        auto_approve: bool,
        available_period: Vec<String>,
    ) -> (outcome: Result<Vec<Payment>, ContractError>)
        ensures
            settled(
                old(token)@.list_short_term(
                    caller@,
                    denom@,
                    price_per_day,
                    auto_approve,
                    available_period.deep_view(),
                ),
                *old(token),
                *final(token),
                outcome,
            ),
            old(token)@.wf() ==> final(token)@.wf(),
    {
        if !token.can_approve(caller) {
            return Err(ContractError::NotOwner);
        }
        token.shortterm_rental.list(denom, price_per_day, auto_approve, available_period);
        Ok(no_payment())
    }

    /// Withdraws the offer of a lease.
    pub fn setunlistforlongtermrental<T>(&self, token: &mut TokenInfo<T>, caller: &Caller) -> (outcome: Result<
        Vec<Payment>,
        ContractError,
    >)
        ensures
            settled(old(token)@.unlist_long_term(caller@), *old(token), *final(token), outcome),
            old(token)@.wf() ==> final(token)@.wf(),
    {
        if !token.can_approve(caller) {
            return Err(ContractError::NotOwner);
        }
        token.longterm_rental.unlist();
        Ok(no_payment())
    }

    /// Withdraws the offer of short stays. Bookings already made stay.
    pub fn setunlistforshorttermrental<T>(&self, token: &mut TokenInfo<T>, caller: &Caller) -> (outcome: Result<
        Vec<Payment>,
        ContractError,
    >)
        ensures
            settled(old(token)@.unlist_short_term(caller@), *old(token), *final(token), outcome),
            old(token)@.wf() ==> final(token)@.wf(),
    {
        if !token.can_approve(caller) {
            return Err(ContractError::NotOwner);
        }
        token.shortterm_rental.unlist();
        Ok(no_payment())
    }

    /// Reserves the lease for the caller on the terms the caller declares. The
    /// reservation is recorded whatever `_isreserved` holds.
    pub fn setreservationforlongterm<T>(
        &self,
        token: &mut TokenInfo<T>,
        caller: &Caller,
        _isreserved: bool,
        deposit_amount: u64,
        deposit_denom: String,
        renting_period: Vec<String>,
    ) -> (outcome: Result<Vec<Payment>, ContractError>)
        ensures
            settled(
                old(token)@.reserve_long_term(
                    caller@,
                    TenantView {
                        deposit_amount,
                        deposit_denom: deposit_denom@,
                        renting_period: renting_period.deep_view(),
                    },
                ),
                *old(token),
                *final(token),
                outcome,
            ),
            outcome is Ok,
            old(token)@.wf() ==> final(token)@.wf(),
    {
        token.longterm_rental.reserve(
            caller.sender.clone(),
            Tenant { deposit_amount, deposit_denom, renting_period },
        );
        Ok(no_payment())
    }

    /// Books a short stay for the caller, paid with `funds`.
    pub fn setreservationforshortterm<T>(
        &self,
        token: &mut TokenInfo<T>,
        caller: &Caller,
        renting_period: Vec<String>,
        funds: &Coin,
    ) -> (outcome: Result<Vec<Payment>, ContractError>)
        requires
            old(token)@.shortterm_rental.wf(),
        ensures
            settled(
                old(token)@.reserve_short_term(
                    caller@,
                    renting_period.deep_view(),
                    period_of(renting_period.deep_view()),
                    funds@,
                ),
                *old(token),
                *final(token),
                outcome,
            ),
            final(token)@.shortterm_rental.wf(),
            old(token)@.wf() ==> final(token)@.wf(),
    {
        let period = parse_period(&renting_period);
        token.shortterm_rental.reserve(&token.owner, &caller.sender, renting_period, period, funds)
    }

    /// Approves the booking of `traveler` for `renting_period` and pays its
    /// deposit to the owner.
    pub fn setapproveforshortterm<T>(
        &self,
        token: &mut TokenInfo<T>,
        caller: &Caller,
        renting_period: Vec<String>,
        traveler: String,
    ) -> (outcome: Result<Vec<Payment>, ContractError>)
        requires
            old(token)@.shortterm_rental.wf(),
        ensures
            settled(
                old(token)@.approve_short_term(caller@, traveler@, period_of(renting_period.deep_view())),
                *old(token),
                *final(token),
                outcome,
            ),
            final(token)@.shortterm_rental.wf(),
            old(token)@.wf() ==> final(token)@.wf(),
    {
        if !token.can_approve(caller) {
            return Err(ContractError::NotOwner);
        }
        let period = parse_period(&renting_period);
        token.shortterm_rental.approve(&token.owner, &traveler, period)
    }

    /// Rejects the booking of `traveler` for `renting_period`. Nothing is paid back.
    pub fn rejectreservationforshortterm<T>(
        &self,
        token: &mut TokenInfo<T>,
        caller: &Caller,
        traveler: String,
        renting_period: Vec<String>,
    ) -> (outcome: Result<Vec<Payment>, ContractError>)
        requires
            old(token)@.shortterm_rental.wf(),
        ensures
            settled(
                old(token)@.reject_short_term(caller@, traveler@, period_of(renting_period.deep_view())),
                *old(token),
                *final(token),
                outcome,
            ),
            final(token)@.shortterm_rental.wf(),
            old(token)@.wf() ==> final(token)@.wf(),
    {
        if !token.can_approve(caller) {
            return Err(ContractError::NotOwner);
        }
        let period = parse_period(&renting_period);
        token.shortterm_rental.reject(&traveler, period)
    }

    /// Cancels the caller's own booking for `renting_period` and pays its
    /// deposit back.
    pub fn cancelreservationforshortterm<T>(
        &self,
        token: &mut TokenInfo<T>,
        caller: &Caller,
        renting_period: Vec<String>,
    ) -> (outcome: Result<Vec<Payment>, ContractError>)
        requires
            old(token)@.shortterm_rental.wf(),
        ensures
            settled(
                old(token)@.cancel_short_term(caller@, period_of(renting_period.deep_view())),
                *old(token),
                *final(token),
                outcome,
            ),
            final(token)@.shortterm_rental.wf(),
            old(token)@.wf() ==> final(token)@.wf(),
    {
        let period = parse_period(&renting_period);
        token.shortterm_rental.cancel(&caller.sender, period)
    }

    /// Closes the booking of `traveler` for `renting_period` at the end of the stay.
    pub fn finalizeshorttermrental<T>(
        &self,
        token: &mut TokenInfo<T>,
        caller: &Caller,
        traveler: String,
        renting_period: Vec<String>,
    ) -> (outcome: Result<Vec<Payment>, ContractError>)
        requires
            old(token)@.shortterm_rental.wf(),
        ensures
            settled(
                old(token)@.finalize_short_term(caller@, traveler@, period_of(renting_period.deep_view())),
                *old(token),
                *final(token),
                outcome,
            ),
            final(token)@.shortterm_rental.wf(),
            old(token)@.wf() ==> final(token)@.wf(),
    {
        if !token.can_send(caller) {
            return Err(ContractError::NotOwner);
        }
        let period = parse_period(&renting_period);
        token.shortterm_rental.finalize(&traveler, period)
    }

    /// Rejects the reservation of the lease. Nothing is paid back.
    pub fn rejectreservationforlongterm<T>(&self, token: &mut TokenInfo<T>, caller: &Caller) -> (outcome: Result<
        Vec<Payment>,
        ContractError,
    >)
        ensures
            settled(old(token)@.reject_long_term(caller@), *old(token), *final(token), outcome),
            old(token)@.wf() ==> final(token)@.wf(),
    {
        if !token.can_approve(caller) {
            return Err(ContractError::NotOwner);
        }
        token.longterm_rental.release();
        Ok(no_payment())
    }

    /// Cancels the caller's own reservation of the lease.
    pub fn cancelreservationforlongterm<T>(&self, token: &mut TokenInfo<T>, caller: &Caller) -> (outcome: Result<
        Vec<Payment>,
        ContractError,
    >)
        ensures
            settled(old(token)@.cancel_long_term(caller@), *old(token), *final(token), outcome),
            old(token)@.wf() ==> final(token)@.wf(),
    {
        token.longterm_rental.cancel(&caller.sender)
    }

    /// Records the compliance flag as `ejari`.
    pub fn setejariforlongtermrental<T>(&self, token: &mut TokenInfo<T>, caller: &Caller, ejari: bool) -> (outcome:
        Result<Vec<Payment>, ContractError>)
        ensures
            settled(old(token)@.set_compliance(caller@, ejari), *old(token), *final(token), outcome),
            old(token)@.wf() ==> final(token)@.wf(),
    {
        if !token.can_send(caller) {
            return Err(ContractError::NotOwner);
        }
        token.longterm_rental.set_compliance(ejari);
        Ok(no_payment())
    }

    /// Lets the tenant take up the lease.
    pub fn proceedlongtermrental<T>(&self, token: &mut TokenInfo<T>, caller: &Caller) -> (outcome: Result<
        Vec<Payment>,
        ContractError,
    >)
        ensures
            settled(old(token)@.activate_long_term(caller@), *old(token), *final(token), outcome),
            old(token)@.wf() ==> final(token)@.wf(),
    {
        if !token.longterm_rental.is_tenant(&caller.sender) {
            return Err(ContractError::NotReserved);
        }
        if !token.can_send(caller) {
            return Err(ContractError::NotOwner);
        }
        token.longterm_rental.activate();
        Ok(no_payment())
    }

    /// Takes a deposit of `amount` from the tenant of an active lease.
    pub fn depositforlongtermrental<T>(&self, token: &mut TokenInfo<T>, caller: &Caller, amount: u128) -> (outcome:
        Result<Vec<Payment>, ContractError>)
        ensures
            settled(old(token)@.deposit_long_term(caller@, amount), *old(token), *final(token), outcome),
            old(token)@.wf() ==> final(token)@.wf(),
    {
        if !token.can_send(caller) {
            return Err(ContractError::NotOwner);
        }
        token.longterm_rental.deposit(&caller.sender, amount)
    }

    /// Pays `amount` of the tenant's deposits to the owner, in `denom`. The
    /// compliance flag must have been recorded, with whatever value.
    pub fn withdrawtolandlord<T>(
        &self,
        token: &mut TokenInfo<T>,
        caller: &Caller,
        amount: u128,
        denom: String,
    ) -> (outcome: Result<Vec<Payment>, ContractError>)
        ensures
            settled(old(token)@.withdraw_long_term(caller@, amount, denom@), *old(token), *final(token), outcome),
            old(token)@.wf() ==> final(token)@.wf(),
    {
        if !token.can_approve(caller) {
            return Err(ContractError::NotOwner);
        }
        token.longterm_rental.withdraw(&token.owner, amount, denom)
    }

    /// Pays `amount` of the guests' deposits to the owner, in `denom`.
    pub fn withdrawtohost<T>(
        &self,
        token: &mut TokenInfo<T>,
        caller: &Caller,
        amount: u128,
        denom: String,
    ) -> (outcome: Result<Vec<Payment>, ContractError>)
        ensures
            settled(old(token)@.withdraw_short_term(caller@, amount, denom@), *old(token), *final(token), outcome),
            old(token)@.wf() ==> final(token)@.wf(),
    {
        if !token.can_approve(caller) {
            return Err(ContractError::NotOwner);
        }
        token.shortterm_rental.withdraw_to_host(&token.owner, amount, denom)
    }

    /// Closes the lease: clears the reservation, the ledger and the flags.
    pub fn finalizelongtermrental<T>(&self, token: &mut TokenInfo<T>, caller: &Caller) -> (outcome: Result<
        Vec<Payment>,
        ContractError,
    >)
        ensures
            settled(old(token)@.finalize_long_term(caller@), *old(token), *final(token), outcome),
            old(token)@.wf() ==> final(token)@.wf(),
    {
        if !token.can_send(caller) {
            return Err(ContractError::NotOwner);
        }
        token.longterm_rental.finalize();
        Ok(no_payment())
    }
}

} // verus!
