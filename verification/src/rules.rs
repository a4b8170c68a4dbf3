//! What each operation does to a record, stated over what the record holds.
//!
//! Every rule takes the record and the caller and gives either the new record
//! with the payments to send, or the failure. A rule that needs the owner's
//! authority fails with `NotOwner` before it looks at anything else, unless it
//! says otherwise.

use vstd::prelude::*;
use crate::date::{period_of, Period};
use crate::error::ContractError;
use crate::expiration::{expiration_or_never, Expiration};
use crate::longterm::{LandlordView, LongTermOutcome, TenantView};
use crate::msg::ExecuteMsgView;
use crate::payment::{CoinView, PaymentView};
use crate::shortterm::{
    booked_at, booking_index, calendar_ordered, lemma_approval_keeps_order, lemma_remove_keeps_order,
    lemma_reservation_keeps_calendar, lemma_unavailable_period, BookingView, ShortTermOutcome,
};
use crate::token::{spenders_unique, ApprovalView, CallerView, TokenInfoView, TokenOutcome};

verus! {

/// The approvals of `approvals` that are not for `spender`, in order.
pub open spec fn approvals_of_others(approvals: Seq<ApprovalView>, spender: Seq<char>) -> Seq<ApprovalView> {
    approvals.filter(|approval: ApprovalView| approval.spender != spender)
}

impl<T> TokenInfoView<T> {
    /// The record with its long-term side replaced by what `outcome` holds.
    pub open spec fn with_long_term(self, outcome: LongTermOutcome) -> TokenOutcome<T> {
        match outcome {
            Ok((state, payments)) => Ok((TokenInfoView { longterm_rental: state, ..self }, payments)),
            Err(error) => Err(error),
        }
    }

    /// The record with its short-stay side replaced by what `outcome` holds.
    pub open spec fn with_short_term(self, outcome: ShortTermOutcome) -> TokenOutcome<T> {
        match outcome {
            Ok((state, payments)) => Ok((TokenInfoView { shortterm_rental: state, ..self }, payments)),
            Err(error) => Err(error),
        }
    }

    /// `outcome`, where `caller` may act as the owner; `NotOwner` where not.
    pub open spec fn as_owner(self, caller: CallerView, outcome: TokenOutcome<T>) -> TokenOutcome<T> {
        if self.can_approve(caller) {
            outcome
        } else {
            Err(ContractError::NotOwner)
        }
    }

    /// `outcome`, where `caller` may dispose of the record; `NotOwner` where not.
    pub open spec fn as_sender(self, caller: CallerView, outcome: TokenOutcome<T>) -> TokenOutcome<T> {
        if self.can_send(caller) {
            outcome
        } else {
            Err(ContractError::NotOwner)
        }
    }

    /// With the owner's authority: the metadata is found at `token_uri` from now on.
    pub open spec fn set_metadata(self, caller: CallerView, token_uri: Seq<char>) -> TokenOutcome<T> {
        self.as_owner(caller, Ok((TokenInfoView { token_uri: Some(token_uri), ..self }, Seq::empty())))
    }

    /// With the right to dispose: the record passes to `recipient`, and all
    /// approvals lapse.
    pub open spec fn transfer(self, caller: CallerView, recipient: Seq<char>) -> TokenOutcome<T> {
        self.as_sender(
            caller,
            Ok((TokenInfoView { owner: recipient, approvals: Seq::empty(), ..self }, Seq::empty())),
        )
    }

    /// With the right to dispose: the record may be removed. The record itself
    /// is not changed.
    pub open spec fn burn(self, caller: CallerView) -> TokenOutcome<T> {
        self.as_sender(caller, Ok((self, Seq::empty())))
    }

    /// With the owner's authority: any approval for `spender` is dropped, and
    /// where `add` is set a new one is entered behind the others, lapsing at
    /// `expires`, or never where none is given. It fails with `Expired` where
    /// the new approval would have lapsed already.
    pub open spec fn update_approvals(
        self,
        caller: CallerView,
        spender: Seq<char>,
        add: bool,
        expires: Option<Expiration>,
    ) -> TokenOutcome<T> {
        let others = approvals_of_others(self.approvals, spender);
        let expires = expiration_or_never(expires);
        self.as_owner(
            caller,
            if !add {
                Ok((TokenInfoView { approvals: others, ..self }, Seq::empty()))
            } else if expires.expired_at(caller.block) {
                Err(ContractError::Expired)
            } else {
                Ok(
                    (
                        TokenInfoView { approvals: others.push(ApprovalView { spender, expires }), ..self },
                        Seq::empty(),
                    ),
                )
            },
        )
    }

    /// With the owner's authority: the record is offered for a lease on `terms`.
    pub open spec fn list_long_term(self, caller: CallerView, terms: LandlordView) -> TokenOutcome<T> {
        self.as_owner(caller, self.with_long_term(Ok((self.longterm_rental.list(terms), Seq::empty()))))
    }

    /// With the owner's authority: the offer of a lease is withdrawn.
    pub open spec fn unlist_long_term(self, caller: CallerView) -> TokenOutcome<T> {
        self.as_owner(caller, self.with_long_term(Ok((self.longterm_rental.unlist(), Seq::empty()))))
    }

    /// Anyone may reserve the lease: the caller becomes the tenant on `terms`.
    /// The terms are recorded as declared, and no funds are asked for.
    pub open spec fn reserve_long_term(self, caller: CallerView, terms: TenantView) -> TokenOutcome<T> {
        self.with_long_term(Ok((self.longterm_rental.reserve(caller.sender, terms), Seq::empty())))
    }

    /// With the owner's authority: the reservation is cleared. Nothing is paid.
    pub open spec fn reject_long_term(self, caller: CallerView) -> TokenOutcome<T> {
        self.as_owner(caller, self.with_long_term(Ok((self.longterm_rental.release(), Seq::empty()))))
    }

    /// The tenant clears the own reservation; anyone else gets `NotReserved`.
    pub open spec fn cancel_long_term(self, caller: CallerView) -> TokenOutcome<T> {
        self.with_long_term(self.longterm_rental.cancel(caller.sender))
    }

    /// The tenant takes up the lease. It fails with `NotReserved` where the
    /// caller is not the tenant, and else with `NotOwner` where the caller may
    /// not dispose of the record.
    pub open spec fn activate_long_term(self, caller: CallerView) -> TokenOutcome<T> {
        if !self.longterm_rental.is_tenant(caller.sender) {
            Err(ContractError::NotReserved)
        } else {
            self.as_sender(caller, self.with_long_term(Ok((self.longterm_rental.activate(), Seq::empty()))))
        }
    }

    /// With the right to dispose: the compliance flag is recorded as `value`.
    pub open spec fn set_compliance(self, caller: CallerView, value: bool) -> TokenOutcome<T> {
        self.as_sender(
            caller,
            self.with_long_term(Ok((self.longterm_rental.set_compliance(value), Seq::empty()))),
        )
    }

    /// With the right to dispose: the tenant of an active lease deposits `amount`.
    pub open spec fn deposit_long_term(self, caller: CallerView, amount: u128) -> TokenOutcome<T> {
        self.as_sender(caller, self.with_long_term(self.longterm_rental.deposit(caller.sender, amount)))
    }

    /// With the owner's authority: `amount` is withdrawn from the tenant's
    /// deposits and paid to the owner in `denom`.
    pub open spec fn withdraw_long_term(self, caller: CallerView, amount: u128, denom: Seq<char>) -> TokenOutcome<T> {
        self.as_owner(caller, self.with_long_term(self.longterm_rental.withdraw(self.owner, amount, denom)))
    }

    /// With the right to dispose: the lease is closed.
    pub open spec fn finalize_long_term(self, caller: CallerView) -> TokenOutcome<T> {
        self.as_sender(caller, self.with_long_term(Ok((self.longterm_rental.finalize(), Seq::empty()))))
    }

    /// With the owner's authority: the record is offered for short stays.
    pub open spec fn list_short_term(
        self,
        caller: CallerView,
        denom: Seq<char>,
        price_per_day: u64,
        auto_approve: bool,
        available_period: Seq<Seq<char>>,
    ) -> TokenOutcome<T> {
        self.as_owner(
            caller,
            self.with_short_term(
                Ok((self.shortterm_rental.list(denom, price_per_day, auto_approve, available_period), Seq::empty())),
            ),
        )
    }

    /// With the owner's authority: the offer of short stays is withdrawn.
    pub open spec fn unlist_short_term(self, caller: CallerView) -> TokenOutcome<T> {
        self.as_owner(caller, self.with_short_term(Ok((self.shortterm_rental.unlist(), Seq::empty()))))
    }

    /// Anyone may book a stay: the caller is the guest, and `period` is what
    /// `renting_period` was read as.
    pub open spec fn reserve_short_term(
        self,
        caller: CallerView,
        renting_period: Seq<Seq<char>>,
        period: Option<Period>,
        funds: CoinView,
    ) -> TokenOutcome<T> {
        self.with_short_term(
            self.shortterm_rental.reserve(self.owner, caller.sender, renting_period, period, funds),
        )
    }

    /// With the owner's authority: the booking of `traveler` for `period` is approved.
    pub open spec fn approve_short_term(self, caller: CallerView, traveler: Seq<char>, period: Option<Period>) -> TokenOutcome<T> {
        self.as_owner(caller, self.with_short_term(self.shortterm_rental.approve(self.owner, traveler, period)))
    }

    /// With the owner's authority: the booking of `traveler` for `period` is rejected.
    pub open spec fn reject_short_term(self, caller: CallerView, traveler: Seq<char>, period: Option<Period>) -> TokenOutcome<T> {
        self.as_owner(caller, self.with_short_term(self.shortterm_rental.reject(traveler, period)))
    }

    /// The caller cancels the own booking for `period`.
    pub open spec fn cancel_short_term(self, caller: CallerView, period: Option<Period>) -> TokenOutcome<T> {
        self.with_short_term(self.shortterm_rental.cancel(caller.sender, period))
    }

    /// With the right to dispose: the booking of `traveler` for `period` is closed.
    pub open spec fn finalize_short_term(self, caller: CallerView, traveler: Seq<char>, period: Option<Period>) -> TokenOutcome<T> {
        self.as_sender(caller, self.with_short_term(self.shortterm_rental.finalize(traveler, period)))
    }

    /// With the owner's authority: `amount` is withdrawn from the guests'
    /// deposits and paid to the owner in `denom`. No compliance flag is asked for.
    pub open spec fn withdraw_short_term(self, caller: CallerView, amount: u128, denom: Seq<char>) -> TokenOutcome<T> {
        self.as_owner(caller, self.with_short_term(self.shortterm_rental.withdraw(self.owner, amount, denom)))
    }

    /// What the command `msg` of `caller` does: what the rule of its kind does
    /// with what it carries. A period that a command carries is read with
    /// [`period_of`].
    pub open spec fn execute(self, caller: CallerView, msg: ExecuteMsgView) -> TokenOutcome<T> {
        match msg {
            ExecuteMsgView::SetMetadata { token_uri } => self.set_metadata(caller, token_uri),
            ExecuteMsgView::SetListForLongTermRental {
                islisted,
                denom,
                price_per_month,
                refundable_deposit,
                available_period,
            } => self.list_long_term(
                caller,
                LandlordView { denom, price_per_month, refundable_deposit, available_period },
            ),
            ExecuteMsgView::SetListForShortTermRental {
                denom,
                price_per_day,
                auto_approve,
                available_period,
            } => self.list_short_term(caller, denom, price_per_day, auto_approve, available_period),
            ExecuteMsgView::SetUnlistForLongtermRental => self.unlist_long_term(caller),
            ExecuteMsgView::SetUnlistForShorttermRental => self.unlist_short_term(caller),
            ExecuteMsgView::SetReservationForLongTerm {
                isreserved,
                deposit_amount,
                deposit_denom,
                renting_period,
            } => self.reserve_long_term(caller, TenantView { deposit_amount, deposit_denom, renting_period }),
            ExecuteMsgView::SetReservationForShortTerm { renting_period, funds } => self.reserve_short_term(
                caller,
                renting_period,
                period_of(renting_period),
                funds,
            ),
            ExecuteMsgView::SetApproveForShortTerm { traveler, renting_period } => self.approve_short_term(
                caller,
                traveler,
                period_of(renting_period),
            ),
            ExecuteMsgView::RejectReservationForLongterm => self.reject_long_term(caller),
            ExecuteMsgView::RejectReservationForShortterm { traveler, renting_period } => self.reject_short_term(
                caller,
                traveler,
                period_of(renting_period),
            ),
            ExecuteMsgView::CancelReservationForLongterm => self.cancel_long_term(caller),
            ExecuteMsgView::CancelReservationForShortterm { renting_period } => self.cancel_short_term(
                caller,
                period_of(renting_period),
            ),
            ExecuteMsgView::FinalizeShortTermRental { traveler, renting_period } => self.finalize_short_term(
                caller,
                traveler,
                period_of(renting_period),
            ),
            ExecuteMsgView::ProceedLongtermRental => self.activate_long_term(caller),
            ExecuteMsgView::SetEjariForLongTermRental { ejari } => self.set_compliance(caller, ejari),
            ExecuteMsgView::DepositForLongTermRental { amount } => self.deposit_long_term(caller, amount),
            ExecuteMsgView::WithdrawToLandlord { amount, denom } => self.withdraw_long_term(caller, amount, denom),
            ExecuteMsgView::WithdrawToHost { amount, denom } => self.withdraw_short_term(caller, amount, denom),
            ExecuteMsgView::FinalizeLongTermRental => self.finalize_long_term(caller),
            ExecuteMsgView::Approve { spender, expires } => self.update_approvals(caller, spender, true, expires),
            ExecuteMsgView::Revoke { spender } => self.update_approvals(caller, spender, false, None),
            ExecuteMsgView::TransferNft { recipient } => self.transfer(caller, recipient),
            ExecuteMsgView::Burn => self.burn(caller),
        }
    }
}

/// One call on a record: who calls, and with which command.
pub struct Call {
    pub caller: CallerView,
    pub msg: ExecuteMsgView,
}

impl<T> TokenInfoView<T> {
    /// The record after `call`: a refused call leaves it as it was.
    pub open spec fn after_call(self, call: Call) -> TokenInfoView<T> {
        match self.execute(call.caller, call.msg) {
            Ok((record, _)) => record,
            Err(_) => self,
        }
    }

    /// The record after the calls of `calls`, in order.
    pub open spec fn after_calls(self, calls: Seq<Call>) -> TokenInfoView<T>
        decreases calls.len(),
    {
        if calls.len() == 0 {
            self
        } else {
            self.after_calls(calls.drop_last()).after_call(calls.last())
        }
    }
}

/// A command that succeeds on a record that holds its invariant leaves a
/// record that holds it: the calendar stays ordered, on either side no more is
/// withdrawn than was deposited, and no two approvals are for one spender.
pub proof fn lemma_command_keeps_invariant<T>(record: TokenInfoView<T>, caller: CallerView, msg: ExecuteMsgView)
    requires
        record.wf(),
    ensures
        match record.execute(caller, msg) {
            Ok((after, _)) => after.wf(),
            Err(_) => true,
        },
{
    let stays = record.shortterm_rental;
    match msg {
        ExecuteMsgView::SetReservationForShortTerm { renting_period, funds } => {
            lemma_reservation_keeps_calendar(
                stays,
                record.owner,
                caller.sender,
                renting_period,
                period_of(renting_period),
                funds,
            );
        },
        ExecuteMsgView::SetApproveForShortTerm { traveler, renting_period } => {
            let found = booking_index(stays.bookings, traveler, period_of(renting_period));
            if found is Some {
                lemma_found_booking_is_booked(stays.bookings, traveler, period_of(renting_period));
                lemma_approval_keeps_order(stays.bookings, found->Some_0, true);
            }
        },
        ExecuteMsgView::RejectReservationForShortterm { traveler, renting_period } => {
            let found = booking_index(stays.bookings, traveler, period_of(renting_period));
            if found is Some {
                lemma_found_booking_is_booked(stays.bookings, traveler, period_of(renting_period));
                lemma_remove_keeps_order(stays.bookings, found->Some_0);
            }
        },
        ExecuteMsgView::CancelReservationForShortterm { renting_period } => {
            let found = booking_index(stays.bookings, caller.sender, period_of(renting_period));
            if found is Some {
                lemma_found_booking_is_booked(stays.bookings, caller.sender, period_of(renting_period));
                lemma_remove_keeps_order(stays.bookings, found->Some_0);
            }
        },
        ExecuteMsgView::FinalizeShortTermRental { traveler, renting_period } => {
            let found = booking_index(stays.bookings, traveler, period_of(renting_period));
            if found is Some {
                lemma_found_booking_is_booked(stays.bookings, traveler, period_of(renting_period));
                lemma_remove_keeps_order(stays.bookings, found->Some_0);
            }
        },
        ExecuteMsgView::Approve { spender, expires } => {
            lemma_others_stay_unique(record.approvals, spender);
            lemma_new_approval_stays_unique(record.approvals, spender, expiration_or_never(expires));
        },
        ExecuteMsgView::Revoke { spender } => {
            lemma_others_stay_unique(record.approvals, spender);
        },
        _ => {},
    }
}

/// Whatever commands are sent to a record, by whomever and in whatever order,
/// the record keeps its invariant: the calendar of short stays stays ordered
/// and, on either side, the withdrawals never exceed the deposits.
pub proof fn lemma_calls_keep_invariant<T>(record: TokenInfoView<T>, calls: Seq<Call>)
    requires
        record.wf(),
    ensures
        record.after_calls(calls).wf(),
        record.after_calls(calls).longterm_rental.escrow.withdrawn_total <= record.after_calls(
            calls,
        ).longterm_rental.escrow.deposit_total,
        record.after_calls(calls).shortterm_rental.escrow.withdrawn_total <= record.after_calls(
            calls,
        ).shortterm_rental.escrow.deposit_total,
        calendar_ordered(record.after_calls(calls).shortterm_rental.bookings),
    decreases calls.len(),
{
    if calls.len() > 0 {
        lemma_calls_keep_invariant(record, calls.drop_last());
        lemma_command_keeps_invariant(
            record.after_calls(calls.drop_last()),
            calls.last().caller,
            calls.last().msg,
        );
    }
}

/// Whoever asks, and whatever funds come with the request: a stay whose period
/// overlaps a booking of the record, or touches one, is refused with
/// `UnavailablePeriod`, and so is one whose period cannot be read.
pub proof fn lemma_stay_on_taken_days_is_refused<T>(
    record: TokenInfoView<T>,
    caller: CallerView,
    renting_period: Seq<Seq<char>>,
    funds: CoinView,
)
    requires
        record.wf(),
        period_of(renting_period) is Some ==> exists|j: int|
            0 <= j < record.shortterm_rental.bookings.len() && (
            #[trigger] record.shortterm_rental.bookings[j]).period.collides(period_of(renting_period)->Some_0),
    ensures
        record.execute(caller, ExecuteMsgView::SetReservationForShortTerm { renting_period, funds }) == Err::<
            (TokenInfoView<T>, Seq<PaymentView>),
            ContractError,
        >(ContractError::UnavailablePeriod),
{
    lemma_unavailable_period(
        record.shortterm_rental,
        record.owner,
        caller.sender,
        renting_period,
        period_of(renting_period),
        funds,
    );
}

/// Withdrawing an offer twice is the same as withdrawing it once: on a record
/// that is not listed, a second call by anyone with the owner's authority
/// succeeds, pays nothing and changes nothing.
pub proof fn lemma_unlist_is_idempotent<T>(record: TokenInfoView<T>, first: CallerView, second: CallerView)
    requires
        record.can_approve(first),
        record.can_approve(second),
    ensures
        record.unlist_long_term(first) is Ok,
        record.unlist_long_term(first)->Ok_0.0.unlist_long_term(second) == record.unlist_long_term(first),
        record.unlist_short_term(first) is Ok,
        record.unlist_short_term(first)->Ok_0.0.unlist_short_term(second) == record.unlist_short_term(first),
{
}

/// On a record whose offer of a lease is not listed, withdrawing the offer
/// succeeds and leaves the record as it is. The same holds for short stays.
pub proof fn lemma_unlist_of_unlisted_changes_nothing<T>(record: TokenInfoView<T>, caller: CallerView)
    requires
        record.can_approve(caller),
    ensures
        record.longterm_rental.listed is None && record.longterm_rental.landlord is None
            ==> record.unlist_long_term(caller) == Ok::<(TokenInfoView<T>, Seq<PaymentView>), ContractError>(
            (record, Seq::empty()),
        ),
        record.shortterm_rental.listed is None && record.shortterm_rental.price_per_day == 0
            && !record.shortterm_rental.auto_approve && record.shortterm_rental.available_period.len() == 0
            ==> record.unlist_short_term(caller) == Ok::<(TokenInfoView<T>, Seq<PaymentView>), ContractError>(
            (record, Seq::empty()),
        ),
{
    if record.shortterm_rental.available_period.len() == 0 {
        assert(record.shortterm_rental.available_period =~= Seq::empty());
    }
}

/// For a caller with the owner's authority: while the compliance flag is unset
/// the withdrawal of the tenant's deposits fails with `EjariNotConfirmed`,
/// whatever the ledger holds; once the flag is recorded, with either value, it
/// succeeds exactly where the ledger covers the amount.
pub proof fn lemma_landlord_withdrawal_asks_for_compliance_flag<T>(
    record: TokenInfoView<T>,
    caller: CallerView,
    amount: u128,
    denom: Seq<char>,
)
    requires
        record.can_approve(caller),
    ensures
        record.longterm_rental.compliance_flag is Unset ==> record.withdraw_long_term(caller, amount, denom)
            == Err::<(TokenInfoView<T>, Seq<PaymentView>), ContractError>(ContractError::EjariNotConfirmed),
        record.longterm_rental.compliance_flag is Confirmed ==> (record.withdraw_long_term(
            caller,
            amount,
            denom,
        ) is Ok <==> record.longterm_rental.escrow.withdrawn_total + amount
            <= record.longterm_rental.escrow.deposit_total),
{
}

/// The booking that is found for a guest and a period is that guest's booking
/// for that period.
pub proof fn lemma_found_booking_is_booked(bookings: Seq<BookingView>, address: Seq<char>, period: Option<Period>)
    requires
        booking_index(bookings, address, period) is Some,
    ensures
        period is Some,
        booked_at(bookings, booking_index(bookings, address, period)->Some_0, address, period->Some_0),
{
}

/// An approval for a spender, entered behind the approvals of the others,
/// keeps the spenders apart.
pub proof fn lemma_new_approval_stays_unique(approvals: Seq<ApprovalView>, spender: Seq<char>, expires: Expiration)
    requires
        spenders_unique(approvals),
    ensures
        spenders_unique(approvals_of_others(approvals, spender).push(ApprovalView { spender, expires })),
{
    lemma_others_stay_unique(approvals, spender);
    let others = approvals_of_others(approvals, spender);
    let added = others.push(ApprovalView { spender, expires });
    assert forall|i: int, j: int| 0 <= i < j < added.len() implies (#[trigger] added[i]).spender != (
    #[trigger] added[j]).spender by {
        assert(added[i] == others[i]);
        if j < others.len() {
            assert(added[j] == others[j]);
        }
    }
}

/// Dropping the approvals for one spender keeps the others apart, and leaves
/// none for that spender.
pub proof fn lemma_others_stay_unique(approvals: Seq<ApprovalView>, spender: Seq<char>)
    ensures
        forall|i: int|
            0 <= i < approvals_of_others(approvals, spender).len() ==> (#[trigger] approvals_of_others(
                approvals,
                spender,
            )[i]).spender != spender,
        spenders_unique(approvals) ==> spenders_unique(approvals_of_others(approvals, spender)),
    decreases approvals.len(),
{
    let others = |approval: ApprovalView| approval.spender != spender;
    let kept = approvals.filter(others);
    reveal(Seq::filter);
    if approvals.len() > 0 {
        let rest = approvals.drop_last();
        let last = approvals.last();
        lemma_others_stay_unique(rest, spender);
        let kept_rest = rest.filter(others);
        assert forall|i: int| 0 <= i < kept.len() implies (#[trigger] kept[i]).spender != spender by {
            if i < kept_rest.len() {
                assert(kept[i] == kept_rest[i]);
            }
        }
        if spenders_unique(approvals) {
            assert(spenders_unique(rest)) by {
                assert forall|i: int, j: int| 0 <= i < j < rest.len() implies (#[trigger] rest[i]).spender != (
                #[trigger] rest[j]).spender by {
                    assert(rest[i] == approvals[i]);
                    assert(rest[j] == approvals[j]);
                }
            }
            assert forall|i: int, j: int| 0 <= i < j < kept.len() implies (#[trigger] kept[i]).spender != (
            #[trigger] kept[j]).spender by {
                if j < kept_rest.len() {
                    assert(kept[i] == kept_rest[i]);
                    assert(kept[j] == kept_rest[j]);
                } else {
                    assert(kept[i] == kept_rest[i]);
                    assert(kept[j] == last);
                    rest.lemma_filter_contains_rev(others, kept_rest[i]);
                    let k = choose|k: int| 0 <= k < rest.len() && rest[k] == kept_rest[i];
                    assert(approvals[k] == rest[k]);
                    assert(approvals[approvals.len() - 1] == last);
                }
            }
        }
    }
}

} // verus!
