//! Short stays: a listing and its calendar of bookings.

use vstd::prelude::*;
use crate::date::{parse_period, period_of, Period};
use crate::error::ContractError;
use crate::escrow::EscrowLedger;
use crate::payment::{no_payment, one_payment, Coin, CoinView, Payment, PaymentView, payments_view};

verus! {

/// One guest's booking of a short stay.
#[derive(Clone, Debug, PartialEq, Eq)]
pub struct Booking {
    /// The guest.
    pub address: String,
    /// The period as the guest wrote it.
    pub renting_period: Vec<String>,
    /// The two dates of the stay.
    pub period: Period,
    /// What the guest paid in with the reservation.
    pub deposit_amount: u128,
    /// Whether the host has accepted the booking.
    pub approved: bool,
}

/// What a [`Booking`] holds.
pub struct BookingView {
    pub address: Seq<char>,
    pub renting_period: Seq<Seq<char>>,
    pub period: Period,
    pub deposit_amount: u128,
    pub approved: bool,
}

impl View for Booking {
    type V = BookingView;

    open spec fn view(&self) -> BookingView {
        BookingView {
            address: self.address@,
            renting_period: self.renting_period.deep_view(),
            period: self.period,
            deposit_amount: self.deposit_amount,
            approved: self.approved,
        }
    }
}

/// What a list of bookings holds, in order.
pub open spec fn bookings_view(bookings: Seq<Booking>) -> Seq<BookingView> {
    Seq::new(bookings.len(), |i: int| bookings[i]@)
}

/// The short-stay side of a record.
#[derive(Clone, Debug, PartialEq, Eq)]
pub struct ShortTermRental {
    /// `Some(true)` while the record is offered for short stays.
    pub listed: Option<bool>,
    /// Price of one night.
    pub price_per_day: u64,
    /// Denomination in which stays are paid.
    pub denom: String,
    /// Whether a booking is accepted as soon as it is made.
    pub auto_approve: bool,
    /// The advertised period. It is not read by any rule.
    pub available_period: Vec<String>,
    /// The calendar: the bookings, earliest first.
    pub bookings: Vec<Booking>,
    /// Deposits taken with reservations, and withdrawals by the host.
    pub escrow: EscrowLedger,
}

/// What a [`ShortTermRental`] holds.
pub struct ShortTermRentalView {
    pub listed: Option<bool>,
    pub price_per_day: u64,
    pub denom: Seq<char>,
    pub auto_approve: bool,
    pub available_period: Seq<Seq<char>>,
    pub bookings: Seq<BookingView>,
    pub escrow: EscrowLedger,
}

impl View for ShortTermRental {
    type V = ShortTermRentalView;

    open spec fn view(&self) -> ShortTermRentalView {
        ShortTermRentalView {
            listed: self.listed,
            price_per_day: self.price_per_day,
            denom: self.denom@,
            auto_approve: self.auto_approve,
            available_period: self.available_period.deep_view(),
            bookings: bookings_view(self.bookings@),
            escrow: self.escrow,
        }
    }
}

/// What a short-stay operation does: the new state and the payments to send, or
/// the failure.
pub type ShortTermOutcome = Result<(ShortTermRentalView, Seq<PaymentView>), ContractError>;

/// The calendar's invariant: no booking is inverted, and each booking ends
/// strictly before every later one begins.
pub open spec fn calendar_ordered(bookings: Seq<BookingView>) -> bool {
    &&& forall|i: int| 0 <= i < bookings.len() ==> !(#[trigger] bookings[i]).period.inverted()
    &&& forall|i: int, j: int|
        0 <= i < j < bookings.len() ==> (#[trigger] bookings[i]).period.check_out < (
        #[trigger] bookings[j]).period.check_in
}

/// Whether `period` fits between the bookings around position `i`: the booking
/// before `i`, if there is one, ends strictly before it begins, and the booking
/// at `i`, if there is one, begins strictly after it ends.
pub open spec fn gap_at(bookings: Seq<BookingView>, i: int, period: Period) -> bool {
    &&& 0 <= i <= bookings.len()
    &&& i == 0 || bookings[i - 1].period.check_out < period.check_in
    &&& i == bookings.len() || period.check_out < bookings[i].period.check_in
}

/// Whether `i` is the first position at which `period` fits.
pub open spec fn first_gap_at(bookings: Seq<BookingView>, i: int, period: Period) -> bool {
    &&& gap_at(bookings, i, period)
    &&& forall|k: int| 0 <= k < i ==> !gap_at(bookings, k, period)
}

/// The first position at which `period` fits, if it fits anywhere.
pub open spec fn first_gap(bookings: Seq<BookingView>, period: Period) -> Option<int> {
    if exists|i: int| first_gap_at(bookings, i, period) {
        Some(choose|i: int| first_gap_at(bookings, i, period))
    } else {
        None
    }
}

/// Whether no booking collides with `period`.
pub open spec fn period_free(bookings: Seq<BookingView>, period: Period) -> bool {
    forall|j: int| 0 <= j < bookings.len() ==> !(#[trigger] bookings[j]).period.collides(period)
}

/// Whether the booking at position `i` is the one of `address` for `period`.
pub open spec fn booked_at(bookings: Seq<BookingView>, i: int, address: Seq<char>, period: Period) -> bool {
    &&& 0 <= i < bookings.len()
    &&& bookings[i].address == address
    &&& bookings[i].period == period
}

/// The position of the booking of `address` for `period`, if there is one.
/// A period that could not be read matches no booking.
pub open spec fn booking_index(bookings: Seq<BookingView>, address: Seq<char>, period: Option<Period>) -> Option<int> {
    match period {
        Some(period) => if exists|i: int| booked_at(bookings, i, address, period) {
            Some(choose|i: int| booked_at(bookings, i, address, period))
        } else {
            None
        },
        None => None,
    }
}

/// What the host is owed for `period` at `price_per_day` a night.
pub open spec fn price_of_stay(price_per_day: u64, period: Period) -> int {
    price_per_day * period.nights()
}

impl ShortTermRentalView {
    /// The short-stay side of a new record: not listed, no booking, nothing
    /// deposited, paid in `unibi`.
    pub open spec fn empty() -> ShortTermRentalView {
        ShortTermRentalView {
            listed: None,
            price_per_day: 0,
            denom: "unibi"@,
            auto_approve: false,
            available_period: Seq::empty(),
            bookings: Seq::empty(),
            escrow: EscrowLedger { deposit_total: 0, withdrawn_total: 0 },
        }
    }

    /// The state's invariant: the calendar is ordered, and no more has been
    /// withdrawn than was deposited.
    pub open spec fn wf(self) -> bool {
        &&& calendar_ordered(self.bookings)
        &&& self.escrow.wf()
    }

    /// The state once the record is offered for short stays on the given terms.
    /// The calendar and the ledger stay as they are.
    pub open spec fn list(
        self,
        denom: Seq<char>,
        price_per_day: u64,
        auto_approve: bool,
        available_period: Seq<Seq<char>>,
    ) -> ShortTermRentalView {
        ShortTermRentalView {
            listed: Some(true),
            price_per_day,
            denom,
            auto_approve,
            available_period,
            ..self
        }
    }

    /// The state once the offer is withdrawn: price, advertised period and
    /// automatic approval are cleared. The denomination, the calendar and the
    /// ledger stay as they are.
    pub open spec fn unlist(self) -> ShortTermRentalView {
        ShortTermRentalView {
            listed: None,
            price_per_day: 0,
            auto_approve: false,
            available_period: Seq::empty(),
            ..self
        }
    }

    /// The booking that a reservation enters into the calendar.
    pub open spec fn new_booking(
        self,
        guest: Seq<char>,
        renting_period: Seq<Seq<char>>,
        period: Period,
        funds: CoinView,
    ) -> BookingView {
        BookingView {
            address: guest,
            renting_period,
            period,
            deposit_amount: funds.amount,
            approved: self.auto_approve,
        }
    }

    /// What a reservation by `guest` does, where `period` is what
    /// `renting_period` was read as.
    ///
    /// It fails with `UnavailablePeriod` where the period could not be read, is
    /// inverted, or fits nowhere in the calendar; else with `InvalidDeposit`
    /// where the funds are in another denomination than the listing; else with
    /// `InsufficientDeposit` where they do not cover the nights; else with
    /// `Overflow` where the ledger cannot hold them. Otherwise the booking
    /// enters the calendar at the first position at which it fits, carrying all
    /// the funds as its deposit, and the funds are added to the deposits. Where
    /// bookings are approved automatically the deposit is paid on to `owner`
    /// at once, and the booking stays in the calendar, approved.
    pub open spec fn reserve(
        self,
        owner: Seq<char>,
        guest: Seq<char>,
        renting_period: Seq<Seq<char>>,
        period: Option<Period>,
        funds: CoinView,
    ) -> ShortTermOutcome {
        if period is None || period->Some_0.inverted() {
            Err(ContractError::UnavailablePeriod)
        } else {
            let period = period->Some_0;
            match first_gap(self.bookings, period) {
                None => Err(ContractError::UnavailablePeriod),
                Some(slot) => if funds.denom != self.denom {
                    Err(ContractError::InvalidDeposit)
                } else if funds.amount < price_of_stay(self.price_per_day, period) {
                    Err(ContractError::InsufficientDeposit)
                } else {
                    match self.escrow.deposited(funds.amount) {
                        Err(error) => Err(error),
                        Ok(escrow) => Ok(
                            (
                                ShortTermRentalView {
                                    bookings: self.bookings.insert(
                                        slot,
                                        self.new_booking(guest, renting_period, period, funds),
                                    ),
                                    escrow,
                                    ..self
                                },
                                if self.auto_approve {
                                    seq![
                                        PaymentView {
                                            to_address: owner,
                                            denom: self.denom,
                                            amount: funds.amount,
                                        },
                                    ]
                                } else {
                                    Seq::empty()
                                },
                            ),
                        ),
                    }
                },
            }
        }
    }

    /// What the host's approval of the booking of `address` for `period` does.
    ///
    /// It fails with `ApprovedAlready` where bookings are approved
    /// automatically, where there is no such booking, and where the booking is
    /// approved already. Otherwise the booking is marked approved and stays in
    /// the calendar, and its deposit is paid to `owner`.
    pub open spec fn approve(self, owner: Seq<char>, address: Seq<char>, period: Option<Period>) -> ShortTermOutcome {
        if self.auto_approve {
            Err(ContractError::ApprovedAlready)
        } else {
            match booking_index(self.bookings, address, period) {
                None => Err(ContractError::ApprovedAlready),
                Some(i) => if self.bookings[i].approved {
                    Err(ContractError::ApprovedAlready)
                } else {
                    Ok(
                        (
                            ShortTermRentalView {
                                bookings: self.bookings.update(
                                    i,
                                    BookingView { approved: true, ..self.bookings[i] },
                                ),
                                ..self
                            },
                            seq![
                                PaymentView {
                                    to_address: owner,
                                    denom: self.denom,
                                    amount: self.bookings[i].deposit_amount,
                                },
                            ],
                        ),
                    )
                },
            }
        }
    }

    /// What the host's rejection of the booking of `address` for `period` does.
    ///
    /// It fails with `ApprovedAlready` where bookings are approved
    /// automatically; else with `NotReserved` where there is no such booking;
    /// else with `ApprovedAlready` where the booking is approved. Otherwise the
    /// booking leaves the calendar. Nothing is paid back.
    pub open spec fn reject(self, address: Seq<char>, period: Option<Period>) -> ShortTermOutcome {
        if self.auto_approve {
            Err(ContractError::ApprovedAlready)
        } else {
            match booking_index(self.bookings, address, period) {
                None => Err(ContractError::NotReserved),
                Some(i) => if self.bookings[i].approved {
                    Err(ContractError::ApprovedAlready)
                } else {
                    Ok((ShortTermRentalView { bookings: self.bookings.remove(i), ..self }, Seq::empty()))
                },
            }
        }
    }

    /// What `guest` cancelling the own booking for `period` does.
    ///
    /// It fails as a rejection does. Otherwise the booking leaves the calendar
    /// and its whole deposit is paid back to `guest`. The ledger keeps counting
    /// the deposit.
    pub open spec fn cancel(self, guest: Seq<char>, period: Option<Period>) -> ShortTermOutcome {
        if self.auto_approve {
            Err(ContractError::ApprovedAlready)
        } else {
            match booking_index(self.bookings, guest, period) {
                None => Err(ContractError::NotReserved),
                Some(i) => if self.bookings[i].approved {
                    Err(ContractError::ApprovedAlready)
                } else {
                    Ok(
                        (
                            ShortTermRentalView { bookings: self.bookings.remove(i), ..self },
                            seq![
                                PaymentView {
                                    to_address: guest,
                                    denom: self.denom,
                                    amount: self.bookings[i].deposit_amount,
                                },
                            ],
                        ),
                    )
                },
            }
        }
    }

    /// What closing the booking of `address` for `period` does: the booking
    /// leaves the calendar, approved or not, and nothing is paid. It fails with
    /// `NotReserved` where there is no such booking.
    pub open spec fn finalize(self, address: Seq<char>, period: Option<Period>) -> ShortTermOutcome {
        match booking_index(self.bookings, address, period) {
            None => Err(ContractError::NotReserved),
            Some(i) => Ok((ShortTermRentalView { bookings: self.bookings.remove(i), ..self }, Seq::empty())),
        }
    }

    /// What the host's withdrawal of `amount` does: the ledger grants it or
    /// fails with `UnavailableAmount`, and what it grants is paid to `owner` in
    /// `denom`, the denomination that the host names.
    pub open spec fn withdraw(self, owner: Seq<char>, amount: u128, denom: Seq<char>) -> ShortTermOutcome {
        match self.escrow.withdrawn(amount) {
            Err(error) => Err(error),
            Ok(escrow) => Ok(
                (
                    ShortTermRentalView { escrow, ..self },
                    seq![PaymentView { to_address: owner, denom, amount }],
                ),
            ),
        }
    }
}

/// Whether `before`, `after` and `outcome` are what `expected` says: on success
/// the new state and the payments, on failure the error and the old state.
pub open spec fn short_term_settled(
    expected: ShortTermOutcome,
    before: ShortTermRentalView,
    after: ShortTermRentalView,
    outcome: Result<Vec<Payment>, ContractError>,
) -> bool {
    match expected {
        Ok((state, payments)) => outcome is Ok && after == state && payments_view(outcome->Ok_0@)
            == payments,
        Err(error) => outcome is Err && outcome->Err_0 == error && after == before,
    }
}

/// The position at which a period is the first to fit is the first gap.
pub proof fn lemma_first_gap_is(bookings: Seq<BookingView>, i: int, period: Period)
    requires
        first_gap_at(bookings, i, period),
    ensures
        first_gap(bookings, period) == Some(i),
{
    let chosen = choose|k: int| first_gap_at(bookings, k, period);
    assert(first_gap_at(bookings, chosen, period));
    if chosen < i {
        assert(!gap_at(bookings, chosen, period));
    }
    if i < chosen {
        assert(!gap_at(bookings, i, period));
    }
}

/// In an ordered calendar, a period that fits at a position collides with no
/// booking: every booking before the position ends before the period begins, and
/// every booking from the position on begins after it ends.
pub proof fn lemma_gap_is_free(bookings: Seq<BookingView>, i: int, period: Period)
    requires
        calendar_ordered(bookings),
        gap_at(bookings, i, period),
    ensures
        forall|j: int| 0 <= j < i ==> (#[trigger] bookings[j]).period.check_out < period.check_in,
        forall|j: int| i <= j < bookings.len() ==> period.check_out < (#[trigger] bookings[j]).period.check_in,
        period_free(bookings, period),
{
    assert forall|j: int| 0 <= j < i implies (#[trigger] bookings[j]).period.check_out
        < period.check_in by {
        if j < i - 1 {
            assert(bookings[j].period.check_out < bookings[i - 1].period.check_in);
            assert(!bookings[i - 1].period.inverted());
        }
    }
    assert forall|j: int| i <= j < bookings.len() implies period.check_out < (
    #[trigger] bookings[j]).period.check_in by {
        if i < j {
            assert(bookings[i].period.check_out < bookings[j].period.check_in);
            assert(!bookings[i].period.inverted());
        }
    }
}

/// In an ordered calendar, a period that collides with a booking or touches
/// one fits nowhere.
pub proof fn lemma_collision_leaves_no_gap(bookings: Seq<BookingView>, j: int, period: Period)
    requires
        calendar_ordered(bookings),
        0 <= j < bookings.len(),
        bookings[j].period.collides(period),
    ensures
        first_gap(bookings, period) is None,
        forall|i: int| !gap_at(bookings, i, period),
{
    assert forall|i: int| !gap_at(bookings, i, period) by {
        if gap_at(bookings, i, period) {
            lemma_gap_is_free(bookings, i, period);
            assert(!bookings[j].period.collides(period));
        }
    }
}

/// In an ordered calendar, a period that is not inverted and collides with no
/// booking fits somewhere, and only at one position.
pub proof fn lemma_free_period_has_gap(bookings: Seq<BookingView>, period: Period) -> (slot: int)
    requires
        calendar_ordered(bookings),
        !period.inverted(),
        period_free(bookings, period),
    ensures
        first_gap(bookings, period) == Some(slot),
        forall|i: int| gap_at(bookings, i, period) ==> i == slot,
{
    let slot = lemma_scan(bookings, period, 0);
    assert(gap_at(bookings, slot, period)) by {
        if slot < bookings.len() {
            assert(!bookings[slot].period.collides(period));
        }
    }
    assert forall|i: int| gap_at(bookings, i, period) implies i == slot by {
        lemma_gap_is_free(bookings, i, period);
        if i < slot {
            assert(bookings[i].period.check_out < period.check_in);
            assert(!bookings[i].period.inverted());
        }
        if slot < i {
            assert(bookings[slot].period.check_out < period.check_in);
        }
    }
    lemma_first_gap_is(bookings, slot, period);
    slot
}

/// From `from` on, the first booking that does not end before `period` begins.
proof fn lemma_scan(bookings: Seq<BookingView>, period: Period, from: int) -> (at: int)
    requires
        0 <= from <= bookings.len(),
        forall|j: int| 0 <= j < from ==> (#[trigger] bookings[j]).period.check_out < period.check_in,
    ensures
        from <= at <= bookings.len(),
        forall|j: int| 0 <= j < at ==> (#[trigger] bookings[j]).period.check_out < period.check_in,
        at < bookings.len() ==> !(bookings[at].period.check_out < period.check_in),
    decreases bookings.len() - from,
{
    if from < bookings.len() && bookings[from].period.check_out < period.check_in {
        lemma_scan(bookings, period, from + 1)
    } else {
        from
    }
}

/// A booking that enters an ordered calendar where its period fits leaves the
/// calendar ordered.
pub proof fn lemma_insert_keeps_order(bookings: Seq<BookingView>, i: int, booking: BookingView)
    requires
        calendar_ordered(bookings),
        !booking.period.inverted(),
        gap_at(bookings, i, booking.period),
    ensures
        calendar_ordered(bookings.insert(i, booking)),
{
    lemma_gap_is_free(bookings, i, booking.period);
    let after = bookings.insert(i, booking);
    assert forall|a: int| 0 <= a < after.len() implies !(#[trigger] after[a]).period.inverted() by {
        if a < i {
            assert(after[a] == bookings[a]);
        } else if a > i {
            assert(after[a] == bookings[a - 1]);
        }
    }
    assert forall|a: int, b: int| 0 <= a < b < after.len() implies (#[trigger] after[a]).period.check_out
        < (#[trigger] after[b]).period.check_in by {
        let x = if a < i { a } else { a - 1 };
        let y = if b < i { b } else { b - 1 };
        if a != i {
            assert(after[a] == bookings[x]);
        }
        if b != i {
            assert(after[b] == bookings[y]);
        }
    }
}

/// A booking that leaves an ordered calendar leaves the calendar ordered.
pub proof fn lemma_remove_keeps_order(bookings: Seq<BookingView>, i: int)
    requires
        calendar_ordered(bookings),
        0 <= i < bookings.len(),
    ensures
        calendar_ordered(bookings.remove(i)),
{
    let after = bookings.remove(i);
    assert forall|a: int| 0 <= a < after.len() implies !(#[trigger] after[a]).period.inverted() by {
        let x = if a < i { a } else { a + 1 };
        assert(after[a] == bookings[x]);
    }
    assert forall|a: int, b: int| 0 <= a < b < after.len() implies (#[trigger] after[a]).period.check_out
        < (#[trigger] after[b]).period.check_in by {
        let x = if a < i { a } else { a + 1 };
        let y = if b < i { b } else { b + 1 };
        assert(after[a] == bookings[x]);
        assert(after[b] == bookings[y]);
    }
}

/// A booking whose approval changes leaves an ordered calendar ordered.
pub proof fn lemma_approval_keeps_order(bookings: Seq<BookingView>, i: int, approved: bool)
    requires
        calendar_ordered(bookings),
        0 <= i < bookings.len(),
    ensures
        calendar_ordered(bookings.update(i, BookingView { approved, ..bookings[i] })),
{
    let after = bookings.update(i, BookingView { approved, ..bookings[i] });
    assert forall|a: int| 0 <= a < after.len() implies !(#[trigger] after[a]).period.inverted() by {
        assert(after[a].period == bookings[a].period);
    }
    assert forall|a: int, b: int| 0 <= a < b < after.len() implies (#[trigger] after[a]).period.check_out
        < (#[trigger] after[b]).period.check_in by {
        assert(after[a].period == bookings[a].period);
        assert(after[b].period == bookings[b].period);
    }
}

/// In an ordered calendar at most one booking has a given period: the booking
/// found for a guest and a period is the only one.
pub proof fn lemma_booking_is_unique(bookings: Seq<BookingView>, i: int, address: Seq<char>, period: Period)
    requires
        calendar_ordered(bookings),
        booked_at(bookings, i, address, period),
    ensures
        booking_index(bookings, address, Some(period)) == Some(i),
        forall|j: int| 0 <= j < bookings.len() && bookings[j].period == period ==> j == i,
{
    assert forall|j: int| 0 <= j < bookings.len() && bookings[j].period == period implies j == i by {
        assert(!bookings[i].period.inverted());
        assert(!bookings[j].period.inverted());
        if i < j {
            assert(bookings[i].period.check_out < bookings[j].period.check_in);
        }
        if j < i {
            assert(bookings[j].period.check_out < bookings[i].period.check_in);
        }
    }
    let chosen = choose|k: int| booked_at(bookings, k, address, period);
    assert(booked_at(bookings, chosen, address, period));
}

impl Booking {
    /// Makes a booking from its written form, reading the two dates of
    /// `renting_period`. Gives `None` where they cannot be read.
    pub fn read(address: String, renting_period: Vec<String>, deposit_amount: u128, approved: bool) -> (booking:
        Option<Booking>)
        ensures
            match period_of(renting_period.deep_view()) {
                Some(period) => booking is Some && booking->Some_0@ == (BookingView {
                    address: address@,
                    renting_period: renting_period.deep_view(),
                    period,
                    deposit_amount,
                    approved,
                }),
                None => booking is None,
            },
    {
        match parse_period(&renting_period) {
            Some(period) => Some(Booking { address, renting_period, period, deposit_amount, approved }),
            None => None,
        }
    }
}

impl ShortTermRental {
    /// The short-stay side of a new record.
    pub fn new() -> (state: ShortTermRental)
        ensures
            state@ == ShortTermRentalView::empty(),
            state@.wf(),
    {
        let state = ShortTermRental {
            listed: None,
            price_per_day: 0,
            denom: "unibi".to_owned(),
            auto_approve: false,
            available_period: Vec::new(),
            bookings: Vec::new(),
            escrow: EscrowLedger::new(),
        };
        assert(state@.bookings =~= Seq::empty());
        assert(state@.available_period =~= Seq::empty());
        state
    }

    /// Whether the state's invariant holds.
    pub fn is_wf(&self) -> (valid: bool)
        ensures
            valid == self@.wf(),
    {
        if self.escrow.withdrawn_total > self.escrow.deposit_total {
            return false;
        }
        let ghost bookings = self@.bookings;
        let mut i: usize = 0;
        while i < self.bookings.len()
            invariant
                i <= self.bookings.len(),
                bookings == self@.bookings,
                calendar_ordered(bookings.take(i as int)),
            decreases self.bookings.len() - i,
        {
            let booking = &self.bookings[i];
            assert(bookings[i as int].period == booking.period);
            if booking.period.check_out < booking.period.check_in {
                assert(bookings[i as int].period.inverted());
                return false;
            }
            if i > 0 {
                assert(bookings[i - 1].period == self.bookings[i - 1].period);
                if !(self.bookings[i - 1].period.check_out < booking.period.check_in) {
                    return false;
                }
            }
            proof {
                let before = bookings.take(i as int);
                let now = bookings.take(i + 1);
                assert forall|a: int| 0 <= a < now.len() implies !(#[trigger] now[a]).period.inverted() by {
                    if a < i {
                        assert(now[a] == before[a]);
                    }
                }
                assert forall|a: int, b: int| 0 <= a < b < now.len() implies (
                #[trigger] now[a]).period.check_out < (#[trigger] now[b]).period.check_in by {
                    if b < i {
                        assert(now[a] == before[a]);
                        assert(now[b] == before[b]);
                    } else if a < i - 1 {
                        assert(now[a] == before[a]);
                        assert(now[i - 1] == before[i - 1]);
                        assert(before[a].period.check_out < before[i - 1].period.check_in);
                        assert(!before[i - 1].period.inverted());
                    }
                }
            }
            i += 1;
        }
        assert(bookings.take(i as int) =~= bookings);
        true
    }

    /// Offers the record for short stays on the given terms.
    pub fn list(&mut self, denom: String, price_per_day: u64, auto_approve: bool, available_period: Vec<String>)
        ensures
            final(self)@ == old(self)@.list(denom@, price_per_day, auto_approve, available_period.deep_view()),
            old(self)@.wf() ==> final(self)@.wf(),
    {
        self.listed = Some(true);
        self.price_per_day = price_per_day;
        self.available_period = available_period;
        self.auto_approve = auto_approve;
        self.denom = denom;
    }

    /// Withdraws the offer. Bookings already made stay in the calendar.
    pub fn unlist(&mut self)
        ensures
            final(self)@ == old(self)@.unlist(),
            old(self)@.wf() ==> final(self)@.wf(),
    {
        self.listed = None;
        self.price_per_day = 0;
        self.available_period = Vec::new();
        self.auto_approve = false;
        assert(self.available_period.deep_view() =~= Seq::empty());
    }

    /// Finds where in the calendar `period` fits.
    ///
    /// The calendar is walked once from its start, past the bookings that end
    /// before the period begins. The period fits at the position reached if no
    /// booking is left there or the one there begins after the period ends.
    pub fn find_slot(&self, period: Period) -> (slot: Option<usize>)
        requires
            calendar_ordered(self@.bookings),
            !period.inverted(),
        ensures
            match slot {
                Some(i) => first_gap(self@.bookings, period) == Some(i as int),
                None => first_gap(self@.bookings, period) is None,
            },
            slot is Some <==> period_free(self@.bookings, period),
    {
        let ghost bookings = self@.bookings;
        let mut i: usize = 0;
        while i < self.bookings.len() && self.bookings[i].period.check_out < period.check_in
            invariant
                i <= self.bookings.len(),
                bookings == self@.bookings,
                forall|j: int| 0 <= j < i ==> (#[trigger] bookings[j]).period.check_out < period.check_in,
            decreases self.bookings.len() - i,
        {
            assert(bookings[i as int].period == self.bookings[i as int].period);
            i += 1;
        }
        if i < self.bookings.len() {
            assert(bookings[i as int].period == self.bookings[i as int].period);
        }
        if i == self.bookings.len() || period.check_out < self.bookings[i].period.check_in {
            proof {
                assert(gap_at(bookings, i as int, period));
                assert forall|k: int| 0 <= k < i implies !gap_at(bookings, k, period) by {
                    assert(!bookings[k].period.inverted());
                }
                lemma_first_gap_is(bookings, i as int, period);
                lemma_gap_is_free(bookings, i as int, period);
            }
            Some(i)
        } else {
            proof {
                assert(bookings[i as int].period.collides(period));
                lemma_collision_leaves_no_gap(bookings, i as int, period);
            }
            None
        }
    }

    /// Finds the booking of `address` for `period`.
    pub fn find_booking(&self, address: &String, period: Option<Period>) -> (found: Option<usize>)
        ensures
            match found {
                Some(i) => period is Some && booked_at(self@.bookings, i as int, address@, period->Some_0)
                    && forall|k: int| 0 <= k < i ==> !booked_at(self@.bookings, k, address@, period->Some_0),
                None => period is Some ==> forall|i: int| !booked_at(self@.bookings, i, address@, period->Some_0),
            },
            calendar_ordered(self@.bookings) ==> match found {
                Some(i) => booking_index(self@.bookings, address@, period) == Some(i as int),
                None => booking_index(self@.bookings, address@, period) is None,
            },
    {
        let wanted = match period {
            Some(wanted) => wanted,
            None => {
                return None;
            },
        };
        let ghost bookings = self@.bookings;
        let mut i: usize = 0;
        while i < self.bookings.len()
            invariant
                i <= self.bookings.len(),
                bookings == self@.bookings,
                period == Some(wanted),
                forall|j: int| 0 <= j < i ==> !booked_at(bookings, j, address@, wanted),
            decreases self.bookings.len() - i,
        {
            assert(bookings[i as int] == self.bookings[i as int]@);
            if self.bookings[i].address == *address && self.bookings[i].period == wanted {
                proof {
                    if calendar_ordered(bookings) {
                        lemma_booking_is_unique(bookings, i as int, address@, wanted);
                    }
                }
                return Some(i);
            }
            i += 1;
        }
        None
    }

    /// Enters a booking of `guest` into the calendar, where `period` is what
    /// `renting_period` was read as and `funds` came with the call.
    pub fn reserve(
        &mut self,
        owner: &String,
        guest: &String,
        renting_period: Vec<String>,
        period: Option<Period>,
        funds: &Coin,
    ) -> (outcome: Result<Vec<Payment>, ContractError>)
        requires
            old(self)@.wf(),
        ensures
            short_term_settled(
                old(self)@.reserve(owner@, guest@, renting_period.deep_view(), period, funds@),
                old(self)@,
                final(self)@,
                outcome,
            ),
            outcome is Err ==> *final(self) == *old(self),
            final(self)@.wf(),
    {
        let period = match period {
            Some(period) => period,
            None => {
                return Err(ContractError::UnavailablePeriod);
            },
        };
        if period.check_out < period.check_in {
            return Err(ContractError::UnavailablePeriod);
        }
        let slot = match self.find_slot(period) {
            Some(slot) => slot,
            None => {
                return Err(ContractError::UnavailablePeriod);
            },
        };
        if funds.denom != self.denom {
            return Err(ContractError::InvalidDeposit);
        }
        let nights: i64 = period.check_out as i64 - period.check_in as i64;
        assert(0 <= self.price_per_day * nights <= 0xffff_ffff_ffff_ffff * 0x1_0000_0000) by (nonlinear_arith)
            requires
                0 <= nights <= 0x1_0000_0000,
                0 <= self.price_per_day <= 0xffff_ffff_ffff_ffff,
        ;
        let required: u128 = self.price_per_day as u128 * nights as u128;
        if funds.amount < required {
            return Err(ContractError::InsufficientDeposit);
        }
        match self.escrow.record_deposit(funds.amount) {
            Ok(()) => {},
            Err(error) => {
                return Err(error);
            },
        }
        let booking = Booking {
            address: guest.clone(),
            renting_period,
            period,
            deposit_amount: funds.amount,
            approved: self.auto_approve,
        };
        proof {
            lemma_insert_keeps_order(old(self)@.bookings, slot as int, booking@);
            assert(bookings_view(self.bookings@.insert(slot as int, booking)) =~= old(self)@.bookings.insert(
                slot as int,
                booking@,
            ));
        }
        self.bookings.insert(slot, booking);
        if self.auto_approve {
            Ok(one_payment(Payment { to_address: owner.clone(), denom: self.denom.clone(), amount: funds.amount }))
        } else {
            Ok(no_payment())
        }
    }

    /// Marks the booking of `address` for `period` approved and pays its
    /// deposit to `owner`.
    pub fn approve(&mut self, owner: &String, address: &String, period: Option<Period>) -> (outcome: Result<
        Vec<Payment>,
        ContractError,
    >)
        requires
            old(self)@.wf(),
        ensures
            short_term_settled(old(self)@.approve(owner@, address@, period), old(self)@, final(self)@, outcome),
            outcome is Err ==> *final(self) == *old(self),
            final(self)@.wf(),
    {
        if self.auto_approve {
            return Err(ContractError::ApprovedAlready);
        }
        let i = match self.find_booking(address, period) {
            Some(i) => i,
            None => {
                return Err(ContractError::ApprovedAlready);
            },
        };
        if self.bookings[i].approved {
            return Err(ContractError::ApprovedAlready);
        }
        let amount = self.bookings[i].deposit_amount;
        let mut booking = self.bookings.remove(i);
        booking.approved = true;
        proof {
            lemma_approval_keeps_order(old(self)@.bookings, i as int, true);
            assert(bookings_view(self.bookings@.insert(i as int, booking)) =~= old(self)@.bookings.update(
                i as int,
                BookingView { approved: true, ..old(self)@.bookings[i as int] },
            ));
        }
        self.bookings.insert(i, booking);
        Ok(one_payment(Payment { to_address: owner.clone(), denom: self.denom.clone(), amount }))
    }

    /// Takes the booking of `address` for `period` out of the calendar while it
    /// is not approved. Nothing is paid back.
    pub fn reject(&mut self, address: &String, period: Option<Period>) -> (outcome: Result<
        Vec<Payment>,
        ContractError,
    >)
        requires
            old(self)@.wf(),
        ensures
            short_term_settled(old(self)@.reject(address@, period), old(self)@, final(self)@, outcome),
            outcome is Err ==> *final(self) == *old(self),
            final(self)@.wf(),
    {
        if self.auto_approve {
            return Err(ContractError::ApprovedAlready);
        }
        let i = match self.find_booking(address, period) {
            Some(i) => i,
            None => {
                return Err(ContractError::NotReserved);
            },
        };
        if self.bookings[i].approved {
            return Err(ContractError::ApprovedAlready);
        }
        proof {
            lemma_remove_keeps_order(old(self)@.bookings, i as int);
            assert(bookings_view(self.bookings@.remove(i as int)) =~= old(self)@.bookings.remove(i as int));
        }
        self.bookings.remove(i);
        Ok(no_payment())
    }

    /// Takes the booking of `guest` for `period` out of the calendar while it
    /// is not approved, and pays its deposit back to `guest`.
    pub fn cancel(&mut self, guest: &String, period: Option<Period>) -> (outcome: Result<
        Vec<Payment>,
        ContractError,
    >)
        requires
            old(self)@.wf(),
        ensures
            short_term_settled(old(self)@.cancel(guest@, period), old(self)@, final(self)@, outcome),
            outcome is Err ==> *final(self) == *old(self),
            final(self)@.wf(),
    {
        if self.auto_approve {
            return Err(ContractError::ApprovedAlready);
        }
        let i = match self.find_booking(guest, period) {
            Some(i) => i,
            None => {
                return Err(ContractError::NotReserved);
            },
        };
        if self.bookings[i].approved {
            return Err(ContractError::ApprovedAlready);
        }
        proof {
            lemma_remove_keeps_order(old(self)@.bookings, i as int);
            assert(bookings_view(self.bookings@.remove(i as int)) =~= old(self)@.bookings.remove(i as int));
        }
        let booking = self.bookings.remove(i);
        Ok(
            one_payment(
                Payment { to_address: guest.clone(), denom: self.denom.clone(), amount: booking.deposit_amount },
            ),
        )
    }

    /// Takes the booking of `address` for `period` out of the calendar at the
    /// end of the stay. Nothing is paid: the deposit went to the host when the
    /// booking was approved.
    pub fn finalize(&mut self, address: &String, period: Option<Period>) -> (outcome: Result<
        Vec<Payment>,
        ContractError,
    >)
        requires
            old(self)@.wf(),
        ensures
            short_term_settled(old(self)@.finalize(address@, period), old(self)@, final(self)@, outcome),
            outcome is Err ==> *final(self) == *old(self),
            final(self)@.wf(),
    {
        let i = match self.find_booking(address, period) {
            Some(i) => i,
            None => {
                return Err(ContractError::NotReserved);
            },
        };
        proof {
            lemma_remove_keeps_order(old(self)@.bookings, i as int);
            assert(bookings_view(self.bookings@.remove(i as int)) =~= old(self)@.bookings.remove(i as int));
        }
        self.bookings.remove(i);
        Ok(no_payment())
    }

    /// Grants the host a withdrawal of `amount` from the deposits and pays it
    /// to `owner` in `denom`.
    pub fn withdraw_to_host(&mut self, owner: &String, amount: u128, denom: String) -> (outcome: Result<
        Vec<Payment>,
        ContractError,
    >)
        ensures
            short_term_settled(old(self)@.withdraw(owner@, amount, denom@), old(self)@, final(self)@, outcome),
            outcome is Err ==> *final(self) == *old(self),
            old(self)@.wf() ==> final(self)@.wf(),
    {
        match self.escrow.authorize_withdrawal(amount, owner, denom) {
            Ok(payment) => Ok(one_payment(payment)),
            Err(error) => Err(error),
        }
    }
}

/// Whether the bookings are in ascending order of their day of arrival.
pub open spec fn sorted_by_check_in(bookings: Seq<BookingView>) -> bool {
    forall|i: int, j: int|
        0 <= i < j < bookings.len() ==> (#[trigger] bookings[i]).period.check_in < (
        #[trigger] bookings[j]).period.check_in
}

/// Whether each booking ends strictly before the next one begins.
pub open spec fn neighbours_apart(bookings: Seq<BookingView>) -> bool {
    forall|i: int|
        0 <= i < bookings.len() - 1 ==> (#[trigger] bookings[i]).period.check_out < bookings[i
            + 1].period.check_in
}

/// An ordered calendar is sorted by day of arrival, and its neighbours are apart.
pub proof fn lemma_ordered_calendar_is_sorted(bookings: Seq<BookingView>)
    requires
        calendar_ordered(bookings),
    ensures
        sorted_by_check_in(bookings),
        neighbours_apart(bookings),
{
    assert forall|i: int, j: int| 0 <= i < j < bookings.len() implies (#[trigger] bookings[i]).period.check_in
        < (#[trigger] bookings[j]).period.check_in by {
        assert(!bookings[i].period.inverted());
    }
    assert forall|i: int| 0 <= i < bookings.len() - 1 implies (#[trigger] bookings[i]).period.check_out
        < bookings[i + 1].period.check_in by {
        assert(bookings[i].period.check_out < bookings[i + 1].period.check_in);
    }
}

/// A reservation is refused with `UnavailablePeriod` exactly where the period
/// could not be read, is inverted, or collides with a booking or touches one.
/// Neither the funds nor the guest change that.
pub proof fn lemma_unavailable_period(
    state: ShortTermRentalView,
    owner: Seq<char>,
    guest: Seq<char>,
    renting_period: Seq<Seq<char>>,
    period: Option<Period>,
    funds: CoinView,
)
    requires
        state.wf(),
    ensures
        state.reserve(owner, guest, renting_period, period, funds) == Err::<
            (ShortTermRentalView, Seq<PaymentView>),
            ContractError,
        >(ContractError::UnavailablePeriod) <==> (period is None || period->Some_0.inverted() || !period_free(
            state.bookings,
            period->Some_0,
        )),
{
    if period is Some && !period->Some_0.inverted() {
        let wanted = period->Some_0;
        if period_free(state.bookings, wanted) {
            lemma_free_period_has_gap(state.bookings, wanted);
        } else {
            let j = choose|j: int| 0 <= j < state.bookings.len() && (#[trigger] state.bookings[j]).period.collides(wanted);
            lemma_collision_leaves_no_gap(state.bookings, j, wanted);
        }
    }
}

/// A reservation for a period that overlaps a booking, or touches one on the
/// day it begins or ends, always fails with `UnavailablePeriod`.
pub proof fn lemma_colliding_reservation_is_refused(
    state: ShortTermRentalView,
    owner: Seq<char>,
    guest: Seq<char>,
    renting_period: Seq<Seq<char>>,
    period: Period,
    funds: CoinView,
)
    requires
        state.wf(),
        exists|j: int| 0 <= j < state.bookings.len() && (#[trigger] state.bookings[j]).period.collides(period),
    ensures
        state.reserve(owner, guest, renting_period, Some(period), funds) == Err::<
            (ShortTermRentalView, Seq<PaymentView>),
            ContractError,
        >(ContractError::UnavailablePeriod),
{
    lemma_unavailable_period(state, owner, guest, renting_period, Some(period), funds);
}

/// A reservation that succeeds leaves the calendar sorted by day of arrival,
/// with each booking ending strictly before the next begins, and the ledger
/// sound.
pub proof fn lemma_reservation_keeps_calendar(
    state: ShortTermRentalView,
    owner: Seq<char>,
    guest: Seq<char>,
    renting_period: Seq<Seq<char>>,
    period: Option<Period>,
    funds: CoinView,
)
    requires
        state.wf(),
    ensures
        match state.reserve(owner, guest, renting_period, period, funds) {
            Ok((after, _)) => after.wf() && sorted_by_check_in(after.bookings) && neighbours_apart(after.bookings),
            Err(_) => true,
        },
{
    match state.reserve(owner, guest, renting_period, period, funds) {
        Ok((after, _)) => {
            let wanted = period->Some_0;
            let slot = lemma_free_period_has_gap_at(state.bookings, wanted);
            lemma_insert_keeps_order(
                state.bookings,
                slot,
                state.new_booking(guest, renting_period, wanted, funds),
            );
            lemma_ordered_calendar_is_sorted(after.bookings);
        },
        Err(_) => {},
    }
}

/// The first gap of a period, where it has one, is a gap.
proof fn lemma_free_period_has_gap_at(bookings: Seq<BookingView>, period: Period) -> (slot: int)
    requires
        first_gap(bookings, period) is Some,
    ensures
        first_gap(bookings, period) == Some(slot),
        gap_at(bookings, slot, period),
{
    let slot = choose|i: int| first_gap_at(bookings, i, period);
    slot
}

/// A booking that leaves the calendar, or is approved, leaves the ledger as it
/// is: the deposits go on counting what was refunded or paid on. A rejection
/// pays nothing back, while a cancellation pays the whole deposit back to the
/// guest.
pub proof fn lemma_ledger_counts_every_deposit(
    state: ShortTermRentalView,
    owner: Seq<char>,
    address: Seq<char>,
    period: Option<Period>,
)
    ensures
        state.approve(owner, address, period) is Ok ==> state.approve(owner, address, period)->Ok_0.0.escrow
            == state.escrow,
        state.finalize(address, period) is Ok ==> state.finalize(address, period)->Ok_0.0.escrow == state.escrow,
        state.reject(address, period) is Ok ==> {
            &&& state.reject(address, period)->Ok_0.0.escrow == state.escrow
            &&& state.reject(address, period)->Ok_0.1.len() == 0
        },
        state.cancel(address, period) is Ok ==> {
            &&& state.cancel(address, period)->Ok_0.0.escrow == state.escrow
            &&& state.cancel(address, period)->Ok_0.1 == seq![
                PaymentView {
                    to_address: address,
                    denom: state.denom,
                    amount: state.bookings[booking_index(state.bookings, address, period)->Some_0].deposit_amount,
                },
            ]
        },
{
}

/// One request for a stay: who asks, for which period, with which funds.
pub struct StayRequest {
    pub guest: Seq<char>,
    pub renting_period: Seq<Seq<char>>,
    pub period: Option<Period>,
    pub funds: CoinView,
}

impl ShortTermRentalView {
    /// The state after `request`: a refused request leaves it as it was.
    pub open spec fn after_request(self, owner: Seq<char>, request: StayRequest) -> ShortTermRentalView {
        match self.reserve(owner, request.guest, request.renting_period, request.period, request.funds) {
            Ok((after, _)) => after,
            Err(_) => self,
        }
    }

    /// The state after the requests of `requests`, in order.
    pub open spec fn after_requests(self, owner: Seq<char>, requests: Seq<StayRequest>) -> ShortTermRentalView
        decreases requests.len(),
    {
        if requests.len() == 0 {
            self
        } else {
            self.after_requests(owner, requests.drop_last()).after_request(owner, requests.last())
        }
    }
}

/// Whatever stays are asked for, in whatever order, the calendar stays sorted
/// by day of arrival with each booking ending strictly before the next begins.
pub proof fn lemma_reservations_keep_calendar(
    state: ShortTermRentalView,
    owner: Seq<char>,
    requests: Seq<StayRequest>,
)
    requires
        state.wf(),
    ensures
        state.after_requests(owner, requests).wf(),
        sorted_by_check_in(state.after_requests(owner, requests).bookings),
        neighbours_apart(state.after_requests(owner, requests).bookings),
    decreases requests.len(),
{
    if requests.len() > 0 {
        let before = state.after_requests(owner, requests.drop_last());
        let request = requests.last();
        lemma_reservations_keep_calendar(state, owner, requests.drop_last());
        lemma_reservation_keeps_calendar(
            before,
            owner,
            request.guest,
            request.renting_period,
            request.period,
            request.funds,
        );
    }
    lemma_ordered_calendar_is_sorted(state.after_requests(owner, requests).bookings);
}

} // verus!
