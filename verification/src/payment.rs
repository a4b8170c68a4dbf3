//! Funds received with a call, and payments to send after it.

use vstd::prelude::*;

verus! {

/// An amount of one denomination.
#[derive(Clone, Debug, PartialEq, Eq)]
pub struct Coin {
    /// The denomination.
    pub denom: String,
    /// The amount, in the smallest unit of the denomination.
    pub amount: u128,
}

/// What a [`Coin`] holds.
pub struct CoinView {
    pub denom: Seq<char>,
    pub amount: u128,
}

impl View for Coin {
    type V = CoinView;

    open spec fn view(&self) -> CoinView {
        CoinView { denom: self.denom@, amount: self.amount }
    }
}

/// An instruction to send funds to an address once the operation has succeeded.
#[derive(Clone, Debug, PartialEq, Eq)]
pub struct Payment {
    /// The address that receives the funds.
    pub to_address: String,
    /// The denomination of the funds.
    pub denom: String,
    /// The amount to send.
    pub amount: u128,
}

/// What a [`Payment`] holds.
pub struct PaymentView {
    pub to_address: Seq<char>,
    pub denom: Seq<char>,
    pub amount: u128,
}

impl View for Payment {
    type V = PaymentView;

    open spec fn view(&self) -> PaymentView {
        PaymentView { to_address: self.to_address@, denom: self.denom@, amount: self.amount }
    }
}

/// What a list of payments holds, in order.
pub open spec fn payments_view(payments: Seq<Payment>) -> Seq<PaymentView> {
    Seq::new(payments.len(), |i: int| payments[i]@)
}

/// No payment.
pub fn no_payment() -> (payments: Vec<Payment>)
    ensures
        payments_view(payments@) == Seq::<PaymentView>::empty(),
{
    let payments: Vec<Payment> = Vec::new();
    assert(payments_view(payments@) =~= Seq::<PaymentView>::empty());
    payments
}

/// The list that holds `payment` alone.
pub fn one_payment(payment: Payment) -> (payments: Vec<Payment>)
    ensures
        payments_view(payments@) == seq![payment@],
{
    let mut payments: Vec<Payment> = Vec::new();
    payments.push(payment);
    assert(payments_view(payments@) =~= seq![payment@]);
    payments
}

} // verus!
