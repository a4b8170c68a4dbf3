//! The commands that can be sent to a record.

use vstd::prelude::*;
use crate::expiration::Expiration;
use crate::payment::{Coin, CoinView};

verus! {

/// A command on one record. The record itself is handed over beside the
/// command, so no command names it.
#[derive(Clone, Debug, PartialEq, Eq)]
pub enum ExecuteMsg {
    /// Set where the property's metadata is found.
    SetMetadata { token_uri: String },
    /// Offer the record for a lease.
    SetListForLongTermRental {
        islisted: bool,
        denom: String,
        price_per_month: u64,
        refundable_deposit: u64,
        available_period: Vec<String>,
    },
    /// Offer the record for short stays.
    SetListForShortTermRental {
        denom: String,
        price_per_day: u64,
        auto_approve: bool,
        available_period: Vec<String>,
    },
    /// Withdraw the offer of a lease.
    SetUnlistForLongtermRental,
    /// Withdraw the offer of short stays.
    SetUnlistForShorttermRental,
    /// Reserve the lease for the caller.
    SetReservationForLongTerm {
        isreserved: bool,
        deposit_amount: u64,
        deposit_denom: String,
        renting_period: Vec<String>,
    },
    /// Book a short stay for the caller, paid with `funds`.
    SetReservationForShortTerm { renting_period: Vec<String>, funds: Coin },
    /// Approve a booking.
    SetApproveForShortTerm { traveler: String, renting_period: Vec<String> },
    /// Reject the reservation of the lease.
    RejectReservationForLongterm,
    /// Reject a booking.
    RejectReservationForShortterm { traveler: String, renting_period: Vec<String> },
    /// Cancel the caller's reservation of the lease.
    CancelReservationForLongterm,
    /// Cancel the caller's booking.
    CancelReservationForShortterm { renting_period: Vec<String> },
    /// Close a booking at the end of the stay.
    FinalizeShortTermRental { traveler: String, renting_period: Vec<String> },
    /// Take up the lease.
    ProceedLongtermRental,
    /// Record the compliance flag.
    SetEjariForLongTermRental { ejari: bool },
    /// Deposit `amount` under the lease.
    DepositForLongTermRental { amount: u128 },
    /// Pay the owner from the tenant's deposits.
    WithdrawToLandlord { amount: u128, denom: String },
    /// Pay the owner from the guests' deposits.
    WithdrawToHost { amount: u128, denom: String },
    /// Close the lease.
    FinalizeLongTermRental,
    /// Let `spender` act on the record until `expires`.
    Approve { spender: String, expires: Option<Expiration> },
    /// Take back the approval for `spender`.
    Revoke { spender: String },
    /// Hand the record to `recipient`.
    TransferNft { recipient: String },
    /// Remove the record.
    Burn,
}

/// What an [`ExecuteMsg`] holds.
pub enum ExecuteMsgView {
    SetMetadata { token_uri: Seq<char> },
    SetListForLongTermRental {
        islisted: bool,
        denom: Seq<char>,
        price_per_month: u64,
        refundable_deposit: u64,
        available_period: Seq<Seq<char>>,
    },
    SetListForShortTermRental {
        denom: Seq<char>,
        price_per_day: u64,
        auto_approve: bool,
        available_period: Seq<Seq<char>>,
    },
    SetUnlistForLongtermRental,
    SetUnlistForShorttermRental,
    SetReservationForLongTerm {
        isreserved: bool,
        deposit_amount: u64,
        deposit_denom: Seq<char>,
        renting_period: Seq<Seq<char>>,
    },
    SetReservationForShortTerm { renting_period: Seq<Seq<char>>, funds: CoinView },
    SetApproveForShortTerm { traveler: Seq<char>, renting_period: Seq<Seq<char>> },
    RejectReservationForLongterm,
    RejectReservationForShortterm { traveler: Seq<char>, renting_period: Seq<Seq<char>> },
    CancelReservationForLongterm,
    CancelReservationForShortterm { renting_period: Seq<Seq<char>> },
    FinalizeShortTermRental { traveler: Seq<char>, renting_period: Seq<Seq<char>> },
    ProceedLongtermRental,
    SetEjariForLongTermRental { ejari: bool },
    DepositForLongTermRental { amount: u128 },
    WithdrawToLandlord { amount: u128, denom: Seq<char> },
    WithdrawToHost { amount: u128, denom: Seq<char> },
    FinalizeLongTermRental,
    Approve { spender: Seq<char>, expires: Option<Expiration> },
    Revoke { spender: Seq<char> },
    TransferNft { recipient: Seq<char> },
    Burn,
}

impl View for ExecuteMsg {
    type V = ExecuteMsgView;

    open spec fn view(&self) -> ExecuteMsgView {
        match *self {
            ExecuteMsg::SetMetadata { token_uri } => ExecuteMsgView::SetMetadata { token_uri: token_uri@ },
            ExecuteMsg::SetListForLongTermRental {
                islisted,
                denom,
                price_per_month,
                refundable_deposit,
                available_period,
            } => ExecuteMsgView::SetListForLongTermRental {
                islisted,
                denom: denom@,
                price_per_month,
                refundable_deposit,
                available_period: available_period.deep_view(),
            },
            ExecuteMsg::SetListForShortTermRental {
                denom,
                price_per_day,
                auto_approve,
                available_period,
            } => ExecuteMsgView::SetListForShortTermRental {
                denom: denom@,
                price_per_day,
                auto_approve,
                available_period: available_period.deep_view(),
            },
            ExecuteMsg::SetUnlistForLongtermRental => ExecuteMsgView::SetUnlistForLongtermRental,
            ExecuteMsg::SetUnlistForShorttermRental => ExecuteMsgView::SetUnlistForShorttermRental,
            ExecuteMsg::SetReservationForLongTerm {
                isreserved,
                deposit_amount,
                deposit_denom,
                renting_period,
            } => ExecuteMsgView::SetReservationForLongTerm {
                isreserved,
                deposit_amount,
                deposit_denom: deposit_denom@,
                renting_period: renting_period.deep_view(),
            },
            ExecuteMsg::SetReservationForShortTerm {
                renting_period,
                funds,
            } => ExecuteMsgView::SetReservationForShortTerm {
                renting_period: renting_period.deep_view(),
                funds: funds@,
            },
            ExecuteMsg::SetApproveForShortTerm {
                traveler,
                renting_period,
            } => ExecuteMsgView::SetApproveForShortTerm {
                traveler: traveler@,
                renting_period: renting_period.deep_view(),
            },
            ExecuteMsg::RejectReservationForLongterm => ExecuteMsgView::RejectReservationForLongterm,
            ExecuteMsg::RejectReservationForShortterm {
                traveler,
                renting_period,
            } => ExecuteMsgView::RejectReservationForShortterm {
                traveler: traveler@,
                renting_period: renting_period.deep_view(),
            },
            ExecuteMsg::CancelReservationForLongterm => ExecuteMsgView::CancelReservationForLongterm,
            ExecuteMsg::CancelReservationForShortterm {
                renting_period,
            } => ExecuteMsgView::CancelReservationForShortterm { renting_period: renting_period.deep_view() },
            ExecuteMsg::FinalizeShortTermRental {
                traveler,
                renting_period,
            } => ExecuteMsgView::FinalizeShortTermRental {
                traveler: traveler@,
                renting_period: renting_period.deep_view(),
            },
            ExecuteMsg::ProceedLongtermRental => ExecuteMsgView::ProceedLongtermRental,
            ExecuteMsg::SetEjariForLongTermRental { ejari } => ExecuteMsgView::SetEjariForLongTermRental { ejari },
            ExecuteMsg::DepositForLongTermRental { amount } => ExecuteMsgView::DepositForLongTermRental { amount },
            ExecuteMsg::WithdrawToLandlord { amount, denom } => ExecuteMsgView::WithdrawToLandlord {
                amount,
                denom: denom@,
            },
            ExecuteMsg::WithdrawToHost { amount, denom } => ExecuteMsgView::WithdrawToHost { amount, denom: denom@ },
            ExecuteMsg::FinalizeLongTermRental => ExecuteMsgView::FinalizeLongTermRental,
            ExecuteMsg::Approve { spender, expires } => ExecuteMsgView::Approve { spender: spender@, expires },
            ExecuteMsg::Revoke { spender } => ExecuteMsgView::Revoke { spender: spender@ },
            ExecuteMsg::TransferNft { recipient } => ExecuteMsgView::TransferNft { recipient: recipient@ },
            ExecuteMsg::Burn => ExecuteMsgView::Burn,
        }
    }
}

} // verus!
