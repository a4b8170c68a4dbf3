//! The record of one tokenized property, and who may act on it.

use vstd::prelude::*;
use crate::error::ContractError;
use crate::expiration::{BlockInfo, Expiration};
use crate::longterm::{LongTermRental, LongTermRentalView};
use crate::payment::{Payment, PaymentView, payments_view};
use crate::shortterm::{ShortTermRental, ShortTermRentalView};

verus! {

/// Leave of the owner for one spender to act on one record, until it lapses.
#[derive(Clone, Debug, PartialEq, Eq)]
pub struct Approval {
    /// The address that may act.
    pub spender: String,
    /// When the approval lapses.
    pub expires: Expiration,
}

/// What an [`Approval`] holds.
pub struct ApprovalView {
    pub spender: Seq<char>,
    pub expires: Expiration,
}

impl View for Approval {
    type V = ApprovalView;

    open spec fn view(&self) -> ApprovalView {
        ApprovalView { spender: self.spender@, expires: self.expires }
    }
}

impl Approval {
    /// Whether the approval has lapsed at `block`.
    pub fn is_expired(&self, block: &BlockInfo) -> (expired: bool)
        ensures
            expired == self.expires.expired_at(*block),
    {
        self.expires.is_expired(block)
    }
}

/// What an optional string holds.
pub open spec fn option_string_view(text: Option<String>) -> Option<Seq<char>> {
    match text {
        Some(text) => Some(text@),
        None => None,
    }
}

/// What a list of approvals holds, in order.
pub open spec fn approvals_view(approvals: Seq<Approval>) -> Seq<ApprovalView> {
    Seq::new(approvals.len(), |i: int| approvals[i]@)
}

/// Whether no two approvals of the list are for the same spender.
pub open spec fn spenders_unique(approvals: Seq<ApprovalView>) -> bool {
    forall|i: int, j: int|
        0 <= i < j < approvals.len() ==> (#[trigger] approvals[i]).spender != (#[trigger] approvals[j]).spender
}

/// Who calls, at which block, and with which blanket grant.
#[derive(Clone, Debug, PartialEq, Eq)]
pub struct Caller {
    /// The caller's address.
    pub sender: String,
    /// The block at which the call runs.
    pub block: BlockInfo,
    /// The grant, if there is one, by which the record's owner lets the caller
    /// act on all the owner's records: when it lapses.
    pub operator_grant: Option<Expiration>,
}

/// What a [`Caller`] holds.
pub struct CallerView {
    pub sender: Seq<char>,
    pub block: BlockInfo,
    pub operator_grant: Option<Expiration>,
}

impl View for Caller {
    type V = CallerView;

    open spec fn view(&self) -> CallerView {
        CallerView { sender: self.sender@, block: self.block, operator_grant: self.operator_grant }
    }
}

impl CallerView {
    /// Whether the caller holds a blanket grant of the owner that has not lapsed.
    pub open spec fn grant_is_live(self) -> bool {
        match self.operator_grant {
            Some(expires) => !expires.expired_at(self.block),
            None => false,
        }
    }
}

/// The record of one tokenized property.
#[derive(Clone, Debug, PartialEq, Eq)]
pub struct TokenInfo<T> {
    /// The owner.
    pub owner: String,
    /// Approvals for single spenders, at most one for each.
    pub approvals: Vec<Approval>,
    /// Where the property's metadata is found.
    pub token_uri: Option<String>,
    /// Further data that no rule reads.
    pub extension: T,
    /// The long-term side of the record.
    pub longterm_rental: LongTermRental,
    /// The short-stay side of the record.
    pub shortterm_rental: ShortTermRental,
}

/// What a [`TokenInfo`] holds.
pub struct TokenInfoView<T> {
    pub owner: Seq<char>,
    pub approvals: Seq<ApprovalView>,
    pub token_uri: Option<Seq<char>>,
    pub extension: T,
    pub longterm_rental: LongTermRentalView,
    pub shortterm_rental: ShortTermRentalView,
}

impl<T> View for TokenInfo<T> {
    type V = TokenInfoView<T>;

    open spec fn view(&self) -> TokenInfoView<T> {
        TokenInfoView {
            owner: self.owner@,
            approvals: approvals_view(self.approvals@),
            token_uri: option_string_view(self.token_uri),
            extension: self.extension,
            longterm_rental: self.longterm_rental@,
            shortterm_rental: self.shortterm_rental@,
        }
    }
}

impl<T> TokenInfoView<T> {
    /// A new record of `owner`: no approval, both sides empty.
    pub open spec fn fresh(owner: Seq<char>, token_uri: Option<Seq<char>>, extension: T) -> TokenInfoView<T> {
        TokenInfoView {
            owner,
            approvals: Seq::empty(),
            token_uri,
            extension,
            longterm_rental: LongTermRentalView::empty(),
            shortterm_rental: ShortTermRentalView::empty(),
        }
    }

    /// The record's invariant: both sides hold theirs, and no two approvals
    /// are for the same spender.
    pub open spec fn wf(self) -> bool {
        &&& self.longterm_rental.wf()
        &&& self.shortterm_rental.wf()
        &&& spenders_unique(self.approvals)
    }

    /// Whether `caller` may act as the owner: the caller is the owner, or holds
    /// a blanket grant of the owner that has not lapsed.
    pub open spec fn can_approve(self, caller: CallerView) -> bool {
        caller.sender == self.owner || caller.grant_is_live()
    }

    /// Whether the approval at position `i` is for `caller` and has not lapsed.
    pub open spec fn approves(self, i: int, caller: CallerView) -> bool {
        &&& 0 <= i < self.approvals.len()
        &&& self.approvals[i].spender == caller.sender
        &&& !self.approvals[i].expires.expired_at(caller.block)
    }

    /// Whether `caller` may dispose of the record: the caller is the owner,
    /// holds an approval for this record that has not lapsed, or holds a
    /// blanket grant of the owner that has not lapsed.
    pub open spec fn can_send(self, caller: CallerView) -> bool {
        ||| caller.sender == self.owner
        ||| exists|i: int| self.approves(i, caller)
        ||| caller.grant_is_live()
    }
}

/// What an operation on a record does: the new record and the payments to
/// send, or the failure.
pub type TokenOutcome<T> = Result<(TokenInfoView<T>, Seq<PaymentView>), ContractError>;

/// Whether `before`, `after` and `outcome` are what `expected` says: on success
/// the new record and the payments, on failure the error and the old record.
pub open spec fn settled<T>(
    expected: TokenOutcome<T>,
    before: TokenInfo<T>,
    after: TokenInfo<T>,
    outcome: Result<Vec<Payment>, ContractError>,
) -> bool {
    match expected {
        Ok((record, payments)) => outcome is Ok && after@ == record && payments_view(outcome->Ok_0@)
            == payments,
        Err(error) => outcome is Err && outcome->Err_0 == error && after == before,
    }
}

impl Caller {
    /// Whether the caller holds a blanket grant of the owner that has not lapsed.
    pub fn grant_is_live(&self) -> (live: bool)
        ensures
            live == self@.grant_is_live(),
    {
        match &self.operator_grant {
            Some(expires) => !expires.is_expired(&self.block),
            None => false,
        }
    }
}

impl<T> TokenInfo<T> {
    /// A new record of `owner`.
    pub fn new(owner: String, token_uri: Option<String>, extension: T) -> (token: TokenInfo<T>)
        ensures
            token@ == TokenInfoView::fresh(owner@, option_string_view(token_uri), extension),
            token@.wf(),
    {
        let token = TokenInfo {
            owner,
            approvals: Vec::new(),
            token_uri,
            extension,
            longterm_rental: LongTermRental::new(),
            shortterm_rental: ShortTermRental::new(),
        };
        assert(token@.approvals =~= Seq::empty());
        token
    }

    /// Whether the record's invariant holds.
    pub fn is_wf(&self) -> (valid: bool)
        ensures
            valid == self@.wf(),
    {
        if !self.longterm_rental.is_wf() || !self.shortterm_rental.is_wf() {
            return false;
        }
        let ghost approvals = self@.approvals;
        let mut j: usize = 0;
        while j < self.approvals.len()
            invariant
                j <= self.approvals.len(),
                approvals == self@.approvals,
                spenders_unique(approvals.take(j as int)),
            decreases self.approvals.len() - j,
        {
            let mut i: usize = 0;
            while i < j
                invariant
                    i <= j < self.approvals.len(),
                    approvals == self@.approvals,
                    forall|k: int| 0 <= k < i ==> (#[trigger] approvals[k]).spender != approvals[j as int].spender,
                decreases j - i,
            {
                assert(approvals[i as int] == self.approvals[i as int]@);
                assert(approvals[j as int] == self.approvals[j as int]@);
                if self.approvals[i].spender == self.approvals[j].spender {
                    return false;
                }
                i += 1;
            }
            proof {
                let before = approvals.take(j as int);
                let now = approvals.take(j + 1);
                assert forall|a: int, b: int| 0 <= a < b < now.len() implies (#[trigger] now[a]).spender != (
                #[trigger] now[b]).spender by {
                    if b < j {
                        assert(now[a] == before[a]);
                        assert(now[b] == before[b]);
                    } else {
                        assert(now[a] == approvals[a]);
                    }
                }
            }
            j += 1;
        }
        assert(approvals.take(j as int) =~= approvals);
        true
    }

    /// Whether `caller` may act as the owner.
    pub fn can_approve(&self, caller: &Caller) -> (allowed: bool)
        ensures
            allowed == self@.can_approve(caller@),
    {
        self.owner == caller.sender || caller.grant_is_live()
    }

    /// Whether `caller` may dispose of the record.
    pub fn can_send(&self, caller: &Caller) -> (allowed: bool)
        ensures
            allowed == self@.can_send(caller@),
    {
        if self.owner == caller.sender {
            return true;
        }
        let mut i: usize = 0;
        while i < self.approvals.len()
            invariant
                i <= self.approvals.len(),
                forall|k: int| 0 <= k < i ==> !self@.approves(k, caller@),
            decreases self.approvals.len() - i,
        {
            assert(self@.approvals[i as int] == self.approvals[i as int]@);
            if self.approvals[i].spender == caller.sender && !self.approvals[i].is_expired(&caller.block) {
                assert(self@.approves(i as int, caller@));
                return true;
            }
            i += 1;
        }
        caller.grant_is_live()
    }
}

} // verus!
