//! The failures an operation can end in.

use vstd::prelude::*;

verus! {

/// Why an operation was refused. A refused operation leaves the record as it was.
#[derive(Clone, Copy, Debug, PartialEq, Eq, Structural)]
pub enum ContractError {
    /// The caller is neither the owner nor covered by a live approval or grant.
    NotOwner,
    /// A record already exists under the identifier.
    Claimed,
    /// The expiration given for an approval or grant has already passed.
    Expired,
    /// No reservation or booking matches the request.
    NotReserved,
    /// The booking is already approved, or bookings are approved automatically.
    ApprovedAlready,
    /// The period is malformed, inverted, or collides with a booking.
    UnavailablePeriod,
    /// The funds are in another denomination than the listing.
    InvalidDeposit,
    /// The funds do not cover the stay.
    InsufficientDeposit,
    /// A deposit was offered before the lease was activated.
    RentalNotActivated,
    /// The withdrawal exceeds what was deposited and not yet withdrawn.
    UnavailableAmount,
    /// The compliance flag has not been recorded.
    EjariNotConfirmed,
    /// The total of deposits would exceed the largest amount that can be held.
    Overflow,
}

} // verus!
