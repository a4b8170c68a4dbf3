//! Points in time at which an approval or grant lapses.

use vstd::prelude::*;

verus! {

/// The block at which an operation runs.
#[derive(Clone, Copy, Debug, PartialEq, Eq, Structural)]
pub struct BlockInfo {
    /// Height of the block.
    pub height: u64,
    /// Time of the block, in nanoseconds since the epoch.
    pub time: u64,
}

/// When an approval or grant lapses.
#[derive(Clone, Copy, Debug, PartialEq, Eq, Structural)]
pub enum Expiration {
    /// Lapses once the block height reaches this height.
    AtHeight(u64),
    /// Lapses once the block time, in nanoseconds since the epoch, reaches this time.
    AtTime(u64),
    /// Never lapses.
    Never,
}

impl Expiration {
    /// Whether this expiration has been reached at `block`.
    pub open spec fn expired_at(self, block: BlockInfo) -> bool {
        match self {
            Expiration::AtHeight(height) => block.height >= height,
            Expiration::AtTime(time) => block.time >= time,
            Expiration::Never => false,
        }
    }

    /// Whether this expiration has been reached at `block`.
    pub fn is_expired(&self, block: &BlockInfo) -> (expired: bool)
        ensures
            expired == self.expired_at(*block),
    {
        match self {
            Expiration::AtHeight(height) => block.height >= *height,
            Expiration::AtTime(time) => block.time >= *time,
            Expiration::Never => false,
        }
    }
}

impl Default for Expiration {
    /// An expiration that is not given never lapses.
    fn default() -> (expiration: Self)
        ensures
            expiration == Expiration::Never,
    {
        Expiration::Never
    }
}

/// What an optional expiration stands for: `Never` where none is given.
pub open spec fn expiration_or_never(expires: Option<Expiration>) -> Expiration {
    match expires {
        Some(expiration) => expiration,
        None => Expiration::Never,
    }
}

} // verus!
