use vstd::prelude::*;

verus! {

/// The chain's position: block height and block time in nanoseconds.
#[derive(Clone, Copy, Debug, PartialEq, Eq, Structural)]
pub struct BlockInfo {
    pub height: u64,
    pub time: u64,
}

/// A deadline, by block height or by block time (nanoseconds), or none.
#[derive(Clone, Copy, Debug, PartialEq, Eq, Structural)]
pub enum Expiration {
    AtHeight(u64),
    AtTime(u64),
    Never,
}

/// `later` comes no earlier than `earlier`, by height and by time.
pub open spec fn block_not_before(later: BlockInfo, earlier: BlockInfo) -> bool {
    later.height >= earlier.height && later.time >= earlier.time
}

impl Expiration {
    /// The deadline has been reached at `block`.
    pub open spec fn expired_at(self, block: BlockInfo) -> bool {
        match self {
            Expiration::AtHeight(h) => block.height >= h,
            Expiration::AtTime(t) => block.time >= t,
            Expiration::Never => false,
        }
    }

    pub fn is_expired(&self, block: &BlockInfo) -> (r: bool)
        ensures
            r == self.expired_at(*block),
    {
        match self {
            Expiration::AtHeight(h) => block.height >= *h,
            Expiration::AtTime(t) => block.time >= *t,
            Expiration::Never => false,
        }
    }
}

/// Once a deadline has been reached it stays reached.
pub proof fn lemma_expired_stays(e: Expiration, earlier: BlockInfo, later: BlockInfo)
    requires
        block_not_before(later, earlier),
        e.expired_at(earlier),
    ensures
        e.expired_at(later),
{
}

} // verus!
