use vstd::prelude::*;
use crate::threshold::{validate_quorum, PercentageThreshold, ThresholdError};

verus! {

/// Determines the way votes are counted.
#[derive(Clone, Copy, Debug, PartialEq, Eq, Structural)]
pub enum VotingStrategy {
    SingleChoice { quorum: PercentageThreshold },
    RankedChoice { quorum: PercentageThreshold },
}

impl VotingStrategy {
    /// The quorum that the strategy carries, whichever the strategy.
    pub open spec fn quorum(self) -> PercentageThreshold {
        match self {
            VotingStrategy::SingleChoice { quorum } => quorum,
            VotingStrategy::RankedChoice { quorum } => quorum,
        }
    }

    /// Accepts the strategy iff its quorum lies in `(0, 100]`.
    pub fn validate(&self) -> (r: Result<(), ThresholdError>)
        ensures
            r is Ok <==> self.quorum().is_valid(),
            r is Err ==> r == Err::<(), ThresholdError>(ThresholdError::InvalidThreshold),
    {
        match self {
            VotingStrategy::SingleChoice { quorum } => validate_quorum(quorum),
            VotingStrategy::RankedChoice { quorum } => validate_quorum(quorum),
        }
    }

    pub fn get_quorum(&self) -> (r: PercentageThreshold)
        ensures
            r == self.quorum(),
    {
        match self {
            VotingStrategy::SingleChoice { quorum } => *quorum,
            VotingStrategy::RankedChoice { quorum } => *quorum,
        }
    }
}

} // verus!
