use vstd::prelude::*;

verus! {

/// A share of the total voting power, in whole percent.
#[derive(Clone, Copy, Debug, PartialEq, Eq, Structural)]
pub enum PercentageThreshold {
    Percent(u64),
}

/// Why a threshold was refused.
#[derive(Clone, Copy, Debug, PartialEq, Eq, Structural)]
pub enum ThresholdError {
    /// The percentage lies outside `(0, 100]`.
    InvalidThreshold,
}

impl PercentageThreshold {
    pub open spec fn percent(self) -> int {
        match self {
            PercentageThreshold::Percent(p) => p as int,
        }
    }

    /// A usable quorum: more than nothing, at most everything.
    pub open spec fn is_valid(self) -> bool {
        0 < self.percent() <= 100
    }
}

/// Quorum holds when the cast power is at least the given share of the
/// total power; with no eligible power it holds vacuously.
pub open spec fn quorum_reached(cast: int, total: int, percent: int) -> bool {
    cast * 100 >= total * percent
}

/// Accepts a quorum iff its percentage lies in `(0, 100]`.
pub fn validate_quorum(quorum: &PercentageThreshold) -> (r: Result<(), ThresholdError>)
    ensures
        r is Ok <==> quorum.is_valid(),
        r is Err ==> r == Err::<(), ThresholdError>(ThresholdError::InvalidThreshold),
{
    match quorum {
        PercentageThreshold::Percent(p) => {
            if *p == 0 || *p > 100 {
                Err(ThresholdError::InvalidThreshold)
            } else {
                Ok(())
            }
        },
    }
}

proof fn lemma_ceil_share(cast: int, total: int, p: int, a: int, b: int, c: int)
    requires
        0 <= cast,
        0 <= p <= 100,
        0 <= a,
        0 <= b < 100,
        total == 100 * a + b,
        c == (b * p + 99) / 100,
    ensures
        a * p + c <= total,
        (cast >= a * p + c) <==> quorum_reached(cast, total, p),
{
    assert(100 * c <= b * p + 99 && b * p + 99 < 100 * c + 100) by (nonlinear_arith)
        requires c == (b * p + 99) / 100, 0 <= b, 0 <= p;
    assert(a * p <= 100 * a) by (nonlinear_arith) requires 0 <= a, p <= 100;
    assert(b * p <= 100 * b) by (nonlinear_arith) requires 0 <= b, p <= 100;
    assert(total * p == 100 * (a * p) + b * p) by (nonlinear_arith)
        requires total == 100 * a + b;
}

/// Whether `cast` power out of `total` meets the quorum, in integer
/// arithmetic that cannot overflow.
pub fn does_vote_count_pass(cast: u128, total: u128, quorum: PercentageThreshold) -> (r: bool)
    requires
        quorum.percent() <= 100,
    ensures
        r == quorum_reached(cast as int, total as int, quorum.percent()),
{
    let p: u64 = match quorum {
        PercentageThreshold::Percent(p) => p,
    };
    let a: u128 = total / 100;
    let b: u128 = total % 100;
    assert(b * (p as u128) <= 100 * 100) by (nonlinear_arith) requires b < 100, p <= 100;
    let c: u128 = (b * (p as u128) + 99) / 100;
    proof {
        lemma_ceil_share(cast as int, total as int, p as int, a as int, b as int, c as int);
        assert(a * p <= a * 100) by (nonlinear_arith) requires p <= 100;
    }
    let need: u128 = a * (p as u128) + c;
    cast >= need
}

} // verus!
