use vstd::prelude::*;
use crate::expiration::{block_not_before, lemma_expired_stays, BlockInfo};
use crate::proposal::{outcome, MultipleChoiceProposal};
use crate::state::{Ballot, MultipleChoiceOptionType};
use crate::status::Status;
use crate::votes::{accepts, after_vote, lemma_sum_update, weights_sum};

verus! {

/// The tally after counting each ballot in turn, as `add_vote` counts it.
pub open spec fn tally_after(ws: Seq<u128>, ballots: Seq<Ballot>) -> Seq<u128>
    decreases ballots.len(),
{
    if ballots.len() == 0 {
        ws
    } else {
        let b = ballots.last();
        after_vote(tally_after(ws, ballots.drop_last()), b.vote, b.power)
    }
}

/// The power of the ballots that were accepted while counting them in turn.
pub open spec fn accepted_power(ws: Seq<u128>, ballots: Seq<Ballot>) -> int
    decreases ballots.len(),
{
    if ballots.len() == 0 {
        0
    } else {
        let b = ballots.last();
        let before = tally_after(ws, ballots.drop_last());
        accepted_power(ws, ballots.drop_last()) + if accepts(before, b.vote, b.power) {
            b.power as int
        } else {
            0
        }
    }
}

/// Conservation: whatever ballots are counted, in whatever order, the
/// total power of the tally grows by exactly the power of the ballots
/// that were accepted.
pub proof fn law_conservation(ws: Seq<u128>, ballots: Seq<Ballot>)
    ensures
        weights_sum(tally_after(ws, ballots)) == weights_sum(ws) + accepted_power(ws, ballots),
    decreases ballots.len(),
{
    if ballots.len() > 0 {
        let b = ballots.last();
        let before = tally_after(ws, ballots.drop_last());
        law_conservation(ws, ballots.drop_last());
        if accepts(before, b.vote, b.power) {
            let i = b.vote.option_id as int;
            lemma_sum_update(before, i, (before[i] + b.power) as u128);
        }
    }
}

/// A decision taken before the deadline is the one the deadline brings:
/// an early pass or rejection never differs from waiting.
pub proof fn law_early_decision_is_final(
    ws: Seq<u128>,
    kinds: Seq<MultipleChoiceOptionType>,
    total_power: int,
    percent: int,
)
    ensures
        outcome(ws, kinds, total_power, percent, false) != Status::Open ==> outcome(
            ws,
            kinds,
            total_power,
            percent,
            true,
        ) == outcome(ws, kinds, total_power, percent, false),
{
}

/// Monotonicity: with no votes in between, once the status of a proposal
/// at some block is passed or rejected, it is the same at every later
/// block.
pub proof fn law_decided_status_stays(p: MultipleChoiceProposal, earlier: BlockInfo, later: BlockInfo)
    requires
        block_not_before(later, earlier),
        p.status_at(earlier) == Status::Passed || p.status_at(earlier) == Status::Rejected,
    ensures
        p.status_at(later) == p.status_at(earlier),
{
    if p.expiration.expired_at(earlier) {
        lemma_expired_stays(p.expiration, earlier, later);
    }
}

/// Round trip: storing a proposal with its status brought up to date and
/// reading it back gives the same status at the same block as before.
pub proof fn law_refreshed_status_round_trip(p: MultipleChoiceProposal, block: BlockInfo)
    ensures
        p.with_status(p.status_at(block)).status_at(block) == p.status_at(block),
{
    let q = p.with_status(p.status_at(block));
    assert(q.votes@ == p.votes@ && q.choices@ == p.choices@);
}

} // verus!
