use vstd::prelude::*;
use crate::expiration::{BlockInfo, Expiration};
use crate::state::{CheckedDepositInfo, MultipleChoiceOption, MultipleChoiceOptionType};
use crate::status::Status;
use crate::threshold::{does_vote_count_pass, quorum_reached, PercentageThreshold};
use crate::votes::{
    lemma_sum_update, weights_sum, MultipleChoiceVote, MultipleChoiceVotes, VoteError,
};
use crate::voting_strategy::VotingStrategy;

verus! {

/// Choice `i` holds strictly more power than every other choice.
pub open spec fn is_unique_max(ws: Seq<u128>, i: int) -> bool {
    &&& 0 <= i < ws.len()
    &&& forall|j: int| 0 <= j < ws.len() && j != i ==> #[trigger] ws[j] < ws[i]
}

/// Some choice leads all others; otherwise the lead is tied.
pub open spec fn has_single_winner(ws: Seq<u128>) -> bool {
    exists|i: int| is_unique_max(ws, i)
}

/// The leading choice, where there is one.
pub open spec fn winner_of(ws: Seq<u128>) -> int {
    choose|i: int| is_unique_max(ws, i)
}

/// Even if all `remaining` power went to any single other choice, choice
/// `w` would still strictly lead it.
pub open spec fn unbeatable(ws: Seq<u128>, w: int, remaining: int) -> bool {
    forall|j: int| 0 <= j < ws.len() && j != w ==> #[trigger] ws[j] + remaining < ws[w]
}

/// The status that the tally decides, given whether the deadline has passed.
pub open spec fn outcome(
    ws: Seq<u128>,
    kinds: Seq<MultipleChoiceOptionType>,
    total_power: int,
    percent: int,
    expired: bool,
) -> Status {
    let cast = weights_sum(ws);
    let quorum = quorum_reached(cast, total_power, percent);
    if has_single_winner(ws) {
        let w = winner_of(ws);
        let none = kinds[w] == MultipleChoiceOptionType::NoneOfTheAbove;
        let sure = unbeatable(ws, w, total_power - cast);
        if expired {
            if quorum && !none {
                Status::Passed
            } else {
                Status::Rejected
            }
        } else if none && sure {
            Status::Rejected
        } else if quorum && !none && sure {
            Status::Passed
        } else {
            Status::Open
        }
    } else if expired {
        Status::Rejected
    } else {
        Status::Open
    }
}

/// How many choices are "none of the above".
pub open spec fn none_count(kinds: Seq<MultipleChoiceOptionType>) -> nat
    decreases kinds.len(),
{
    if kinds.len() == 0 {
        0
    } else {
        none_count(kinds.drop_last()) + if kinds.last() == MultipleChoiceOptionType::NoneOfTheAbove {
            1nat
        } else {
            0nat
        }
    }
}

pub proof fn lemma_winner_unique(ws: Seq<u128>, i: int)
    requires
        is_unique_max(ws, i),
    ensures
        has_single_winner(ws),
        winner_of(ws) == i,
{
    let k = winner_of(ws);
    if k != i {
        assert(ws[k] < ws[i]);
        assert(ws[i] < ws[k]);
    }
}

/// The result of counting: one leading choice, by index, or a tie for the lead.
#[derive(Clone, Copy, Debug, PartialEq, Eq, Structural)]
pub enum VoteResult {
    SingleWinner(usize),
    Tie,
}

/// Why a proposal could not be made or moved on.
#[derive(Clone, Copy, Debug, PartialEq, Eq, Structural)]
pub enum ProposalError {
    /// The quorum lies outside `(0, 100]`.
    InvalidThreshold,
    /// The proposal offers no choices.
    NoChoices,
    /// No choice, or more than one, is "none of the above".
    MissingNoneOption,
    /// Ranked choice counting is not available.
    UnsupportedStrategy,
    /// The proposal's status does not allow the requested change.
    IllegalTransition,
}

/// What the capability of a proposal kind offers to the governance module.
pub trait Proposal {
    fn proposer(&self) -> String;

    fn deposit_info(&self) -> Option<CheckedDepositInfo>;

    fn status(&self) -> Status;
}

#[derive(Clone, Debug)]
pub struct MultipleChoiceProposal {
    pub title: String,
    pub description: String,
    pub proposer: String,
    pub start_height: u64,
    pub expiration: Expiration,
    pub choices: Vec<MultipleChoiceOption>,
    pub status: Status,
    pub voting_strategy: VotingStrategy,
    /// The total power when the proposal started (used to calculate percentages)
    pub total_power: u128,
    pub votes: MultipleChoiceVotes,
    /// Information about the deposit that was sent as part of this
    /// proposal. None if no deposit.
    pub deposit_info: Option<CheckedDepositInfo>,
}

/// A proposal with its id, as a query returns it.
#[derive(Clone, Debug)]
pub struct ProposalResponse {
    pub id: u64,
    pub proposal: MultipleChoiceProposal,
}

/// The kind of each choice, by index.
pub open spec fn kinds_of(choices: Seq<MultipleChoiceOption>) -> Seq<MultipleChoiceOptionType> {
    choices.map_values(|c: MultipleChoiceOption| c.option_type)
}

impl MultipleChoiceProposal {
    pub open spec fn kinds(&self) -> Seq<MultipleChoiceOptionType> {
        kinds_of(self.choices@)
    }

    pub open spec fn cast(&self) -> int {
        weights_sum(self.votes@)
    }

    /// A proposal that the counting rules can be applied to.
    pub open spec fn wf(&self) -> bool {
        &&& self.choices@.len() > 0
        &&& self.votes@.len() == self.choices@.len()
        &&& none_count(self.kinds()) == 1
        &&& self.voting_strategy is SingleChoice
        &&& self.voting_strategy.quorum().is_valid()
        &&& self.cast() <= self.total_power
    }

    /// What the tally decides at `block`, whatever the stored status.
    pub open spec fn outcome_at(&self, block: BlockInfo) -> Status {
        outcome(
            self.votes@,
            self.kinds(),
            self.total_power as int,
            self.voting_strategy.quorum().percent(),
            self.expiration.expired_at(block),
        )
    }

    /// The status at `block`: an open proposal takes what the tally decides;
    /// any other status stays.
    pub open spec fn status_at(&self, block: BlockInfo) -> Status {
        if self.status == Status::Open {
            self.outcome_at(block)
        } else {
            self.status
        }
    }

    /// The same proposal with another status.
    pub open spec fn with_status(&self, s: Status) -> MultipleChoiceProposal {
        MultipleChoiceProposal { status: s, ..*self }
    }

    /// Finds the choice holding the most power, or a tie where two or more
    /// choices share the most.
    pub fn calculate_vote_result(&self) -> (r: VoteResult)
        requires
            self.wf(),
        ensures
            r is Tie <==> !has_single_winner(self.votes@),
            r is SingleWinner ==> is_unique_max(self.votes@, r->SingleWinner_0 as int),
    {
        let ws = &self.votes.vote_weights;
        let n = ws.len();
        let mut best: usize = 0;
        let mut tied: bool = false;
        let mut i: usize = 1;
        while i < n
            invariant
                n == ws@.len(),
                n > 0,
                1 <= i <= n,
                best < i,
                forall|k: int| 0 <= k < i ==> #[trigger] ws@[k] <= ws@[best as int],
                tied <==> exists|k: int|
                    0 <= k < i && k != best && #[trigger] ws@[k] == ws@[best as int],
            decreases n - i,
        {
            if ws[i] > ws[best] {
                best = i;
                tied = false;
            } else if ws[i] == ws[best] {
                tied = true;
            }
            i = i + 1;
        }
        if tied {
            proof {
                let k = choose|k: int| 0 <= k < n && k != best && ws@[k] == ws@[best as int];
                assert forall|m: int| !is_unique_max(ws@, m) by {
                    if is_unique_max(ws@, m) {
                        if m == best {
                            assert(ws@[k] < ws@[m]);
                        } else {
                            assert(ws@[best as int] < ws@[m]);
                            assert(ws@[m] <= ws@[best as int]);
                        }
                    }
                }
            }
            VoteResult::Tie
        } else {
            proof {
                assert forall|j: int| 0 <= j < ws@.len() && j != best implies #[trigger] ws@[j]
                    < ws@[best as int] by {
                    assert(ws@[j] <= ws@[best as int]);
                }
                assert(is_unique_max(ws@, best as int));
            }
            VoteResult::SingleWinner(best)
        }
    }

    /// Whether the choice at `w` cannot be overtaken by any other choice,
    /// whatever becomes of the power not yet cast.
    fn is_choice_unbeatable(&self, w: usize) -> (r: bool)
        requires
            self.wf(),
            w < self.votes@.len(),
        ensures
            r == unbeatable(self.votes@, w as int, self.total_power - self.cast()),
    {
        let ws = &self.votes.vote_weights;
        let remaining = self.total_power - self.votes.total();
        let n = ws.len();
        let mut j: usize = 0;
        while j < n
            invariant
                n == ws@.len(),
                w < n,
                j <= n,
                ws@ == self.votes@,
                self.wf(),
                remaining == self.total_power - self.cast(),
                forall|k: int| 0 <= k < j && k != w ==> #[trigger] ws@[k] + remaining < ws@[w as int],
            decreases n - j,
        {
            if j != w {
                proof {
                    lemma_sum_update(ws@, j as int, ws@[j as int]);
                }
                if ws[j] + remaining >= ws[w] {
                    return false;
                }
            }
            j = j + 1;
        }
        true
    }

    /// Whether the tally passes the proposal at `block`: quorum, a single
    /// leading choice that is not "none of the above", and either the
    /// deadline reached or a lead that cannot be overtaken.
    pub fn is_passed(&self, block: &BlockInfo) -> (r: bool)
        requires
            self.wf(),
        ensures
            r == (self.outcome_at(*block) == Status::Passed),
    {
        let quorum = does_vote_count_pass(
            self.votes.total(),
            self.total_power,
            self.voting_strategy.get_quorum(),
        );
        if !quorum {
            return false;
        }
        match self.calculate_vote_result() {
            VoteResult::Tie => false,
            VoteResult::SingleWinner(w) => {
                proof {
                    lemma_winner_unique(self.votes@, w as int);
                }
                if self.choices[w].option_type == MultipleChoiceOptionType::NoneOfTheAbove {
                    false
                } else if self.expiration.is_expired(block) {
                    true
                } else {
                    self.is_choice_unbeatable(w)
                }
            },
        }
    }

    /// Whether the tally rejects the proposal at `block`: at the deadline
    /// anything but a pass; before it, only a lead of "none of the above"
    /// that cannot be overtaken.
    pub fn is_rejected(&self, block: &BlockInfo) -> (r: bool)
        requires
            self.wf(),
        ensures
            r == (self.outcome_at(*block) == Status::Rejected),
    {
        let expired = self.expiration.is_expired(block);
        match self.calculate_vote_result() {
            VoteResult::Tie => expired,
            VoteResult::SingleWinner(w) => {
                proof {
                    lemma_winner_unique(self.votes@, w as int);
                }
                let none = self.choices[w].option_type == MultipleChoiceOptionType::NoneOfTheAbove;
                if expired {
                    let quorum = does_vote_count_pass(
                        self.votes.total(),
                        self.total_power,
                        self.voting_strategy.get_quorum(),
                    );
                    none || !quorum
                } else if none {
                    self.is_choice_unbeatable(w)
                } else {
                    false
                }
            },
        }
    }

    /// Gets the current status of the proposal.
    pub fn current_status(&self, block: &BlockInfo) -> (r: Status)
        requires
            self.wf(),
        ensures
            r == self.status_at(*block),
    {
        if self.status == Status::Open && self.is_passed(block) {
            Status::Passed
        } else if self.status == Status::Open && self.is_rejected(block) {
            Status::Rejected
        } else {
            self.status
        }
    }

    /// Sets a proposals status to its current status.
    pub fn update_status(&mut self, block: &BlockInfo)
        requires
            old(self).wf(),
        ensures
            *final(self) == old(self).with_status(old(self).status_at(*block)),
            final(self).wf(),
    {
        self.status = self.current_status(block);
    }

    /// Makes an open proposal with no votes cast, after checking its
    /// configuration: the quorum first, then the strategy, then the choices.
    pub fn new(
        title: String,
        description: String,
        proposer: String,
        start_height: u64,
        expiration: Expiration,
        choices: Vec<MultipleChoiceOption>,
        voting_strategy: VotingStrategy,
        total_power: u128,
        deposit_info: Option<CheckedDepositInfo>,
    ) -> (r: Result<Self, ProposalError>)
        ensures
            !voting_strategy.quorum().is_valid() ==> r == Err::<Self, ProposalError>(
                ProposalError::InvalidThreshold,
            ),
            voting_strategy.quorum().is_valid() && voting_strategy is RankedChoice ==> r == Err::<
                Self,
                ProposalError,
            >(ProposalError::UnsupportedStrategy),
            voting_strategy.quorum().is_valid() && voting_strategy is SingleChoice
                && choices@.len() == 0 ==> r == Err::<Self, ProposalError>(
                ProposalError::NoChoices,
            ),
            voting_strategy.quorum().is_valid() && voting_strategy is SingleChoice
                && choices@.len() > 0 && none_count(kinds_of(choices@)) != 1 ==> r == Err::<
                Self,
                ProposalError,
            >(ProposalError::MissingNoneOption),
            r is Ok <==> voting_strategy.quorum().is_valid() && voting_strategy is SingleChoice
                && choices@.len() > 0 && none_count(kinds_of(choices@)) == 1,
            r is Ok ==> {
                let p = r->Ok_0;
                &&& p.wf()
                &&& p.title == title
                &&& p.description == description
                &&& p.proposer == proposer
                &&& p.start_height == start_height
                &&& p.expiration == expiration
                &&& p.choices@ == choices@
                &&& p.status == Status::Open
                &&& p.voting_strategy == voting_strategy
                &&& p.total_power == total_power
                &&& p.votes@ == Seq::new(choices@.len(), |i: int| 0u128)
                &&& p.deposit_info == deposit_info
            },
    {
        if voting_strategy.validate().is_err() {
            return Err(ProposalError::InvalidThreshold);
        }
        if let VotingStrategy::RankedChoice { .. } = voting_strategy {
            return Err(ProposalError::UnsupportedStrategy);
        }
        if choices.len() == 0 {
            return Err(ProposalError::NoChoices);
        }
        let ghost kinds = kinds_of(choices@);
        let mut count: usize = 0;
        let mut i: usize = 0;
        assert(kinds.take(0) =~= Seq::<MultipleChoiceOptionType>::empty());
        while i < choices.len()
            invariant
                i <= choices@.len(),
                kinds == kinds_of(choices@),
                count == none_count(kinds.take(i as int)),
                count <= i,
            decreases choices@.len() - i,
        {
            assert(kinds.take(i + 1).drop_last() =~= kinds.take(i as int));
            if choices[i].option_type == MultipleChoiceOptionType::NoneOfTheAbove {
                count = count + 1;
            }
            i = i + 1;
        }
        assert(kinds.take(choices@.len() as int) =~= kinds);
        if count != 1 {
            return Err(ProposalError::MissingNoneOption);
        }
        let votes = MultipleChoiceVotes::zero(choices.len());
        Ok(MultipleChoiceProposal {
            title,
            description,
            proposer,
            start_height,
            expiration,
            choices,
            status: Status::Open,
            voting_strategy,
            total_power,
            votes,
            deposit_info,
        })
    }

    /// Counts `power` for the choice that `vote` names. The power must fit in
    /// what has not been cast yet. Nothing changes on an error.
    pub fn record_vote(&mut self, vote: MultipleChoiceVote, power: u128) -> (r: Result<(), VoteError>)
        requires
            old(self).wf(),
            old(self).cast() + power <= old(self).total_power,
        ensures
            final(self).wf(),
            r is Ok <==> vote.option_id < old(self).votes@.len(),
            r is Err ==> r == Err::<(), VoteError>(VoteError::InvalidChoiceIndex),
            r is Ok ==> final(self).votes@ == old(self).votes@.update(
                vote.option_id as int,
                (old(self).votes@[vote.option_id as int] + power) as u128,
            ),
            r is Ok ==> final(self).cast() == old(self).cast() + power,
            r is Err ==> final(self).votes@ == old(self).votes@,
            (MultipleChoiceProposal { votes: final(self).votes, ..*old(self) }) == *final(self),
    {
        self.votes.add_vote(vote, power)
    }

    /// Moves a passed proposal to executed, after bringing its status up to
    /// date. Any other status is refused, and then only the update stays.
    pub fn execute(&mut self, block: &BlockInfo) -> (r: Result<(), ProposalError>)
        requires
            old(self).wf(),
        ensures
            final(self).wf(),
            old(self).status_at(*block) == Status::Passed ==> r is Ok && *final(self) == old(
                self,
            ).with_status(Status::Executed),
            old(self).status_at(*block) != Status::Passed ==> r == Err::<(), ProposalError>(
                ProposalError::IllegalTransition,
            ) && *final(self) == old(self).with_status(old(self).status_at(*block)),
    {
        self.update_status(block);
        if self.status == Status::Passed {
            self.status = Status::Executed;
            Ok(())
        } else {
            Err(ProposalError::IllegalTransition)
        }
    }

    /// Moves a passed or rejected proposal to closed, after bringing its
    /// status up to date. Any other status is refused, and then only the
    /// update stays.
    pub fn close(&mut self, block: &BlockInfo) -> (r: Result<(), ProposalError>)
        requires
            old(self).wf(),
        ensures
            final(self).wf(),
            ({
                let s = old(self).status_at(*block);
                s == Status::Passed || s == Status::Rejected
            }) ==> r is Ok && *final(self) == old(self).with_status(Status::Closed),
            !({
                let s = old(self).status_at(*block);
                s == Status::Passed || s == Status::Rejected
            }) ==> r == Err::<(), ProposalError>(ProposalError::IllegalTransition) && *final(self)
                == old(self).with_status(old(self).status_at(*block)),
    {
        self.update_status(block);
        if self.status == Status::Passed || self.status == Status::Rejected {
            self.status = Status::Closed;
            Ok(())
        } else {
            Err(ProposalError::IllegalTransition)
        }
    }

    /// Consumes the proposal and returns it for a query response, with
    /// its status brought up to date: stored statuses change only on
    /// vote, execute and close, while the deadline may have passed since.
    pub fn into_response(self, block: &BlockInfo, id: u64) -> (r: ProposalResponse)
        requires
            self.wf(),
        ensures
            r.id == id,
            r.proposal == self.with_status(self.status_at(*block)),
    {
        let mut p = self;
        p.update_status(block);
        ProposalResponse { id, proposal: p }
    }
}

impl Proposal for MultipleChoiceProposal {
    fn proposer(&self) -> String {
        self.proposer.clone()
    }

    fn deposit_info(&self) -> Option<CheckedDepositInfo> {
        self.deposit_info.clone()
    }

    fn status(&self) -> Status {
        self.status
    }
}

} // verus!
