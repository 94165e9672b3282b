use vstd::prelude::*;

verus! {

/// The sum of a sequence of powers.
pub open spec fn weights_sum(s: Seq<u128>) -> int
    decreases s.len(),
{
    if s.len() == 0 {
        0
    } else {
        weights_sum(s.drop_last()) + s.last()
    }
}

/// Whether a tally `ws` can count `power` for `vote`: the choice exists
/// and the total stays within the integer width.
pub open spec fn accepts(ws: Seq<u128>, vote: MultipleChoiceVote, power: u128) -> bool {
    vote.option_id < ws.len() && weights_sum(ws) + power <= u128::MAX
}

/// The tally after counting `power` for `vote`, or `ws` as it was where the
/// vote is not accepted.
pub open spec fn after_vote(ws: Seq<u128>, vote: MultipleChoiceVote, power: u128) -> Seq<u128> {
    if accepts(ws, vote, power) {
        ws.update(vote.option_id as int, (ws[vote.option_id as int] + power) as u128)
    } else {
        ws
    }
}

/// A voter's position on a multiple choice proposal: the index of the
/// choice voted for.
#[derive(Clone, Copy, Debug, PartialEq, Eq, Structural)]
pub struct MultipleChoiceVote {
    pub option_id: u32,
}

/// Why a vote could not be counted.
#[derive(Clone, Copy, Debug, PartialEq, Eq, Structural)]
pub enum VoteError {
    /// The vote names a choice that does not exist.
    InvalidChoiceIndex,
    /// Counting the vote would overflow the total power.
    ArithmeticOverflow,
}

/// Voting power accumulated by each choice, by index.
#[derive(Clone, Debug)]
pub struct MultipleChoiceVotes {
    pub vote_weights: Vec<u128>,
}

impl View for MultipleChoiceVotes {
    type V = Seq<u128>;

    open spec fn view(&self) -> Seq<u128> {
        self.vote_weights@
    }
}

pub proof fn lemma_sum_prefix(s: Seq<u128>, i: int)
    requires
        0 <= i < s.len(),
    ensures
        weights_sum(s.take(i + 1)) == weights_sum(s.take(i)) + s[i],
        weights_sum(s.take(i + 1)) <= weights_sum(s),
    decreases s.len(),
{
    assert(s.take(i + 1).drop_last() =~= s.take(i));
    if i + 1 < s.len() {
        lemma_sum_prefix(s.drop_last(), i);
        assert(s.drop_last().take(i + 1) =~= s.take(i + 1));
        assert(s.drop_last().take(i) =~= s.take(i));
        if i + 1 < s.len() - 1 {
            lemma_sum_prefix(s.drop_last(), i + 1);
            assert(s.drop_last().take(i + 2) =~= s.take(i + 2));
        } else {
            assert(s.drop_last().take(i + 1) =~= s.drop_last());
        }
    } else {
        assert(s.take(i + 1) =~= s);
    }
}

/// Adding `p` to one entry adds `p` to the sum; each entry is at most the sum.
pub proof fn lemma_sum_update(s: Seq<u128>, i: int, v: u128)
    requires
        0 <= i < s.len(),
    ensures
        weights_sum(s.update(i, v)) == weights_sum(s) - s[i] + v,
        s[i] <= weights_sum(s),
    decreases s.len(),
{
    let t = s.update(i, v);
    if i == s.len() - 1 {
        assert(t.drop_last() =~= s.drop_last());
    } else {
        lemma_sum_update(s.drop_last(), i, v);
        assert(t.drop_last() =~= s.drop_last().update(i, v));
    }
    lemma_sum_nonneg(s.drop_last());
}

pub proof fn lemma_sum_nonneg(s: Seq<u128>)
    ensures
        weights_sum(s) >= 0,
    decreases s.len(),
{
    if s.len() > 0 {
        lemma_sum_nonneg(s.drop_last());
    }
}

impl MultipleChoiceVotes {
    /// The accumulated power fits in the integer width.
    pub open spec fn wf(&self) -> bool {
        weights_sum(self@) <= u128::MAX
    }

    /// A tally of `num_choices` choices, each at zero.
    pub fn zero(num_choices: usize) -> (r: Self)
        ensures
            r@ == Seq::new(num_choices as nat, |i: int| 0u128),
            weights_sum(r@) == 0,
            r.wf(),
    {
        let mut w: Vec<u128> = Vec::new();
        let mut i: usize = 0;
        while i < num_choices
            invariant
                i <= num_choices,
                w@ == Seq::new(i as nat, |j: int| 0u128),
                weights_sum(w@) == 0,
            decreases num_choices - i,
        {
            w.push(0);
            proof {
                assert(w@.drop_last() =~= Seq::new(i as nat, |j: int| 0u128));
            }
            i = i + 1;
        }
        assert(w@ =~= Seq::new(num_choices as nat, |i: int| 0u128));
        MultipleChoiceVotes { vote_weights: w }
    }

    /// The sum of the power held by all choices.
    pub fn total(&self) -> (r: u128)
        requires
            self.wf(),
        ensures
            r == weights_sum(self@),
    {
        let mut acc: u128 = 0;
        let mut i: usize = 0;
        let n = self.vote_weights.len();
        assert(self@.take(0) =~= Seq::<u128>::empty());
        while i < n
            invariant
                n == self@.len(),
                i <= n,
                self.wf(),
                acc == weights_sum(self@.take(i as int)),
            decreases n - i,
        {
            proof {
                lemma_sum_prefix(self@, i as int);
            }
            acc = acc + self.vote_weights[i];
            i = i + 1;
        }
        assert(self@.take(n as int) =~= self@);
        acc
    }

    /// Counts `power` for the choice that `vote` names. Nothing changes on
    /// an error.
    pub fn add_vote(&mut self, vote: MultipleChoiceVote, power: u128) -> (r: Result<(), VoteError>)
        requires
            old(self).wf(),
        ensures
            final(self).wf(),
            vote.option_id >= old(self)@.len() ==> r == Err::<(), VoteError>(VoteError::InvalidChoiceIndex),
            vote.option_id < old(self)@.len() && weights_sum(old(self)@) + power > u128::MAX
                ==> r == Err::<(), VoteError>(VoteError::ArithmeticOverflow),
            r is Ok <==> accepts(old(self)@, vote, power),
            final(self)@ == after_vote(old(self)@, vote, power),
            r is Ok ==> final(self)@ == old(self)@.update(
                vote.option_id as int,
                (old(self)@[vote.option_id as int] + power) as u128,
            ),
            r is Ok ==> weights_sum(final(self)@) == weights_sum(old(self)@) + power,
            r is Err ==> final(self)@ == old(self)@,
    {
        let i = vote.option_id as usize;
        if i >= self.vote_weights.len() {
            return Err(VoteError::InvalidChoiceIndex);
        }
        let total = self.total();
        if power > u128::MAX - total {
            return Err(VoteError::ArithmeticOverflow);
        }
        proof {
            lemma_sum_update(self@, i as int, (self@[i as int] + power) as u128);
        }
        let v = self.vote_weights[i] + power;
        self.vote_weights.set(i, v);
        Ok(())
    }
}

} // verus!
