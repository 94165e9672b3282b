use vstd::prelude::*;
use crate::votes::MultipleChoiceVote;
use crate::voting_strategy::VotingStrategy;

verus! {

/// The kind of a choice.
#[derive(Clone, Copy, Debug, PartialEq, Eq, Structural)]
pub enum MultipleChoiceOptionType {
    /// Choice that represents selecting none of the options; still counts toward quorum
    /// and allows proposals with all bad options to be voted against.
    NoneOfTheAbove,
    Standard,
}

/// One choice of a proposal. Its index is its position in the proposal's
/// list of choices.
#[derive(Clone, Debug)]
pub struct MultipleChoiceOption {
    pub option_type: MultipleChoiceOptionType,
    pub description: String,
}

/// A deposit that was checked when a proposal was made: the token's
/// address, the amount, and whether a failed proposal gets it back.
#[derive(Clone, Debug, PartialEq, Eq)]
pub struct CheckedDepositInfo {
    pub token: String,
    pub deposit: u128,
    pub refund_failed_proposals: bool,
}

/// A span of time, in blocks or in seconds.
#[derive(Clone, Copy, Debug, PartialEq, Eq, Structural)]
pub enum Duration {
    Height(u64),
    Time(u64),
}

/// The governance module's configuration.
#[derive(Clone, Debug)]
pub struct Config {
    /// The threshold a proposal must reach to complete.
    pub voting_strategy: VotingStrategy,
    /// The default maximum amount of time a proposal may be voted on
    /// before expiring.
    pub max_voting_period: Duration,
    /// If set to true only members may execute passed
    /// proposals. Otherwise, any address may execute a passed
    /// proposal.
    pub only_members_execute: bool,
    /// The address of the DAO that this governance module is
    /// associated with.
    pub dao: String,
    /// Information about the deposit required to create a
    /// proposal. None if no deposit is required, Some otherwise.
    pub deposit_info: Option<CheckedDepositInfo>,
}

/// Information about a vote that was cast.
#[derive(Clone, Debug)]
pub struct VoteInfo {
    /// The address that voted.
    pub voter: String,
    /// Position on the vote.
    pub vote: MultipleChoiceVote,
    /// The voting power behind the vote.
    pub power: u128,
}

/// A ballot: the chosen vote and its weight, stored under the key that voted.
#[derive(Clone, Copy, Debug, PartialEq, Eq, Structural)]
pub struct Ballot {
    /// The amount of voting power behind the vote.
    pub power: u128,
    /// The position.
    pub vote: MultipleChoiceVote,
}

/// Why a stored proposal id could not be read.
#[derive(Clone, Copy, Debug, PartialEq, Eq, Structural)]
pub enum ParseIdError {
    /// Fewer than eight bytes were found.
    CorruptedData,
}

/// The big-endian value of a byte sequence.
pub open spec fn be_value(s: Seq<u8>) -> nat
    decreases s.len(),
{
    if s.len() == 0 {
        0
    } else {
        be_value(s.drop_last()) * 256 + s.last() as nat
    }
}

pub open spec fn pow256(n: nat) -> nat
    decreases n,
{
    if n == 0 {
        1
    } else {
        256 * pow256((n - 1) as nat)
    }
}

proof fn lemma_be_value_bound(s: Seq<u8>)
    ensures
        be_value(s) < pow256(s.len()),
    decreases s.len(),
{
    if s.len() > 0 {
        let k = s.drop_last();
        lemma_be_value_bound(k);
        let v = be_value(k);
        let p = pow256(k.len());
        assert(v * 256 + s.last() < 256 * p) by (nonlinear_arith)
            requires v < p, s.last() < 256;
    }
}

/// Reads a proposal id: the first eight bytes of `data`, big-endian.
pub fn parse_id(data: &[u8]) -> (r: Result<u64, ParseIdError>)
    ensures
        data@.len() >= 8 ==> r == Ok::<u64, ParseIdError>(be_value(data@.take(8)) as u64),
        data@.len() < 8 ==> r == Err::<u64, ParseIdError>(ParseIdError::CorruptedData),
{
    if data.len() < 8 {
        return Err(ParseIdError::CorruptedData);
    }
    let mut acc: u64 = 0;
    let mut i: usize = 0;
    assert(data@.take(0) =~= Seq::<u8>::empty());
    while i < 8
        invariant
            i <= 8,
            data@.len() >= 8,
            acc == be_value(data@.take(i as int)),
        decreases 8 - i,
    {
        proof {
            assert(data@.take(i + 1).drop_last() =~= data@.take(i as int));
            lemma_be_value_bound(data@.take(i + 1));
            assert(pow256(8) == 0x1_0000_0000_0000_0000) by {
                reveal_with_fuel(pow256, 9);
            }
            assert(pow256((i + 1) as nat) <= pow256(8)) by {
                lemma_pow256_mono((i + 1) as nat, 8);
            }
        }
        acc = acc * 256 + data[i] as u64;
        i = i + 1;
    }
    Ok(acc)
}

proof fn lemma_pow256_mono(a: nat, b: nat)
    requires
        a <= b,
    ensures
        pow256(a) <= pow256(b),
    decreases b,
{
    if a < b {
        lemma_pow256_mono(a, (b - 1) as nat);
    }
}

/// The id that follows the last one handed out (none yet: 1); `None` once
/// the ids are exhausted.
pub fn next_id(last: Option<u64>) -> (r: Option<u64>)
    ensures
        last == Some(u64::MAX) ==> r is None,
        last is None ==> r == Some(1u64),
        last is Some && last->0 < u64::MAX ==> r == Some((last->0 + 1) as u64),
{
    match last {
        None => Some(1),
        Some(n) => n.checked_add(1),
    }
}

} // verus!
