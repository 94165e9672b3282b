use vstd::prelude::*;
use crate::votes::{lemma_sum_prefix, weights_sum};

verus! {

/// Why setting up the staked-balance voting module failed.
#[derive(Clone, Copy, Debug, PartialEq, Eq, Structural)]
pub enum SetupError {
    /// The staking contract given stakes another token than the one given.
    StakingContractMismatch,
    /// A new token must start with some supply.
    InitialBalancesError,
    /// The initial balances add up to more than the integer width holds.
    SupplyOverflow,
    /// The token has already been recorded.
    DuplicateToken,
    /// An instantiation that was waited for did not report a contract.
    TokenInstantiateError,
    /// A reply came back under an id that no message was sent with.
    UnknownReplyId(u64),
}

/// The reply id of the message that instantiates a new token.
pub const INSTANTIATE_TOKEN_REPLY_ID: u64 = 0;

/// The reply id of the message that instantiates a new staking contract.
pub const INSTANTIATE_STAKING_REPLY_ID: u64 = 1;

/// What to do with a reply to an instantiation.
#[derive(Clone, Debug, PartialEq, Eq)]
pub enum ReplyAction {
    /// Record the new token, then instantiate its staking contract.
    SaveTokenAndInstantiateStaking { token: String },
    /// Record the new staking contract.
    SaveStakingContract { staking_contract: String },
}

/// The supply a new token starts with: the sum of its initial balances,
/// which must not be zero.
pub fn initial_supply(amounts: &Vec<u128>) -> (r: Result<u128, SetupError>)
    ensures
        weights_sum(amounts@) > u128::MAX ==> r == Err::<u128, SetupError>(
            SetupError::SupplyOverflow,
        ),
        weights_sum(amounts@) == 0 ==> r == Err::<u128, SetupError>(
            SetupError::InitialBalancesError,
        ),
        0 < weights_sum(amounts@) <= u128::MAX ==> r == Ok::<u128, SetupError>(
            weights_sum(amounts@) as u128,
        ),
{
    let mut acc: u128 = 0;
    let mut i: usize = 0;
    let n = amounts.len();
    assert(amounts@.take(0) =~= Seq::<u128>::empty());
    while i < n
        invariant
            n == amounts@.len(),
            i <= n,
            acc == weights_sum(amounts@.take(i as int)),
        decreases n - i,
    {
        proof {
            lemma_sum_prefix(amounts@, i as int);
        }
        if amounts[i] > u128::MAX - acc {
            return Err(SetupError::SupplyOverflow);
        }
        acc = acc + amounts[i];
        i = i + 1;
    }
    assert(amounts@.take(n as int) =~= amounts@);
    if acc == 0 {
        Err(SetupError::InitialBalancesError)
    } else {
        Ok(acc)
    }
}

/// An address, as text, where there is one.
pub open spec fn address_view(a: Option<String>) -> Option<Seq<char>> {
    match a {
        Some(s) => Some(s@),
        None => None,
    }
}

/// `r` is what a reply under `id` leads to, where `instantiated` is the
/// address of the contract that the reply reports, if any, and
/// `token_saved` tells whether a token has already been recorded.
pub open spec fn reply_decided(
    r: Result<ReplyAction, SetupError>,
    id: u64,
    instantiated: Option<Seq<char>>,
    token_saved: bool,
) -> bool {
    if id == INSTANTIATE_TOKEN_REPLY_ID {
        match instantiated {
            None => r == Err::<ReplyAction, SetupError>(SetupError::TokenInstantiateError),
            Some(a) => if token_saved {
                r == Err::<ReplyAction, SetupError>(SetupError::DuplicateToken)
            } else {
                r matches Ok(ReplyAction::SaveTokenAndInstantiateStaking { token }) && token@ == a
            },
        }
    } else if id == INSTANTIATE_STAKING_REPLY_ID {
        match instantiated {
            None => r == Err::<ReplyAction, SetupError>(SetupError::TokenInstantiateError),
            Some(a) => r matches Ok(ReplyAction::SaveStakingContract { staking_contract })
                && staking_contract@ == a,
        }
    } else {
        r == Err::<ReplyAction, SetupError>(SetupError::UnknownReplyId(id))
    }
}

/// Decides what a reply to an instantiation leads to, given the address
/// of the contract that it reports, if it reports one.
pub fn reply_action(id: u64, instantiated: Option<String>, token_saved: bool) -> (r: Result<
    ReplyAction,
    SetupError,
>)
    ensures
        reply_decided(r, id, address_view(instantiated), token_saved),
{
    if id == INSTANTIATE_TOKEN_REPLY_ID {
        match instantiated {
            None => Err(SetupError::TokenInstantiateError),
            Some(token) => {
                if token_saved {
                    Err(SetupError::DuplicateToken)
                } else {
                    Ok(ReplyAction::SaveTokenAndInstantiateStaking { token })
                }
            },
        }
    } else if id == INSTANTIATE_STAKING_REPLY_ID {
        match instantiated {
            None => Err(SetupError::TokenInstantiateError),
            Some(staking_contract) => Ok(ReplyAction::SaveStakingContract { staking_contract }),
        }
    } else {
        Err(SetupError::UnknownReplyId(id))
    }
}

/// The contract address that the data of an instantiation reply encodes,
/// where the data decodes as an instantiation response.
pub uninterp spec fn instantiated_address(data: Seq<u8>) -> Option<Seq<char>>;

/// Relies on cw_utils::parse_instantiate_response_data, which decodes the
/// protobuf response of an instantiation; only its contract address is kept.
#[verifier::external_body]
fn parse_instantiated_address(data: &Vec<u8>) -> (r: Option<String>)
    ensures
        address_view(r) == instantiated_address(data@),
{
    cw_utils::parse_instantiate_response_data(data).ok().map(|m| m.contract_address)
}

/// Decides what a reply to an instantiation leads to, from the data the
/// reply carries (`None` where the reply carries none).
pub fn decide_reply(id: u64, data: Option<Vec<u8>>, token_saved: bool) -> (r: Result<
    ReplyAction,
    SetupError,
>)
    ensures
        reply_decided(
            r,
            id,
            match data {
                Some(d) => instantiated_address(d@),
                None => None,
            },
            token_saved,
        ),
{
    let instantiated = match data {
        Some(d) => parse_instantiated_address(&d),
        None => None,
    };
    reply_action(id, instantiated, token_saved)
}

/// Accepts an existing staking contract only where it stakes the given token.
pub fn check_staking_token(token: &String, staking_token: &String) -> (r: Result<(), SetupError>)
    ensures
        r is Ok <==> token@ == staking_token@,
        r is Err ==> r == Err::<(), SetupError>(SetupError::StakingContractMismatch),
{
    if token.eq(staking_token) {
        Ok(())
    } else {
        Err(SetupError::StakingContractMismatch)
    }
}

} // verus!
