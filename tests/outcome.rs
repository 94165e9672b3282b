use cw_proposal_multiple::expiration::{BlockInfo, Expiration};
use cw_proposal_multiple::proposal::{
    MultipleChoiceProposal, Proposal, ProposalError, VoteResult,
};
use cw_proposal_multiple::state::{CheckedDepositInfo, MultipleChoiceOption, MultipleChoiceOptionType};
use cw_proposal_multiple::status::Status;
use cw_proposal_multiple::threshold::PercentageThreshold;
use cw_proposal_multiple::votes::{MultipleChoiceVote, VoteError};
use cw_proposal_multiple::voting_strategy::VotingStrategy;

fn option(kind: MultipleChoiceOptionType, d: &str) -> MultipleChoiceOption {
    MultipleChoiceOption { option_type: kind, description: d.to_string() }
}

fn three_choices() -> Vec<MultipleChoiceOption> {
    vec![
        option(MultipleChoiceOptionType::Standard, "a"),
        option(MultipleChoiceOptionType::Standard, "b"),
        option(MultipleChoiceOptionType::NoneOfTheAbove, "none"),
    ]
}

const BEFORE: BlockInfo = BlockInfo { height: 5, time: 50 };
const AFTER: BlockInfo = BlockInfo { height: 100, time: 1_000 };

fn proposal(quorum: u64, total_power: u128, powers: &[u128]) -> MultipleChoiceProposal {
    let mut p = MultipleChoiceProposal::new(
        "title".to_string(),
        "description".to_string(),
        "proposer".to_string(),
        1,
        Expiration::AtHeight(100),
        three_choices(),
        VotingStrategy::SingleChoice { quorum: PercentageThreshold::Percent(quorum) },
        total_power,
        None,
    )
    .unwrap();
    for (i, power) in powers.iter().enumerate() {
        if *power > 0 {
            p.record_vote(MultipleChoiceVote { option_id: i as u32 }, *power).unwrap();
        }
    }
    p
}

#[test]
fn new_proposal_is_open_and_empty() {
    let p = proposal(50, 100, &[]);
    assert_eq!(p.status, Status::Open);
    assert_eq!(p.votes.vote_weights, vec![0, 0, 0]);
    assert_eq!(p.current_status(&BEFORE), Status::Open);
    assert_eq!(p.proposer(), "proposer");
    assert_eq!(p.deposit_info(), None);
    assert_eq!(Proposal::status(&p), Status::Open);
}

#[test]
fn new_refuses_bad_configuration() {
    let make = |choices: Vec<MultipleChoiceOption>, strategy: VotingStrategy| {
        MultipleChoiceProposal::new(
            "t".to_string(),
            "d".to_string(),
            "p".to_string(),
            0,
            Expiration::Never,
            choices,
            strategy,
            10,
            Some(CheckedDepositInfo {
                token: "token".to_string(),
                deposit: 3,
                refund_failed_proposals: true,
            }),
        )
    };
    let single = |q: u64| VotingStrategy::SingleChoice { quorum: PercentageThreshold::Percent(q) };
    assert_eq!(make(three_choices(), single(0)).unwrap_err(), ProposalError::InvalidThreshold);
    assert_eq!(make(three_choices(), single(101)).unwrap_err(), ProposalError::InvalidThreshold);
    assert_eq!(
        make(
            three_choices(),
            VotingStrategy::RankedChoice { quorum: PercentageThreshold::Percent(10) }
        )
        .unwrap_err(),
        ProposalError::UnsupportedStrategy
    );
    assert_eq!(make(vec![], single(10)).unwrap_err(), ProposalError::NoChoices);
    let no_none = vec![
        option(MultipleChoiceOptionType::Standard, "a"),
        option(MultipleChoiceOptionType::Standard, "b"),
    ];
    assert_eq!(make(no_none, single(10)).unwrap_err(), ProposalError::MissingNoneOption);
    let two_none = vec![
        option(MultipleChoiceOptionType::NoneOfTheAbove, "a"),
        option(MultipleChoiceOptionType::NoneOfTheAbove, "b"),
    ];
    assert_eq!(make(two_none, single(10)).unwrap_err(), ProposalError::MissingNoneOption);
    let p = make(three_choices(), single(10)).unwrap();
    assert_eq!(p.deposit_info().unwrap().deposit, 3);
}

#[test]
fn record_vote_rejects_unknown_choice() {
    let mut p = proposal(50, 100, &[10, 0, 0]);
    assert_eq!(
        p.record_vote(MultipleChoiceVote { option_id: 3 }, 5),
        Err(VoteError::InvalidChoiceIndex)
    );
    assert_eq!(p.votes.vote_weights, vec![10, 0, 0]);
    assert_eq!(p.votes.total(), 10);
}

#[test]
fn conservation_over_many_votes() {
    let mut p = proposal(50, 1_000, &[]);
    let ballots: Vec<(u32, u128)> = vec![(0, 10), (1, 20), (2, 30), (7, 40), (0, 5)];
    let mut accepted: u128 = 0;
    for (c, power) in ballots {
        if p.record_vote(MultipleChoiceVote { option_id: c }, power).is_ok() {
            accepted += power;
        }
    }
    assert_eq!(p.votes.total(), accepted);
    assert_eq!(p.votes.total(), 65);
}

#[test]
fn quorum_boundary_on_proposal() {
    // Quorum met with 50 of 100 at the deadline: A passes.
    let p = proposal(50, 100, &[30, 10, 10]);
    assert_eq!(p.current_status(&AFTER), Status::Passed);
    // 49 of 100 at the deadline: rejected for lack of quorum.
    let p = proposal(50, 100, &[29, 10, 10]);
    assert_eq!(p.current_status(&AFTER), Status::Rejected);
}

#[test]
fn tie_detected_and_rejected_at_deadline() {
    let p = proposal(50, 100, &[40, 40, 20]);
    assert_eq!(p.calculate_vote_result(), VoteResult::Tie);
    assert_eq!(p.current_status(&AFTER), Status::Rejected);
    assert_eq!(p.current_status(&BEFORE), Status::Open);
}

#[test]
fn tie_without_quorum_stays_open_before_deadline() {
    let p = proposal(50, 100, &[10, 10, 0]);
    assert_eq!(p.calculate_vote_result(), VoteResult::Tie);
    assert_eq!(p.current_status(&BEFORE), Status::Open);
    assert_eq!(p.current_status(&AFTER), Status::Rejected);
}

#[test]
fn unbeatable_leader_passes_early() {
    let p = proposal(50, 100, &[60, 10, 10]);
    assert_eq!(p.calculate_vote_result(), VoteResult::SingleWinner(0));
    assert!(p.is_passed(&BEFORE));
    assert!(!p.is_rejected(&BEFORE));
    assert_eq!(p.current_status(&BEFORE), Status::Passed);
}

#[test]
fn beatable_leader_stays_open() {
    let p = proposal(30, 100, &[35, 30, 0]);
    assert_eq!(p.calculate_vote_result(), VoteResult::SingleWinner(0));
    assert!(!p.is_passed(&BEFORE));
    assert!(!p.is_rejected(&BEFORE));
    assert_eq!(p.current_status(&BEFORE), Status::Open);
    assert_eq!(p.current_status(&AFTER), Status::Passed);
}

#[test]
fn unbeatable_none_rejects_early() {
    let p = proposal(50, 100, &[5, 5, 60]);
    assert_eq!(p.calculate_vote_result(), VoteResult::SingleWinner(2));
    assert!(p.is_rejected(&BEFORE));
    assert_eq!(p.current_status(&BEFORE), Status::Rejected);
    // Without quorum too: 10 remaining cannot lift A above 45.
    let p = proposal(100, 100, &[0, 0, 45]);
    assert!(!p.is_rejected(&BEFORE));
    let p = proposal(100, 60, &[0, 0, 45]);
    assert_eq!(p.current_status(&BEFORE), Status::Rejected);
}

#[test]
fn leader_without_quorum_stays_open_then_rejected() {
    let p = proposal(50, 100, &[20, 5, 0]);
    assert_eq!(p.current_status(&BEFORE), Status::Open);
    assert_eq!(p.current_status(&AFTER), Status::Rejected);
}

#[test]
fn all_power_cast_decides_early() {
    let p = proposal(50, 100, &[34, 33, 33]);
    assert_eq!(p.current_status(&BEFORE), Status::Passed);
}

#[test]
fn no_eligible_power_meets_quorum_vacuously() {
    let p = proposal(50, 0, &[]);
    // Every choice holds zero: a tie, rejected at the deadline.
    assert_eq!(p.calculate_vote_result(), VoteResult::Tie);
    assert_eq!(p.current_status(&AFTER), Status::Rejected);
    assert!(!p.is_passed(&AFTER));
}

#[test]
fn decided_status_does_not_reopen_later() {
    let p = proposal(50, 100, &[60, 10, 10]);
    let first = p.current_status(&BEFORE);
    assert_eq!(first, Status::Passed);
    for h in [6u64, 50, 99, 100, 500] {
        let b = BlockInfo { height: h, time: 50 + h };
        assert_eq!(p.current_status(&b), first);
    }
    let p = proposal(50, 100, &[5, 5, 60]);
    assert_eq!(p.current_status(&BEFORE), Status::Rejected);
    assert_eq!(p.current_status(&AFTER), Status::Rejected);
}

#[test]
fn stored_and_reloaded_proposal_keeps_status() {
    let mut p = proposal(50, 100, &[35, 30, 0]);
    let copy = p.clone();
    assert_eq!(copy.current_status(&BEFORE), p.current_status(&BEFORE));
    assert_eq!(copy.current_status(&AFTER), p.current_status(&AFTER));
    p.update_status(&AFTER);
    let reloaded = p.clone();
    assert_eq!(reloaded.status, Status::Passed);
    assert_eq!(reloaded.current_status(&AFTER), Status::Passed);
    assert_eq!(reloaded.votes.vote_weights, vec![35, 30, 0]);
}

#[test]
fn update_status_only_moves_open() {
    let mut p = proposal(50, 100, &[60, 10, 10]);
    p.update_status(&BEFORE);
    assert_eq!(p.status, Status::Passed);
    let mut q = proposal(50, 100, &[40, 40, 20]);
    q.status = Status::Closed;
    q.update_status(&AFTER);
    assert_eq!(q.status, Status::Closed);
}

#[test]
fn execute_passed_proposal() {
    let mut p = proposal(50, 100, &[60, 10, 10]);
    assert_eq!(p.execute(&BEFORE), Ok(()));
    assert_eq!(p.status, Status::Executed);
    assert_eq!(p.execute(&AFTER), Err(ProposalError::IllegalTransition));
    assert_eq!(p.status, Status::Executed);
    assert_eq!(p.close(&AFTER), Err(ProposalError::IllegalTransition));
}

#[test]
fn execute_open_proposal_is_refused() {
    let mut p = proposal(50, 100, &[35, 30, 0]);
    assert_eq!(p.execute(&BEFORE), Err(ProposalError::IllegalTransition));
    assert_eq!(p.status, Status::Open);
    assert_eq!(p.close(&BEFORE), Err(ProposalError::IllegalTransition));
}

#[test]
fn close_rejected_proposal() {
    let mut p = proposal(50, 100, &[40, 40, 20]);
    assert_eq!(p.execute(&AFTER), Err(ProposalError::IllegalTransition));
    assert_eq!(p.status, Status::Rejected);
    assert_eq!(p.close(&AFTER), Ok(()));
    assert_eq!(p.status, Status::Closed);
}

#[test]
fn into_response_refreshes_status() {
    let p = proposal(50, 100, &[35, 30, 0]);
    assert_eq!(p.status, Status::Open);
    let r = p.into_response(&AFTER, 7);
    assert_eq!(r.id, 7);
    assert_eq!(r.proposal.status, Status::Passed);
    assert_eq!(r.proposal.title, "title");
}
