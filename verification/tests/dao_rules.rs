use unifund_dao::{Address, DaoError, ProposalStatus, UniFundContract, VoteDirection};

fn addr(s: &str) -> Address {
    Address::new(s)
}

/// An initialised DAO: quorum 50%, voting window 100, veto period 50, cap 1000,
/// with 5000 in the treasury.
fn funded() -> UniFundContract {
    let mut dao = UniFundContract::new();
    dao.initialize(addr("ADMIN"), addr("TT"), addr("GT"), 5000, 100, 50, 1000).unwrap();
    dao.deposit(addr("DONOR"), 5000).unwrap();
    dao
}

fn submit(dao: &mut UniFundContract, proposer: &str, amount: i128, now: u64) -> Result<u64, DaoError> {
    dao.submit_proposal(addr(proposer), "title".to_string(), "description".to_string(), addr("RECIPIENT"), amount, 10, now)
}

#[test]
fn initialize_checks_parameters_in_order_and_only_once() {
    let mut dao = UniFundContract::new();
    assert_eq!(dao.initialize(addr("A"), addr("T"), addr("G"), 0, 0, 0, -1), Err(DaoError::InvalidQuorum));
    assert_eq!(dao.initialize(addr("A"), addr("T"), addr("G"), 10001, 1, 1, 0), Err(DaoError::InvalidQuorum));
    assert_eq!(dao.initialize(addr("A"), addr("T"), addr("G"), 10000, 0, 0, -1), Err(DaoError::InvalidVotingWindow));
    assert_eq!(dao.initialize(addr("A"), addr("T"), addr("G"), 1, 1, 0, -1), Err(DaoError::InvalidVetoPeriod));
    assert_eq!(dao.initialize(addr("A"), addr("T"), addr("G"), 1, 1, 1, -1), Err(DaoError::NegativeSpendingCap));
    assert_eq!(dao.get_config().unwrap_err(), DaoError::NotInitialized);
    assert_eq!(dao.initialize(addr("A"), addr("T"), addr("G"), 1, 1, 1, 0), Ok(()));
    let c = dao.get_config().unwrap();
    assert_eq!(c.admin.as_str(), "A");
    assert_eq!(c.treasury_token.as_str(), "T");
    assert_eq!(c.governance_token.as_str(), "G");
    assert_eq!((c.quorum_bps, c.voting_window, c.veto_period, c.spending_cap), (1, 1, 1, 0));
    assert_eq!(dao.initialize(addr("B"), addr("T"), addr("G"), 0, 1, 1, 0), Err(DaoError::AlreadyInitialized));
    assert_eq!(dao.get_config().unwrap().admin.as_str(), "A");
}

#[test]
fn an_uninitialised_contract_refuses_calls_and_reports_empty_state() {
    let mut dao = UniFundContract::new();
    assert_eq!(dao.get_treasury_balance(), 0);
    assert_eq!(dao.get_reserved_balance(), 0);
    assert_eq!(dao.get_available_balance(), 0);
    assert!(dao.get_all_proposals().is_empty());
    assert!(dao.get_proposer_proposals(addr("P")).is_empty());
    assert_eq!(dao.get_vote(1, addr("V")), None);
    assert!(!dao.has_voted(1, addr("V")));
    assert_eq!(dao.deposit(addr("D"), 5).unwrap_err(), DaoError::NotInitialized);
    assert_eq!(dao.deposit(addr("D"), 0).unwrap_err(), DaoError::NonPositiveDeposit);
    assert_eq!(submit(&mut dao, "P", 5, 0), Err(DaoError::NotInitialized));
    assert_eq!(dao.update_config(addr("A"), 1, 1, 1, 0), Err(DaoError::NotInitialized));
    assert_eq!(dao.transfer_admin(addr("A"), addr("B")), Err(DaoError::NotInitialized));
    assert_eq!(dao.cancel_proposal(addr("A"), 1, 0), Err(DaoError::NotInitialized));
    assert_eq!(dao.vote(addr("V"), 1, VoteDirection::For, 5, 0), Err(DaoError::ProposalNotFound));
    assert_eq!(dao.queue_proposal(1, 0), Err(DaoError::ProposalNotFound));
    assert_eq!(dao.execute_proposal(1, 0).unwrap_err(), DaoError::ProposalNotFound);
    assert_eq!(dao.get_proposal(1).unwrap_err(), DaoError::ProposalNotFound);
}

#[test]
fn only_the_advisor_updates_the_configuration() {
    let mut dao = funded();
    assert_eq!(dao.update_config(addr("STUDENT"), 6000, 10, 10, 10), Err(DaoError::NotAdmin));
    assert_eq!(dao.update_config(addr("ADMIN"), 0, 10, 10, 10), Err(DaoError::InvalidQuorum));
    assert_eq!(dao.update_config(addr("ADMIN"), 6000, 0, 10, 10), Err(DaoError::InvalidVotingWindow));
    assert_eq!(dao.update_config(addr("ADMIN"), 6000, 10, 0, 10), Err(DaoError::InvalidVetoPeriod));
    assert_eq!(dao.update_config(addr("ADMIN"), 6000, 10, 10, -10), Err(DaoError::NegativeSpendingCap));
    assert_eq!(dao.get_config().unwrap().quorum_bps, 5000);
    assert_eq!(dao.update_config(addr("ADMIN"), 6000, 10, 20, 30), Ok(()));
    let c = dao.get_config().unwrap();
    assert_eq!((c.quorum_bps, c.voting_window, c.veto_period, c.spending_cap), (6000, 10, 20, 30));
    assert_eq!(c.admin.as_str(), "ADMIN");
    assert_eq!(c.treasury_token.as_str(), "TT");
    assert_eq!(dao.get_treasury_balance(), 5000);
}

#[test]
fn transfer_admin_hands_over_the_advisor_role() {
    let mut dao = funded();
    assert_eq!(dao.transfer_admin(addr("STUDENT"), addr("STUDENT")), Err(DaoError::NotAdmin));
    assert_eq!(dao.transfer_admin(addr("ADMIN"), addr("NEW")), Ok(()));
    assert_eq!(dao.get_config().unwrap().admin.as_str(), "NEW");
    assert_eq!(dao.update_config(addr("ADMIN"), 6000, 10, 10, 10), Err(DaoError::NotAdmin));
    assert_eq!(dao.update_config(addr("NEW"), 6000, 10, 10, 10), Ok(()));
}

#[test]
fn submit_checks_in_order() {
    let mut dao = funded();
    let p = |dao: &mut UniFundContract, title: &str, desc: &str, amount: i128, bal: i128| {
        dao.submit_proposal(addr("P"), title.to_string(), desc.to_string(), addr("R"), amount, bal, 0)
    };
    assert_eq!(p(&mut dao, "", "", 0, 0), Err(DaoError::NonPositiveAmount));
    assert_eq!(p(&mut dao, "", "", 1, 0), Err(DaoError::EmptyTitle));
    assert_eq!(p(&mut dao, "t", "", 1, 0), Err(DaoError::EmptyDescription));
    assert_eq!(p(&mut dao, "t", "d", 1, 0), Err(DaoError::ProposerHoldsNoToken));
    assert_eq!(p(&mut dao, "t", "d", 1001, 1), Err(DaoError::ExceedsSpendingCap));
    assert_eq!(p(&mut dao, "t", "d", 1000, 1), Ok(1));
    assert!(dao.get_all_proposals().len() == 1);
}

#[test]
fn a_zero_spending_cap_means_no_cap_but_funds_still_limit() {
    let mut dao = UniFundContract::new();
    dao.initialize(addr("ADMIN"), addr("TT"), addr("GT"), 5000, 100, 50, 0).unwrap();
    dao.deposit(addr("D"), 3000).unwrap();
    assert_eq!(submit(&mut dao, "P", 3001, 0), Err(DaoError::InsufficientAvailableFunds));
    assert_eq!(submit(&mut dao, "P", 3000, 0), Ok(1));
}

#[test]
fn proposal_ids_are_sequential_and_indexed_by_proposer() {
    let mut dao = funded();
    assert_eq!(submit(&mut dao, "ALICE", 10, 7), Ok(1));
    assert_eq!(submit(&mut dao, "BOB", 20, 8), Ok(2));
    assert_eq!(submit(&mut dao, "ALICE", 30, 9), Ok(3));
    assert_eq!(dao.get_all_proposals(), vec![1, 2, 3]);
    assert_eq!(dao.get_proposer_proposals(addr("ALICE")), vec![1, 3]);
    assert_eq!(dao.get_proposer_proposals(addr("BOB")), vec![2]);
    assert!(dao.get_proposer_proposals(addr("CAROL")).is_empty());
    let p = dao.get_proposal(3).unwrap();
    assert_eq!(p.id, 3);
    assert_eq!(p.proposer.as_str(), "ALICE");
    assert_eq!(p.recipient.as_str(), "RECIPIENT");
    assert_eq!(p.title, "title");
    assert_eq!(p.description, "description");
    assert_eq!(p.amount, 30);
    assert_eq!(p.status, ProposalStatus::Active);
    assert_eq!((p.for_votes, p.against_votes, p.abstain_votes), (0, 0, 0));
    assert_eq!(p.submitted_at, 9);
    assert_eq!(p.voting_deadline, 109);
    assert_eq!((p.executable_at, p.executed_at), (0, 0));
    assert_eq!(dao.get_proposal(4).unwrap_err(), DaoError::ProposalNotFound);
    assert_eq!(dao.get_proposal(0).unwrap_err(), DaoError::ProposalNotFound);
}

#[test]
fn a_deadline_past_the_end_of_time_is_refused() {
    let mut dao = funded();
    assert_eq!(submit(&mut dao, "P", 10, u64::MAX - 99), Err(DaoError::ArithmeticOverflow));
    assert_eq!(submit(&mut dao, "P", 10, u64::MAX - 100), Ok(1));
    assert_eq!(dao.get_proposal(1).unwrap().voting_deadline, u64::MAX);
}

#[test]
fn votes_are_weighted_by_membership_tokens() {
    let mut dao = funded();
    let id = submit(&mut dao, "P", 100, 0).unwrap();
    dao.vote(addr("A"), id, VoteDirection::For, 70, 0).unwrap();
    dao.vote(addr("B"), id, VoteDirection::Against, 20, 50).unwrap();
    dao.vote(addr("C"), id, VoteDirection::Abstain, 5, 100).unwrap();
    let p = dao.get_proposal(id).unwrap();
    assert_eq!((p.for_votes, p.against_votes, p.abstain_votes), (70, 20, 5));
    assert_eq!(dao.get_vote(id, addr("A")), Some(VoteDirection::For));
    assert_eq!(dao.get_vote(id, addr("B")), Some(VoteDirection::Against));
    assert_eq!(dao.get_vote(id, addr("C")), Some(VoteDirection::Abstain));
    assert_eq!(dao.get_vote(id, addr("D")), None);
    assert!(dao.has_voted(id, addr("A")));
    assert!(!dao.has_voted(id + 1, addr("A")));
}

#[test]
fn vote_weight_is_the_membership_balance() {
    let mut dao = funded();
    let id = submit(&mut dao, "P", 100, 0).unwrap();
    let two_pow_64: i128 = 1i128 << 64;
    assert_eq!(dao.vote(addr("A"), id, VoteDirection::For, 0, 0), Err(DaoError::VoterHoldsNoToken));
    assert_eq!(dao.vote(addr("A"), id, VoteDirection::For, -1, 0), Err(DaoError::VoterHoldsNoToken));
    // a balance that does not fit the tally is refused, never counted with another weight
    assert_eq!(dao.vote(addr("A"), id, VoteDirection::For, two_pow_64 + 5, 0), Err(DaoError::ArithmeticOverflow));
    assert_eq!(dao.vote(addr("A"), id, VoteDirection::For, two_pow_64, 0), Err(DaoError::ArithmeticOverflow));
    assert!(!dao.has_voted(id, addr("A")));
    dao.vote(addr("A"), id, VoteDirection::For, u64::MAX as i128, 0).unwrap();
    assert_eq!(dao.get_proposal(id).unwrap().for_votes, u64::MAX);
}

#[test]
fn vote_checks_in_order() {
    let mut dao = funded();
    let id = submit(&mut dao, "P", 100, 0).unwrap();
    assert_eq!(dao.vote(addr("A"), 9, VoteDirection::For, 1, 0), Err(DaoError::ProposalNotFound));
    assert_eq!(dao.vote(addr("A"), id, VoteDirection::For, 1, 101), Err(DaoError::VotingClosed));
    dao.vote(addr("A"), id, VoteDirection::For, 1, 100).unwrap();
    assert_eq!(dao.vote(addr("A"), id, VoteDirection::Against, 1, 100), Err(DaoError::AlreadyVoted));
    dao.vote(addr("B"), id, VoteDirection::Against, u64::MAX as i128, 0).unwrap();
    assert_eq!(dao.vote(addr("C"), id, VoteDirection::Against, 1, 0), Err(DaoError::ArithmeticOverflow));
    assert!(!dao.has_voted(id, addr("C")));
    // the tallies no longer add up within a u64, and the vote is still decided
    assert_eq!(dao.queue_proposal(id, 101), Ok(()));
    assert_eq!(dao.get_proposal(id).unwrap().status, ProposalStatus::Defeated);
    assert_eq!(dao.vote(addr("D"), id, VoteDirection::For, 1, 0), Err(DaoError::NotActive));
}

#[test]
fn queue_decides_by_majority_and_quorum() {
    let mut dao = funded();
    // quorum 50%: for 50, against 49, abstain 1 => 5000 bps, passes at the boundary
    let a = submit(&mut dao, "P", 100, 0).unwrap();
    dao.vote(addr("A"), a, VoteDirection::For, 50, 0).unwrap();
    dao.vote(addr("B"), a, VoteDirection::Against, 49, 0).unwrap();
    dao.vote(addr("C"), a, VoteDirection::Abstain, 1, 0).unwrap();
    // a tie is defeated
    let b = submit(&mut dao, "P", 100, 0).unwrap();
    dao.vote(addr("A"), b, VoteDirection::For, 10, 0).unwrap();
    dao.vote(addr("B"), b, VoteDirection::Against, 10, 0).unwrap();
    // no votes at all is defeated
    let c = submit(&mut dao, "P", 100, 0).unwrap();
    // just under the quorum
    let d = submit(&mut dao, "P", 100, 0).unwrap();
    dao.vote(addr("A"), d, VoteDirection::For, 4999, 0).unwrap();
    dao.vote(addr("B"), d, VoteDirection::Abstain, 5001, 0).unwrap();

    assert_eq!(dao.queue_proposal(a, 100), Err(DaoError::VotingStillOpen));
    assert_eq!(dao.queue_proposal(99, 101), Err(DaoError::ProposalNotFound));
    dao.queue_proposal(a, 101).unwrap();
    dao.queue_proposal(b, 101).unwrap();
    dao.queue_proposal(c, 101).unwrap();
    dao.queue_proposal(d, 101).unwrap();
    let pa = dao.get_proposal(a).unwrap();
    assert_eq!(pa.status, ProposalStatus::Queued);
    assert_eq!(pa.executable_at, 151);
    assert_eq!(dao.get_proposal(b).unwrap().status, ProposalStatus::Defeated);
    assert_eq!(dao.get_proposal(c).unwrap().status, ProposalStatus::Defeated);
    assert_eq!(dao.get_proposal(d).unwrap().status, ProposalStatus::Defeated);
    assert_eq!(dao.get_proposal(d).unwrap().executable_at, 0);
    assert_eq!(dao.get_reserved_balance(), 100);
    assert_eq!(dao.queue_proposal(a, 200), Err(DaoError::NotActive));
}

#[test]
fn a_huge_unanimous_for_tally_passes_the_quorum() {
    let mut dao = UniFundContract::new();
    dao.initialize(addr("ADMIN"), addr("TT"), addr("GT"), 5100, 100, 50, 1000).unwrap();
    dao.deposit(addr("DONOR"), 5000).unwrap();
    let id = submit(&mut dao, "P", 100, 0).unwrap();
    dao.vote(addr("A"), id, VoteDirection::For, 10_000_000_000_000_000, 0).unwrap();
    assert_eq!(dao.queue_proposal(id, 101), Ok(()));
    assert_eq!(dao.get_proposal(id).unwrap().status, ProposalStatus::Queued);
}

#[test]
fn tallies_that_sum_past_u64_are_still_decided() {
    let mut dao = funded();
    let id = submit(&mut dao, "P", 100, 0).unwrap();
    dao.vote(addr("A"), id, VoteDirection::For, u64::MAX as i128, 0).unwrap();
    dao.vote(addr("B"), id, VoteDirection::Against, u64::MAX as i128 - 1, 0).unwrap();
    dao.vote(addr("C"), id, VoteDirection::Abstain, u64::MAX as i128, 0).unwrap();
    // For holds about a third of all votes, under the 50% quorum
    assert_eq!(dao.queue_proposal(id, 101), Ok(()));
    assert_eq!(dao.get_proposal(id).unwrap().status, ProposalStatus::Defeated);
}

#[test]
fn cancel_rules() {
    let mut dao = funded();
    let id = submit(&mut dao, "STUDENT", 100, 0).unwrap();
    assert_eq!(dao.cancel_proposal(addr("STRANGER"), id, 0), Err(DaoError::NotAllowedToCancel));
    assert_eq!(dao.cancel_proposal(addr("STUDENT"), 7, 0), Err(DaoError::ProposalNotFound));
    assert_eq!(dao.cancel_proposal(addr("STUDENT"), id, 101), Err(DaoError::ProposerCancelTooLate));
    assert_eq!(dao.cancel_proposal(addr("STUDENT"), id, 100), Ok(()));
    assert_eq!(dao.get_proposal(id).unwrap().status, ProposalStatus::Cancelled);
    assert_eq!(dao.cancel_proposal(addr("ADMIN"), id, 100), Err(DaoError::AlreadyCancelled));

    let q = submit(&mut dao, "STUDENT", 100, 0).unwrap();
    dao.vote(addr("V"), q, VoteDirection::For, 1, 0).unwrap();
    dao.queue_proposal(q, 101).unwrap();
    assert_eq!(dao.cancel_proposal(addr("STUDENT"), q, 101), Err(DaoError::ProposerCancelNotActive));
    assert_eq!(dao.get_reserved_balance(), 100);
    dao.execute_proposal(q, 151).unwrap();
    assert_eq!(dao.cancel_proposal(addr("ADMIN"), q, 200), Err(DaoError::CancelExecuted));

    // the advisor may cancel a defeated proposal too
    let d = submit(&mut dao, "STUDENT", 100, 0).unwrap();
    dao.queue_proposal(d, 101).unwrap();
    assert_eq!(dao.get_proposal(d).unwrap().status, ProposalStatus::Defeated);
    assert_eq!(dao.cancel_proposal(addr("ADMIN"), d, 5000), Ok(()));
    assert_eq!(dao.get_reserved_balance(), 0);
}

#[test]
fn an_advisor_who_proposed_may_still_cancel_after_the_window() {
    let mut dao = funded();
    let id = submit(&mut dao, "ADMIN", 100, 0).unwrap();
    assert_eq!(dao.cancel_proposal(addr("ADMIN"), id, 1000), Ok(()));
}

#[test]
fn execute_waits_for_the_veto_period_and_the_treasury() {
    let mut dao = UniFundContract::new();
    dao.initialize(addr("ADMIN"), addr("TT"), addr("GT"), 5000, 100, 50, 0).unwrap();
    dao.deposit(addr("D"), 1000).unwrap();
    let a = submit(&mut dao, "P", 1000, 0).unwrap();
    let b = submit(&mut dao, "P", 1000, 0).unwrap();
    dao.vote(addr("V"), a, VoteDirection::For, 1, 0).unwrap();
    dao.vote(addr("V"), b, VoteDirection::For, 1, 0).unwrap();
    assert_eq!(dao.execute_proposal(a, 500).unwrap_err(), DaoError::NotQueued);
    dao.queue_proposal(a, 101).unwrap();
    dao.queue_proposal(b, 101).unwrap();
    // both reserved: more is reserved than the treasury holds
    assert_eq!(dao.get_reserved_balance(), 2000);
    assert_eq!(dao.get_available_balance(), 0);
    assert_eq!(dao.execute_proposal(a, 150).unwrap_err(), DaoError::VetoPeriodNotExpired);
    dao.execute_proposal(a, 151).unwrap();
    assert_eq!(dao.get_treasury_balance(), 0);
    assert_eq!(dao.get_reserved_balance(), 1000);
    assert_eq!(dao.execute_proposal(b, 151).unwrap_err(), DaoError::InsufficientTreasury);
    assert_eq!(dao.get_proposal(b).unwrap().status, ProposalStatus::Queued);
    assert_eq!(dao.execute_proposal(a, 151).unwrap_err(), DaoError::NotQueued);
}

#[test]
fn finished_proposals_stay_finished() {
    let mut dao = funded();
    let id = submit(&mut dao, "P", 100, 0).unwrap();
    dao.cancel_proposal(addr("ADMIN"), id, 0).unwrap();
    assert_eq!(dao.vote(addr("V"), id, VoteDirection::For, 1, 0), Err(DaoError::NotActive));
    assert_eq!(dao.queue_proposal(id, 101), Err(DaoError::NotActive));
    assert_eq!(dao.execute_proposal(id, 1000).unwrap_err(), DaoError::NotQueued);
    assert_eq!(dao.cancel_proposal(addr("ADMIN"), id, 0), Err(DaoError::AlreadyCancelled));
    assert_eq!(dao.get_proposal(id).unwrap().status, ProposalStatus::Cancelled);
}

#[test]
fn a_refused_call_changes_nothing() {
    let mut dao = funded();
    let id = submit(&mut dao, "P", 100, 0).unwrap();
    dao.vote(addr("V"), id, VoteDirection::For, 3, 0).unwrap();
    let before = format!("{:?}", dao.get_proposal(id).unwrap());
    assert!(dao.vote(addr("V"), id, VoteDirection::For, 3, 0).is_err());
    assert!(dao.queue_proposal(id, 10).is_err());
    assert!(dao.cancel_proposal(addr("X"), id, 10).is_err());
    assert!(dao.execute_proposal(id, 10).is_err());
    assert!(submit(&mut dao, "P", 6000, 0).is_err());
    assert_eq!(format!("{:?}", dao.get_proposal(id).unwrap()), before);
    assert_eq!(dao.get_treasury_balance(), 5000);
    assert_eq!(dao.get_reserved_balance(), 0);
    assert_eq!(dao.get_all_proposals(), vec![1]);
}

#[test]
fn reservations_limit_later_budgets() {
    let mut dao = funded();
    let a = submit(&mut dao, "P", 1000, 0).unwrap();
    dao.vote(addr("V"), a, VoteDirection::For, 1, 0).unwrap();
    dao.queue_proposal(a, 101).unwrap();
    assert_eq!(dao.get_available_balance(), 4000);
    assert_eq!(dao.update_config(addr("ADMIN"), 5000, 100, 50, 0), Ok(()));
    assert_eq!(submit(&mut dao, "P", 4001, 200), Err(DaoError::InsufficientAvailableFunds));
    assert_eq!(submit(&mut dao, "P", 4000, 200), Ok(2));
}
