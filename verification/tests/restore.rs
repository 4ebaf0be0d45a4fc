use unifund_dao::{Address, Config, ProposalStatus, UniFundContract, VoteDirection, VoteKey};

fn addr(s: &str) -> Address {
    Address::new(s)
}

fn sample() -> UniFundContract {
    let mut dao = UniFundContract::new();
    dao.initialize(addr("ADMIN"), addr("TT"), addr("GT"), 5000, 100, 50, 1000).unwrap();
    dao.deposit(addr("D"), 5000).unwrap();
    for (who, amount) in [("A", 100), ("B", 200), ("A", 300)] {
        dao.submit_proposal(addr(who), "t".to_string(), "d".to_string(), addr("R"), amount, 1, 0).unwrap();
    }
    dao.vote(addr("V1"), 1, VoteDirection::For, 10, 0).unwrap();
    dao.vote(addr("V2"), 1, VoteDirection::Against, 3, 0).unwrap();
    dao.vote(addr("V1"), 2, VoteDirection::Against, 10, 0).unwrap();
    dao.queue_proposal(1, 101).unwrap();
    dao.queue_proposal(2, 101).unwrap();
    dao
}

fn parts(dao: &UniFundContract) -> (Option<Config>, i128, i128, u64, Vec<unifund_dao::Proposal>, Vec<(VoteKey, VoteDirection)>) {
    let proposals = dao.get_all_proposals().iter().map(|id| dao.get_proposal(*id).unwrap()).collect();
    (dao.get_config().ok(), dao.get_treasury_balance(), dao.get_reserved_balance(), dao.next_proposal_id(), proposals, dao.get_ballots())
}

#[test]
fn a_stored_state_restores_to_the_same_state() {
    let dao = sample();
    let (c, t, r, n, ps, bs) = parts(&dao);
    assert_eq!(r, 100);
    assert_eq!(n, 4);
    assert_eq!(bs.len(), 3);
    let back = UniFundContract::restore(c, t, r, n, ps, bs).expect("well formed");
    assert_eq!(format!("{:?}", parts(&back)), format!("{:?}", parts(&dao)));
    assert_eq!(back.get_vote(1, addr("V2")), Some(VoteDirection::Against));
    assert_eq!(back.get_proposal(1).unwrap().status, ProposalStatus::Queued);
}

#[test]
fn restore_refuses_parts_that_break_the_invariant() {
    let dao = sample();
    let (c, t, r, n, ps, bs) = parts(&dao);
    // reserved balance that is not the queued total
    assert!(UniFundContract::restore(c.clone(), t, r + 1, n, ps.clone(), bs.clone()).is_none());
    // wrong next id
    assert!(UniFundContract::restore(c.clone(), t, r, n + 1, ps.clone(), bs.clone()).is_none());
    // negative treasury
    assert!(UniFundContract::restore(c.clone(), -1, r, n, ps.clone(), bs.clone()).is_none());
    // a vote recorded twice
    let mut twice = bs.clone();
    twice.push((VoteKey { proposal_id: 1, voter: addr("V1") }, VoteDirection::Abstain));
    assert!(UniFundContract::restore(c.clone(), t, r, n, ps.clone(), twice).is_none());
    // a vote on a proposal that does not exist
    let mut stray = bs.clone();
    stray.push((VoteKey { proposal_id: 9, voter: addr("V9") }, VoteDirection::For));
    assert!(UniFundContract::restore(c.clone(), t, r, n, ps.clone(), stray).is_none());
    // proposals out of id order
    let mut swapped = ps.clone();
    swapped.swap(0, 2);
    assert!(UniFundContract::restore(c.clone(), t, r, n, swapped, bs.clone()).is_none());
    // an invalid configuration
    let mut bad = c.clone().unwrap();
    bad.quorum_bps = 0;
    assert!(UniFundContract::restore(Some(bad), t, r, n, ps.clone(), bs.clone()).is_none());
    // no configuration but funds
    assert!(UniFundContract::restore(None, t, r, n, ps.clone(), bs.clone()).is_none());
    assert!(UniFundContract::restore(None, 0, 0, 1, Vec::new(), Vec::new()).is_some());
}
