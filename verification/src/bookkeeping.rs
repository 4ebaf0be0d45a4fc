//! The sums and indexes that the contract keeps, defined over plain sequences,
//! with the facts about them that the contract's proofs use.

use vstd::prelude::*;

use crate::types::{Proposal, ProposalStatus, VoteDirection, VoteKey};

verus! {

/// The part of the treasury that a proposal holds back: its amount while it is
/// queued, nothing otherwise.
pub open spec fn reserved_share(p: Proposal) -> int {
    if p.status == ProposalStatus::Queued {
        p.amount as int
    } else {
        0
    }
}

/// The total amount held back by the queued proposals of `ps`.
pub open spec fn queued_total(ps: Seq<Proposal>) -> int
    decreases ps.len(),
{
    if ps.len() == 0 {
        0
    } else {
        queued_total(ps.drop_last()) + reserved_share(ps.last())
    }
}

/// The key of a recorded vote: the proposal and the voter's address.
pub open spec fn ballot_key(b: (VoteKey, VoteDirection)) -> (u64, Seq<char>) {
    (b.0.proposal_id, b.0.voter@)
}

/// The votes recorded in `bs`, by proposal and voter.
pub open spec fn vote_map(bs: Seq<(VoteKey, VoteDirection)>) -> Map<(u64, Seq<char>), VoteDirection>
    decreases bs.len(),
{
    if bs.len() == 0 {
        Map::empty()
    } else {
        vote_map(bs.drop_last()).insert(ballot_key(bs.last()), bs.last().1)
    }
}

/// No two recorded votes share a key.
pub open spec fn ballots_unique(bs: Seq<(VoteKey, VoteDirection)>) -> bool {
    forall|i: int, j: int|
        0 <= i < j < bs.len() ==> #[trigger] ballot_key(bs[i]) != #[trigger] ballot_key(bs[j])
}

/// The ids of the proposals in `ps`, in order.
pub open spec fn proposal_ids(ps: Seq<Proposal>) -> Seq<u64> {
    ps.map_values(|p: Proposal| p.id)
}

/// The ids of the proposals in `ps` submitted by `who`, in order.
pub open spec fn ids_of_proposer(ps: Seq<Proposal>, who: Seq<char>) -> Seq<u64>
    decreases ps.len(),
{
    if ps.len() == 0 {
        Seq::empty()
    } else if ps.last().proposer@ == who {
        ids_of_proposer(ps.drop_last(), who).push(ps.last().id)
    } else {
        ids_of_proposer(ps.drop_last(), who)
    }
}

pub proof fn lemma_queued_total_push(ps: Seq<Proposal>, p: Proposal)
    ensures
        queued_total(ps.push(p)) == queued_total(ps) + reserved_share(p),
{
    assert(ps.push(p).drop_last() =~= ps);
}

pub proof fn lemma_queued_total_update(ps: Seq<Proposal>, i: int, p: Proposal)
    requires
        0 <= i < ps.len(),
    ensures
        queued_total(ps.update(i, p)) == queued_total(ps) - reserved_share(ps[i]) + reserved_share(p),
    decreases ps.len(),
{
    if i == ps.len() - 1 {
        assert(ps.update(i, p).drop_last() =~= ps.drop_last());
    } else {
        lemma_queued_total_update(ps.drop_last(), i, p);
        assert(ps.update(i, p).drop_last() =~= ps.drop_last().update(i, p));
    }
}

/// With no negative amounts, the total held back is at least the share of any
/// one proposal, and never negative.
pub proof fn lemma_queued_total_covers(ps: Seq<Proposal>, i: int)
    requires
        forall|j: int| 0 <= j < ps.len() ==> #[trigger] ps[j].amount >= 0,
        0 <= i < ps.len(),
    ensures
        queued_total(ps) >= reserved_share(ps[i]),
        reserved_share(ps[i]) >= 0,
    decreases ps.len(),
{
    lemma_queued_total_nonneg(ps.drop_last());
    if i < ps.len() - 1 {
        lemma_queued_total_covers(ps.drop_last(), i);
    }
}

pub proof fn lemma_queued_total_nonneg(ps: Seq<Proposal>)
    requires
        forall|j: int| 0 <= j < ps.len() ==> #[trigger] ps[j].amount >= 0,
    ensures
        queued_total(ps) >= 0,
    decreases ps.len(),
{
    if ps.len() > 0 {
        lemma_queued_total_nonneg(ps.drop_last());
    }
}

pub proof fn lemma_vote_map_push(bs: Seq<(VoteKey, VoteDirection)>, b: (VoteKey, VoteDirection))
    ensures
        vote_map(bs.push(b)) == vote_map(bs).insert(ballot_key(b), b.1),
{
    assert(bs.push(b).drop_last() =~= bs);
}

/// With unique keys, the vote recorded under the key of `bs[i]` is `bs[i]`'s.
pub proof fn lemma_vote_map_entry(bs: Seq<(VoteKey, VoteDirection)>, i: int)
    requires
        ballots_unique(bs),
        0 <= i < bs.len(),
    ensures
        vote_map(bs).contains_key(ballot_key(bs[i])),
        vote_map(bs)[ballot_key(bs[i])] == bs[i].1,
    decreases bs.len(),
{
    if i < bs.len() - 1 {
        let init = bs.drop_last();
        assert(ballots_unique(init)) by {
            assert forall|a: int, b: int| 0 <= a < b < init.len() implies #[trigger] ballot_key(
                init[a],
            ) != #[trigger] ballot_key(init[b]) by {
                assert(init[a] == bs[a] && init[b] == bs[b]);
            }
        }
        lemma_vote_map_entry(init, i);
        assert(ballot_key(bs[i]) != ballot_key(bs[bs.len() - 1]));
    }
}

/// A key that no element of `bs` has holds no vote.
pub proof fn lemma_vote_map_absent(bs: Seq<(VoteKey, VoteDirection)>, k: (u64, Seq<char>))
    requires
        forall|i: int| 0 <= i < bs.len() ==> #[trigger] ballot_key(bs[i]) != k,
    ensures
        !vote_map(bs).contains_key(k),
    decreases bs.len(),
{
    if bs.len() > 0 {
        let init = bs.drop_last();
        assert forall|i: int| 0 <= i < init.len() implies #[trigger] ballot_key(init[i]) != k by {
            assert(init[i] == bs[i]);
        }
        lemma_vote_map_absent(init, k);
        assert(ballot_key(bs[bs.len() - 1]) != k);
    }
}


/// With no negative amounts, a prefix holds back no more than the whole.
pub proof fn lemma_queued_total_prefix(ps: Seq<Proposal>, k: int)
    requires
        forall|j: int| 0 <= j < ps.len() ==> #[trigger] ps[j].amount >= 0,
        0 <= k <= ps.len(),
    ensures
        queued_total(ps.take(k)) <= queued_total(ps),
    decreases ps.len(),
{
    if k == ps.len() {
        assert(ps.take(k) =~= ps);
    } else {
        let init = ps.drop_last();
        assert(init.take(k) =~= ps.take(k));
        lemma_queued_total_prefix(init, k);
    }
}

/// Extending a prefix by one proposal adds that proposal's share.
pub proof fn lemma_queued_total_take_next(ps: Seq<Proposal>, k: int)
    requires
        0 <= k < ps.len(),
    ensures
        queued_total(ps.take(k + 1)) == queued_total(ps.take(k)) + reserved_share(ps[k]),
{
    assert(ps.take(k + 1).drop_last() =~= ps.take(k));
}


/// The ids listed for `who` are exactly the ids of the proposals `who` submitted,
/// whatever their status.
pub proof fn lemma_ids_of_proposer_members(ps: Seq<Proposal>, who: Seq<char>)
    ensures
        forall|x: u64|
            #![trigger ids_of_proposer(ps, who).contains(x)]
            ids_of_proposer(ps, who).contains(x) <==> exists|i: int|
                0 <= i < ps.len() && ps[i].proposer@ == who && #[trigger] ps[i].id == x,
    decreases ps.len(),
{
    if ps.len() > 0 {
        let init = ps.drop_last();
        lemma_ids_of_proposer_members(init, who);
        let rest = ids_of_proposer(init, who);
        let last = ps.len() - 1;
        assert forall|x: u64| #[trigger] ids_of_proposer(ps, who).contains(x) <==> exists|i: int|
            0 <= i < ps.len() && ps[i].proposer@ == who && #[trigger] ps[i].id == x by {
            if ids_of_proposer(ps, who).contains(x) {
                let j = choose|j: int| 0 <= j < ids_of_proposer(ps, who).len() && ids_of_proposer(ps, who)[j] == x;
                if ps[last].proposer@ == who && j == rest.len() {
                    assert(ps[last].id == x);
                } else {
                    assert(rest[j] == x);
                    assert(rest.contains(x));
                    let i = choose|i: int| 0 <= i < init.len() && init[i].proposer@ == who && #[trigger] init[i].id == x;
                    assert(ps[i] == init[i]);
                }
            }
            if exists|i: int| 0 <= i < ps.len() && ps[i].proposer@ == who && #[trigger] ps[i].id == x {
                let i = choose|i: int| 0 <= i < ps.len() && ps[i].proposer@ == who && #[trigger] ps[i].id == x;
                if i == last {
                    assert(ids_of_proposer(ps, who)[rest.len() as int] == x);
                } else {
                    assert(init[i] == ps[i]);
                    assert(rest.contains(x));
                    let j = choose|j: int| 0 <= j < rest.len() && rest[j] == x;
                    assert(ids_of_proposer(ps, who)[j] == x);
                }
            }
        }
    }
}

/// When every proposal's id is its position plus one, the ids listed for
/// `who` are strictly increasing and lie in 1..=ps.len().
pub proof fn lemma_ids_of_proposer_increasing(ps: Seq<Proposal>, who: Seq<char>)
    requires
        forall|i: int| 0 <= i < ps.len() ==> #[trigger] ps[i].id == i + 1,
    ensures
        forall|a: int, b: int|
            0 <= a < b < ids_of_proposer(ps, who).len() ==> #[trigger] ids_of_proposer(ps, who)[a]
                < #[trigger] ids_of_proposer(ps, who)[b],
        forall|a: int|
            0 <= a < ids_of_proposer(ps, who).len() ==> 1 <= #[trigger] ids_of_proposer(ps, who)[a]
                <= ps.len(),
    decreases ps.len(),
{
    if ps.len() > 0 {
        let init = ps.drop_last();
        assert forall|i: int| 0 <= i < init.len() implies #[trigger] init[i].id == i + 1 by {
            assert(init[i] == ps[i]);
        }
        lemma_ids_of_proposer_increasing(init, who);
        let rest = ids_of_proposer(init, who);
        let full = ids_of_proposer(ps, who);
        assert(ps[ps.len() - 1].id == ps.len());
        if ps.last().proposer@ == who {
            assert(full == rest.push(ps.last().id));
            assert forall|a: int, b: int| 0 <= a < b < full.len() implies #[trigger] full[a]
                < #[trigger] full[b] by {
                if b < rest.len() {
                    assert(full[a] == rest[a] && full[b] == rest[b]);
                } else {
                    assert(full[a] == rest[a]);
                }
            }
            assert forall|a: int| 0 <= a < full.len() implies 1 <= #[trigger] full[a] <= ps.len() by {
                if a < rest.len() {
                    assert(full[a] == rest[a]);
                }
            }
        } else {
            assert(full == rest);
        }
    }
}

/// Two proposal lists with the same proposers and ids, position by position,
/// list the same ids for every proposer.
pub proof fn lemma_ids_of_proposer_same_shape(ps1: Seq<Proposal>, ps2: Seq<Proposal>, who: Seq<char>)
    requires
        ps1.len() == ps2.len(),
        forall|i: int|
            0 <= i < ps1.len() ==> #[trigger] ps2[i].proposer@ == ps1[i].proposer@ && ps2[i].id
                == ps1[i].id,
    ensures
        ids_of_proposer(ps2, who) == ids_of_proposer(ps1, who),
    decreases ps1.len(),
{
    if ps1.len() > 0 {
        let i1 = ps1.drop_last();
        let i2 = ps2.drop_last();
        assert forall|i: int| 0 <= i < i1.len() implies #[trigger] i2[i].proposer@ == i1[i].proposer@
            && i2[i].id == i1[i].id by {
            assert(i1[i] == ps1[i] && i2[i] == ps2[i]);
        }
        lemma_ids_of_proposer_same_shape(i1, i2, who);
        assert(ps2[ps2.len() - 1].proposer@ == ps1[ps1.len() - 1].proposer@);
    }
}

/// Submitting a proposal appends its id to its proposer's list, and to no one
/// else's.
pub proof fn lemma_ids_of_proposer_push(ps: Seq<Proposal>, p: Proposal, who: Seq<char>)
    ensures
        ids_of_proposer(ps.push(p), who) == (if p.proposer@ == who {
            ids_of_proposer(ps, who).push(p.id)
        } else {
            ids_of_proposer(ps, who)
        }),
{
    assert(ps.push(p).drop_last() =~= ps);
}

} // verus!
