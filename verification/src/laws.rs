//! Properties of the DAO that hold across its operations, stated over the
//! refusal rules and state that the operations' contracts are written in.

use vstd::prelude::*;

use crate::address::Address;
use crate::bookkeeping::{
    ids_of_proposer, lemma_ids_of_proposer_increasing, lemma_ids_of_proposer_members,
    lemma_ids_of_proposer_push, lemma_ids_of_proposer_same_shape, proposal_ids, queued_total,
};
use crate::contract::{Call, UniFundContract};
use crate::types::{DaoError, Proposal, ProposalStatus, VoteDirection};

verus! {

/// The reserved balance is exactly the sum of the amounts of the queued
/// proposals, and never negative.
pub proof fn reserved_is_sum_of_queued_budgets(c: &UniFundContract)
    requires
        c.wf(),
    ensures
        c.reserved() == queued_total(c.proposals()),
        c.reserved() >= 0,
        c.treasury() >= 0,
{
    crate::bookkeeping::lemma_queued_total_nonneg(c.proposals());
}

/// Proposal ids are 1, 2, 3, ... in submission order, and the next proposal
/// gets the next one.
pub proof fn proposal_ids_are_sequential(c: &UniFundContract)
    requires
        c.wf(),
    ensures
        proposal_ids(c.proposals()) == Seq::new(c.proposals().len(), |i: int| (i + 1) as u64),
        c.next_id() == c.proposals().len() + 1,
        forall|id: u64| #[trigger] c.lookup(id) matches Some(p) ==> p.id == id,
{
    assert(proposal_ids(c.proposals()) =~= Seq::new(c.proposals().len(), |i: int| (i + 1) as u64));
}

/// The Faculty Advisor may cancel any proposal that is neither executed nor
/// already cancelled, at any time.
pub proof fn advisor_may_cancel_any_unfinished(c: &UniFundContract, advisor: Seq<char>, proposal_id: u64, now: u64)
    requires
        c.wf(),
        c.stored_config() matches Some(cfg) && cfg.admin@ == advisor,
        c.lookup(proposal_id) matches Some(p) && p.status != ProposalStatus::Executed
            && p.status != ProposalStatus::Cancelled,
    ensures
        c.cancel_error(advisor, proposal_id, now) is None,
{
}

/// The proposing student may cancel their own Active proposal while its voting
/// window is open.
pub proof fn proposer_may_cancel_own_active(c: &UniFundContract, student: Seq<char>, proposal_id: u64, now: u64)
    requires
        c.wf(),
        c.lookup(proposal_id) matches Some(p) && p.proposer@ == student && p.status
            == ProposalStatus::Active && now <= p.voting_deadline,
    ensures
        c.cancel_error(student, proposal_id, now) is None,
{
}

/// A cancellation goes through only for the Faculty Advisor, or for the
/// proposer of a still Active proposal within its voting window.
pub proof fn only_advisor_or_proposer_cancel(c: &UniFundContract, caller: Seq<char>, proposal_id: u64, now: u64)
    requires
        c.wf(),
        c.cancel_error(caller, proposal_id, now) is None,
    ensures
        c.stored_config() matches Some(cfg) && c.lookup(proposal_id) matches Some(p) && (cfg.admin@
            == caller || (p.proposer@ == caller && p.status == ProposalStatus::Active && now
            <= p.voting_deadline)),
{
}

/// Executed and Cancelled proposals are final: voting, queueing, cancelling
/// and executing are all refused for them.
pub proof fn finished_proposals_are_final(
    c: &UniFundContract,
    who: Seq<char>,
    proposal_id: u64,
    direction: VoteDirection,
    balance: i128,
    now: u64,
)
    requires
        c.wf(),
        c.lookup(proposal_id) matches Some(p) && (p.status == ProposalStatus::Executed || p.status
            == ProposalStatus::Cancelled),
    ensures
        c.vote_error(who, proposal_id, direction, balance, now) == Some(DaoError::NotActive),
        c.queue_error(proposal_id, now) == Some(DaoError::NotActive),
        c.cancel_error(who, proposal_id, now) is Some,
        c.execute_error(proposal_id, now) == Some(DaoError::NotQueued),
{
}

/// A student votes at most once on a proposal: once a vote of theirs is
/// recorded, every further vote of theirs on it is refused.
pub proof fn one_vote_per_student(
    c: &UniFundContract,
    voter: Seq<char>,
    proposal_id: u64,
    direction: VoteDirection,
    balance: i128,
    now: u64,
)
    requires
        c.wf(),
        c.votes().contains_key((proposal_id, voter)),
    ensures
        c.vote_error(voter, proposal_id, direction, balance, now) is Some,
{
}

/// An accepted proposal asks for a positive amount within the spending cap
/// (when there is one) and within the funds neither spent nor reserved.
pub proof fn accepted_budgets_are_affordable(
    c: &UniFundContract,
    title: Seq<char>,
    description: Seq<char>,
    amount: i128,
    balance: i128,
    now: u64,
)
    requires
        c.wf(),
        c.submit_error(title, description, amount, balance, now) is None,
    ensures
        amount > 0,
        amount <= c.available(),
        c.stored_config() matches Some(cfg) && (cfg.spending_cap > 0 ==> amount <= cfg.spending_cap),
{
}

/// Funds are paid out only for a queued proposal whose veto period is over,
/// and never beyond the treasury.
pub proof fn payouts_wait_for_the_veto_period(c: &UniFundContract, proposal_id: u64, now: u64)
    requires
        c.wf(),
        c.execute_error(proposal_id, now) is None,
    ensures
        c.lookup(proposal_id) matches Some(p) && p.status == ProposalStatus::Queued && now
            >= p.executable_at && p.amount <= c.treasury(),
{
}

/// Only the Faculty Advisor changes the configuration or hands over the role,
/// and a contract is initialised once.
pub proof fn only_advisor_governs(c: &UniFundContract, caller: Seq<char>, quorum_bps: u32, voting_window: u64, veto_period: u64, spending_cap: i128)
    requires
        c.wf(),
    ensures
        c.update_config_error(caller, quorum_bps, voting_window, veto_period, spending_cap) is None
            ==> (c.stored_config() matches Some(cfg) && cfg.admin@ == caller),
        c.transfer_admin_error(caller) is None ==> (c.stored_config() matches Some(cfg)
            && cfg.admin@ == caller),
        c.stored_config() is Some ==> c.initialize_error(quorum_bps, voting_window, veto_period, spending_cap)
            == Some(DaoError::AlreadyInitialized),
{
}

/// A well-formed state, taken apart into what is stored, is rebuilt by
/// `UniFundContract::restore` into the same state.
pub proof fn stored_state_restores(c: &UniFundContract)
    requires
        c.wf(),
    ensures
        UniFundContract::parts_wf(
            c.stored_config(),
            c.treasury(),
            c.reserved(),
            c.next_id(),
            c.proposals(),
            c.ballots(),
        ),
{
}


// ── Runs: laws over sequences of calls ──

/// `call` goes through in state `s`.
pub open spec fn accepted(s: UniFundContract, call: Call) -> bool {
    s.call_error(call) is None
}

/// `states` is a run of the contract from a well-formed state: each state is
/// what `calls[i]` leaves when made in the state before it.
pub open spec fn is_run(states: Seq<UniFundContract>, calls: Seq<Call>) -> bool {
    &&& states.len() == calls.len() + 1
    &&& states[0].wf()
    &&& forall|i: int|
        #![trigger calls[i]]
        0 <= i < calls.len() ==> states[i].step_by(calls[i], states[i + 1])
}

/// The terms of a proposal that no call changes: id, proposer, title,
/// description, recipient, amount, submission time and voting deadline.
pub open spec fn same_terms(p: Proposal, q: Proposal) -> bool {
    &&& q.id == p.id
    &&& q.proposer == p.proposer
    &&& q.title == p.title
    &&& q.description == p.description
    &&& q.recipient == p.recipient
    &&& q.amount == p.amount
    &&& q.submitted_at == p.submitted_at
    &&& q.voting_deadline == p.voting_deadline
}

/// The proposal is Executed or Cancelled.
pub open spec fn finished(p: Proposal) -> bool {
    p.status == ProposalStatus::Executed || p.status == ProposalStatus::Cancelled
}

/// How much a call adds to the treasury in state `s`: a deposit's amount, minus
/// an executed proposal's amount, nothing otherwise.
pub open spec fn treasury_delta(s: UniFundContract, call: Call) -> int {
    if !accepted(s, call) {
        0
    } else {
        match call {
            Call::Deposit { amount, .. } => amount as int,
            Call::ExecuteProposal { proposal_id, .. } => -s.lookup(proposal_id).unwrap().amount,
            _ => 0,
        }
    }
}

/// The total of the deposits that went through in the first `k` calls.
pub open spec fn deposited(states: Seq<UniFundContract>, calls: Seq<Call>, k: int) -> int
    decreases k,
{
    if k <= 0 {
        0
    } else {
        deposited(states, calls, k - 1) + (match calls[k - 1] {
            Call::Deposit { amount, .. } => if accepted(states[k - 1], calls[k - 1]) {
                amount as int
            } else {
                0
            },
            _ => 0,
        })
    }
}

/// The total paid out by the executions that went through in the first `k`
/// calls.
pub open spec fn paid_out(states: Seq<UniFundContract>, calls: Seq<Call>, k: int) -> int
    decreases k,
{
    if k <= 0 {
        0
    } else {
        paid_out(states, calls, k - 1) + (match calls[k - 1] {
            Call::ExecuteProposal { proposal_id, .. } => if accepted(states[k - 1], calls[k - 1]) {
                states[k - 1].lookup(proposal_id).unwrap().amount as int
            } else {
                0
            },
            _ => 0,
        })
    }
}

/// Call `k` is a vote by `voter` on `proposal_id` that went through.
pub open spec fn voted_at(states: Seq<UniFundContract>, calls: Seq<Call>, k: int, proposal_id: u64, voter: Seq<char>) -> bool {
    &&& calls[k] matches Call::Vote { voter: v, proposal_id: id, .. } && id == proposal_id && v@ == voter
    &&& accepted(states[k], calls[k])
}

/// Call `k` is a proposal submission that went through.
pub open spec fn submitted_at(states: Seq<UniFundContract>, calls: Seq<Call>, k: int) -> bool {
    calls[k] is SubmitProposal && accepted(states[k], calls[k])
}

/// Call `k` is a handover of the advisor role that went through.
pub open spec fn handed_over_at(states: Seq<UniFundContract>, calls: Seq<Call>, k: int) -> bool {
    calls[k] is TransferAdmin && accepted(states[k], calls[k])
}

proof fn lemma_step_config(s: UniFundContract, c: Call, n: UniFundContract)
    requires
        s.wf(),
        s.step_by(c, n),
        s.stored_config() is Some,
    ensures
        n.stored_config() is Some,
        n.stored_config().unwrap().admin == (match c {
            Call::TransferAdmin { new_admin, .. } => if accepted(s, c) {
                new_admin
            } else {
                s.stored_config().unwrap().admin
            },
            _ => s.stored_config().unwrap().admin,
        }),
        !(c is SubmitProposal && accepted(s, c)) ==> n.next_id() == s.next_id(),
        (c is SubmitProposal && accepted(s, c)) ==> n.next_id() == s.next_id() + 1,
{
}

proof fn lemma_step_treasury(s: UniFundContract, c: Call, n: UniFundContract)
    requires
        s.wf(),
        s.step_by(c, n),
    ensures
        n.treasury() == s.treasury() + treasury_delta(s, c),
{
}

proof fn lemma_step_votes(s: UniFundContract, c: Call, n: UniFundContract)
    requires
        s.wf(),
        s.step_by(c, n),
    ensures
        match c {
            Call::Vote { voter, proposal_id, direction, .. } => if accepted(s, c) {
                &&& !s.votes().contains_key((proposal_id, voter@))
                &&& n.votes() == s.votes().insert((proposal_id, voter@), direction)
            } else {
                n.votes() == s.votes()
            },
            _ => n.votes() == s.votes(),
        },
{
    if accepted(s, c) {
        match c {
            Call::Initialize { .. } => {
                assert(s.ballots() =~= n.ballots());
            },
            _ => {},
        }
    }
}

proof fn lemma_step_proposal(s: UniFundContract, c: Call, n: UniFundContract, id: u64)
    requires
        s.wf(),
        s.step_by(c, n),
        s.lookup(id) is Some,
    ensures
        n.lookup(id) is Some,
        same_terms(s.lookup(id).unwrap(), n.lookup(id).unwrap()),
        finished(s.lookup(id).unwrap()) ==> n.lookup(id) == s.lookup(id),
{
    if accepted(s, c) {
        match c {
            Call::SubmitProposal { .. } => {
                assert(n.proposals()[id - 1] == s.proposals()[id - 1]);
            },
            _ => {},
        }
    }
}

/// Every state of a run is well formed.
pub proof fn run_states_are_well_formed(states: Seq<UniFundContract>, calls: Seq<Call>, k: int)
    requires
        is_run(states, calls),
        0 <= k < states.len(),
    ensures
        states[k].wf(),
{
    if k > 0 {
        assert(states[k - 1].step_by(calls[k - 1], states[k]));
    }
}

/// Once configured, a contract stays configured, and its advisor changes only
/// by a handover that goes through: with no handover after call `i`, the
/// advisor is the one in state `i`.
pub proof fn advisor_changes_only_by_handover(states: Seq<UniFundContract>, calls: Seq<Call>, i: int, m: int)
    requires
        is_run(states, calls),
        0 <= i <= m < states.len(),
        states[i].stored_config() is Some,
        forall|k: int| i <= k < m ==> !handed_over_at(states, calls, k),
    ensures
        states[m].stored_config() is Some,
        states[m].stored_config().unwrap().admin == states[i].stored_config().unwrap().admin,
    decreases m - i,
{
    if i < m {
        run_states_are_well_formed(states, calls, i);
        assert(states[i].step_by(calls[i], states[i + 1]));
        lemma_step_config(states[i], calls[i], states[i + 1]);
        assert(!handed_over_at(states, calls, i));
        advisor_changes_only_by_handover(states, calls, i + 1, m);
    }
}

/// After a handover to `new_admin` that goes through, and until the next one,
/// only `new_admin` may update the configuration or hand the role on.
pub proof fn after_handover_only_new_advisor_governs(
    states: Seq<UniFundContract>,
    calls: Seq<Call>,
    i: int,
    m: int,
    caller: Seq<char>,
    quorum_bps: u32,
    voting_window: u64,
    veto_period: u64,
    spending_cap: i128,
)
    requires
        is_run(states, calls),
        0 <= i < m < states.len(),
        handed_over_at(states, calls, i),
        forall|k: int| i < k < m ==> !handed_over_at(states, calls, k),
    ensures
        states[m].stored_config() matches Some(cfg) && cfg.admin == calls[i]->new_admin,
        caller != calls[i]->new_admin@ ==> states[m].update_config_error(
            caller,
            quorum_bps,
            voting_window,
            veto_period,
            spending_cap,
        ) == Some(DaoError::NotAdmin),
        caller != calls[i]->new_admin@ ==> states[m].transfer_admin_error(caller) == Some(
            DaoError::NotAdmin,
        ),
{
    run_states_are_well_formed(states, calls, i);
    assert(states[i].step_by(calls[i], states[i + 1]));
    lemma_step_config(states[i], calls[i], states[i + 1]);
    advisor_changes_only_by_handover(states, calls, i + 1, m);
}

/// A contract is initialised at most once: once an `initialize` goes through,
/// every later one is refused as already initialised.
pub proof fn initialized_at_most_once(states: Seq<UniFundContract>, calls: Seq<Call>, i: int, j: int)
    requires
        is_run(states, calls),
        0 <= i < j < calls.len(),
        calls[i] is Initialize && accepted(states[i], calls[i]),
        calls[j] is Initialize,
    ensures
        states[j].call_error(calls[j]) == Some(DaoError::AlreadyInitialized),
{
    run_states_are_well_formed(states, calls, i);
    assert(states[i].step_by(calls[i], states[i + 1]));
    lemma_stays_configured(states, calls, i + 1, j);
}

proof fn lemma_stays_configured(states: Seq<UniFundContract>, calls: Seq<Call>, i: int, m: int)
    requires
        is_run(states, calls),
        0 <= i <= m < states.len(),
        states[i].stored_config() is Some,
    ensures
        states[m].stored_config() is Some,
    decreases m - i,
{
    if i < m {
        run_states_are_well_formed(states, calls, i);
        assert(states[i].step_by(calls[i], states[i + 1]));
        lemma_step_config(states[i], calls[i], states[i + 1]);
        lemma_stays_configured(states, calls, i + 1, m);
    }
}

proof fn lemma_next_id_holds(states: Seq<UniFundContract>, calls: Seq<Call>, i: int, m: int)
    requires
        is_run(states, calls),
        0 <= i <= m < states.len(),
        states[i].stored_config() is Some,
        forall|k: int| i <= k < m ==> !submitted_at(states, calls, k),
    ensures
        states[m].next_id() == states[i].next_id(),
    decreases m - i,
{
    if i < m {
        run_states_are_well_formed(states, calls, i);
        assert(states[i].step_by(calls[i], states[i + 1]));
        lemma_step_config(states[i], calls[i], states[i + 1]);
        assert(!submitted_at(states, calls, i));
        lemma_next_id_holds(states, calls, i + 1, m);
    }
}

/// Two submissions that go through, with none between them, get consecutive
/// ids (a submission made in state `k` gets `states[k].next_id()`); so ids
/// only grow and no id is handed out twice.
pub proof fn successive_submissions_get_consecutive_ids(states: Seq<UniFundContract>, calls: Seq<Call>, i: int, j: int)
    requires
        is_run(states, calls),
        0 <= i < j < calls.len(),
        submitted_at(states, calls, i),
        submitted_at(states, calls, j),
        forall|k: int| i < k < j ==> !submitted_at(states, calls, k),
    ensures
        states[j].next_id() == states[i].next_id() + 1,
{
    run_states_are_well_formed(states, calls, i);
    assert(states[i].step_by(calls[i], states[i + 1]));
    lemma_step_config(states[i], calls[i], states[i + 1]);
    lemma_next_id_holds(states, calls, i + 1, j);
}

/// The treasury is what it started with, plus the deposits that went through,
/// minus the payouts of the executions that went through; it never goes
/// negative.
pub proof fn treasury_is_deposits_minus_payouts(states: Seq<UniFundContract>, calls: Seq<Call>, k: int)
    requires
        is_run(states, calls),
        0 <= k < states.len(),
    ensures
        states[k].treasury() == states[0].treasury() + deposited(states, calls, k) - paid_out(
            states,
            calls,
            k,
        ),
        states[k].treasury() >= 0,
    decreases k,
{
    run_states_are_well_formed(states, calls, k);
    if k > 0 {
        treasury_is_deposits_minus_payouts(states, calls, k - 1);
        run_states_are_well_formed(states, calls, k - 1);
        assert(states[k - 1].step_by(calls[k - 1], states[k]));
        lemma_step_treasury(states[k - 1], calls[k - 1], states[k]);
    }
}

/// A recorded vote stays recorded, with the same direction, in every later
/// state.
pub proof fn recorded_votes_persist(
    states: Seq<UniFundContract>,
    calls: Seq<Call>,
    k: int,
    m: int,
    key: (u64, Seq<char>),
)
    requires
        is_run(states, calls),
        0 <= k <= m < states.len(),
        states[k].votes().contains_key(key),
    ensures
        states[m].votes().contains_key(key),
        states[m].votes()[key] == states[k].votes()[key],
    decreases m - k,
{
    if k < m {
        run_states_are_well_formed(states, calls, k);
        assert(states[k].step_by(calls[k], states[k + 1]));
        lemma_step_votes(states[k], calls[k], states[k + 1]);
        recorded_votes_persist(states, calls, k + 1, m, key);
    }
}

/// From a freshly deployed contract, a vote by `voter` on `proposal_id` is
/// recorded (`has_voted`) exactly when an earlier vote of theirs on it went
/// through.
pub proof fn has_voted_exactly_after_a_vote(
    states: Seq<UniFundContract>,
    calls: Seq<Call>,
    m: int,
    proposal_id: u64,
    voter: Seq<char>,
)
    requires
        is_run(states, calls),
        states[0].stored_config() is None,
        0 <= m < states.len(),
    ensures
        states[m].votes().contains_key((proposal_id, voter)) <==> exists|k: int|
            0 <= k < m && #[trigger] voted_at(states, calls, k, proposal_id, voter),
    decreases m,
{
    if m == 0 {
        assert(states[0].ballots() =~= Seq::empty());
    } else {
        has_voted_exactly_after_a_vote(states, calls, m - 1, proposal_id, voter);
        run_states_are_well_formed(states, calls, m - 1);
        assert(states[m - 1].step_by(calls[m - 1], states[m]));
        lemma_step_votes(states[m - 1], calls[m - 1], states[m]);
        if voted_at(states, calls, m - 1, proposal_id, voter) {
        } else if states[m].votes().contains_key((proposal_id, voter)) {
            let k = choose|k: int| 0 <= k < m - 1 && #[trigger] voted_at(states, calls, k, proposal_id, voter);
        } else {
            assert forall|k: int| 0 <= k < m implies !#[trigger] voted_at(states, calls, k, proposal_id, voter) by {
                if k < m - 1 && voted_at(states, calls, k, proposal_id, voter) {
                }
            }
        }
    }
}

/// A proposal, once submitted, keeps its terms in every later state; once it
/// is Executed or Cancelled it does not change at all.
pub proof fn proposal_terms_are_fixed_and_finished_is_final(
    states: Seq<UniFundContract>,
    calls: Seq<Call>,
    k: int,
    m: int,
    proposal_id: u64,
)
    requires
        is_run(states, calls),
        0 <= k <= m < states.len(),
        states[k].lookup(proposal_id) is Some,
    ensures
        states[m].lookup(proposal_id) is Some,
        same_terms(states[k].lookup(proposal_id).unwrap(), states[m].lookup(proposal_id).unwrap()),
        finished(states[k].lookup(proposal_id).unwrap()) ==> states[m].lookup(proposal_id)
            == states[k].lookup(proposal_id),
    decreases m - k,
{
    if k < m {
        run_states_are_well_formed(states, calls, k);
        assert(states[k].step_by(calls[k], states[k + 1]));
        lemma_step_proposal(states[k], calls[k], states[k + 1], proposal_id);
        proposal_terms_are_fixed_and_finished_is_final(states, calls, k + 1, m, proposal_id);
    }
}

// ── What each operation does, over all inputs ──

proof fn lemma_div_reaches(x: int, t: int, q: int)
    requires
        t > 0,
        x >= 0,
        q >= 0,
    ensures
        (x / t >= q) <==> (x >= q * t),
{
    assert((x / t >= q) ==> (x >= q * t)) by (nonlinear_arith)
        requires
            t > 0,
            x >= 0,
            q >= 0,
    ;
    assert((x >= q * t) ==> (x / t >= q)) by (nonlinear_arith)
        requires
            t > 0,
            x >= 0,
            q >= 0,
    ;
}

/// Queueing decides the vote: the proposal is Queued exactly when For beats
/// Against and `10000 * For` reaches `quorum_bps` times all votes cast, and
/// Defeated otherwise. A queued proposal has its amount reserved and becomes
/// executable one full veto period after the moment it is queued, however late
/// after its deadline that is. Nothing else about the proposal changes.
pub proof fn queue_decides_and_starts_the_veto_period(
    s: UniFundContract,
    n: UniFundContract,
    proposal_id: u64,
    now: u64,
)
    requires
        s.wf(),
        s.step_by(Call::QueueProposal { proposal_id, now }, n),
        accepted(s, Call::QueueProposal { proposal_id, now }),
    ensures
        s.lookup(proposal_id) is Some,
        n.lookup(proposal_id) is Some,
        s.lookup(proposal_id).unwrap().status == ProposalStatus::Active,
        now > s.lookup(proposal_id).unwrap().voting_deadline,
        n.lookup(proposal_id).unwrap().status == ProposalStatus::Queued <==> ({
            let p = s.lookup(proposal_id).unwrap();
            &&& p.for_votes > p.against_votes
            &&& p.for_votes * 10000 >= s.stored_config().unwrap().quorum_bps * (p.for_votes
                + p.against_votes + p.abstain_votes)
        }),
        n.lookup(proposal_id).unwrap().status != ProposalStatus::Queued ==> {
            &&& n.lookup(proposal_id).unwrap().status == ProposalStatus::Defeated
            &&& n.lookup(proposal_id).unwrap().executable_at == s.lookup(proposal_id).unwrap().executable_at
            &&& n.reserved() == s.reserved()
        },
        n.lookup(proposal_id).unwrap().status == ProposalStatus::Queued ==> {
            &&& n.lookup(proposal_id).unwrap().executable_at == now + s.stored_config().unwrap().veto_period
            &&& n.reserved() == s.reserved() + s.lookup(proposal_id).unwrap().amount
        },
        same_terms(s.lookup(proposal_id).unwrap(), n.lookup(proposal_id).unwrap()),
        n.lookup(proposal_id).unwrap().for_votes == s.lookup(proposal_id).unwrap().for_votes,
        n.lookup(proposal_id).unwrap().against_votes == s.lookup(proposal_id).unwrap().against_votes,
        n.lookup(proposal_id).unwrap().abstain_votes == s.lookup(proposal_id).unwrap().abstain_votes,
        n.treasury() == s.treasury(),
{
    let p = s.lookup(proposal_id).unwrap();
    let total = p.for_votes + p.against_votes + p.abstain_votes;
    if p.for_votes > p.against_votes {
        lemma_div_reaches(p.for_votes * 10000, total, s.stored_config().unwrap().quorum_bps as int);
    }
}

/// A vote on an Active proposal within its window, by a voter with no vote
/// recorded on it and a positive balance that fits the tally, goes through,
/// whoever proposed it: the balance is added to the chosen tally, the other two
/// tallies stay, and the vote is recorded with its direction.
pub proof fn eligible_vote_is_counted(
    s: UniFundContract,
    n: UniFundContract,
    voter: Address,
    proposal_id: u64,
    direction: VoteDirection,
    voter_balance: i128,
    now: u64,
)
    requires
        s.wf(),
        s.lookup(proposal_id) matches Some(p) && p.status == ProposalStatus::Active && now
            <= p.voting_deadline && match direction {
            VoteDirection::For => p.for_votes + voter_balance <= u64::MAX,
            VoteDirection::Against => p.against_votes + voter_balance <= u64::MAX,
            VoteDirection::Abstain => p.abstain_votes + voter_balance <= u64::MAX,
        },
        !s.votes().contains_key((proposal_id, voter@)),
        voter_balance > 0,
        s.step_by(Call::Vote { voter, proposal_id, direction, voter_balance, now }, n),
    ensures
        accepted(s, Call::Vote { voter, proposal_id, direction, voter_balance, now }),
        n.votes().contains_key((proposal_id, voter@)),
        n.votes()[(proposal_id, voter@)] == direction,
        n.lookup(proposal_id) is Some,
        ({
            let p = s.lookup(proposal_id).unwrap();
            let q = n.lookup(proposal_id).unwrap();
            match direction {
                VoteDirection::For => q.for_votes == p.for_votes + voter_balance && q.against_votes
                    == p.against_votes && q.abstain_votes == p.abstain_votes,
                VoteDirection::Against => q.against_votes == p.against_votes + voter_balance
                    && q.for_votes == p.for_votes && q.abstain_votes == p.abstain_votes,
                VoteDirection::Abstain => q.abstain_votes == p.abstain_votes + voter_balance
                    && q.for_votes == p.for_votes && q.against_votes == p.against_votes,
            }
        }),
        n.lookup(proposal_id).unwrap().status == ProposalStatus::Active,
{
}

/// An execution that goes through marks the proposal Executed at the moment
/// it runs and takes its amount from the treasury and from the reservation.
pub proof fn execution_pays_out_and_records_its_time(
    s: UniFundContract,
    n: UniFundContract,
    proposal_id: u64,
    now: u64,
)
    requires
        s.wf(),
        s.step_by(Call::ExecuteProposal { proposal_id, now }, n),
        accepted(s, Call::ExecuteProposal { proposal_id, now }),
    ensures
        s.lookup(proposal_id) is Some,
        n.lookup(proposal_id) is Some,
        n.lookup(proposal_id).unwrap().status == ProposalStatus::Executed,
        n.lookup(proposal_id).unwrap().executed_at == now,
        now >= s.lookup(proposal_id).unwrap().executable_at,
        n.treasury() == s.treasury() - s.lookup(proposal_id).unwrap().amount,
        n.reserved() == s.reserved() - s.lookup(proposal_id).unwrap().amount,
        same_terms(s.lookup(proposal_id).unwrap(), n.lookup(proposal_id).unwrap()),
{
}

/// A cancellation that goes through leaves the proposal Cancelled, whatever
/// its status was, and releases its reservation exactly when it was queued.
pub proof fn cancellation_cancels(
    s: UniFundContract,
    n: UniFundContract,
    caller: Address,
    proposal_id: u64,
    now: u64,
)
    requires
        s.wf(),
        s.step_by(Call::CancelProposal { caller, proposal_id, now }, n),
        accepted(s, Call::CancelProposal { caller, proposal_id, now }),
    ensures
        s.lookup(proposal_id) is Some,
        n.lookup(proposal_id) is Some,
        n.lookup(proposal_id).unwrap().status == ProposalStatus::Cancelled,
        s.lookup(proposal_id).unwrap().status == ProposalStatus::Queued ==> n.reserved()
            == s.reserved() - s.lookup(proposal_id).unwrap().amount,
        s.lookup(proposal_id).unwrap().status != ProposalStatus::Queued ==> n.reserved()
            == s.reserved(),
        n.treasury() == s.treasury(),
        same_terms(s.lookup(proposal_id).unwrap(), n.lookup(proposal_id).unwrap()),
{
}

/// The ids listed for a student are the ids of every proposal they submitted,
/// whatever its status, in increasing (submission) order.
pub proof fn proposer_list_holds_every_own_proposal(c: UniFundContract, who: Seq<char>)
    requires
        c.wf(),
    ensures
        forall|x: u64|
            #![trigger ids_of_proposer(c.proposals(), who).contains(x)]
            ids_of_proposer(c.proposals(), who).contains(x) <==> exists|i: int|
                0 <= i < c.proposals().len() && c.proposals()[i].proposer@ == who
                    && #[trigger] c.proposals()[i].id == x,
        forall|a: int, b: int|
            0 <= a < b < ids_of_proposer(c.proposals(), who).len() ==> #[trigger] ids_of_proposer(
                c.proposals(),
                who,
            )[a] < #[trigger] ids_of_proposer(c.proposals(), who)[b],
{
    lemma_ids_of_proposer_members(c.proposals(), who);
    assert forall|i: int| 0 <= i < c.proposals().len() implies #[trigger] c.proposals()[i].id == i
        + 1 by {
        assert(c.proposals()[i].id == i + 1);
    }
    lemma_ids_of_proposer_increasing(c.proposals(), who);
}

/// Only a submission changes a student's list of proposals: a submission that
/// goes through appends the new id to its proposer's list and leaves every
/// other list alone; every other call, refused or not, leaves all lists as
/// they were.
pub proof fn only_submission_changes_proposer_lists(s: UniFundContract, call: Call, n: UniFundContract, who: Seq<char>)
    requires
        s.wf(),
        s.step_by(call, n),
    ensures
        match call {
            Call::SubmitProposal { proposer, .. } => if accepted(s, call) {
                ids_of_proposer(n.proposals(), who) == if proposer@ == who {
                    ids_of_proposer(s.proposals(), who).push(s.next_id())
                } else {
                    ids_of_proposer(s.proposals(), who)
                }
            } else {
                ids_of_proposer(n.proposals(), who) == ids_of_proposer(s.proposals(), who)
            },
            _ => ids_of_proposer(n.proposals(), who) == ids_of_proposer(s.proposals(), who),
        },
{
    if accepted(s, call) {
        match call {
            Call::SubmitProposal { proposer, title, description, recipient, amount, now, .. } => {
                let np = Proposal {
                    id: s.next_id(),
                    proposer,
                    title,
                    description,
                    recipient,
                    amount,
                    status: ProposalStatus::Active,
                    for_votes: 0,
                    against_votes: 0,
                    abstain_votes: 0,
                    voting_deadline: (now + s.stored_config().unwrap().voting_window) as u64,
                    executable_at: 0,
                    submitted_at: now,
                    executed_at: 0,
                };
                lemma_ids_of_proposer_push(s.proposals(), np, who);
            },
            Call::Initialize { .. } => {
                assert(n.proposals() =~= s.proposals());
            },
            _ => {
                lemma_ids_of_proposer_same_shape(s.proposals(), n.proposals(), who);
            },
        }
    }
}


/// A submission that goes through creates, under a fresh id (the one handed
/// back), an Active proposal with exactly the given proposer, title,
/// description, recipient and amount, no votes, submitted now, with voting open
/// for one voting window; funds and votes are untouched.
pub proof fn submission_creates_an_active_proposal(
    s: UniFundContract,
    n: UniFundContract,
    proposer: Address,
    title: String,
    description: String,
    recipient: Address,
    amount: i128,
    proposer_balance: i128,
    now: u64,
)
    requires
        s.wf(),
        s.step_by(
            Call::SubmitProposal { proposer, title, description, recipient, amount, proposer_balance, now },
            n,
        ),
        accepted(s, Call::SubmitProposal { proposer, title, description, recipient, amount, proposer_balance, now }),
    ensures
        s.lookup(s.next_id()) is None,
        n.lookup(s.next_id()) is Some,
        n.proposals().len() == s.proposals().len() + 1,
        ({
            let q = n.lookup(s.next_id()).unwrap();
            &&& q.id == s.next_id()
            &&& q.proposer == proposer
            &&& q.title == title
            &&& q.description == description
            &&& q.recipient == recipient
            &&& q.amount == amount
            &&& q.status == ProposalStatus::Active
            &&& q.for_votes == 0 && q.against_votes == 0 && q.abstain_votes == 0
            &&& q.submitted_at == now
            &&& q.voting_deadline == now + s.stored_config().unwrap().voting_window
            &&& q.executable_at == 0
            &&& q.executed_at == 0
        }),
        forall|id: u64| id != s.next_id() ==> #[trigger] n.lookup(id) == s.lookup(id),
        n.treasury() == s.treasury(),
        n.reserved() == s.reserved(),
        n.votes() == s.votes(),
{
}

/// A submission is accepted when its amount is positive, its title and
/// description are not empty, the contract is configured, the proposer holds
/// Membership Tokens, the amount is within the spending cap (if there is one)
/// and within the funds neither spent nor reserved, and the id and deadline
/// fit their types.
pub proof fn eligible_submission_goes_through(
    s: UniFundContract,
    title: Seq<char>,
    description: Seq<char>,
    amount: i128,
    proposer_balance: i128,
    now: u64,
)
    requires
        s.wf(),
        amount > 0,
        title.len() > 0,
        description.len() > 0,
        s.stored_config() matches Some(c) && (c.spending_cap > 0 ==> amount <= c.spending_cap) && now
            + c.voting_window <= u64::MAX,
        proposer_balance > 0,
        amount <= s.treasury() - s.reserved(),
        s.next_id() < u64::MAX,
    ensures
        s.submit_error(title, description, amount, proposer_balance, now) is None,
{
}

/// A deposit that goes through adds its amount to the treasury and nothing
/// else; a positive deposit into a configured contract goes through unless the
/// treasury would overflow.
pub proof fn deposit_adds_to_the_treasury(s: UniFundContract, n: UniFundContract, depositor: Address, amount: i128)
    requires
        s.wf(),
        s.step_by(Call::Deposit { depositor, amount }, n),
    ensures
        (amount > 0 && s.stored_config() is Some && s.treasury() + amount <= i128::MAX) <==> accepted(
            s,
            Call::Deposit { depositor, amount },
        ),
        accepted(s, Call::Deposit { depositor, amount }) ==> n.treasury() == s.treasury() + amount
            && n.reserved() == s.reserved() && n.proposals() == s.proposals() && n.votes()
            == s.votes(),
{
}

/// Queueing an Active proposal after its deadline goes through unless the
/// reservation or the end of its veto period would overflow.
pub proof fn eligible_queue_goes_through(s: UniFundContract, proposal_id: u64, now: u64)
    requires
        s.wf(),
        s.lookup(proposal_id) matches Some(p) && p.status == ProposalStatus::Active && now
            > p.voting_deadline && s.reserved() + p.amount <= i128::MAX,
        s.stored_config() matches Some(c) && now + c.veto_period <= u64::MAX,
    ensures
        s.queue_error(proposal_id, now) is None,
{
}

/// Executing a Queued proposal once its veto period is over goes through when
/// the treasury holds its amount.
pub proof fn eligible_execution_goes_through(s: UniFundContract, proposal_id: u64, now: u64)
    requires
        s.wf(),
        s.lookup(proposal_id) matches Some(p) && p.status == ProposalStatus::Queued && now
            >= p.executable_at && p.amount <= s.treasury(),
    ensures
        s.execute_error(proposal_id, now) is None,
{
}

/// A vote that goes through was cast on an Active proposal within its window,
/// by a voter with no vote on it yet and a positive balance.
pub proof fn accepted_votes_are_eligible(
    s: UniFundContract,
    voter: Seq<char>,
    proposal_id: u64,
    direction: VoteDirection,
    voter_balance: i128,
    now: u64,
)
    requires
        s.wf(),
        s.vote_error(voter, proposal_id, direction, voter_balance, now) is None,
    ensures
        s.lookup(proposal_id) matches Some(p) && p.status == ProposalStatus::Active && now
            <= p.voting_deadline,
        !s.votes().contains_key((proposal_id, voter)),
        voter_balance > 0,
{
}

/// Initialisation of a fresh contract with valid parameters goes through and
/// installs exactly those parameters, with no funds, proposals or votes.
pub proof fn initialization_installs_the_configuration(
    s: UniFundContract,
    n: UniFundContract,
    admin: Address,
    treasury_token: Address,
    governance_token: Address,
    quorum_bps: u32,
    voting_window: u64,
    veto_period: u64,
    spending_cap: i128,
)
    requires
        s.wf(),
        s.step_by(
            Call::Initialize {
                admin,
                treasury_token,
                governance_token,
                quorum_bps,
                voting_window,
                veto_period,
                spending_cap,
            },
            n,
        ),
    ensures
        (s.stored_config() is None && 0 < quorum_bps <= 10000 && voting_window > 0 && veto_period > 0
            && spending_cap >= 0) <==> accepted(
            s,
            Call::Initialize {
                admin,
                treasury_token,
                governance_token,
                quorum_bps,
                voting_window,
                veto_period,
                spending_cap,
            },
        ),
        accepted(
            s,
            Call::Initialize {
                admin,
                treasury_token,
                governance_token,
                quorum_bps,
                voting_window,
                veto_period,
                spending_cap,
            },
        ) ==> {
            &&& n.stored_config() matches Some(c) && c.admin == admin && c.treasury_token
                == treasury_token && c.governance_token == governance_token && c.quorum_bps
                == quorum_bps && c.voting_window == voting_window && c.veto_period == veto_period
                && c.spending_cap == spending_cap
            &&& n.treasury() == 0 && n.reserved() == 0 && n.proposals().len() == 0
            &&& n.votes() == Map::<(u64, Seq<char>), VoteDirection>::empty()
        },
{
    if accepted(
        s,
        Call::Initialize {
            admin,
            treasury_token,
            governance_token,
            quorum_bps,
            voting_window,
            veto_period,
            spending_cap,
        },
    ) {
        assert(n.ballots() =~= Seq::empty());
    }
}

/// A configuration update by the advisor with valid parameters goes through;
/// one that goes through sets exactly the given parameters and keeps the
/// advisor, the tokens, the funds and the proposals.
pub proof fn config_update_takes_the_given_values(
    s: UniFundContract,
    n: UniFundContract,
    admin: Address,
    quorum_bps: u32,
    voting_window: u64,
    veto_period: u64,
    spending_cap: i128,
)
    requires
        s.wf(),
        s.step_by(Call::UpdateConfig { admin, quorum_bps, voting_window, veto_period, spending_cap }, n),
    ensures
        (s.stored_config() matches Some(c) && c.admin@ == admin@ && 0 < quorum_bps <= 10000
            && voting_window > 0 && veto_period > 0 && spending_cap >= 0) <==> accepted(
            s,
            Call::UpdateConfig { admin, quorum_bps, voting_window, veto_period, spending_cap },
        ),
        accepted(s, Call::UpdateConfig { admin, quorum_bps, voting_window, veto_period, spending_cap })
            ==> {
            &&& n.stored_config() matches Some(c) && c.quorum_bps == quorum_bps && c.voting_window
                == voting_window && c.veto_period == veto_period && c.spending_cap == spending_cap
            &&& n.stored_config().unwrap().admin == s.stored_config().unwrap().admin
            &&& n.stored_config().unwrap().treasury_token == s.stored_config().unwrap().treasury_token
            &&& n.stored_config().unwrap().governance_token == s.stored_config().unwrap().governance_token
            &&& n.treasury() == s.treasury() && n.reserved() == s.reserved()
            &&& n.proposals() == s.proposals() && n.votes() == s.votes()
        },
{
}

/// A handover that goes through installs the new advisor and changes nothing
/// else; the current advisor's handover always goes through.
pub proof fn handover_installs_the_new_advisor(s: UniFundContract, n: UniFundContract, admin: Address, new_admin: Address)
    requires
        s.wf(),
        s.step_by(Call::TransferAdmin { admin, new_admin }, n),
    ensures
        (s.stored_config() matches Some(c) && c.admin@ == admin@) <==> accepted(
            s,
            Call::TransferAdmin { admin, new_admin },
        ),
        accepted(s, Call::TransferAdmin { admin, new_admin }) ==> {
            &&& n.stored_config() matches Some(c) && c.admin == new_admin
            &&& n.stored_config().unwrap().quorum_bps == s.stored_config().unwrap().quorum_bps
            &&& n.stored_config().unwrap().treasury_token == s.stored_config().unwrap().treasury_token
            &&& n.stored_config().unwrap().governance_token == s.stored_config().unwrap().governance_token
            &&& n.stored_config().unwrap().voting_window == s.stored_config().unwrap().voting_window
            &&& n.stored_config().unwrap().veto_period == s.stored_config().unwrap().veto_period
            &&& n.stored_config().unwrap().spending_cap == s.stored_config().unwrap().spending_cap
            &&& n.treasury() == s.treasury() && n.reserved() == s.reserved()
            &&& n.proposals() == s.proposals() && n.votes() == s.votes()
        },
{
}

} // verus!
