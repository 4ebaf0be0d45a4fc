//! The UniFund DAO contract as a state machine.
//!
//! Each contract call is a method on [`UniFundContract`]. What the
//! contract learns from its host (the ledger time, a membership-token balance)
//! comes in as an argument; the token movement that a call makes is handed back
//! as a [`TokenTransfer`] for the caller to carry out in the same transaction.
//! A call that is refused returns the reason and leaves the state unchanged.

use vstd::prelude::*;

use crate::address::Address;
use crate::bookkeeping::{
    ballot_key, ballots_unique, ids_of_proposer, lemma_ids_of_proposer_members, lemma_queued_total_covers, lemma_queued_total_nonneg,
    lemma_queued_total_prefix, lemma_queued_total_take_next,
    lemma_queued_total_push, lemma_queued_total_update, lemma_vote_map_absent, lemma_vote_map_entry,
    lemma_vote_map_push, proposal_ids, queued_total, reserved_share, vote_map,
};
use crate::types::{Config, DaoError, Proposal, ProposalStatus, TokenTransfer, VoteDirection, VoteKey};

verus! {

/// Basis-point denominator used by the quorum rule.
pub const BPS_DENOM: u64 = 10000;

/// A valid configuration: quorum in 1..=10000 basis points, positive voting
/// window and veto period, non-negative spending cap.
pub open spec fn valid_config(c: Config) -> bool {
    &&& 0 < c.quorum_bps <= 10000
    &&& c.voting_window > 0
    &&& c.veto_period > 0
    &&& c.spending_cap >= 0
}

/// The first rule that the governance parameters break, in the order in which
/// the contract checks them.
pub open spec fn config_error(quorum_bps: u32, voting_window: u64, veto_period: u64, spending_cap: i128) -> Option<DaoError> {
    if !(quorum_bps > 0 && quorum_bps <= 10000) {
        Some(DaoError::InvalidQuorum)
    } else if voting_window == 0 {
        Some(DaoError::InvalidVotingWindow)
    } else if veto_period == 0 {
        Some(DaoError::InvalidVetoPeriod)
    } else if spending_cap < 0 {
        Some(DaoError::NegativeSpendingCap)
    } else {
        None
    }
}

/// Sum of the three tallies of a proposal.
pub open spec fn total_votes(p: Proposal) -> int {
    p.for_votes + p.against_votes + p.abstain_votes
}

/// The vote passes: more For than Against, and the For share of all votes cast,
/// in whole basis points, reaches the quorum.
pub open spec fn vote_passes(p: Proposal, quorum_bps: u32) -> bool {
    &&& p.for_votes > p.against_votes
    &&& total_votes(p) > 0
    &&& (p.for_votes * 10000) / total_votes(p) >= quorum_bps
}

/// `p` with `weight` added to the tally of `direction`.
pub open spec fn with_vote(p: Proposal, direction: VoteDirection, weight: int) -> Proposal {
    match direction {
        VoteDirection::For => Proposal { for_votes: (p.for_votes + weight) as u64, ..p },
        VoteDirection::Against => Proposal { against_votes: (p.against_votes + weight) as u64, ..p },
        VoteDirection::Abstain => Proposal { abstain_votes: (p.abstain_votes + weight) as u64, ..p },
    }
}

/// The tally that a vote in `direction` adds to.
pub open spec fn tally(p: Proposal, direction: VoteDirection) -> u64 {
    match direction {
        VoteDirection::For => p.for_votes,
        VoteDirection::Against => p.against_votes,
        VoteDirection::Abstain => p.abstain_votes,
    }
}

/// The state of one deployed UniFund DAO contract.
pub struct UniFundContract {
    config: Option<Config>,
    treasury_balance: i128,
    reserved_balance: i128,
    next_proposal_id: u64,
    proposals: Vec<Proposal>,
    ballots: Vec<(VoteKey, VoteDirection)>,
}

impl UniFundContract {
    /// The configuration, once the contract is initialised.
    pub closed spec fn stored_config(&self) -> Option<Config> {
        self.config
    }

    /// Total Club Funds held by the treasury.
    pub closed spec fn treasury(&self) -> i128 {
        self.treasury_balance
    }

    /// Club Funds reserved for queued proposals.
    pub closed spec fn reserved(&self) -> i128 {
        self.reserved_balance
    }

    /// The id the next proposal will get.
    pub closed spec fn next_id(&self) -> u64 {
        self.next_proposal_id
    }

    /// All proposals, in submission order.
    pub closed spec fn proposals(&self) -> Seq<Proposal> {
        self.proposals@
    }

    /// All recorded votes, in the order in which they were cast.
    pub closed spec fn ballots(&self) -> Seq<(VoteKey, VoteDirection)> {
        self.ballots@
    }

    /// The recorded votes, by proposal id and voter.
    pub open spec fn votes(&self) -> Map<(u64, Seq<char>), VoteDirection> {
        vote_map(self.ballots())
    }

    /// The proposal with id `id`, if there is one.
    pub open spec fn lookup(&self, id: u64) -> Option<Proposal> {
        if 1 <= id <= self.proposals().len() {
            Some(self.proposals()[id - 1])
        } else {
            None
        }
    }

    /// Treasury funds not reserved for queued proposals.
    pub open spec fn available(&self) -> int {
        self.treasury() - self.reserved()
    }

    /// The state is well formed.
    pub open spec fn wf(&self) -> bool {
        &&& match self.stored_config() {
            Some(c) => valid_config(c),
            None => {
                &&& self.treasury() == 0
                &&& self.reserved() == 0
                &&& self.proposals().len() == 0
                &&& self.ballots().len() == 0
            },
        }
        &&& self.next_id() == self.proposals().len() + 1
        &&& forall|i: int|
            #![trigger self.proposals()[i]]
            0 <= i < self.proposals().len() ==> self.proposals()[i].id == i + 1
                && self.proposals()[i].amount > 0
        &&& self.treasury() >= 0
        &&& self.reserved() == queued_total(self.proposals())
        &&& ballots_unique(self.ballots())
        &&& forall|i: int|
            #![trigger self.ballots()[i]]
            0 <= i < self.ballots().len() ==> 1 <= self.ballots()[i].0.proposal_id
                <= self.proposals().len()
    }

    /// A freshly deployed, not yet initialised contract.
    pub fn new() -> (c: Self)
        ensures
            c.wf(),
            c.stored_config() is None,
            c.treasury() == 0,
            c.reserved() == 0,
            c.next_id() == 1,
            c.proposals().len() == 0,
            c.ballots().len() == 0,
    {
        UniFundContract {
            config: None,
            treasury_balance: 0,
            reserved_balance: 0,
            next_proposal_id: 1,
            proposals: Vec::new(),
            ballots: Vec::new(),
        }
    }
}


impl UniFundContract {
    /// Why `initialize` is refused, if it is.
    pub open spec fn initialize_error(&self, quorum_bps: u32, voting_window: u64, veto_period: u64, spending_cap: i128) -> Option<DaoError> {
        if self.stored_config() is Some {
            Some(DaoError::AlreadyInitialized)
        } else {
            config_error(quorum_bps, voting_window, veto_period, spending_cap)
        }
    }

    /// Why `update_config` is refused, if it is.
    pub open spec fn update_config_error(&self, admin: Seq<char>, quorum_bps: u32, voting_window: u64, veto_period: u64, spending_cap: i128) -> Option<DaoError> {
        match self.stored_config() {
            None => Some(DaoError::NotInitialized),
            Some(c) => if c.admin@ != admin {
                Some(DaoError::NotAdmin)
            } else {
                config_error(quorum_bps, voting_window, veto_period, spending_cap)
            },
        }
    }

    /// Why `transfer_admin` is refused, if it is.
    pub open spec fn transfer_admin_error(&self, admin: Seq<char>) -> Option<DaoError> {
        match self.stored_config() {
            None => Some(DaoError::NotInitialized),
            Some(c) => if c.admin@ != admin {
                Some(DaoError::NotAdmin)
            } else {
                None
            },
        }
    }

    /// Why `deposit` is refused, if it is.
    pub open spec fn deposit_error(&self, amount: i128) -> Option<DaoError> {
        if amount <= 0 {
            Some(DaoError::NonPositiveDeposit)
        } else if self.stored_config() is None {
            Some(DaoError::NotInitialized)
        } else if self.treasury() + amount > i128::MAX {
            Some(DaoError::ArithmeticOverflow)
        } else {
            None
        }
    }

    /// Why `submit_proposal` is refused, if it is.
    pub open spec fn submit_error(&self, title: Seq<char>, description: Seq<char>, amount: i128, proposer_balance: i128, now: u64) -> Option<DaoError> {
        if amount <= 0 {
            Some(DaoError::NonPositiveAmount)
        } else if title.len() == 0 {
            Some(DaoError::EmptyTitle)
        } else if description.len() == 0 {
            Some(DaoError::EmptyDescription)
        } else {
            match self.stored_config() {
                None => Some(DaoError::NotInitialized),
                Some(c) => if proposer_balance <= 0 {
                    Some(DaoError::ProposerHoldsNoToken)
                } else if c.spending_cap > 0 && amount > c.spending_cap {
                    Some(DaoError::ExceedsSpendingCap)
                } else if self.available() < amount {
                    Some(DaoError::InsufficientAvailableFunds)
                } else if self.next_id() == u64::MAX || now + c.voting_window > u64::MAX {
                    Some(DaoError::ArithmeticOverflow)
                } else {
                    None
                },
            }
        }
    }

    /// Why `vote` is refused, if it is.
    pub open spec fn vote_error(&self, voter: Seq<char>, proposal_id: u64, direction: VoteDirection, voter_balance: i128, now: u64) -> Option<DaoError> {
        match self.lookup(proposal_id) {
            None => Some(DaoError::ProposalNotFound),
            Some(p) => if p.status != ProposalStatus::Active {
                Some(DaoError::NotActive)
            } else if now > p.voting_deadline {
                Some(DaoError::VotingClosed)
            } else if self.votes().contains_key((proposal_id, voter)) {
                Some(DaoError::AlreadyVoted)
            } else if self.stored_config() is None {
                Some(DaoError::NotInitialized)
            } else if voter_balance <= 0 {
                Some(DaoError::VoterHoldsNoToken)
            } else if tally(p, direction) + voter_balance > u64::MAX {
                Some(DaoError::ArithmeticOverflow)
            } else {
                None
            },
        }
    }

    /// Why `queue_proposal` is refused, if it is.
    pub open spec fn queue_error(&self, proposal_id: u64, now: u64) -> Option<DaoError> {
        match self.lookup(proposal_id) {
            None => Some(DaoError::ProposalNotFound),
            Some(p) => if p.status != ProposalStatus::Active {
                Some(DaoError::NotActive)
            } else if now <= p.voting_deadline {
                Some(DaoError::VotingStillOpen)
            } else {
                match self.stored_config() {
                    None => Some(DaoError::NotInitialized),
                    Some(c) => if vote_passes(p, c.quorum_bps) && (self.reserved() + p.amount
                        > i128::MAX || now + c.veto_period > u64::MAX) {
                        Some(DaoError::ArithmeticOverflow)
                    } else {
                        None
                    },
                }
            },
        }
    }

    /// Why `cancel_proposal` is refused, if it is.
    pub open spec fn cancel_error(&self, caller: Seq<char>, proposal_id: u64, now: u64) -> Option<DaoError> {
        match self.stored_config() {
            None => Some(DaoError::NotInitialized),
            Some(c) => match self.lookup(proposal_id) {
                None => Some(DaoError::ProposalNotFound),
                Some(p) => if p.status == ProposalStatus::Executed {
                    Some(DaoError::CancelExecuted)
                } else if p.status == ProposalStatus::Cancelled {
                    Some(DaoError::AlreadyCancelled)
                } else if p.proposer@ == caller && c.admin@ != caller {
                    if p.status != ProposalStatus::Active {
                        Some(DaoError::ProposerCancelNotActive)
                    } else if now > p.voting_deadline {
                        Some(DaoError::ProposerCancelTooLate)
                    } else {
                        None
                    }
                } else if c.admin@ != caller {
                    Some(DaoError::NotAllowedToCancel)
                } else {
                    None
                },
            },
        }
    }

    /// Why `execute_proposal` is refused, if it is.
    pub open spec fn execute_error(&self, proposal_id: u64, now: u64) -> Option<DaoError> {
        match self.lookup(proposal_id) {
            None => Some(DaoError::ProposalNotFound),
            Some(p) => if p.status != ProposalStatus::Queued {
                Some(DaoError::NotQueued)
            } else if now < p.executable_at {
                Some(DaoError::VetoPeriodNotExpired)
            } else if self.stored_config() is None {
                Some(DaoError::NotInitialized)
            } else if self.treasury() < p.amount {
                Some(DaoError::InsufficientTreasury)
            } else {
                None
            },
        }
    }

    /// Everything but the configuration is as in `other`.
    pub open spec fn same_funds_and_proposals(&self, other: &Self) -> bool {
        &&& self.treasury() == other.treasury()
        &&& self.reserved() == other.reserved()
        &&& self.next_id() == other.next_id()
        &&& self.proposals() == other.proposals()
        &&& self.ballots() == other.ballots()
    }

    /// What a successful `initialize` leaves: the given configuration, no funds,
    /// no proposals, no votes.
    pub open spec fn initialize_effect(
        self,
        admin: Address,
        treasury_token: Address,
        governance_token: Address,
        quorum_bps: u32,
        voting_window: u64,
        veto_period: u64,
        spending_cap: i128,
        next: Self,
    ) -> bool {
        &&& next.stored_config() == Some(
            Config {
                admin,
                treasury_token,
                governance_token,
                quorum_bps,
                voting_window,
                veto_period,
                spending_cap,
            },
        )
        &&& next.treasury() == 0
        &&& next.reserved() == 0
        &&& next.next_id() == 1
        &&& next.proposals().len() == 0
        &&& next.ballots().len() == 0
    }

    /// What a successful `update_config` leaves: the new parameters, the same
    /// advisor and tokens, everything else unchanged.
    pub open spec fn update_config_effect(self, quorum_bps: u32, voting_window: u64, veto_period: u64, spending_cap: i128, next: Self) -> bool {
        &&& next.stored_config() == Some(
            Config { quorum_bps, voting_window, veto_period, spending_cap, ..self.stored_config().unwrap() },
        )
        &&& next.same_funds_and_proposals(&self)
    }

    /// What a successful `transfer_admin` leaves: `new_admin` as the advisor,
    /// everything else unchanged.
    pub open spec fn transfer_admin_effect(self, new_admin: Address, next: Self) -> bool {
        &&& next.stored_config() == Some(Config { admin: new_admin, ..self.stored_config().unwrap() })
        &&& next.same_funds_and_proposals(&self)
    }

    /// What a successful `deposit` leaves: `amount` more in the treasury.
    pub open spec fn deposit_effect(self, amount: i128, next: Self) -> bool {
        &&& next.treasury() == self.treasury() + amount
        &&& next.stored_config() == self.stored_config()
        &&& next.reserved() == self.reserved()
        &&& next.next_id() == self.next_id()
        &&& next.proposals() == self.proposals()
        &&& next.ballots() == self.ballots()
    }

    /// What a successful `submit_proposal` leaves: a new Active proposal with
    /// the next id, no votes, and a deadline one voting window after `now`.
    pub open spec fn submit_effect(
        self,
        proposer: Address,
        title: String,
        description: String,
        recipient: Address,
        amount: i128,
        now: u64,
        next: Self,
    ) -> bool {
        &&& next.proposals() == self.proposals().push(
            Proposal {
                id: self.next_id(),
                proposer,
                title,
                description,
                recipient,
                amount,
                status: ProposalStatus::Active,
                for_votes: 0,
                against_votes: 0,
                abstain_votes: 0,
                voting_deadline: (now + self.stored_config().unwrap().voting_window) as u64,
                executable_at: 0,
                submitted_at: now,
                executed_at: 0,
            },
        )
        &&& next.next_id() == self.next_id() + 1
        &&& next.stored_config() == self.stored_config()
        &&& next.treasury() == self.treasury()
        &&& next.reserved() == self.reserved()
        &&& next.ballots() == self.ballots()
    }

    /// What a successful `vote` leaves: the balance added to the chosen tally
    /// and the vote recorded.
    pub open spec fn vote_effect(self, voter: Address, proposal_id: u64, direction: VoteDirection, voter_balance: i128, next: Self) -> bool {
        &&& next.proposals() == self.proposals().update(
            proposal_id - 1,
            with_vote(self.lookup(proposal_id).unwrap(), direction, voter_balance as int),
        )
        &&& next.ballots() == self.ballots().push((VoteKey { proposal_id, voter }, direction))
        &&& next.votes() == self.votes().insert((proposal_id, voter@), direction)
        &&& next.stored_config() == self.stored_config()
        &&& next.treasury() == self.treasury()
        &&& next.reserved() == self.reserved()
        &&& next.next_id() == self.next_id()
    }

    /// What a successful `queue_proposal` leaves: a passed proposal Queued with
    /// its amount reserved and its veto period starting at `now`; any other
    /// Defeated.
    pub open spec fn queue_effect(self, proposal_id: u64, now: u64, next: Self) -> bool {
        let p = self.lookup(proposal_id).unwrap();
        let c = self.stored_config().unwrap();
        &&& if vote_passes(p, c.quorum_bps) {
            &&& next.proposals() == self.proposals().update(
                proposal_id - 1,
                Proposal { status: ProposalStatus::Queued, executable_at: (now + c.veto_period) as u64, ..p },
            )
            &&& next.reserved() == self.reserved() + p.amount
        } else {
            &&& next.proposals() == self.proposals().update(
                proposal_id - 1,
                Proposal { status: ProposalStatus::Defeated, ..p },
            )
            &&& next.reserved() == self.reserved()
        }
        &&& next.stored_config() == self.stored_config()
        &&& next.treasury() == self.treasury()
        &&& next.next_id() == self.next_id()
        &&& next.ballots() == self.ballots()
    }

    /// What a successful `cancel_proposal` leaves: the proposal Cancelled and
    /// its reservation, if it was queued, released.
    pub open spec fn cancel_effect(self, proposal_id: u64, next: Self) -> bool {
        let p = self.lookup(proposal_id).unwrap();
        &&& next.proposals() == self.proposals().update(
            proposal_id - 1,
            Proposal { status: ProposalStatus::Cancelled, ..p },
        )
        &&& next.reserved() == self.reserved() - reserved_share(p)
        &&& next.stored_config() == self.stored_config()
        &&& next.treasury() == self.treasury()
        &&& next.next_id() == self.next_id()
        &&& next.ballots() == self.ballots()
    }

    /// What a successful `execute_proposal` leaves: the proposal Executed at
    /// `now`, its amount taken from the treasury and from the reservation.
    pub open spec fn execute_effect(self, proposal_id: u64, now: u64, next: Self) -> bool {
        let p = self.lookup(proposal_id).unwrap();
        &&& next.proposals() == self.proposals().update(
            proposal_id - 1,
            Proposal { status: ProposalStatus::Executed, executed_at: now, ..p },
        )
        &&& next.treasury() == self.treasury() - p.amount
        &&& next.reserved() == self.reserved() - p.amount
        &&& next.stored_config() == self.stored_config()
        &&& next.next_id() == self.next_id()
        &&& next.ballots() == self.ballots()
    }

    /// Why `call` is refused in this state, if it is.
    pub open spec fn call_error(self, call: Call) -> Option<DaoError> {
        match call {
            Call::Initialize { quorum_bps, voting_window, veto_period, spending_cap, .. } =>
                self.initialize_error(quorum_bps, voting_window, veto_period, spending_cap),
            Call::UpdateConfig { admin, quorum_bps, voting_window, veto_period, spending_cap } =>
                self.update_config_error(admin@, quorum_bps, voting_window, veto_period, spending_cap),
            Call::TransferAdmin { admin, .. } => self.transfer_admin_error(admin@),
            Call::Deposit { amount, .. } => self.deposit_error(amount),
            Call::SubmitProposal { title, description, amount, proposer_balance, now, .. } =>
                self.submit_error(title@, description@, amount, proposer_balance, now),
            Call::Vote { voter, proposal_id, direction, voter_balance, now } =>
                self.vote_error(voter@, proposal_id, direction, voter_balance, now),
            Call::QueueProposal { proposal_id, now } => self.queue_error(proposal_id, now),
            Call::CancelProposal { caller, proposal_id, now } =>
                self.cancel_error(caller@, proposal_id, now),
            Call::ExecuteProposal { proposal_id, now } => self.execute_error(proposal_id, now),
        }
    }

    /// The state that `call` leaves when it goes through.
    pub open spec fn call_effect(self, call: Call, next: Self) -> bool {
        match call {
            Call::Initialize {
                admin,
                treasury_token,
                governance_token,
                quorum_bps,
                voting_window,
                veto_period,
                spending_cap,
            } => self.initialize_effect(
                admin,
                treasury_token,
                governance_token,
                quorum_bps,
                voting_window,
                veto_period,
                spending_cap,
                next,
            ),
            Call::UpdateConfig { quorum_bps, voting_window, veto_period, spending_cap, .. } =>
                self.update_config_effect(quorum_bps, voting_window, veto_period, spending_cap, next),
            Call::TransferAdmin { new_admin, .. } => self.transfer_admin_effect(new_admin, next),
            Call::Deposit { amount, .. } => self.deposit_effect(amount, next),
            Call::SubmitProposal { proposer, title, description, recipient, amount, now, .. } =>
                self.submit_effect(proposer, title, description, recipient, amount, now, next),
            Call::Vote { voter, proposal_id, direction, voter_balance, .. } =>
                self.vote_effect(voter, proposal_id, direction, voter_balance, next),
            Call::QueueProposal { proposal_id, now } => self.queue_effect(proposal_id, now, next),
            Call::CancelProposal { proposal_id, .. } => self.cancel_effect(proposal_id, next),
            Call::ExecuteProposal { proposal_id, now } => self.execute_effect(proposal_id, now, next),
        }
    }

    /// One step of the contract: `call` made in this state leaves `next`. A
    /// refused call leaves the state as it was.
    pub open spec fn step_by(self, call: Call, next: Self) -> bool {
        &&& next.wf()
        &&& match self.call_error(call) {
            Some(_) => next == self,
            None => self.call_effect(call, next),
        }
    }
}

/// A state-changing contract call with its arguments, as the one-step relation
/// `UniFundContract::step_by` speaks of it.
#[derive(Debug)]
pub enum Call {
    Initialize {
        admin: Address,
        treasury_token: Address,
        governance_token: Address,
        quorum_bps: u32,
        voting_window: u64,
        veto_period: u64,
        spending_cap: i128,
    },
    UpdateConfig { admin: Address, quorum_bps: u32, voting_window: u64, veto_period: u64, spending_cap: i128 },
    TransferAdmin { admin: Address, new_admin: Address },
    Deposit { depositor: Address, amount: i128 },
    SubmitProposal {
        proposer: Address,
        title: String,
        description: String,
        recipient: Address,
        amount: i128,
        proposer_balance: i128,
        now: u64,
    },
    Vote { voter: Address, proposal_id: u64, direction: VoteDirection, voter_balance: i128, now: u64 },
    QueueProposal { proposal_id: u64, now: u64 },
    CancelProposal { caller: Address, proposal_id: u64, now: u64 },
    ExecuteProposal { proposal_id: u64, now: u64 },
}


impl UniFundContract {
    /// The index in `proposals` of the proposal with id `proposal_id`.
    fn index_of(&self, proposal_id: u64) -> (r: Option<usize>)
        ensures
            match r {
                Some(i) => self.lookup(proposal_id) == Some(self.proposals()[i as int]) && i
                    == proposal_id - 1 && i < self.proposals().len(),
                None => self.lookup(proposal_id) is None,
            },
    {
        if proposal_id >= 1 && proposal_id <= self.proposals.len() as u64 {
            Some((proposal_id - 1) as usize)
        } else {
            None
        }
    }

    /// Submit an Event Budget proposal. Returns the proposal ID.
    ///
    /// Any student holding a Membership Token may propose; `proposer_balance`
    /// is the proposer's Membership Token balance and `now` the ledger time.
    pub fn submit_proposal(
        &mut self,
        proposer: Address,
        title: String,
        description: String,
        recipient: Address,
        amount: i128,
        proposer_balance: i128,
        now: u64,
    ) -> (r: Result<u64, DaoError>)
        requires
            old(self).wf(),
        ensures
            final(self).wf(),
            old(self).step_by((Call::SubmitProposal { proposer, title, description, recipient, amount, proposer_balance, now }), *final(self)),
            match r {
                Ok(id) => {
                    &&& old(self).submit_error(title@, description@, amount, proposer_balance, now) is None
                    &&& id == old(self).next_id()
                    &&& old(self).submit_effect(proposer, title, description, recipient, amount, now, *final(self))
                },
                Err(e) => {
                    &&& old(self).submit_error(title@, description@, amount, proposer_balance, now) == Some(e)
                    &&& *final(self) == *old(self)
                },
            },
    {
        if amount <= 0 {
            return Err(DaoError::NonPositiveAmount);
        }
        if title.as_str().is_empty() {
            return Err(DaoError::EmptyTitle);
        }
        if description.as_str().is_empty() {
            return Err(DaoError::EmptyDescription);
        }
        let (spending_cap, voting_window) = match &self.config {
            None => return Err(DaoError::NotInitialized),
            Some(c) => (c.spending_cap, c.voting_window),
        };
        if proposer_balance <= 0 {
            return Err(DaoError::ProposerHoldsNoToken);
        }
        if spending_cap > 0 && amount > spending_cap {
            return Err(DaoError::ExceedsSpendingCap);
        }
        proof {
            lemma_queued_total_nonneg(self.proposals@);
        }
        if self.treasury_balance - self.reserved_balance < amount {
            return Err(DaoError::InsufficientAvailableFunds);
        }
        let id = self.next_proposal_id;
        if id == u64::MAX || now > u64::MAX - voting_window {
            return Err(DaoError::ArithmeticOverflow);
        }
        let proposal = Proposal {
            id,
            proposer,
            title,
            description,
            recipient,
            amount,
            status: ProposalStatus::Active,
            for_votes: 0,
            against_votes: 0,
            abstain_votes: 0,
            voting_deadline: now + voting_window,
            executable_at: 0,
            submitted_at: now,
            executed_at: 0,
        };
        proof {
            lemma_queued_total_push(self.proposals@, proposal);
        }
        self.proposals.push(proposal);
        self.next_proposal_id = id + 1;
        Ok(id)
    }
}


impl UniFundContract {
    /// Whether a vote is recorded for `proposal_id` by `voter`, and which.
    fn find_vote(&self, proposal_id: u64, voter: &Address) -> (r: Option<VoteDirection>)
        requires
            self.wf(),
        ensures
            r == (if self.votes().contains_key((proposal_id, voter@)) {
                Some(self.votes()[(proposal_id, voter@)])
            } else {
                None
            }),
    {
        let n = self.ballots.len();
        let mut i: usize = 0;
        while i < n
            invariant
                self.wf(),
                n == self.ballots@.len(),
                i <= n,
                forall|j: int| 0 <= j < i ==> #[trigger] ballot_key(self.ballots@[j]) != (proposal_id, voter@),
            decreases n - i,
        {
            let b = &self.ballots[i];
            if b.0.proposal_id == proposal_id && b.0.voter.same_as(voter) {
                proof {
                    lemma_vote_map_entry(self.ballots@, i as int);
                }
                return Some(b.1);
            }
            i = i + 1;
        }
        proof {
            lemma_vote_map_absent(self.ballots@, (proposal_id, voter@));
        }
        None
    }

    /// Cast a token-weighted vote on an Active Event Budget.
    ///
    /// The vote weight is `voter_balance`, the voter's Membership Token balance
    /// at call time; a voter holding no tokens is refused, and so is a vote
    /// that would take the tally past `u64::MAX`. `now` is the ledger time.
    pub fn vote(
        &mut self,
        voter: Address,
        proposal_id: u64,
        direction: VoteDirection,
        voter_balance: i128,
        now: u64,
    ) -> (r: Result<(), DaoError>)
        requires
            old(self).wf(),
        ensures
            final(self).wf(),
            old(self).step_by((Call::Vote { voter, proposal_id, direction, voter_balance, now }), *final(self)),
            (old(self).lookup(proposal_id) matches Some(p) && p.status == ProposalStatus::Active && now
                <= p.voting_deadline && !old(self).votes().contains_key((proposal_id, voter@))
                && voter_balance > 0 && tally(p, direction) + voter_balance <= u64::MAX) ==> r is Ok,
            r is Ok ==> final(self).votes().contains_key((proposal_id, voter@)) && final(self).votes()[(
                proposal_id,
                voter@,
            )] == direction,
            match r {
                Ok(()) => {
                    &&& old(self).vote_error(voter@, proposal_id, direction, voter_balance, now) is None
                    &&& old(self).vote_effect(voter, proposal_id, direction, voter_balance, *final(self))
                },
                Err(e) => {
                    &&& old(self).vote_error(voter@, proposal_id, direction, voter_balance, now) == Some(e)
                    &&& *final(self) == *old(self)
                },
            },
    {
        let idx = match self.index_of(proposal_id) {
            None => return Err(DaoError::ProposalNotFound),
            Some(i) => i,
        };
        if self.proposals[idx].status != ProposalStatus::Active {
            return Err(DaoError::NotActive);
        }
        if now > self.proposals[idx].voting_deadline {
            return Err(DaoError::VotingClosed);
        }
        if self.find_vote(proposal_id, &voter).is_some() {
            return Err(DaoError::AlreadyVoted);
        }
        if self.config.is_none() {
            return Err(DaoError::NotInitialized);
        }
        if voter_balance <= 0 {
            return Err(DaoError::VoterHoldsNoToken);
        }
        let mut updated = self.proposals[idx].clone();
        match direction {
            VoteDirection::For => {
                if voter_balance > (u64::MAX - updated.for_votes) as i128 {
                    return Err(DaoError::ArithmeticOverflow);
                }
                updated.for_votes = updated.for_votes + voter_balance as u64;
            },
            VoteDirection::Against => {
                if voter_balance > (u64::MAX - updated.against_votes) as i128 {
                    return Err(DaoError::ArithmeticOverflow);
                }
                updated.against_votes = updated.against_votes + voter_balance as u64;
            },
            VoteDirection::Abstain => {
                if voter_balance > (u64::MAX - updated.abstain_votes) as i128 {
                    return Err(DaoError::ArithmeticOverflow);
                }
                updated.abstain_votes = updated.abstain_votes + voter_balance as u64;
            },
        }
        let ballot = (VoteKey { proposal_id, voter }, direction);
        proof {
            lemma_queued_total_update(self.proposals@, idx as int, updated);
            lemma_vote_map_push(self.ballots@, ballot);
            assert forall|i: int| 0 <= i < self.ballots@.len() implies #[trigger] ballot_key(
                self.ballots@[i],
            ) != ballot_key(ballot) by {
                if ballot_key(self.ballots@[i]) == ballot_key(ballot) {
                    lemma_vote_map_entry(self.ballots@, i);
                }
            }
        }
        self.proposals.set(idx, updated);
        self.ballots.push(ballot);
        Ok(())
    }
}


impl UniFundContract {
    /// Queue an Event Budget whose voting window has closed.
    ///
    /// If the vote passed, the amount is reserved and the veto countdown for the
    /// Faculty Advisor starts at `now`; otherwise the proposal is Defeated.
    pub fn queue_proposal(&mut self, proposal_id: u64, now: u64) -> (r: Result<(), DaoError>)
        requires
            old(self).wf(),
        ensures
            final(self).wf(),
            old(self).step_by((Call::QueueProposal { proposal_id, now }), *final(self)),
            r is Ok ==> final(self).lookup(proposal_id) is Some,
            r is Ok && final(self).lookup(proposal_id).unwrap().status == ProposalStatus::Queued
                ==> final(self).lookup(proposal_id).unwrap().executable_at == now + old(
                self,
            ).stored_config().unwrap().veto_period,
            match r {
                Ok(()) => {
                    &&& old(self).queue_error(proposal_id, now) is None
                    &&& old(self).queue_effect(proposal_id, now, *final(self))
                },
                Err(e) => {
                    &&& old(self).queue_error(proposal_id, now) == Some(e)
                    &&& *final(self) == *old(self)
                },
            },
    {
        let idx = match self.index_of(proposal_id) {
            None => return Err(DaoError::ProposalNotFound),
            Some(i) => i,
        };
        if self.proposals[idx].status != ProposalStatus::Active {
            return Err(DaoError::NotActive);
        }
        if now <= self.proposals[idx].voting_deadline {
            return Err(DaoError::VotingStillOpen);
        }
        let (quorum_bps, veto_period) = match &self.config {
            None => return Err(DaoError::NotInitialized),
            Some(c) => (c.quorum_bps, c.veto_period),
        };
        let for_votes = self.proposals[idx].for_votes;
        let against_votes = self.proposals[idx].against_votes;
        let abstain_votes = self.proposals[idx].abstain_votes;
        // in u128 the tallies, and the For tally in basis points, cannot overflow
        let total: u128 = for_votes as u128 + against_votes as u128 + abstain_votes as u128;
        let denom: u128 = BPS_DENOM as u128;
        assert(denom == 10000);
        let passed = for_votes > against_votes && total > 0 && (for_votes as u128) * denom / total
            >= quorum_bps as u128;
        let mut updated = self.proposals[idx].clone();
        if passed {
            let amount = updated.amount;
            if self.reserved_balance > i128::MAX - amount || now > u64::MAX - veto_period {
                return Err(DaoError::ArithmeticOverflow);
            }
            updated.status = ProposalStatus::Queued;
            updated.executable_at = now + veto_period;
            proof {
                lemma_queued_total_update(self.proposals@, idx as int, updated);
            }
            self.reserved_balance = self.reserved_balance + amount;
            self.proposals.set(idx, updated);
        } else {
            updated.status = ProposalStatus::Defeated;
            proof {
                lemma_queued_total_update(self.proposals@, idx as int, updated);
            }
            self.proposals.set(idx, updated);
        }
        Ok(())
    }

    /// Cancel an Event Budget at any non-executed stage.
    ///
    /// The Faculty Advisor (admin) may veto or cancel any budget that is neither
    /// executed nor already cancelled; the proposing student may cancel their own
    /// Active budget while its voting window is open. Cancelling a queued budget
    /// releases its reserved funds.
    pub fn cancel_proposal(&mut self, caller: Address, proposal_id: u64, now: u64) -> (r: Result<(), DaoError>)
        requires
            old(self).wf(),
        ensures
            final(self).wf(),
            old(self).step_by((Call::CancelProposal { caller, proposal_id, now }), *final(self)),
            r is Ok ==> final(self).lookup(proposal_id) is Some && final(self).lookup(
                proposal_id,
            ).unwrap().status == ProposalStatus::Cancelled,
            match r {
                Ok(()) => {
                    &&& old(self).cancel_error(caller@, proposal_id, now) is None
                    &&& old(self).cancel_effect(proposal_id, *final(self))
                },
                Err(e) => {
                    &&& old(self).cancel_error(caller@, proposal_id, now) == Some(e)
                    &&& *final(self) == *old(self)
                },
            },
    {
        let is_admin = match &self.config {
            None => return Err(DaoError::NotInitialized),
            Some(c) => c.admin.same_as(&caller),
        };
        let idx = match self.index_of(proposal_id) {
            None => return Err(DaoError::ProposalNotFound),
            Some(i) => i,
        };
        let status = self.proposals[idx].status;
        if status == ProposalStatus::Executed {
            return Err(DaoError::CancelExecuted);
        }
        if status == ProposalStatus::Cancelled {
            return Err(DaoError::AlreadyCancelled);
        }
        let is_proposer = self.proposals[idx].proposer.same_as(&caller);
        if is_proposer && !is_admin {
            if status != ProposalStatus::Active {
                return Err(DaoError::ProposerCancelNotActive);
            }
            if now > self.proposals[idx].voting_deadline {
                return Err(DaoError::ProposerCancelTooLate);
            }
        } else if !is_admin {
            return Err(DaoError::NotAllowedToCancel);
        }
        let mut updated = self.proposals[idx].clone();
        proof {
            lemma_queued_total_covers(self.proposals@, idx as int);
        }
        if status == ProposalStatus::Queued {
            self.reserved_balance = self.reserved_balance - updated.amount;
        }
        updated.status = ProposalStatus::Cancelled;
        proof {
            lemma_queued_total_update(self.proposals@, idx as int, updated);
        }
        self.proposals.set(idx, updated);
        Ok(())
    }

    /// Execute a Queued Event Budget once the Faculty Advisor's veto period has
    /// expired at `now`. Returns the payout of the amount from the treasury to
    /// the proposal's recipient.
    pub fn execute_proposal(&mut self, proposal_id: u64, now: u64) -> (r: Result<TokenTransfer, DaoError>)
        requires
            old(self).wf(),
        ensures
            final(self).wf(),
            old(self).step_by((Call::ExecuteProposal { proposal_id, now }), *final(self)),
            r is Ok ==> final(self).lookup(proposal_id) is Some && final(self).lookup(
                proposal_id,
            ).unwrap().status == ProposalStatus::Executed && final(self).lookup(
                proposal_id,
            ).unwrap().executed_at == now,
            match r {
                Ok(t) => {
                    &&& old(self).execute_error(proposal_id, now) is None
                    &&& t == (TokenTransfer::OutOfTreasury {
                        token: old(self).stored_config().unwrap().treasury_token,
                        to: old(self).lookup(proposal_id).unwrap().recipient,
                        amount: old(self).lookup(proposal_id).unwrap().amount,
                    })
                    &&& old(self).execute_effect(proposal_id, now, *final(self))
                },
                Err(e) => {
                    &&& old(self).execute_error(proposal_id, now) == Some(e)
                    &&& *final(self) == *old(self)
                },
            },
    {
        let idx = match self.index_of(proposal_id) {
            None => return Err(DaoError::ProposalNotFound),
            Some(i) => i,
        };
        if self.proposals[idx].status != ProposalStatus::Queued {
            return Err(DaoError::NotQueued);
        }
        if now < self.proposals[idx].executable_at {
            return Err(DaoError::VetoPeriodNotExpired);
        }
        let token = match &self.config {
            None => return Err(DaoError::NotInitialized),
            Some(c) => c.treasury_token.clone(),
        };
        let amount = self.proposals[idx].amount;
        if self.treasury_balance < amount {
            return Err(DaoError::InsufficientTreasury);
        }
        proof {
            lemma_queued_total_covers(self.proposals@, idx as int);
        }
        self.treasury_balance = self.treasury_balance - amount;
        self.reserved_balance = self.reserved_balance - amount;
        let mut updated = self.proposals[idx].clone();
        let to = updated.recipient.clone();
        updated.status = ProposalStatus::Executed;
        updated.executed_at = now;
        proof {
            lemma_queued_total_update(self.proposals@, idx as int, updated);
        }
        self.proposals.set(idx, updated);
        Ok(TokenTransfer::OutOfTreasury { token, to, amount })
    }
}


impl UniFundContract {
    /// Deploy the UniFund DAO treasury: set the Faculty Advisor, the Club Funds
    /// token, the Membership Token and the governance parameters. Allowed once.
    pub fn initialize(
        &mut self,
        admin: Address,
        treasury_token: Address,
        governance_token: Address,
        quorum_bps: u32,
        voting_window: u64,
        veto_period: u64,
        spending_cap: i128,
    ) -> (r: Result<(), DaoError>)
        requires
            old(self).wf(),
        ensures
            final(self).wf(),
            old(self).step_by((Call::Initialize { admin, treasury_token, governance_token, quorum_bps, voting_window, veto_period, spending_cap }), *final(self)),
            match r {
                Ok(()) => {
                    &&& old(self).initialize_error(quorum_bps, voting_window, veto_period, spending_cap) is None
                    &&& old(self).initialize_effect(admin, treasury_token, governance_token, quorum_bps, voting_window, veto_period, spending_cap, *final(self))
                },
                Err(e) => {
                    &&& old(self).initialize_error(quorum_bps, voting_window, veto_period, spending_cap) == Some(e)
                    &&& *final(self) == *old(self)
                },
            },
    {
        if self.config.is_some() {
            return Err(DaoError::AlreadyInitialized);
        }
        if let Some(e) = check_config(quorum_bps, voting_window, veto_period, spending_cap) {
            return Err(e);
        }
        self.config = Some(
            Config {
                admin,
                treasury_token,
                governance_token,
                quorum_bps,
                voting_window,
                veto_period,
                spending_cap,
            },
        );
        self.treasury_balance = 0;
        self.reserved_balance = 0;
        self.next_proposal_id = 1;
        Ok(())
    }

    /// Update the quorum, voting window, veto period and spending cap.
    /// Faculty Advisor only.
    pub fn update_config(
        &mut self,
        admin: Address,
        quorum_bps: u32,
        voting_window: u64,
        veto_period: u64,
        spending_cap: i128,
    ) -> (r: Result<(), DaoError>)
        requires
            old(self).wf(),
        ensures
            final(self).wf(),
            old(self).step_by((Call::UpdateConfig { admin, quorum_bps, voting_window, veto_period, spending_cap }), *final(self)),
            match r {
                Ok(()) => {
                    &&& old(self).update_config_error(admin@, quorum_bps, voting_window, veto_period, spending_cap) is None
                    &&& old(self).update_config_effect(quorum_bps, voting_window, veto_period, spending_cap, *final(self))
                },
                Err(e) => {
                    &&& old(self).update_config_error(admin@, quorum_bps, voting_window, veto_period, spending_cap) == Some(e)
                    &&& *final(self) == *old(self)
                },
            },
    {
        let mut config = match &self.config {
            None => return Err(DaoError::NotInitialized),
            Some(c) => c.clone(),
        };
        if !config.admin.same_as(&admin) {
            return Err(DaoError::NotAdmin);
        }
        if let Some(e) = check_config(quorum_bps, voting_window, veto_period, spending_cap) {
            return Err(e);
        }
        config.quorum_bps = quorum_bps;
        config.voting_window = voting_window;
        config.veto_period = veto_period;
        config.spending_cap = spending_cap;
        self.config = Some(config);
        Ok(())
    }

    /// Transfer Faculty Advisor rights to `new_admin`. Faculty Advisor only.
    pub fn transfer_admin(&mut self, admin: Address, new_admin: Address) -> (r: Result<(), DaoError>)
        requires
            old(self).wf(),
        ensures
            final(self).wf(),
            old(self).step_by((Call::TransferAdmin { admin, new_admin }), *final(self)),
            match r {
                Ok(()) => {
                    &&& old(self).transfer_admin_error(admin@) is None
                    &&& old(self).transfer_admin_effect(new_admin, *final(self))
                },
                Err(e) => {
                    &&& old(self).transfer_admin_error(admin@) == Some(e)
                    &&& *final(self) == *old(self)
                },
            },
    {
        let mut config = match &self.config {
            None => return Err(DaoError::NotInitialized),
            Some(c) => c.clone(),
        };
        if !config.admin.same_as(&admin) {
            return Err(DaoError::NotAdmin);
        }
        config.admin = new_admin;
        self.config = Some(config);
        Ok(())
    }

    /// Deposit Club Funds into the treasury. Any student or donor may deposit;
    /// the returned transfer moves `amount` from `depositor` into the treasury.
    pub fn deposit(&mut self, depositor: Address, amount: i128) -> (r: Result<TokenTransfer, DaoError>)
        requires
            old(self).wf(),
        ensures
            final(self).wf(),
            old(self).step_by((Call::Deposit { depositor, amount }), *final(self)),
            match r {
                Ok(t) => {
                    &&& old(self).deposit_error(amount) is None
                    &&& t == (TokenTransfer::IntoTreasury {
                        token: old(self).stored_config().unwrap().treasury_token,
                        from: depositor,
                        amount,
                    })
                    &&& old(self).deposit_effect(amount, *final(self))
                },
                Err(e) => {
                    &&& old(self).deposit_error(amount) == Some(e)
                    &&& *final(self) == *old(self)
                },
            },
    {
        if amount <= 0 {
            return Err(DaoError::NonPositiveDeposit);
        }
        let token = match &self.config {
            None => return Err(DaoError::NotInitialized),
            Some(c) => c.treasury_token.clone(),
        };
        if self.treasury_balance > i128::MAX - amount {
            return Err(DaoError::ArithmeticOverflow);
        }
        self.treasury_balance = self.treasury_balance + amount;
        Ok(TokenTransfer::IntoTreasury { token, from: depositor, amount })
    }
}

/// The first rule that the governance parameters break, checked in the
/// contract's order.
pub fn check_config(quorum_bps: u32, voting_window: u64, veto_period: u64, spending_cap: i128) -> (r: Option<DaoError>)
    ensures
        r == config_error(quorum_bps, voting_window, veto_period, spending_cap),
{
    if !(quorum_bps > 0 && quorum_bps <= 10000) {
        Some(DaoError::InvalidQuorum)
    } else if voting_window == 0 {
        Some(DaoError::InvalidVotingWindow)
    } else if veto_period == 0 {
        Some(DaoError::InvalidVetoPeriod)
    } else if spending_cap < 0 {
        Some(DaoError::NegativeSpendingCap)
    } else {
        None
    }
}


impl UniFundContract {
    /// The configuration; refused before `initialize`.
    pub fn get_config(&self) -> (r: Result<Config, DaoError>)
        ensures
            match self.stored_config() {
                Some(c) => r == Ok::<Config, DaoError>(c),
                None => r == Err::<Config, DaoError>(DaoError::NotInitialized),
            },
    {
        match &self.config {
            None => Err(DaoError::NotInitialized),
            Some(c) => Ok(c.clone()),
        }
    }

    /// Total Club Funds held by the treasury (0 before `initialize`).
    pub fn get_treasury_balance(&self) -> (r: i128)
        ensures
            r == self.treasury(),
    {
        self.treasury_balance
    }

    /// Club Funds reserved for queued Event Budgets (0 before `initialize`).
    pub fn get_reserved_balance(&self) -> (r: i128)
        ensures
            r == self.reserved(),
    {
        self.reserved_balance
    }

    /// Club Funds neither spent nor reserved, floored at 0.
    pub fn get_available_balance(&self) -> (r: i128)
        requires
            self.wf(),
        ensures
            r == (if self.available() > 0 { self.available() } else { 0 }),
    {
        proof {
            lemma_queued_total_nonneg(self.proposals@);
        }
        let available = self.treasury_balance - self.reserved_balance;
        if available > 0 {
            available
        } else {
            0
        }
    }

    /// The proposal with id `proposal_id`.
    pub fn get_proposal(&self, proposal_id: u64) -> (r: Result<Proposal, DaoError>)
        ensures
            match self.lookup(proposal_id) {
                Some(p) => r == Ok::<Proposal, DaoError>(p),
                None => r == Err::<Proposal, DaoError>(DaoError::ProposalNotFound),
            },
    {
        match self.index_of(proposal_id) {
            None => Err(DaoError::ProposalNotFound),
            Some(i) => Ok(self.proposals[i].clone()),
        }
    }

    /// The ids of all proposals, in submission order.
    pub fn get_all_proposals(&self) -> (r: Vec<u64>)
        ensures
            r@ == proposal_ids(self.proposals()),
    {
        let mut ids: Vec<u64> = Vec::new();
        let n = self.proposals.len();
        let mut i: usize = 0;
        while i < n
            invariant
                n == self.proposals@.len(),
                i <= n,
                ids@ == proposal_ids(self.proposals@.take(i as int)),
            decreases n - i,
        {
            ids.push(self.proposals[i].id);
            i = i + 1;
            assert(ids@ =~= proposal_ids(self.proposals@.take(i as int)));
        }
        assert(self.proposals@.take(n as int) =~= self.proposals@);
        ids
    }

    /// The ids of the proposals submitted by `proposer`, in submission order.
    pub fn get_proposer_proposals(&self, proposer: Address) -> (r: Vec<u64>)
        ensures
            r@ == ids_of_proposer(self.proposals(), proposer@),
            forall|x: u64|
                #![trigger r@.contains(x)]
                r@.contains(x) <==> exists|i: int|
                    0 <= i < self.proposals().len() && self.proposals()[i].proposer@ == proposer@
                        && #[trigger] self.proposals()[i].id == x,
    {
        let mut ids: Vec<u64> = Vec::new();
        let n = self.proposals.len();
        let mut i: usize = 0;
        while i < n
            invariant
                n == self.proposals@.len(),
                i <= n,
                ids@ == ids_of_proposer(self.proposals@.take(i as int), proposer@),
            decreases n - i,
        {
            assert(self.proposals@.take(i + 1).drop_last() =~= self.proposals@.take(i as int));
            if self.proposals[i].proposer.same_as(&proposer) {
                ids.push(self.proposals[i].id);
            }
            i = i + 1;
        }
        assert(self.proposals@.take(n as int) =~= self.proposals@);
        proof {
            lemma_ids_of_proposer_members(self.proposals@, proposer@);
        }
        ids
    }

    /// The vote `voter` cast on `proposal_id`, if any.
    pub fn get_vote(&self, proposal_id: u64, voter: Address) -> (r: Option<VoteDirection>)
        requires
            self.wf(),
        ensures
            r == (if self.votes().contains_key((proposal_id, voter@)) {
                Some(self.votes()[(proposal_id, voter@)])
            } else {
                None
            }),
    {
        self.find_vote(proposal_id, &voter)
    }

    /// Whether `voter` has voted on `proposal_id`.
    pub fn has_voted(&self, proposal_id: u64, voter: Address) -> (r: bool)
        requires
            self.wf(),
        ensures
            r == self.votes().contains_key((proposal_id, voter@)),
    {
        self.find_vote(proposal_id, &voter).is_some()
    }
}


impl UniFundContract {
    /// The parts are well formed: what `wf` asks of a state made of them.
    pub open spec fn parts_wf(
        config: Option<Config>,
        treasury_balance: i128,
        reserved_balance: i128,
        next_proposal_id: u64,
        proposals: Seq<Proposal>,
        ballots: Seq<(VoteKey, VoteDirection)>,
    ) -> bool {
        &&& match config {
            Some(c) => valid_config(c),
            None => {
                &&& treasury_balance == 0
                &&& reserved_balance == 0
                &&& proposals.len() == 0
                &&& ballots.len() == 0
            },
        }
        &&& next_proposal_id == proposals.len() + 1
        &&& forall|i: int|
            #![trigger proposals[i]]
            0 <= i < proposals.len() ==> proposals[i].id == i + 1 && proposals[i].amount > 0
        &&& treasury_balance >= 0
        &&& reserved_balance == queued_total(proposals)
        &&& ballots_unique(ballots)
        &&& forall|i: int|
            #![trigger ballots[i]]
            0 <= i < ballots.len() ==> 1 <= ballots[i].0.proposal_id <= proposals.len()
    }

    /// Rebuild a contract state from its stored parts, as read back from
    /// storage. Returns `None` when the parts do not form a well-formed state.
    pub fn restore(
        config: Option<Config>,
        treasury_balance: i128,
        reserved_balance: i128,
        next_proposal_id: u64,
        proposals: Vec<Proposal>,
        ballots: Vec<(VoteKey, VoteDirection)>,
    ) -> (r: Option<Self>)
        ensures
            r is Some <==> Self::parts_wf(
                config,
                treasury_balance,
                reserved_balance,
                next_proposal_id,
                proposals@,
                ballots@,
            ),
            r matches Some(c) ==> {
                &&& c.wf()
                &&& c.stored_config() == config
                &&& c.treasury() == treasury_balance
                &&& c.reserved() == reserved_balance
                &&& c.next_id() == next_proposal_id
                &&& c.proposals() == proposals@
                &&& c.ballots() == ballots@
            },
    {
        match &config {
            Some(c) => {
                if check_config(c.quorum_bps, c.voting_window, c.veto_period, c.spending_cap).is_some() {
                    return None;
                }
            },
            None => {
                if treasury_balance != 0 || reserved_balance != 0 || proposals.len() != 0
                    || ballots.len() != 0 {
                    return None;
                }
            },
        }
        let n = proposals.len();
        assert(n as u64 == n);
        if n as u64 == u64::MAX || next_proposal_id != n as u64 + 1 {
            return None;
        }
        if treasury_balance < 0 {
            return None;
        }
        let mut i: usize = 0;
        while i < n
            invariant
                n == proposals@.len(),
                i <= n,
                forall|j: int|
                    #![trigger proposals@[j]]
                    0 <= j < i ==> proposals@[j].id == j + 1 && proposals@[j].amount > 0,
            decreases n - i,
        {
            if proposals[i].id != i as u64 + 1 || proposals[i].amount <= 0 {
                return None;
            }
            i = i + 1;
        }
        // the reserved balance must be exactly what the queued proposals hold back
        if reserved_balance < 0 {
            proof {
                lemma_queued_total_nonneg(proposals@);
            }
            return None;
        }
        let mut sum: i128 = 0;
        let mut k: usize = 0;
        while k < n
            invariant
                n == proposals@.len(),
                k <= n,
                forall|j: int|
                    #![trigger proposals@[j]]
                    0 <= j < n ==> proposals@[j].id == j + 1 && proposals@[j].amount > 0,
                0 <= reserved_balance,
                sum == queued_total(proposals@.take(k as int)),
                0 <= sum <= reserved_balance,
            decreases n - k,
        {
            proof {
                lemma_queued_total_take_next(proposals@, k as int);
            }
            if proposals[k].status == ProposalStatus::Queued {
                let amount = proposals[k].amount;
                if amount > reserved_balance - sum {
                    proof {
                        lemma_queued_total_prefix(proposals@, k + 1);
                    }
                    return None;
                }
                sum = sum + amount;
            }
            k = k + 1;
        }
        assert(proposals@.take(n as int) =~= proposals@);
        if sum != reserved_balance {
            return None;
        }
        // every vote names a proposal, and no voter votes twice on one
        let m = ballots.len();
        let mut a: usize = 0;
        while a < m
            invariant
                m == ballots@.len(),
                n == proposals@.len(),
                a <= m,
                forall|x: int|
                    #![trigger ballots@[x]]
                    0 <= x < a ==> 1 <= ballots@[x].0.proposal_id <= n,
                forall|x: int, y: int|
                    0 <= x < a && x < y < m ==> #[trigger] ballot_key(ballots@[x])
                        != #[trigger] ballot_key(ballots@[y]),
            decreases m - a,
        {
            let pid = ballots[a].0.proposal_id;
            if pid < 1 || pid > n as u64 {
                return None;
            }
            let mut b: usize = a + 1;
            while b < m
                invariant
                    m == ballots@.len(),
                    a < m,
                    a + 1 <= b <= m,
                    pid == ballots@[a as int].0.proposal_id,
                    forall|y: int|
                        a < y < b ==> #[trigger] ballot_key(ballots@[y]) != ballot_key(
                            ballots@[a as int],
                        ),
                decreases m - b,
            {
                if ballots[b].0.proposal_id == pid && ballots[b].0.voter.same_as(&ballots[a].0.voter) {
                    assert(ballot_key(ballots@[a as int]) == ballot_key(ballots@[b as int]));
                    return None;
                }
                b = b + 1;
            }
            a = a + 1;
        }
        Some(
            UniFundContract {
                config,
                treasury_balance,
                reserved_balance,
                next_proposal_id,
                proposals,
                ballots,
            },
        )
    }

    /// The id the next proposal will get.
    pub fn next_proposal_id(&self) -> (r: u64)
        ensures
            r == self.next_id(),
    {
        self.next_proposal_id
    }

    /// All recorded votes, in the order in which they were cast.
    pub fn get_ballots(&self) -> (r: Vec<(VoteKey, VoteDirection)>)
        ensures
            r@ == self.ballots(),
    {
        let mut out: Vec<(VoteKey, VoteDirection)> = Vec::new();
        let n = self.ballots.len();
        let mut i: usize = 0;
        while i < n
            invariant
                n == self.ballots@.len(),
                i <= n,
                out@ == self.ballots@.take(i as int),
            decreases n - i,
        {
            let b = &self.ballots[i];
            out.push((b.0.clone(), b.1));
            i = i + 1;
            assert(out@ =~= self.ballots@.take(i as int));
        }
        assert(self.ballots@.take(n as int) =~= self.ballots@);
        out
    }
}

} // verus!
