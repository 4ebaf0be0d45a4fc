use vstd::prelude::*;

use crate::address::Address;

verus! {

/// Lifecycle state of an Event Budget proposal.
#[derive(Clone, Copy, Debug, PartialEq, Eq, Structural)]
pub enum ProposalStatus {
    /// Voting window open for students.
    Active,
    /// Voting window closed; quorum not reached or against won.
    Defeated,
    /// Passed vote; inside veto window awaiting execution. Funds reserved.
    Queued,
    /// Executed; Club Funds transferred.
    Executed,
    /// Cancelled before execution (Faculty Advisor veto or proposer cancelled).
    Cancelled,
}

/// Direction of a student's vote.
#[derive(Clone, Copy, Debug, PartialEq, Eq, Structural)]
pub enum VoteDirection {
    For,
    Against,
    Abstain,
}


/// Key for a single vote on an Event Budget/Proposal.
#[derive(Debug)]
pub struct VoteKey {
    pub proposal_id: u64,
    pub voter: Address,
}

impl Clone for VoteKey {
    fn clone(&self) -> (r: Self)
        ensures
            r == *self,
    {
        VoteKey { proposal_id: self.proposal_id, voter: self.voter.clone() }
    }
}

/// Global UniFund DAO configuration.
#[derive(Debug)]
pub struct Config {
    /// Faculty Advisor: may veto Event Budgets, cancel any proposal, and update config.
    pub admin: Address,
    /// Club Funds (e.g. USDC/XLM) held in the treasury and used for payouts.
    pub treasury_token: Address,
    /// Student Club Membership Token whose balance determines voting weight.
    pub governance_token: Address,
    /// Minimum `for_votes / total_votes` in basis points (e.g. 5100 = 51%).
    pub quorum_bps: u32,
    /// Seconds the voting window stays open after an Event Budget is submitted.
    pub voting_window: u64,
    /// Seconds between queue and earliest execution (veto period for Faculty Advisor).
    pub veto_period: u64,
    /// Maximum amount any single Event Budget may request (0 = no cap).
    pub spending_cap: i128,
}

impl Clone for Config {
    fn clone(&self) -> (r: Self)
        ensures
            r == *self,
    {
        Config {
            admin: self.admin.clone(),
            treasury_token: self.treasury_token.clone(),
            governance_token: self.governance_token.clone(),
            quorum_bps: self.quorum_bps,
            voting_window: self.voting_window,
            veto_period: self.veto_period,
            spending_cap: self.spending_cap,
        }
    }
}

/// An Event Budget or Equipment Purchase Proposal.
#[derive(Debug)]
pub struct Proposal {
    pub id: u64,
    /// The student proposing the budget.
    pub proposer: Address,
    pub title: String,
    pub description: String,
    /// Address that will receive the Club Funds if executed.
    pub recipient: Address,
    /// Requested Club Funds amount.
    pub amount: i128,
    pub status: ProposalStatus,
    /// Total Student Club Membership Token weight cast For.
    pub for_votes: u64,
    /// Total Student Club Membership Token weight cast Against.
    pub against_votes: u64,
    /// Total Student Club Membership Token weight cast Abstain.
    pub abstain_votes: u64,
    /// Timestamp after which votes are no longer accepted.
    pub voting_deadline: u64,
    /// Earliest timestamp at which `execute_proposal` may be called.
    pub executable_at: u64,
    pub submitted_at: u64,
    pub executed_at: u64,
}

impl Clone for Proposal {
    fn clone(&self) -> (r: Self)
        ensures
            r == *self,
    {
        Proposal {
            id: self.id,
            proposer: self.proposer.clone(),
            title: self.title.clone(),
            description: self.description.clone(),
            recipient: self.recipient.clone(),
            amount: self.amount,
            status: self.status,
            for_votes: self.for_votes,
            against_votes: self.against_votes,
            abstain_votes: self.abstain_votes,
            voting_deadline: self.voting_deadline,
            executable_at: self.executable_at,
            submitted_at: self.submitted_at,
            executed_at: self.executed_at,
        }
    }
}

/// A token movement that a contract call asks its caller to carry out.
///
/// The treasury is the contract's own account.
#[derive(Debug)]
pub enum TokenTransfer {
    /// Move `amount` of `token` from `from` into the treasury.
    IntoTreasury { token: Address, from: Address, amount: i128 },
    /// Move `amount` of `token` out of the treasury to `to`.
    OutOfTreasury { token: Address, to: Address, amount: i128 },
}

/// Why a contract call was refused. A refused call changes nothing.
#[derive(Clone, Copy, Debug, PartialEq, Eq, Structural)]
pub enum DaoError {
    /// "already initialized"
    AlreadyInitialized,
    /// The contract has not been initialised yet.
    NotInitialized,
    /// "quorum_bps must be 1-10000"
    InvalidQuorum,
    /// "voting window must be positive"
    InvalidVotingWindow,
    /// "veto period must be positive"
    InvalidVetoPeriod,
    /// "spending cap cannot be negative"
    NegativeSpendingCap,
    /// "caller is not the Faculty Advisor (admin)"
    NotAdmin,
    /// "deposit amount must be positive"
    NonPositiveDeposit,
    /// "amount must be positive"
    NonPositiveAmount,
    /// "title cannot be empty"
    EmptyTitle,
    /// "description cannot be empty"
    EmptyDescription,
    /// "proposer must hold a Student Club Membership Token"
    ProposerHoldsNoToken,
    /// "amount exceeds event budget spending cap"
    ExceedsSpendingCap,
    /// "insufficient available Club Funds"
    InsufficientAvailableFunds,
    /// "proposal not found"
    ProposalNotFound,
    /// "event budget is not active"
    NotActive,
    /// "voting window has closed"
    VotingClosed,
    /// "student has already voted on this event budget"
    AlreadyVoted,
    /// "voter must hold a Student Club Membership Token"
    VoterHoldsNoToken,
    /// "voting window has not closed"
    VotingStillOpen,
    /// "cannot cancel an executed event budget"
    CancelExecuted,
    /// "event budget is already cancelled"
    AlreadyCancelled,
    /// "student proposer may only cancel active event budgets"
    ProposerCancelNotActive,
    /// "voting window has closed; only Faculty Advisor may cancel now"
    ProposerCancelTooLate,
    /// "only Faculty Advisor or proposing student may cancel"
    NotAllowedToCancel,
    /// "event budget is not queued"
    NotQueued,
    /// "Faculty Advisor veto period has not expired"
    VetoPeriodNotExpired,
    /// "treasury has insufficient Club Funds"
    InsufficientTreasury,
    /// An integer result does not fit its type.
    ArithmeticOverflow,
}

} // verus!
