//! UniFund DAO: the treasury and proposal logic of a student-club DAO.
//!
//! The library holds the contract's state as plain values and performs each
//! contract call as a verified state transition. The host environment
//! (authorisation, ledger time, storage and token transfers) stays with the
//! caller, who hands in the ledger time and token balances and carries out the
//! token transfers that a call returns.

mod address;
mod types;
pub mod bookkeeping;
pub mod contract;
pub mod laws;

pub use address::Address;
pub use types::{Config, DaoError, Proposal, ProposalStatus, TokenTransfer, VoteDirection, VoteKey};
pub use contract::UniFundContract;
