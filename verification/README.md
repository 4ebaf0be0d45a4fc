# unifund_dao

The treasury and proposal logic of UniFund DAO, a decentralized treasury for
university student organisations, written in Verus.

- `src/contract.rs`: `UniFundContract`, the contract state, and one verified
  operation per contract call (initialise, configure, deposit, submit, vote,
  queue, cancel, execute, and the queries). Each operation states exactly when
  it is refused and why, leaves the state unchanged when it is, and otherwise
  states the new state and the token transfer to carry out. Every operation
  keeps the state well formed: proposal ids run 1, 2, 3, ...; the reserved
  balance is the sum of the queued budgets; no student has two votes on one
  proposal.
- `src/bookkeeping.rs`: the sums and indexes over proposals and votes, and the
  lemmas about them.
- `src/laws.rs`: properties across operations (who may cancel, finished
  proposals stay finished, one vote per student, payouts wait for the veto
  period, stored state restores), and laws over runs of calls, stated over the
  one-step relation `UniFundContract::step_by`: consecutive ids for successive
  submissions, treasury equals deposits minus payouts, recorded votes persist
  and exist exactly after a vote, proposal terms never change and finished
  proposals stay as they are, only the current advisor governs, and a contract
  is initialised at most once.
- `app/lib.rs`: the Soroban contract. It checks authorisation, reads the state
  from contract storage, reads the ledger time and Membership Token balances,
  calls the library, performs the returned token transfer and writes the state
  back.
