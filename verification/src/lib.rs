//! Governance-gated control plane for a tradable token.
//!
//! Three engines share one authoritative governance record:
//!
//! - the vote-lock engine tallies weighted votes and flips a binary
//!   *selling-locked* flag once a quorum is crossed in either direction,
//!   enforcing a minimum lock duration before an unlock can take effect;
//! - the staking engine tracks per-holder stake and start time, and on
//!   withdrawal pays a reward proportional to the number of full days the
//!   position was held;
//! - the trading gate is consulted before every sale and rejects it while
//!   the lock flag is set and the lock window has not elapsed.
//!
//! Token custody, caller identity, persistence and the wall clock are host
//! collaborators: callers read plain values from them (balances, the current
//! time) and hand them to the operations here, and perform the transfers
//! that a successful operation calls for. Every decision and every state
//! mutation is made in this crate, and verified.

pub mod governance;
pub mod staking;
pub mod trading;
