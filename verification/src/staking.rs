//! Staking engine: per-holder stake positions, a pool aggregate, and the
//! time-proportional reward paid on withdrawal.
//!
//! The token transfer itself is the host's: a caller first asks
//! [`stake_prepare`] or [`unstake_prepare`] for the decision, performs the
//! transfer the decision calls for, and only after it succeeded commits the
//! accounting with [`stake_commit`] or [`unstake_commit`]. A failed
//! transfer leaves every counter unchanged, because nothing was committed.

use vstd::prelude::*;

verus! {

/// Seconds in one day: the unit of the reward schedule.
pub const SECONDS_PER_DAY: i64 = 86400;

/// Seconds in seven days: the minimum period a position must be held
/// before any withdrawal.
pub const STAKE_LOCK_PERIOD: i64 = 604800;

/// One holder's stake: the deposited amount and the timestamp its holding
/// period is measured from. Zeroed on full withdrawal, never deleted.
#[derive(Clone, Copy, Debug, PartialEq, Eq, Structural)]
pub struct StakePosition {
    /// Identifier of the holder, as assigned by the host.
    pub owner: u64,
    /// Amount currently staked, in token units.
    pub amount_staked: u64,
    /// Unix timestamp (seconds) of the most recent deposit; `0` while
    /// nothing is staked. Every additional deposit restarts the clock for
    /// the entire position.
    pub stake_started_at: i64,
}

/// The pool aggregate: the sum of all positions' staked amounts, updated
/// by every commit.
#[derive(Clone, Copy, Debug, PartialEq, Eq, Structural)]
pub struct StakingPool {
    /// Total staked across all positions, in token units.
    pub total_staked: u64,
}

/// Errors of the staking engine.
#[derive(Clone, Copy, Debug, PartialEq, Eq, Structural)]
pub enum StakingError {
    /// A stake or unstake of zero tokens.
    InvalidStakeAmount,
    /// The holder's spendable balance does not cover the deposit.
    InsufficientFunds,
    /// The withdrawal asks for more than the position holds.
    InsufficientStakedBalance,
    /// The minimum staking period has not elapsed yet.
    StakeLocked,
    /// The position holds nothing to withdraw.
    NoStakeFound,
}

/// One committed accounting step on a position, as the conservation law
/// over operation sequences sees it.
#[derive(Clone, Copy, Debug)]
pub enum StakeOp {
    /// A deposit of `amount` committed at time `now`.
    Stake {
        /// Deposited amount, in token units.
        amount: u64,
        /// Commit time: the position's clock restarts here.
        now: i64,
    },
    /// A withdrawal of `amount` of principal.
    Unstake {
        /// Withdrawn principal, in token units.
        amount: u64,
    },
}

impl StakePosition {
    /// An empty position has no start time.
    pub open spec fn wf(self) -> bool {
        self.amount_staked == 0 ==> self.stake_started_at == 0
    }
}

/// What one committed step does to a position: a deposit adds its amount
/// and restarts the clock for the entire position; a withdrawal subtracts
/// its amount and zeroes the clock exactly when the position empties.
pub open spec fn stake_op_step(p: StakePosition, op: StakeOp) -> StakePosition {
    match op {
        StakeOp::Stake { amount, now } => StakePosition {
            amount_staked: (p.amount_staked + amount) as u64,
            stake_started_at: now,
            ..p
        },
        StakeOp::Unstake { amount } => StakePosition {
            amount_staked: (p.amount_staked - amount) as u64,
            stake_started_at: if p.amount_staked == amount {
                0
            } else {
                p.stake_started_at
            },
            ..p
        },
    }
}

/// A step is admissible on `p`: amounts are positive, a deposit does not
/// overflow the position, and a withdrawal does not exceed it.
pub open spec fn stake_op_ok(p: StakePosition, op: StakeOp) -> bool {
    match op {
        StakeOp::Stake { amount, now } => amount > 0 && p.amount_staked + amount <= u64::MAX,
        StakeOp::Unstake { amount } => amount > 0 && amount <= p.amount_staked,
    }
}

/// The position after a whole sequence of committed steps.
pub open spec fn apply_stake_ops(p: StakePosition, ops: Seq<StakeOp>) -> StakePosition
    decreases ops.len(),
{
    if ops.len() == 0 {
        p
    } else {
        stake_op_step(apply_stake_ops(p, ops.drop_last()), ops.last())
    }
}

/// Every step of the sequence is admissible on the position it meets.
pub open spec fn stake_ops_ok(p: StakePosition, ops: Seq<StakeOp>) -> bool
    decreases ops.len(),
{
    if ops.len() == 0 {
        true
    } else {
        stake_ops_ok(p, ops.drop_last()) && stake_op_ok(apply_stake_ops(p, ops.drop_last()), ops.last())
    }
}

/// Sum of all deposited amounts in the sequence.
pub open spec fn staked_sum(ops: Seq<StakeOp>) -> int
    decreases ops.len(),
{
    if ops.len() == 0 {
        0
    } else {
        staked_sum(ops.drop_last()) + match ops.last() {
            StakeOp::Stake { amount, now } => amount as int,
            StakeOp::Unstake { amount } => 0,
        }
    }
}

/// Sum of all withdrawn principal in the sequence.
pub open spec fn unstaked_sum(ops: Seq<StakeOp>) -> int
    decreases ops.len(),
{
    if ops.len() == 0 {
        0
    } else {
        unstaked_sum(ops.drop_last()) + match ops.last() {
            StakeOp::Stake { amount, now } => 0,
            StakeOp::Unstake { amount } => amount as int,
        }
    }
}

/// Stake/unstake conservation: after any admissible interleaving of
/// deposits and withdrawals on a single position, the staked amount equals
/// the initial amount plus the sum of deposits minus the sum of
/// withdrawals — and that difference is never negative.
pub proof fn lemma_stake_conservation(p: StakePosition, ops: Seq<StakeOp>)
    requires
        stake_ops_ok(p, ops),
    ensures
        apply_stake_ops(p, ops).amount_staked == p.amount_staked + staked_sum(ops) - unstaked_sum(ops),
        unstaked_sum(ops) <= p.amount_staked + staked_sum(ops),
        apply_stake_ops(p, ops).owner == p.owner,
    decreases ops.len(),
{
    if ops.len() > 0 {
        lemma_stake_conservation(p, ops.drop_last());
    }
}

/// Full days elapsed, truncated first, as the reward schedule counts them.
pub open spec fn spec_days_elapsed(elapsed: int) -> int {
    elapsed / (SECONDS_PER_DAY as int)
}

/// The reward for withdrawing `amount` after `elapsed` seconds: one
/// percent of the withdrawn principal per full day elapsed, each factor
/// truncated before the product is taken.
pub open spec fn spec_reward(amount: u64, elapsed: int) -> int {
    spec_days_elapsed(elapsed) * (amount as int / 100)
}

/// Principal plus reward: what a successful withdrawal pays out.
pub open spec fn spec_payout(amount: u64, elapsed: int) -> int {
    amount + spec_reward(amount, elapsed)
}

/// A withdrawal of `amount` from `p` at time `now` passes every check.
pub open spec fn spec_unstake_allowed(p: StakePosition, amount: u64, now: i64) -> bool {
    &&& amount > 0
    &&& p.amount_staked > 0
    &&& amount <= p.amount_staked
    &&& now - p.stake_started_at >= STAKE_LOCK_PERIOD
}

/// Decision of a withdrawal request, checks in order: a zero amount, an
/// empty position, an amount beyond the position, the minimum staking
/// period; on success, the exact payout.
pub open spec fn spec_unstake_decision(p: StakePosition, amount: u64, now: i64) -> Result<
    u64,
    StakingError,
> {
    if amount == 0 {
        Err(StakingError::InvalidStakeAmount)
    } else if p.amount_staked == 0 {
        Err(StakingError::NoStakeFound)
    } else if amount > p.amount_staked {
        Err(StakingError::InsufficientStakedBalance)
    } else if now - p.stake_started_at < STAKE_LOCK_PERIOD {
        Err(StakingError::StakeLocked)
    } else {
        Ok(spec_payout(amount, now - p.stake_started_at) as u64)
    }
}

impl StakePosition {
    /// A fresh, empty position for `owner`.
    pub fn new(owner: u64) -> (p: StakePosition)
        ensures
            p.wf(),
            p == (StakePosition { owner, amount_staked: 0, stake_started_at: 0 }),
    {
        StakePosition { owner, amount_staked: 0, stake_started_at: 0 }
    }
}

impl StakingPool {
    /// A fresh pool with nothing staked.
    pub fn new() -> (pool: StakingPool)
        ensures
            pool.total_staked == 0,
    {
        StakingPool { total_staked: 0 }
    }
}

/// Decides a deposit request: the amount must be positive
/// (`InvalidStakeAmount`) and covered by the holder's spendable balance
/// (`InsufficientFunds`). `Ok` asks the host to transfer `amount` from the
/// holder to the pool's custody account and to commit with
/// [`stake_commit`] once that succeeded.
pub fn stake_prepare(balance: u64, amount: u64) -> (r: Result<(), StakingError>)
    ensures
        r == (if amount == 0 {
            Err::<(), StakingError>(StakingError::InvalidStakeAmount)
        } else if balance < amount {
            Err::<(), StakingError>(StakingError::InsufficientFunds)
        } else {
            Ok::<(), StakingError>(())
        }),
        r is Ok <==> amount > 0 && balance >= amount,
{
    if amount == 0 {
        Err(StakingError::InvalidStakeAmount)
    } else if balance < amount {
        Err(StakingError::InsufficientFunds)
    } else {
        Ok(())
    }
}

/// Commits a deposit after the host's transfer succeeded: the position
/// grows by `amount`, its clock restarts at `now` for the entire position,
/// and the pool aggregate grows by the same amount.
pub fn stake_commit(position: &mut StakePosition, pool: &mut StakingPool, amount: u64, now: i64)
    requires
        amount > 0,
        old(position).amount_staked + amount <= u64::MAX,
        old(pool).total_staked + amount <= u64::MAX,
    ensures
        *final(position) == stake_op_step(*old(position), StakeOp::Stake { amount, now }),
        final(position).amount_staked == old(position).amount_staked + amount,
        final(position).stake_started_at == now,
        final(position).owner == old(position).owner,
        final(position).wf(),
        final(pool).total_staked == old(pool).total_staked + amount,
{
    position.amount_staked = position.amount_staked + amount;
    position.stake_started_at = now;
    pool.total_staked = pool.total_staked + amount;
}

/// The reward schedule: one percent of the withdrawn principal per full
/// day elapsed, integer-truncated at each step — days first, one percent
/// of the principal second, the product last.
pub fn compute_reward(amount: u64, elapsed: i64) -> (reward: u64)
    requires
        elapsed >= 0,
        spec_reward(amount, elapsed as int) <= u64::MAX,
    ensures
        reward == spec_reward(amount, elapsed as int),
{
    let days = (elapsed as u64) / (SECONDS_PER_DAY as u64);
    days * (amount / 100)
}

/// Decides a withdrawal request and computes the exact payout:
/// `amount + floor(elapsed / 86400) * floor(amount / 100)`, one percent of
/// the withdrawn principal per full day elapsed. `Ok` asks the host to
/// transfer the payout from the pool's custody account to the holder and
/// to commit with [`unstake_commit`] once that succeeded.
pub fn unstake_prepare(position: &StakePosition, amount: u64, now: i64) -> (r: Result<
    u64,
    StakingError,
>)
    requires
        position.wf(),
        position.amount_staked > 0 ==> position.stake_started_at <= now,
        position.amount_staked > 0 ==> now - position.stake_started_at <= i64::MAX,
        spec_unstake_allowed(*position, amount, now) ==> spec_payout(
            amount,
            now - position.stake_started_at,
        ) <= u64::MAX,
    ensures
        r == spec_unstake_decision(*position, amount, now),
        r is Ok <==> spec_unstake_allowed(*position, amount, now),
        r matches Ok(payout) ==> payout == amount + spec_reward(
            amount,
            now - position.stake_started_at,
        ),
{
    if amount == 0 {
        return Err(StakingError::InvalidStakeAmount);
    }
    if position.amount_staked == 0 {
        return Err(StakingError::NoStakeFound);
    }
    if amount > position.amount_staked {
        return Err(StakingError::InsufficientStakedBalance);
    }
    let elapsed = now - position.stake_started_at;
    if elapsed < STAKE_LOCK_PERIOD {
        return Err(StakingError::StakeLocked);
    }
    let reward = compute_reward(amount, elapsed);
    Ok(amount + reward)
}

/// Commits a withdrawal after the host's transfer succeeded: the position
/// shrinks by the withdrawn principal, its clock is zeroed exactly when it
/// empties, and the pool aggregate shrinks by the same amount.
pub fn unstake_commit(position: &mut StakePosition, pool: &mut StakingPool, amount: u64)
    requires
        amount > 0,
        amount <= old(position).amount_staked,
        amount <= old(pool).total_staked,
    ensures
        *final(position) == stake_op_step(*old(position), StakeOp::Unstake { amount }),
        final(position).amount_staked == old(position).amount_staked - amount,
        final(position).amount_staked == 0 ==> final(position).stake_started_at == 0,
        final(position).amount_staked > 0 ==> final(position).stake_started_at == old(
            position,
        ).stake_started_at,
        final(position).owner == old(position).owner,
        final(position).wf(),
        final(pool).total_staked == old(pool).total_staked - amount,
{
    position.amount_staked = position.amount_staked - amount;
    if position.amount_staked == 0 {
        position.stake_started_at = 0;
    }
    pool.total_staked = pool.total_staked - amount;
}

} // verus!
