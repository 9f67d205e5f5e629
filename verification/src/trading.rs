//! Trading gate: the read-only guard consulted before every sale, and the
//! pool metric both trade directions update.

use vstd::prelude::*;

verus! {

/// The authoritative lock flag and lock deadline consumed by the trading
/// gate. There is exactly one source of truth for this pair at any instant:
/// it is a projection of the governance record (see
/// [`crate::governance::GovernanceRecord::lock_record`]).
#[derive(Clone, Copy, Debug, PartialEq, Eq, Structural)]
pub struct LockRecord {
    /// Whether selling is currently locked.
    pub is_locked: bool,
    /// Unix timestamp (seconds) at which the lock window ends; `0` when
    /// unlocked.
    pub lock_until: i64,
}

/// Running total of tokens moved through the trading pool.
#[derive(Clone, Copy, Debug, PartialEq, Eq, Structural)]
pub struct TradingPool {
    /// Cumulative amount traded, in token units.
    pub total_traded: u64,
}

/// Errors of the trading gate.
#[derive(Clone, Copy, Debug, PartialEq, Eq, Structural)]
pub enum TradingError {
    /// The seller's balance does not cover the amount a buyer asked for.
    InsufficientSupply,
    /// The seller's balance does not cover the amount offered for sale.
    InsufficientBalance,
    /// Selling is locked by governance and the lock window has not elapsed.
    SellingLocked,
}

/// A sale is allowed iff selling is not locked, or the lock window has
/// elapsed.
pub open spec fn spec_sell_allowed(lock: LockRecord, now: i64) -> bool {
    !lock.is_locked || now >= lock.lock_until
}

/// Decision of a sell request: the lock is consulted before the seller's
/// balance.
pub open spec fn spec_sell_decision(
    lock: LockRecord,
    now: i64,
    seller_balance: u64,
    amount: u64,
) -> Result<(), TradingError> {
    if !spec_sell_allowed(lock, now) {
        Err(TradingError::SellingLocked)
    } else if seller_balance < amount {
        Err(TradingError::InsufficientBalance)
    } else {
        Ok(())
    }
}

impl TradingPool {
    /// A fresh pool with nothing traded yet.
    pub fn new() -> (pool: TradingPool)
        ensures
            pool.total_traded == 0,
    {
        TradingPool { total_traded: 0 }
    }
}

/// The pure read-only guard consulted before every sale-transfer. It has no
/// side effects and moves no tokens; it only authorizes or rejects the
/// transfer that the host performs.
pub fn check_sell_allowed(lock: &LockRecord, now: i64) -> (allowed: bool)
    ensures
        allowed == spec_sell_allowed(*lock, now),
{
    !lock.is_locked || now >= lock.lock_until
}

/// Decides a sell request. `Ok` exactly when the lock gate allows the sale
/// and the seller's balance covers `amount`; the host then performs the
/// transfer and records the trade with [`record_trade`].
pub fn sell_tokens_prepare(
    lock: &LockRecord,
    now: i64,
    seller_balance: u64,
    amount: u64,
) -> (r: Result<(), TradingError>)
    ensures
        r == spec_sell_decision(*lock, now, seller_balance, amount),
        r is Ok <==> spec_sell_allowed(*lock, now) && seller_balance >= amount,
        !spec_sell_allowed(*lock, now) ==> r == Err::<(), TradingError>(TradingError::SellingLocked),
{
    if !check_sell_allowed(lock, now) {
        Err(TradingError::SellingLocked)
    } else if seller_balance < amount {
        Err(TradingError::InsufficientBalance)
    } else {
        Ok(())
    }
}

/// Decides a buy request: the seller must hold at least `amount`. Buying is
/// never gated by the lock flag.
pub fn buy_tokens_prepare(seller_balance: u64, amount: u64) -> (r: Result<(), TradingError>)
    ensures
        r is Ok <==> seller_balance >= amount,
        seller_balance < amount ==> r == Err::<(), TradingError>(TradingError::InsufficientSupply),
{
    if seller_balance < amount {
        Err(TradingError::InsufficientSupply)
    } else {
        Ok(())
    }
}

/// Adds a completed trade to the pool metric. Called after the host's
/// transfer succeeded, for both trade directions.
pub fn record_trade(pool: &mut TradingPool, amount: u64)
    requires
        old(pool).total_traded + amount <= u64::MAX,
    ensures
        final(pool).total_traded == old(pool).total_traded + amount,
{
    pool.total_traded = pool.total_traded + amount;
}

} // verus!
