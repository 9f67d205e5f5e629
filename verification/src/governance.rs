//! Vote-lock engine: tallies weighted votes on one governance record and
//! flips the *selling-locked* flag once a quorum is crossed in either
//! direction, enforcing a minimum lock duration before an unlock can take
//! effect.

use vstd::prelude::*;

use crate::trading::LockRecord;

verus! {

/// Seconds in one week: the minimum lock duration.
pub const MIN_LOCK_DURATION: i64 = 604800;

/// Seconds in ninety days: the maximum lock duration.
pub const MAX_LOCK_DURATION: i64 = 7776000;

/// Canonical quorum fraction, as a ratio: sixty percent.
pub const QUORUM_NUMERATOR: u64 = 60;

/// Denominator of the canonical quorum fraction.
pub const QUORUM_DENOMINATOR: u64 = 100;

/// What the quorum fraction is measured against. Measuring against the
/// votes cast is the canonical choice; measuring against the total token
/// supply is harder to game with low turnout, at the price of demanding
/// broad participation for every flip.
#[derive(Clone, Copy, Debug, PartialEq, Eq, Structural)]
pub enum QuorumBasis {
    /// The denominator is the total weight of the votes cast so far in the
    /// current referendum cycle.
    VotesCast,
    /// The denominator is the total token supply recorded at creation.
    TotalSupply,
}

/// The one authoritative governance record. Only the operations of this
/// module mutate it: tallies are monotonically non-decreasing except on a
/// successful unlock, which resets both to zero for a fresh referendum.
#[derive(Clone, Copy, Debug, PartialEq, Eq, Structural)]
pub struct GovernanceRecord {
    /// Cumulative weighted votes in favor of locking selling.
    pub votes_for_lock: u64,
    /// Cumulative weighted votes in favor of unlocking selling.
    pub votes_for_unlock: u64,
    /// Current policy flag: whether selling is locked.
    pub selling_locked: bool,
    /// Unix timestamp (seconds) at which the current lock activated; `0`
    /// when unlocked.
    pub lock_started_at: i64,
    /// Minimum time (seconds) a lock stays in force before an unlock vote
    /// can take effect; always within `[MIN_LOCK_DURATION, MAX_LOCK_DURATION]`.
    pub min_lock_duration: i64,
    /// Numerator of the quorum fraction required to flip the policy.
    pub quorum_num: u64,
    /// Denominator of the quorum fraction; the fraction lies in `(0, 1]`.
    pub quorum_den: u64,
    /// What the quorum fraction is measured against.
    pub quorum_basis: QuorumBasis,
    /// Total token supply, the denominator base under
    /// [`QuorumBasis::TotalSupply`]; positive in that mode, unused
    /// otherwise.
    pub total_supply: u64,
}

/// A holder's voting weight, derived from holdings; the token ledger owns
/// the holdings, this engine only reads the weight.
#[derive(Clone, Copy, Debug, PartialEq, Eq, Structural)]
pub struct VoterWeight {
    /// Identifier of the holder, as assigned by the host.
    pub holder: u64,
    /// Weight carried by each of this holder's votes.
    pub weight: u64,
}

/// What a vote-lock evaluation did to the policy flag.
#[derive(Clone, Copy, Debug, PartialEq, Eq, Structural)]
pub enum LockTransition {
    /// The policy flag kept its value.
    NoChange,
    /// Selling was locked by this evaluation.
    Locked,
    /// Selling was unlocked by this evaluation; both tallies were reset.
    Unlocked,
}

/// Errors of the vote-lock engine.
#[derive(Clone, Copy, Debug, PartialEq, Eq, Structural)]
pub enum GovernanceError {
    /// The voter's weight is zero: no governance power.
    NoVotingPower,
    /// An explicit lock or unlock request lacked the votes: either none
    /// were cast at all, or the quorum fraction was not reached.
    NotEnoughVotes,
    /// An explicit lock request found selling already locked.
    AlreadyLocked,
    /// The unlock quorum is there, but the minimum lock duration has not
    /// elapsed yet.
    CannotUnlockYet,
    /// A caller-supplied lock duration lies outside
    /// `[MIN_LOCK_DURATION, MAX_LOCK_DURATION]`.
    InvalidLockPeriod,
}

/// The quorum comparison: `part / basis >= num / den`, stated without
/// division so that it is exact for every value.
pub open spec fn spec_quorum_fraction_met(part: u64, basis: u64, num: u64, den: u64) -> bool {
    part * den >= basis * num
}

impl GovernanceRecord {
    /// Both tallies fit a shared 64-bit total, the quorum fraction lies in
    /// `(0, 1]`, the lock duration is within bounds, the start timestamp is
    /// unset exactly while unlocked, and the lock deadline cannot overflow.
    pub open spec fn wf(self) -> bool {
        &&& 0 < self.quorum_num <= self.quorum_den
        &&& MIN_LOCK_DURATION <= self.min_lock_duration <= MAX_LOCK_DURATION
        &&& self.votes_for_lock + self.votes_for_unlock <= u64::MAX
        &&& (!self.selling_locked ==> self.lock_started_at == 0)
        &&& (self.selling_locked ==> self.lock_started_at + self.min_lock_duration <= i64::MAX)
        &&& (self.quorum_basis == QuorumBasis::TotalSupply ==> self.total_supply > 0)
    }

    /// Total weighted votes cast in the current referendum cycle.
    pub open spec fn total_votes(self) -> int {
        self.votes_for_lock + self.votes_for_unlock
    }

    /// The denominator base the quorum fraction is measured against.
    pub open spec fn quorum_basis_total(self) -> int {
        match self.quorum_basis {
            QuorumBasis::VotesCast => self.total_votes(),
            QuorumBasis::TotalSupply => self.total_supply as int,
        }
    }

    /// The lock quorum is reached: votes for locking make up at least the
    /// quorum fraction of the basis (and some votes were cast at all).
    pub open spec fn lock_quorum_reached(self) -> bool {
        self.total_votes() > 0
            && self.votes_for_lock * self.quorum_den >= self.quorum_basis_total() * self.quorum_num
    }

    /// The unlock quorum is reached: votes for unlocking make up at least
    /// the quorum fraction of the basis (and some votes were cast at all).
    pub open spec fn unlock_quorum_reached(self) -> bool {
        self.total_votes() > 0
            && self.votes_for_unlock * self.quorum_den >= self.quorum_basis_total() * self.quorum_num
    }

    /// The minimum lock duration has elapsed at time `now`.
    pub open spec fn unlock_due(self, now: i64) -> bool {
        now >= self.lock_started_at + self.min_lock_duration
    }

    /// One cast vote added to the tallies, before evaluation.
    pub open spec fn spec_add_vote(self, weight: u64, in_favor: bool) -> GovernanceRecord {
        if in_favor {
            GovernanceRecord { votes_for_lock: (self.votes_for_lock + weight) as u64, ..self }
        } else {
            GovernanceRecord { votes_for_unlock: (self.votes_for_unlock + weight) as u64, ..self }
        }
    }

    /// The state after one evaluation of the tallies at time `now`: lock
    /// when unlocked and the lock quorum is reached; unlock (and reset both
    /// tallies) when locked, the unlock quorum is reached and the minimum
    /// lock duration has elapsed; otherwise no change.
    pub open spec fn spec_evaluate(self, now: i64) -> GovernanceRecord {
        if !self.selling_locked && self.lock_quorum_reached() {
            GovernanceRecord { selling_locked: true, lock_started_at: now, ..self }
        } else if self.selling_locked && self.unlock_quorum_reached() && self.unlock_due(now) {
            GovernanceRecord {
                selling_locked: false,
                lock_started_at: 0,
                votes_for_lock: 0,
                votes_for_unlock: 0,
                ..self
            }
        } else {
            self
        }
    }

    /// What an evaluation of the tallies at time `now` reports: the
    /// transition it performed, or `CannotUnlockYet` when the unlock
    /// quorum is there but the minimum lock duration has not elapsed — in
    /// that case [`Self::spec_evaluate`] leaves the state unchanged.
    pub open spec fn spec_evaluate_result(self, now: i64) -> Result<LockTransition, GovernanceError> {
        if !self.selling_locked && self.lock_quorum_reached() {
            Ok(LockTransition::Locked)
        } else if self.selling_locked && self.unlock_quorum_reached() && self.unlock_due(now) {
            Ok(LockTransition::Unlocked)
        } else if self.selling_locked && self.unlock_quorum_reached() && !self.unlock_due(now) {
            Err(GovernanceError::CannotUnlockYet)
        } else {
            Ok(LockTransition::NoChange)
        }
    }

    /// What a cast vote reports: `NoVotingPower` for a weightless voter,
    /// and otherwise whatever the automatic evaluation of the prospective
    /// tallies reports. An error means the whole call applies nothing —
    /// the vote is not recorded.
    pub open spec fn spec_cast_vote_result(self, weight: u64, in_favor: bool, now: i64) -> Result<
        LockTransition,
        GovernanceError,
    > {
        if weight == 0 {
            Err(GovernanceError::NoVotingPower)
        } else {
            self.spec_add_vote(weight, in_favor).spec_evaluate_result(now)
        }
    }

    /// The state after one cast vote: on success the tally plus the
    /// automatic evaluation; on any error, unchanged.
    pub open spec fn spec_cast_vote_state(self, weight: u64, in_favor: bool, now: i64) -> GovernanceRecord {
        if self.spec_cast_vote_result(weight, in_favor, now) is Err {
            self
        } else {
            self.spec_add_vote(weight, in_favor).spec_evaluate(now)
        }
    }

    /// Decision of an explicit lock request: the supplied duration must be
    /// within bounds, votes must have been cast, the lock quorum must be
    /// reached, and selling must not already be locked.
    pub open spec fn spec_lock_selling_result(self, duration: i64) -> Result<(), GovernanceError> {
        if !(MIN_LOCK_DURATION <= duration && duration <= MAX_LOCK_DURATION) {
            Err(GovernanceError::InvalidLockPeriod)
        } else if self.total_votes() == 0 {
            Err(GovernanceError::NotEnoughVotes)
        } else if !self.lock_quorum_reached() {
            Err(GovernanceError::NotEnoughVotes)
        } else if self.selling_locked {
            Err(GovernanceError::AlreadyLocked)
        } else {
            Ok(())
        }
    }

    /// The state after an explicit lock request: on success the lock
    /// activates at `now` with the supplied duration pinned; on any error
    /// the record is unchanged.
    pub open spec fn spec_lock_selling_state(self, now: i64, duration: i64) -> GovernanceRecord {
        if self.spec_lock_selling_result(duration) is Ok {
            GovernanceRecord {
                selling_locked: true,
                lock_started_at: now,
                min_lock_duration: duration,
                ..self
            }
        } else {
            self
        }
    }

    /// Decision of an explicit unlock request: a no-op success while
    /// already unlocked; otherwise votes must have been cast, the unlock
    /// quorum must be reached, and the minimum lock duration must have
    /// elapsed.
    pub open spec fn spec_unlock_result(self, now: i64) -> Result<(), GovernanceError> {
        if !self.selling_locked {
            Ok(())
        } else if self.total_votes() == 0 {
            Err(GovernanceError::NotEnoughVotes)
        } else if !self.unlock_quorum_reached() {
            Err(GovernanceError::NotEnoughVotes)
        } else if !self.unlock_due(now) {
            Err(GovernanceError::CannotUnlockYet)
        } else {
            Ok(())
        }
    }

    /// The state after an explicit unlock request: a successful unlock from
    /// the locked state resets the flag, the start timestamp and both
    /// tallies; everything else leaves the record unchanged.
    pub open spec fn spec_unlock_state(self, now: i64) -> GovernanceRecord {
        if self.selling_locked && self.spec_unlock_result(now) is Ok {
            GovernanceRecord {
                selling_locked: false,
                lock_started_at: 0,
                votes_for_lock: 0,
                votes_for_unlock: 0,
                ..self
            }
        } else {
            self
        }
    }

    /// The lock flag and deadline as the trading gate consumes them. The
    /// governance record is the single source of truth; this is its
    /// projection.
    pub open spec fn spec_lock_record(self) -> LockRecord {
        LockRecord {
            is_locked: self.selling_locked,
            lock_until: if self.selling_locked {
                (self.lock_started_at + self.min_lock_duration) as i64
            } else {
                0
            },
        }
    }
}

/// Compares `part / basis` against `num / den` without division, exact
/// for every value: the two cross products fit 128 bits.
fn quorum_fraction_met(part: u64, basis: u64, num: u64, den: u64) -> (r: bool)
    ensures
        r == spec_quorum_fraction_met(part, basis, num, den),
{
    proof {
        assert((part as int) * (den as int) <= (u64::MAX as int) * (u64::MAX as int))
            by (nonlinear_arith)
            requires part <= u64::MAX, den <= u64::MAX;
        assert((basis as int) * (num as int) <= (u64::MAX as int) * (u64::MAX as int))
            by (nonlinear_arith)
            requires basis <= u64::MAX, num <= u64::MAX;
    }
    (part as u128) * (den as u128) >= (basis as u128) * (num as u128)
}

impl GovernanceRecord {
    /// The denominator base for the quorum comparison, read from the record.
    fn basis_total(&self, total: u64) -> (basis: u64)
        requires
            self.total_votes() == total,
        ensures
            basis as int == self.quorum_basis_total(),
    {
        match self.quorum_basis {
            QuorumBasis::VotesCast => total,
            QuorumBasis::TotalSupply => self.total_supply,
        }
    }

    /// A fresh, unlocked record with empty tallies, the minimum lock
    /// duration, and the given quorum fraction (which must lie in `(0, 1]`)
    /// measured against the votes cast — the canonical configuration.
    pub fn new(quorum_num: u64, quorum_den: u64) -> (r: GovernanceRecord)
        requires
            0 < quorum_num <= quorum_den,
        ensures
            r.wf(),
            r == (GovernanceRecord {
                votes_for_lock: 0,
                votes_for_unlock: 0,
                selling_locked: false,
                lock_started_at: 0,
                min_lock_duration: MIN_LOCK_DURATION,
                quorum_num,
                quorum_den,
                quorum_basis: QuorumBasis::VotesCast,
                total_supply: 0,
            }),
    {
        GovernanceRecord {
            votes_for_lock: 0,
            votes_for_unlock: 0,
            selling_locked: false,
            lock_started_at: 0,
            min_lock_duration: MIN_LOCK_DURATION,
            quorum_num,
            quorum_den,
            quorum_basis: QuorumBasis::VotesCast,
            total_supply: 0,
        }
    }

    /// A fresh record whose quorum fraction is measured against the total
    /// token supply instead of the votes cast: the stricter configuration,
    /// harder to game with low turnout.
    pub fn new_supply_based(quorum_num: u64, quorum_den: u64, total_supply: u64) -> (r:
        GovernanceRecord)
        requires
            0 < quorum_num <= quorum_den,
            total_supply > 0,
        ensures
            r.wf(),
            r == (GovernanceRecord {
                votes_for_lock: 0,
                votes_for_unlock: 0,
                selling_locked: false,
                lock_started_at: 0,
                min_lock_duration: MIN_LOCK_DURATION,
                quorum_num,
                quorum_den,
                quorum_basis: QuorumBasis::TotalSupply,
                total_supply,
            }),
    {
        GovernanceRecord {
            votes_for_lock: 0,
            votes_for_unlock: 0,
            selling_locked: false,
            lock_started_at: 0,
            min_lock_duration: MIN_LOCK_DURATION,
            quorum_num,
            quorum_den,
            quorum_basis: QuorumBasis::TotalSupply,
            total_supply,
        }
    }

    /// Evaluates the tallies at time `now` and performs at most one
    /// transition: `Unlocked -> Locked` guarded by the lock quorum,
    /// `Locked -> Unlocked` guarded by the unlock quorum *and* the elapsed
    /// minimum duration. An unlock quorum met before the duration has
    /// elapsed is refused with `CannotUnlockYet` and changes nothing. With
    /// zero total votes nothing changes, and no division is performed on
    /// any path.
    pub fn evaluate_and_transition(&mut self, now: i64) -> (r: Result<
        LockTransition,
        GovernanceError,
    >)
        requires
            old(self).wf(),
            now + old(self).min_lock_duration <= i64::MAX,
        ensures
            final(self).wf(),
            *final(self) == old(self).spec_evaluate(now),
            r == old(self).spec_evaluate_result(now),
            r is Err ==> *final(self) == *old(self),
            old(self).total_votes() == 0 ==> *final(self) == *old(self) && r == Ok::<
                LockTransition,
                GovernanceError,
            >(LockTransition::NoChange),
    {
        let total = self.votes_for_lock + self.votes_for_unlock;
        let basis = self.basis_total(total);
        if !self.selling_locked && total > 0
            && quorum_fraction_met(self.votes_for_lock, basis, self.quorum_num, self.quorum_den) {
            self.selling_locked = true;
            self.lock_started_at = now;
            Ok(LockTransition::Locked)
        } else if self.selling_locked && total > 0
            && quorum_fraction_met(self.votes_for_unlock, basis, self.quorum_num, self.quorum_den) {
            if now >= self.lock_started_at + self.min_lock_duration {
                self.selling_locked = false;
                self.lock_started_at = 0;
                self.votes_for_lock = 0;
                self.votes_for_unlock = 0;
                Ok(LockTransition::Unlocked)
            } else {
                Err(GovernanceError::CannotUnlockYet)
            }
        } else {
            Ok(LockTransition::NoChange)
        }
    }

    /// Casts one weighted vote and evaluates the tallies at once, so no
    /// "almost locked" state is ever visible between the two. A voter with
    /// zero weight is rejected with `NoVotingPower`. The call is
    /// all-or-nothing: on any error — also `CannotUnlockYet`, when the
    /// prospective tallies would unlock before the minimum lock duration
    /// has elapsed — the vote is not recorded and nothing changes. On
    /// success the voter's full weight stands in the chosen tally (tallies
    /// are never decremented by a vote) and the result reports the
    /// transition the evaluation performed.
    ///
    /// Replay policy, stated deliberately: a holder may vote again, in
    /// either direction, and every accepted vote adds its full weight to
    /// the tally. Hosts that want one vote per holder per referendum cycle
    /// must enforce it at the boundary, and reopen it when a successful
    /// unlock resets the tallies.
    pub fn cast_vote(&mut self, voter: &VoterWeight, in_favor: bool, now: i64) -> (r: Result<
        LockTransition,
        GovernanceError,
    >)
        requires
            old(self).wf(),
            old(self).votes_for_lock + old(self).votes_for_unlock + voter.weight <= u64::MAX,
            now + old(self).min_lock_duration <= i64::MAX,
        ensures
            final(self).wf(),
            r == old(self).spec_cast_vote_result(voter.weight, in_favor, now),
            *final(self) == old(self).spec_cast_vote_state(voter.weight, in_favor, now),
            r is Err ==> *final(self) == *old(self),
            voter.weight > 0 && r is Ok ==> *final(self) == old(self).spec_add_vote(
                voter.weight,
                in_favor,
            ).spec_evaluate(now),
    {
        if voter.weight == 0 {
            return Err(GovernanceError::NoVotingPower);
        }
        if in_favor {
            self.votes_for_lock = self.votes_for_lock + voter.weight;
        } else {
            self.votes_for_unlock = self.votes_for_unlock + voter.weight;
        }
        match self.evaluate_and_transition(now) {
            Ok(t) => Ok(t),
            Err(e) => {
                // the tally above was provisional: an evaluation error
                // means the whole call applies nothing
                if in_favor {
                    self.votes_for_lock = self.votes_for_lock - voter.weight;
                } else {
                    self.votes_for_unlock = self.votes_for_unlock - voter.weight;
                }
                Err(e)
            },
        }
    }

    /// Explicitly requests the lock with a caller-supplied duration
    /// (seconds). Fails with `InvalidLockPeriod` when the duration lies
    /// outside `[MIN_LOCK_DURATION, MAX_LOCK_DURATION]`, `NotEnoughVotes`
    /// when no votes were cast or the lock quorum is not reached, and
    /// `AlreadyLocked` when selling is already locked; on any error the
    /// record is unchanged. On success the lock activates at `now` and the
    /// duration is pinned.
    pub fn lock_selling(&mut self, now: i64, duration: i64) -> (r: Result<(), GovernanceError>)
        requires
            old(self).wf(),
            now + duration <= i64::MAX,
        ensures
            final(self).wf(),
            r == old(self).spec_lock_selling_result(duration),
            *final(self) == old(self).spec_lock_selling_state(now, duration),
            r is Ok <==> MIN_LOCK_DURATION <= duration <= MAX_LOCK_DURATION
                && !old(self).selling_locked && old(self).lock_quorum_reached(),
            r is Err ==> *final(self) == *old(self),
            r is Ok ==> final(self).selling_locked && final(self).lock_started_at == now
                && final(self).min_lock_duration == duration,
    {
        if duration < MIN_LOCK_DURATION || duration > MAX_LOCK_DURATION {
            return Err(GovernanceError::InvalidLockPeriod);
        }
        let total = self.votes_for_lock + self.votes_for_unlock;
        if total == 0 {
            return Err(GovernanceError::NotEnoughVotes);
        }
        let basis = self.basis_total(total);
        if !quorum_fraction_met(self.votes_for_lock, basis, self.quorum_num, self.quorum_den) {
            return Err(GovernanceError::NotEnoughVotes);
        }
        if self.selling_locked {
            return Err(GovernanceError::AlreadyLocked);
        }
        self.selling_locked = true;
        self.lock_started_at = now;
        self.min_lock_duration = duration;
        Ok(())
    }

    /// Explicitly requests the unlock. While already unlocked this is a
    /// no-op success: the record, tallies and timestamps keep their values.
    /// From the locked state it fails with `NotEnoughVotes` when no votes
    /// were cast or the unlock quorum is not reached, and with
    /// `CannotUnlockYet` while the minimum lock duration has not elapsed;
    /// on any error the record is unchanged. A successful unlock resets the
    /// flag, the start timestamp and both tallies to zero.
    pub fn emergency_unlock(&mut self, now: i64) -> (r: Result<(), GovernanceError>)
        requires
            old(self).wf(),
        ensures
            final(self).wf(),
            r == old(self).spec_unlock_result(now),
            *final(self) == old(self).spec_unlock_state(now),
            !old(self).selling_locked ==> r is Ok && *final(self) == *old(self),
            r is Err ==> *final(self) == *old(self),
            old(self).selling_locked && old(self).unlock_quorum_reached()
                && !old(self).unlock_due(now) ==> r == Err::<(), GovernanceError>(
                GovernanceError::CannotUnlockYet,
            ),
            old(self).selling_locked && old(self).unlock_quorum_reached()
                && old(self).unlock_due(now) ==> r is Ok && !final(self).selling_locked
                && final(self).votes_for_lock == 0 && final(self).votes_for_unlock == 0
                && final(self).lock_started_at == 0,
    {
        if !self.selling_locked {
            return Ok(());
        }
        let total = self.votes_for_lock + self.votes_for_unlock;
        if total == 0 {
            return Err(GovernanceError::NotEnoughVotes);
        }
        let basis = self.basis_total(total);
        if !quorum_fraction_met(self.votes_for_unlock, basis, self.quorum_num, self.quorum_den) {
            return Err(GovernanceError::NotEnoughVotes);
        }
        if now < self.lock_started_at + self.min_lock_duration {
            return Err(GovernanceError::CannotUnlockYet);
        }
        self.selling_locked = false;
        self.lock_started_at = 0;
        self.votes_for_lock = 0;
        self.votes_for_unlock = 0;
        Ok(())
    }

    /// The lock flag and deadline for the trading gate, projected from this
    /// record.
    pub fn lock_record(&self) -> (lr: LockRecord)
        requires
            self.wf(),
        ensures
            lr == self.spec_lock_record(),
    {
        LockRecord {
            is_locked: self.selling_locked,
            lock_until: if self.selling_locked {
                self.lock_started_at + self.min_lock_duration
            } else {
                0
            },
        }
    }
}

/// The trading gate follows the governance record exactly: consulted on
/// the record's projection, it refuses a sale iff selling is locked and
/// the minimum lock duration has not elapsed since the lock activated.
pub proof fn lemma_gate_follows_governance(g: GovernanceRecord, now: i64)
    requires
        g.wf(),
    ensures
        crate::trading::spec_sell_allowed(g.spec_lock_record(), now) <==> (!g.selling_locked
            || g.unlock_due(now)),
{
}

/// One weighted vote, as the laws over vote sequences see it.
#[derive(Clone, Copy, Debug)]
pub struct Vote {
    /// The voter's weight; an accepted cast always carries a positive one.
    pub weight: u64,
    /// Whether the vote favors locking.
    pub in_favor: bool,
    /// Time the vote was cast and evaluated at.
    pub now: i64,
}

/// The record after a whole sequence of cast votes (a rejected vote
/// leaves the record as it was).
pub open spec fn run_votes(r: GovernanceRecord, s: Seq<Vote>) -> GovernanceRecord
    decreases s.len(),
{
    if s.len() == 0 {
        r
    } else {
        run_votes(r, s.drop_last()).spec_cast_vote_state(
            s.last().weight,
            s.last().in_favor,
            s.last().now,
        )
    }
}

/// Cumulative weight of the lock votes in the sequence.
pub open spec fn lock_weight(s: Seq<Vote>) -> int
    decreases s.len(),
{
    if s.len() == 0 {
        0
    } else {
        lock_weight(s.drop_last()) + if s.last().in_favor {
            s.last().weight as int
        } else {
            0
        }
    }
}

/// Cumulative weight of the unlock votes in the sequence.
pub open spec fn unlock_weight(s: Seq<Vote>) -> int
    decreases s.len(),
{
    if s.len() == 0 {
        0
    } else {
        unlock_weight(s.drop_last()) + if s.last().in_favor {
            0
        } else {
            s.last().weight as int
        }
    }
}

/// Cumulative weight of all votes in the sequence.
pub open spec fn total_weight(s: Seq<Vote>) -> int {
    lock_weight(s) + unlock_weight(s)
}

/// Every vote in the sequence carries positive weight, as every
/// successful `cast_vote` does.
pub open spec fn votes_wellformed(s: Seq<Vote>) -> bool {
    forall|i: int| 0 <= i < s.len() ==> (#[trigger] s[i]).weight > 0
}

/// The cumulative lock votes of the sequence make up at least the quorum
/// fraction `num / den` of all its votes (and it casts some weight).
pub open spec fn lock_quorum_reached_by(s: Seq<Vote>, num: u64, den: u64) -> bool {
    total_weight(s) > 0 && lock_weight(s) * den >= total_weight(s) * num
}

/// No prefix of the sequence reaches the lock quorum.
pub open spec fn no_prefix_reaches_lock_quorum(s: Seq<Vote>, num: u64, den: u64) -> bool {
    forall|n: int|
        0 <= n <= s.len() ==> !lock_quorum_reached_by(#[trigger] s.subrange(0, n), num, den)
}

/// Cumulative weights are never negative.
proof fn lemma_weights_nonneg(s: Seq<Vote>)
    ensures
        lock_weight(s) >= 0,
        unlock_weight(s) >= 0,
    decreases s.len(),
{
    if s.len() > 0 {
        lemma_weights_nonneg(s.drop_last());
    }
}

/// Quorum monotonicity, first half, for the canonical votes-cast basis:
/// starting from a fresh, unlocked record, as long as no prefix of the
/// cast votes reaches the lock quorum, selling is never locked — and the
/// tallies are exactly the cumulative weights, never decremented.
pub proof fn lemma_lock_never_before_quorum(r: GovernanceRecord, s: Seq<Vote>)
    requires
        !r.selling_locked,
        r.lock_started_at == 0,
        r.votes_for_lock == 0,
        r.votes_for_unlock == 0,
        r.quorum_basis == QuorumBasis::VotesCast,
        votes_wellformed(s),
        total_weight(s) <= u64::MAX,
        no_prefix_reaches_lock_quorum(s, r.quorum_num, r.quorum_den),
    ensures
        !run_votes(r, s).selling_locked,
        run_votes(r, s).lock_started_at == 0,
        run_votes(r, s).votes_for_lock == lock_weight(s),
        run_votes(r, s).votes_for_unlock == unlock_weight(s),
        run_votes(r, s).min_lock_duration == r.min_lock_duration,
        run_votes(r, s).quorum_num == r.quorum_num,
        run_votes(r, s).quorum_den == r.quorum_den,
        run_votes(r, s).quorum_basis == r.quorum_basis,
    decreases s.len(),
{
    lemma_weights_nonneg(s);
    if s.len() > 0 {
        let sp = s.drop_last();
        assert forall|n: int|
            0 <= n <= sp.len() implies !lock_quorum_reached_by(
            #[trigger] sp.subrange(0, n),
            r.quorum_num,
            r.quorum_den,
        ) by {
            assert(sp.subrange(0, n) =~= s.subrange(0, n));
        }
        lemma_lock_never_before_quorum(r, sp);
        lemma_weights_nonneg(sp);
        let tallied = run_votes(r, sp).spec_add_vote(s.last().weight, s.last().in_favor);
        assert(s.subrange(0, s.len() as int) =~= s);
        assert(!lock_quorum_reached_by(s, r.quorum_num, r.quorum_den));
        assert(tallied.votes_for_lock == lock_weight(s));
        assert(tallied.votes_for_unlock == unlock_weight(s));
        assert(!tallied.lock_quorum_reached());
    }
}

/// Quorum monotonicity, second half, for the canonical votes-cast basis:
/// starting from a fresh, unlocked record, selling locks exactly at the
/// first cast vote whose cumulative lock votes reach the quorum fraction
/// of all votes cast — at that vote's time, with the tallies intact.
pub proof fn lemma_lock_exactly_at_quorum(r: GovernanceRecord, s: Seq<Vote>)
    requires
        !r.selling_locked,
        r.lock_started_at == 0,
        r.votes_for_lock == 0,
        r.votes_for_unlock == 0,
        r.quorum_basis == QuorumBasis::VotesCast,
        votes_wellformed(s),
        total_weight(s) <= u64::MAX,
        s.len() > 0,
        no_prefix_reaches_lock_quorum(s.drop_last(), r.quorum_num, r.quorum_den),
        lock_quorum_reached_by(s, r.quorum_num, r.quorum_den),
    ensures
        run_votes(r, s).selling_locked,
        run_votes(r, s).lock_started_at == s.last().now,
        run_votes(r, s).votes_for_lock == lock_weight(s),
        run_votes(r, s).votes_for_unlock == unlock_weight(s),
{
    let sp = s.drop_last();
    lemma_weights_nonneg(s);
    lemma_weights_nonneg(sp);
    lemma_lock_never_before_quorum(r, sp);
    let tallied = run_votes(r, sp).spec_add_vote(s.last().weight, s.last().in_favor);
    assert(tallied.votes_for_lock == lock_weight(s));
    assert(tallied.votes_for_unlock == unlock_weight(s));
    assert(tallied.lock_quorum_reached());
}

} // verus!
