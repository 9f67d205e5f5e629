use up_only::governance::{
    GovernanceError, GovernanceRecord, LockTransition, VoterWeight, MAX_LOCK_DURATION,
    MIN_LOCK_DURATION, QUORUM_DENOMINATOR, QUORUM_NUMERATOR,
};

fn fresh() -> GovernanceRecord {
    GovernanceRecord::new(QUORUM_NUMERATOR, QUORUM_DENOMINATOR)
}

#[test]
fn new_record_is_unlocked_and_empty() {
    let g = fresh();
    assert!(!g.selling_locked);
    assert_eq!(g.votes_for_lock, 0);
    assert_eq!(g.votes_for_unlock, 0);
    assert_eq!(g.lock_started_at, 0);
    assert_eq!(g.min_lock_duration, MIN_LOCK_DURATION);
}

#[test]
fn zero_weight_voter_is_rejected() {
    let mut g = fresh();
    let v = VoterWeight { holder: 1, weight: 0 };
    assert_eq!(g.cast_vote(&v, true, 100), Err(GovernanceError::NoVotingPower));
    assert_eq!(g.votes_for_lock, 0);
    assert_eq!(g.votes_for_unlock, 0);
}

#[test]
fn lock_triggers_exactly_at_quorum() {
    // Unlock-leaning start: 2 against. Lock votes reach 60% only at the
    // third lock vote (3 of 5), and the flag flips exactly there.
    let mut g = fresh();
    let against = VoterWeight { holder: 1, weight: 2 };
    assert_eq!(g.cast_vote(&against, false, 10), Ok(LockTransition::NoChange));
    let for_one = VoterWeight { holder: 2, weight: 1 };
    assert_eq!(g.cast_vote(&for_one, true, 20), Ok(LockTransition::NoChange)); // 1 of 3
    assert_eq!(g.cast_vote(&for_one, true, 30), Ok(LockTransition::NoChange)); // 2 of 4
    assert!(!g.selling_locked);
    assert_eq!(g.cast_vote(&for_one, true, 40), Ok(LockTransition::Locked)); // 3 of 5
    assert!(g.selling_locked);
    assert_eq!(g.lock_started_at, 40);
    assert_eq!(g.votes_for_lock, 3);
    assert_eq!(g.votes_for_unlock, 2);
}

#[test]
fn below_quorum_never_locks() {
    let mut g = fresh();
    let yes = VoterWeight { holder: 1, weight: 1 };
    let no = VoterWeight { holder: 2, weight: 1 };
    for i in 0..50 {
        g.cast_vote(&no, false, i).unwrap();
        g.cast_vote(&yes, true, i).unwrap();
        // lock votes never exceed half of the total: below the 60% quorum
        assert!(!g.selling_locked);
    }
    assert_eq!(g.votes_for_lock, 50);
    assert_eq!(g.votes_for_unlock, 50);
}

#[test]
fn first_vote_alone_reaches_quorum() {
    // A single lock vote is 100% of the votes cast.
    let mut g = fresh();
    let v = VoterWeight { holder: 7, weight: 42 };
    assert_eq!(g.cast_vote(&v, true, 777), Ok(LockTransition::Locked));
    assert_eq!(g.lock_started_at, 777);
}

#[test]
fn explicit_lock_with_zero_votes_fails() {
    let mut g = fresh();
    assert_eq!(g.lock_selling(100, MIN_LOCK_DURATION), Err(GovernanceError::NotEnoughVotes));
    assert!(!g.selling_locked);
}

#[test]
fn explicit_lock_below_quorum_fails() {
    let mut g = fresh();
    let yes = VoterWeight { holder: 1, weight: 1 };
    let no = VoterWeight { holder: 2, weight: 1 };
    g.cast_vote(&no, false, 10).unwrap();
    g.cast_vote(&yes, true, 11).unwrap();
    // 1 of 2 lock votes: below the 60% quorum
    assert_eq!(g.lock_selling(100, MIN_LOCK_DURATION), Err(GovernanceError::NotEnoughVotes));
}

#[test]
fn explicit_lock_while_locked_fails() {
    let mut g = fresh();
    let v = VoterWeight { holder: 1, weight: 5 };
    assert_eq!(g.cast_vote(&v, true, 50), Ok(LockTransition::Locked));
    assert_eq!(g.lock_selling(60, MIN_LOCK_DURATION), Err(GovernanceError::AlreadyLocked));
    assert!(g.selling_locked);
    assert_eq!(g.lock_started_at, 50);
}

// An unlocked record whose tallies already reach the lock quorum, as the
// persistence layer could hand it over between a tally write and an
// explicit lock request.
fn quorate_unlocked() -> GovernanceRecord {
    GovernanceRecord {
        votes_for_lock: 3,
        votes_for_unlock: 2,
        ..fresh()
    }
}

#[test]
fn lock_duration_bounds_are_enforced() {
    let mut g = quorate_unlocked();
    assert_eq!(g.lock_selling(20, MIN_LOCK_DURATION - 1), Err(GovernanceError::InvalidLockPeriod));
    assert_eq!(g.lock_selling(20, MAX_LOCK_DURATION + 1), Err(GovernanceError::InvalidLockPeriod));
    assert!(!g.selling_locked);
    // both bounds themselves are accepted
    assert_eq!(g.lock_selling(20, MAX_LOCK_DURATION), Ok(()));
    let mut g = quorate_unlocked();
    assert_eq!(g.lock_selling(20, MIN_LOCK_DURATION), Ok(()));
}

#[test]
fn explicit_lock_succeeds_and_pins_duration() {
    let mut g = quorate_unlocked();
    let t0 = 5_000_000;
    assert_eq!(g.lock_selling(t0, 2 * MIN_LOCK_DURATION), Ok(()));
    assert!(g.selling_locked);
    assert_eq!(g.lock_started_at, t0);
    assert_eq!(g.min_lock_duration, 2 * MIN_LOCK_DURATION);
    // tallies are untouched by the lock itself
    assert_eq!(g.votes_for_lock, 3);
    assert_eq!(g.votes_for_unlock, 2);
}

#[test]
fn premature_unlock_vote_is_rejected_whole() {
    let mut g = fresh();
    let v = VoterWeight { holder: 1, weight: 5 };
    let t0 = 1_000_000;
    assert_eq!(g.cast_vote(&v, true, t0), Ok(LockTransition::Locked));
    // a first unlock vote stays below quorum and is recorded
    let w = VoterWeight { holder: 2, weight: 5 };
    assert_eq!(g.cast_vote(&w, false, t0 + 1), Ok(LockTransition::NoChange));
    assert_eq!(g.votes_for_unlock, 5);
    // a second one would cross the unlock quorum before the window has
    // elapsed: the whole call fails and the vote is not recorded
    assert_eq!(g.cast_vote(&w, false, t0 + 2), Err(GovernanceError::CannotUnlockYet));
    assert!(g.selling_locked);
    assert_eq!(g.votes_for_unlock, 5);
    // the identical vote succeeds once the window has elapsed
    assert_eq!(
        g.cast_vote(&w, false, t0 + MIN_LOCK_DURATION),
        Ok(LockTransition::Unlocked)
    );
    assert!(!g.selling_locked);
}

// A locked record whose unlock tally already reaches the quorum, as the
// persistence layer could hand it over.
fn locked_with_unlock_quorum(t0: i64) -> GovernanceRecord {
    GovernanceRecord {
        votes_for_lock: 1,
        votes_for_unlock: 9,
        selling_locked: true,
        lock_started_at: t0,
        ..fresh()
    }
}

#[test]
fn unlock_before_window_fails_with_cannot_unlock_yet() {
    let t0 = 1_000_000;
    let mut g = locked_with_unlock_quorum(t0);
    assert_eq!(g.emergency_unlock(t0 + MIN_LOCK_DURATION - 1), Err(GovernanceError::CannotUnlockYet));
    assert!(g.selling_locked);
    assert_eq!(g.votes_for_unlock, 9);
    assert_eq!(g.lock_started_at, t0);
}

#[test]
fn unlock_at_window_end_succeeds_and_resets_tallies() {
    let t0 = 1_000_000;
    let mut g = locked_with_unlock_quorum(t0);
    assert_eq!(g.emergency_unlock(t0 + MIN_LOCK_DURATION), Ok(()));
    assert!(!g.selling_locked);
    assert_eq!(g.votes_for_lock, 0);
    assert_eq!(g.votes_for_unlock, 0);
    assert_eq!(g.lock_started_at, 0);
}

#[test]
fn unlock_without_quorum_fails() {
    let mut g = fresh();
    let v = VoterWeight { holder: 1, weight: 10 };
    let t0 = 500;
    g.cast_vote(&v, true, t0).unwrap();
    // a lone small unlock vote: 1 of 11 is far below quorum
    let w = VoterWeight { holder: 2, weight: 1 };
    g.cast_vote(&w, false, t0 + 1).unwrap();
    assert_eq!(g.emergency_unlock(t0 + MIN_LOCK_DURATION), Err(GovernanceError::NotEnoughVotes));
    assert!(g.selling_locked);
}

#[test]
fn unlock_while_unlocked_is_a_no_op_success() {
    let mut g = fresh();
    let yes = VoterWeight { holder: 1, weight: 1 };
    let no = VoterWeight { holder: 2, weight: 1 };
    g.cast_vote(&no, false, 10).unwrap();
    g.cast_vote(&yes, true, 11).unwrap();
    let before = g;
    assert_eq!(g.emergency_unlock(999_999_999), Ok(()));
    assert_eq!(g, before);
    assert_eq!(g.lock_started_at, 0);
    assert_eq!(g.votes_for_lock, 1);
    assert_eq!(g.votes_for_unlock, 1);
}

#[test]
fn evaluation_with_zero_votes_changes_nothing() {
    let mut g = fresh();
    let before = g;
    assert_eq!(g.evaluate_and_transition(123_456), Ok(LockTransition::NoChange));
    assert_eq!(g, before);
    // the same guard holds under the supply basis, where the threshold
    // alone would otherwise not mention the tallies
    let mut s = GovernanceRecord::new_supply_based(QUORUM_NUMERATOR, QUORUM_DENOMINATOR, 1);
    let before = s;
    assert_eq!(s.evaluate_and_transition(123_456), Ok(LockTransition::NoChange));
    assert_eq!(s, before);
}

#[test]
fn supply_based_quorum_needs_absolute_turnout() {
    // supply 100, quorum 60%: sixty weight must favor locking, however
    // lopsided the turnout is
    let mut g = GovernanceRecord::new_supply_based(QUORUM_NUMERATOR, QUORUM_DENOMINATOR, 100);
    let v = VoterWeight { holder: 1, weight: 59 };
    assert_eq!(g.cast_vote(&v, true, 10), Ok(LockTransition::NoChange));
    assert!(!g.selling_locked); // 59 of supply 100, though 100% of votes cast
    let w = VoterWeight { holder: 2, weight: 1 };
    assert_eq!(g.cast_vote(&w, true, 20), Ok(LockTransition::Locked));
    assert_eq!(g.lock_started_at, 20);
}

#[test]
fn supply_based_unlock_needs_absolute_turnout_too() {
    let mut g = GovernanceRecord::new_supply_based(QUORUM_NUMERATOR, QUORUM_DENOMINATOR, 100);
    let v = VoterWeight { holder: 1, weight: 60 };
    let t0 = 1_000;
    g.cast_vote(&v, true, t0).unwrap();
    assert!(g.selling_locked);
    // 59 of supply 100 against: not enough to unlock even after the window
    let w = VoterWeight { holder: 2, weight: 59 };
    g.cast_vote(&w, false, t0 + 1).unwrap();
    assert_eq!(
        g.emergency_unlock(t0 + MIN_LOCK_DURATION),
        Err(GovernanceError::NotEnoughVotes)
    );
    // one more weight reaches the quorum; the window has elapsed
    let x = VoterWeight { holder: 3, weight: 1 };
    assert_eq!(
        g.cast_vote(&x, false, t0 + MIN_LOCK_DURATION),
        Ok(LockTransition::Unlocked)
    );
    assert_eq!(g.votes_for_lock, 0);
    assert_eq!(g.votes_for_unlock, 0);
}

#[test]
fn lock_record_projects_flag_and_deadline() {
    let mut g = fresh();
    let lr = g.lock_record();
    assert!(!lr.is_locked);
    assert_eq!(lr.lock_until, 0);
    let v = VoterWeight { holder: 1, weight: 4 };
    let t0 = 2_000_000;
    g.cast_vote(&v, true, t0).unwrap();
    let lr = g.lock_record();
    assert!(lr.is_locked);
    assert_eq!(lr.lock_until, t0 + MIN_LOCK_DURATION);
}
