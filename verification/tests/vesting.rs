use vesting::pallet::{
    CallResult, Config, DispatchError, Effect, Error, Event, Origin, Pallet, Transfer, LOCK_REASONS,
    VESTING_ID,
};
use vesting::schedule::default_vesting_schedule;

const FIRST: u64 = 1636329600;
const SECOND: u64 = 1636502400;
const LAST: u64 = 1660694400;

fn config() -> Config {
    Config { min_vested_transfer: 10, max_schedule_length: 7 }
}

fn default_dates() -> Vec<u64> {
    vec![
        1636329600, 1636502400, 1641340800, 1646179200, 1651017600, 1655856000, 1660694400,
    ]
}

fn set_lock(who: u64, amount: u128) -> Effect {
    Effect::SetLock { id: VESTING_ID, who, amount, reasons: LOCK_REASONS }
}

fn remove_lock(who: u64) -> Effect {
    Effect::RemoveLock { id: VESTING_ID, who }
}

/// Both steps of a vested transfer, the transfer itself succeeding.
fn vested_transfer(
    p: &mut Pallet,
    from: u64,
    to: u64,
    amount: u128,
    free: u128,
    now: u64,
) -> CallResult {
    let transfer = p.vested_transfer(Origin::Signed(from), Some(to), amount, free)?;
    assert_eq!(transfer, Transfer { from, to, amount });
    p.complete_vested_transfer(transfer, true, now)
}

/// A pallet in which account 2 received a vested transfer of `amount` from
/// account 1 before the first date.
fn vesting_pallet(amount: u128) -> Pallet {
    let mut p = Pallet::new(config());
    vested_transfer(&mut p, 1, 2, amount, 1_000_000, FIRST - 1).unwrap();
    p
}

#[test]
fn default_schedule_has_seven_dates() {
    let s = default_vesting_schedule(7);
    assert_eq!(
        s,
        vec![
            (34, 1636329600),
            (11, 1636502400),
            (11, 1641340800),
            (11, 1646179200),
            (11, 1651017600),
            (11, 1655856000),
            (11, 1660694400),
        ]
    );
    assert_eq!(s.iter().map(|e| e.0 as u32).sum::<u32>(), 100);
    assert_eq!(default_vesting_schedule(100).len(), 7);
}

#[test]
fn default_schedule_too_long_for_bound_is_empty() {
    assert!(default_vesting_schedule(6).is_empty());
    assert!(default_vesting_schedule(0).is_empty());
}

// The test of this name elsewhere checks another pallet's genesis setup;
// here it checks the vesting pallet's: its parameters, the default schedule
// and no vesting account.
#[test]
fn basic_setup_works() {
    let p = Pallet::new(Config { min_vested_transfer: 10, max_schedule_length: 7 });
    assert_eq!(p.config().min_vested_transfer, 10);
    assert_eq!(p.config().max_schedule_length, 7);
    assert_eq!(p.vesting_schedule().len(), 7);
    assert_eq!(p.vesting_balance(1), None);
    assert_eq!(p.vesting_balance(2), None);
}

#[test]
fn new_pallet_has_default_schedule_and_no_vesting() {
    let p = Pallet::new(config());
    assert_eq!(p.vesting_schedule(), default_vesting_schedule(7));
    assert_eq!(p.vesting_balance(1), None);
    assert_eq!(p.config(), config());
}

#[test]
fn vested_transfer_before_first_date_locks_everything() {
    let mut p = Pallet::new(config());
    let effects = vested_transfer(&mut p, 1, 2, 1000, 5000, FIRST - 1).unwrap();
    assert_eq!(
        effects,
        vec![
            set_lock(2, 1000),
            Effect::Deposit(Event::VestingUpdated(2, 1000)),
        ]
    );
    assert_eq!(p.vesting_balance(2), Some(1000));
}

#[test]
fn vested_transfer_at_first_date_locks_the_rest() {
    let mut p = Pallet::new(config());
    let effects = vested_transfer(&mut p, 1, 2, 1000, 5000, FIRST).unwrap();
    assert_eq!(
        effects,
        vec![
            set_lock(2, 660),
            Effect::Deposit(Event::VestingUpdated(2, 660)),
        ]
    );
}

#[test]
fn vested_transfer_after_last_date_vests_at_once() {
    let mut p = Pallet::new(config());
    let effects = vested_transfer(&mut p, 1, 2, 1000, 5000, LAST).unwrap();
    assert_eq!(
        effects,
        vec![
            remove_lock(2),
            Effect::Deposit(Event::VestingCompleted(2)),
        ]
    );
    assert_eq!(p.vesting_balance(2), None);
}

#[test]
fn vested_transfer_errors() {
    let p = vesting_pallet(1000);
    assert_eq!(
        p.vested_transfer(Origin::Root, Some(3), 100, 5000),
        Err(DispatchError::BadOrigin)
    );
    assert_eq!(
        p.vested_transfer(Origin::Unsigned, Some(3), 100, 5000),
        Err(DispatchError::BadOrigin)
    );
    assert_eq!(
        p.vested_transfer(Origin::Signed(1), Some(3), 9, 5000),
        Err(DispatchError::Module(Error::AmountLow))
    );
    assert_eq!(
        p.vested_transfer(Origin::Signed(1), Some(3), 100, 99),
        Err(DispatchError::Module(Error::BalanceLow))
    );
    assert_eq!(
        p.vested_transfer(Origin::Signed(1), None, 100, 5000),
        Err(DispatchError::CannotLookup)
    );
    // the amount is checked before the target is looked up
    assert_eq!(
        p.vested_transfer(Origin::Signed(1), None, 9, 5000),
        Err(DispatchError::Module(Error::AmountLow))
    );
    assert_eq!(
        p.vested_transfer(Origin::Signed(1), Some(2), 100, 5000),
        Err(DispatchError::Module(Error::ExistingVestingSchedule))
    );
    assert_eq!(p.vesting_balance(2), Some(1000));
    assert_eq!(p.vesting_balance(3), None);
}

#[test]
fn failed_transfer_records_no_vesting() {
    let mut p = Pallet::new(config());
    let transfer = p.vested_transfer(Origin::Signed(1), Some(2), 1000, 5000).unwrap();
    assert_eq!(p.vesting_balance(2), None);
    assert_eq!(
        p.complete_vested_transfer(transfer, false, FIRST),
        Err(DispatchError::Currency)
    );
    assert_eq!(p.vesting_balance(2), None);
}

#[test]
fn vested_transfer_of_minimum_and_whole_free_balance_works() {
    let mut p = Pallet::new(config());
    assert!(vested_transfer(&mut p, 1, 3, 10, 10, FIRST - 1).is_ok());
    assert_eq!(p.vesting_balance(3), Some(10));
}

#[test]
fn vested_transfer_of_nothing_only_transfers() {
    let mut p = Pallet::new(Config { min_vested_transfer: 0, max_schedule_length: 7 });
    let effects = vested_transfer(&mut p, 1, 2, 0, 0, FIRST).unwrap();
    assert_eq!(effects, vec![]);
    assert_eq!(p.vesting_balance(2), None);
}

#[test]
fn vest_before_first_date_is_too_early() {
    let mut p = vesting_pallet(1000);
    assert_eq!(p.vest(Origin::Signed(2), FIRST - 1), Err(DispatchError::Module(Error::ClaimTooEarly)));
    assert_eq!(p.vesting_balance(2), Some(1000));
}

#[test]
fn vest_needs_a_signed_vesting_account() {
    let mut p = vesting_pallet(1000);
    assert_eq!(p.vest(Origin::Root, FIRST), Err(DispatchError::BadOrigin));
    assert_eq!(p.vest(Origin::Unsigned, FIRST), Err(DispatchError::BadOrigin));
    assert_eq!(p.vest(Origin::Signed(3), FIRST), Err(DispatchError::Module(Error::NotVesting)));
}

#[test]
fn vest_unlocks_along_the_schedule() {
    let mut p = vesting_pallet(1000);
    let expected = [660u128, 550, 440, 330, 220, 110];
    for (date, unvested) in default_dates().into_iter().zip(expected) {
        assert_eq!(
            p.vest(Origin::Signed(2), date).unwrap(),
            vec![
                set_lock(2, unvested),
                Effect::Deposit(Event::VestingUpdated(2, unvested)),
            ]
        );
        assert_eq!(p.vesting_balance(2), Some(1000));
    }
    assert_eq!(
        p.vest(Origin::Signed(2), LAST).unwrap(),
        vec![remove_lock(2), Effect::Deposit(Event::VestingCompleted(2))]
    );
    assert_eq!(p.vesting_balance(2), None);
    assert_eq!(p.vest(Origin::Signed(2), LAST), Err(DispatchError::Module(Error::NotVesting)));
}

#[test]
fn vest_between_dates_counts_the_dates_passed() {
    let mut p = vesting_pallet(1000);
    let effects = p.vest(Origin::Signed(2), SECOND - 1).unwrap();
    assert_eq!(effects[0], set_lock(2, 660));
    let effects = p.vest(Origin::Signed(2), SECOND + 1).unwrap();
    assert_eq!(effects[0], set_lock(2, 550));
}

#[test]
fn vest_twice_at_the_same_time_answers_the_same() {
    let mut p = vesting_pallet(1000);
    let first = p.vest(Origin::Signed(2), SECOND).unwrap();
    let second = p.vest(Origin::Signed(2), SECOND).unwrap();
    assert_eq!(first, second);
}

#[test]
fn unvested_amount_rounds_to_nearest_with_ties_down() {
    // 66% of 25 is 16.5, which rounds down.
    let mut p = vesting_pallet(25);
    assert_eq!(p.vest(Origin::Signed(2), FIRST).unwrap()[0], set_lock(2, 16));
    // 66% of 75 is 49.5, which rounds down.
    let mut p = vesting_pallet(75);
    assert_eq!(p.vest(Origin::Signed(2), FIRST).unwrap()[0], set_lock(2, 49));
    // 66% of 13 is 8.58, which rounds up.
    let mut p = vesting_pallet(13);
    assert_eq!(p.vest(Origin::Signed(2), FIRST).unwrap()[0], set_lock(2, 9));
    // 11% of 14 is 1.54, which rounds up.
    let mut p = vesting_pallet(14);
    assert_eq!(p.vest(Origin::Signed(2), 1655856000).unwrap()[0], set_lock(2, 2));
}

#[test]
fn unvested_amount_of_a_large_balance_does_not_overflow() {
    let mut p = Pallet::new(Config { min_vested_transfer: 0, max_schedule_length: 7 });
    let big = u128::MAX;
    vested_transfer(&mut p, 1, 2, big, big, FIRST - 1).unwrap();
    let effects = p.vest(Origin::Signed(2), FIRST).unwrap();
    // 66% of u128::MAX, rounded to the nearest integer.
    let expected = 224586362167819385885827240904967019560u128;
    assert_eq!(effects[0], set_lock(2, expected));
}

#[test]
fn unvested_amount_never_grows() {
    let mut p = vesting_pallet(12345);
    let mut last = 12345u128;
    for t in [FIRST - 5, FIRST, FIRST + 7, SECOND, 1646179200, 1655855999, 1655856000] {
        let effects = p.vest(Origin::Signed(2), t).unwrap_or_default();
        if let Some(Effect::SetLock { amount, .. }) = effects.first() {
            assert!(*amount <= last);
            last = *amount;
        }
    }
    assert!(last < 12345);
}

#[test]
fn empty_schedule_never_unlocks() {
    let mut p = Pallet::new(Config { min_vested_transfer: 10, max_schedule_length: 6 });
    assert!(p.vesting_schedule().is_empty());
    vested_transfer(&mut p, 1, 2, 500, 500, 0).unwrap();
    assert_eq!(
        p.vest(Origin::Signed(2), u64::MAX).unwrap(),
        vec![
            set_lock(2, 500),
            Effect::Deposit(Event::VestingUpdated(2, 500)),
        ]
    );
}

#[test]
fn add_vesting_schedule_of_zero_does_nothing() {
    let mut p = Pallet::new(config());
    assert_eq!(p.add_vesting_schedule(4, 0, FIRST), Ok(vec![]));
    assert_eq!(p.vesting_balance(4), None);
}

#[test]
fn add_vesting_schedule_twice_is_refused() {
    let mut p = Pallet::new(config());
    assert!(p.add_vesting_schedule(4, 100, FIRST).is_ok());
    assert_eq!(
        p.add_vesting_schedule(4, 100, FIRST),
        Err(DispatchError::Module(Error::ExistingVestingSchedule))
    );
    assert_eq!(p.vesting_balance(4), Some(100));
}

#[test]
fn update_lock_of_unknown_account_is_not_vesting() {
    let mut p = Pallet::new(config());
    assert_eq!(p.update_lock(9, LAST), Err(DispatchError::Module(Error::NotVesting)));
}

#[test]
fn update_vesting_schedule_replaces_dates_and_keeps_shares() {
    let mut p = Pallet::new(config());
    let new_dates: Vec<u64> = (1..=7).map(|i| 2_000_000_000 + i * 10).collect();
    let effects = p.update_vesting_schedule(Origin::Root, new_dates.clone(), 1_900_000_000).unwrap();
    assert_eq!(effects, vec![Effect::Deposit(Event::VestingScheduleUpdated(new_dates.clone()))]);
    let schedule = p.vesting_schedule();
    let shares: Vec<u8> = schedule.iter().map(|e| e.0).collect();
    let dates: Vec<u64> = schedule.iter().map(|e| e.1).collect();
    assert_eq!(shares, vec![34, 11, 11, 11, 11, 11, 11]);
    assert_eq!(dates, new_dates);
}

#[test]
fn update_vesting_schedule_errors() {
    let mut p = Pallet::new(config());
    let now = 1_900_000_000;
    let good: Vec<u64> = (1..=7).map(|i| 2_000_000_000 + i).collect();
    assert_eq!(
        p.update_vesting_schedule(Origin::Signed(1), good.clone(), now),
        Err(DispatchError::BadOrigin)
    );
    assert_eq!(
        p.update_vesting_schedule(Origin::Root, good[..6].to_vec(), now),
        Err(DispatchError::Module(Error::InvalidScheduleLength))
    );
    let mut unsorted = good.clone();
    unsorted[3] = unsorted[2];
    assert_eq!(
        p.update_vesting_schedule(Origin::Root, unsorted, now),
        Err(DispatchError::Module(Error::UnsortedSchedule))
    );
    let mut early = good.clone();
    early[0] = now - 1;
    assert_eq!(
        p.update_vesting_schedule(Origin::Root, early, now),
        Err(DispatchError::Module(Error::InvalidTimestamp))
    );
    assert_eq!(p.vesting_schedule(), default_vesting_schedule(7));
    // a date equal to now is accepted
    let mut at_now = good.clone();
    at_now[0] = now;
    assert!(p.update_vesting_schedule(Origin::Root, at_now, now).is_ok());
}

#[test]
fn update_vesting_schedule_needs_seven_dates() {
    // With a bound under seven the pallet has no schedule; an update with no
    // dates, or with seven, is refused all the same.
    let mut p = Pallet::new(Config { min_vested_transfer: 10, max_schedule_length: 6 });
    assert_eq!(
        p.update_vesting_schedule(Origin::Root, vec![], 0),
        Err(DispatchError::Module(Error::InvalidScheduleLength))
    );
    assert_eq!(
        p.update_vesting_schedule(Origin::Root, (1..=7).collect(), 0),
        Err(DispatchError::Module(Error::InvalidScheduleLength))
    );
    let mut q = Pallet::new(config());
    assert_eq!(
        q.update_vesting_schedule(Origin::Root, (1..=8).collect(), 0),
        Err(DispatchError::Module(Error::InvalidScheduleLength))
    );
}

#[test]
fn no_vesting_after_completion() {
    let mut p = vesting_pallet(1000);
    assert_eq!(
        p.vest(Origin::Signed(2), LAST).unwrap(),
        vec![remove_lock(2), Effect::Deposit(Event::VestingCompleted(2))]
    );
    vested_transfer(&mut p, 1, 3, 50, 50, LAST).unwrap();
    p.update_vesting_schedule(Origin::Root, (1..=7).map(|i| LAST + i).collect(), LAST).unwrap();
    assert_eq!(p.vest(Origin::Signed(2), LAST + 100), Err(DispatchError::Module(Error::NotVesting)));
    assert_eq!(p.vesting_balance(2), None);
}

#[test]
fn vesting_follows_updated_dates() {
    let mut p = vesting_pallet(1000);
    let new_dates: Vec<u64> = (1..=7).map(|i| FIRST + i * 100).collect();
    p.update_vesting_schedule(Origin::Root, new_dates, FIRST).unwrap();
    assert_eq!(p.vest(Origin::Signed(2), FIRST + 100), Ok(vec![
        set_lock(2, 660),
        Effect::Deposit(Event::VestingUpdated(2, 660)),
    ]));
    assert_eq!(p.vest(Origin::Signed(2), FIRST + 99), Err(DispatchError::Module(Error::ClaimTooEarly)));
}

#[test]
fn lock_identity_and_reasons() {
    assert_eq!(&VESTING_ID, b"mantavst");
    assert_eq!(LOCK_REASONS, 0b0000_0110);
    let mut p = Pallet::new(config());
    let effects = vested_transfer(&mut p, 1, 2, 100, 100, FIRST - 1).unwrap();
    assert_eq!(
        effects[0],
        Effect::SetLock { id: *b"mantavst", who: 2, amount: 100, reasons: 0b0000_0110 }
    );
}
