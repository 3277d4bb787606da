//! What each call does, and leaves alone, stated over all inputs.
use vstd::prelude::*;
use crate::schedule::{
    default_schedule_entries, none_before, released_portion, strictly_increasing, timestamps,
    Schedule, ScheduleEntry,
};
use crate::pallet::{
    add_schedule_outcome, balances_after_add, balances_after_lock_update,
    balances_after_transfer_completion, balances_after_vest, claim_too_early,
    lock_update_outcome, schedule_after_update, unvested_at, schedule_update_error, schedule_update_outcome,
    transfer_completion_outcome, vest_outcome, vested_transfer_outcome, AccountId, Balance,
    Config, DispatchError, Effect, Error, Event, Origin, Transfer, LOCK_REASONS, SCHEDULE_LENGTH,
    VESTING_ID,
};

verus! {

/// `after` holds the same vesting entry as `before` for every account but
/// `who`.
pub open spec fn same_except(
    before: Map<AccountId, Balance>,
    after: Map<AccountId, Balance>,
    who: AccountId,
) -> bool {
    forall|a: AccountId|
        a != who ==> (#[trigger] after.contains_key(a) == before.contains_key(a)) && (
        after.contains_key(a) ==> after[a] == before[a])
}

/// Updating `who`'s lock touches no other account's vesting entry, and
/// either keeps `who`'s entry or ends it.
pub proof fn lemma_lock_update_touches_only_its_account(
    b: Map<AccountId, Balance>,
    s: Seq<ScheduleEntry>,
    who: AccountId,
    now: Schedule,
)
    ensures
        same_except(b, balances_after_lock_update(b, s, who, now), who),
        balances_after_lock_update(b, s, who, now) == b || balances_after_lock_update(b, s, who, now)
            == b.remove(who),
{
}

/// A claim by `who` touches no other account's vesting entry, and either
/// keeps `who`'s entry or ends it; a claim that is not signed changes
/// nothing.
pub proof fn lemma_claim_touches_only_the_claimant(
    b: Map<AccountId, Balance>,
    s: Seq<ScheduleEntry>,
    origin: Origin,
    now: Schedule,
)
    ensures
        match origin {
            Origin::Signed(who) => {
                &&& same_except(b, balances_after_vest(b, s, origin, now), who)
                &&& balances_after_vest(b, s, origin, now) == b || balances_after_vest(
                    b,
                    s,
                    origin,
                    now,
                ) == b.remove(who)
            },
            _ => balances_after_vest(b, s, origin, now) == b,
        },
{
}

/// What a successful claim answers: the claimant was vesting and the claim
/// is not too early; either the claimant's lock is lifted, the account
/// reported fully vested and its entry ended, or the lock is set to a
/// non-zero amount no larger than its vesting balance, the update is
/// reported with that amount, and the entries stay as they were.
pub proof fn lemma_successful_claim(
    b: Map<AccountId, Balance>,
    s: Seq<ScheduleEntry>,
    who: AccountId,
    now: Schedule,
)
    requires
        vest_outcome(b, s, Origin::Signed(who), now) is Ok,
    ensures
        ({
            let e = vest_outcome(b, s, Origin::Signed(who), now)->Ok_0;
            let after = balances_after_vest(b, s, Origin::Signed(who), now);
            &&& b.contains_key(who)
            &&& !claim_too_early(s, now)
            &&& e.len() == 2
            &&& {
                ||| unvested_at(s, b[who] as nat, now) == 0 && e[0] == Effect::RemoveLock {
                    id: VESTING_ID,
                    who,
                } && e[1] == Effect::Deposit(Event::VestingCompleted(who)) && after == b.remove(
                    who,
                )
                ||| exists|amount: Balance|
                    0 < amount <= b[who] && amount == unvested_at(s, b[who] as nat, now)
                        && e[0] == (Effect::SetLock {
                        id: VESTING_ID,
                        who,
                        amount,
                        reasons: LOCK_REASONS,
                    }) && e[1] == Effect::Deposit(Event::VestingUpdated(who, amount)) && after
                        == b
            }
        }),
{
    let v = b[who];
    let u = crate::pallet::unvested_at(s, v as nat, now);
    crate::laws::lemma_unvested_at_most_locked(s, v as nat, now);
    if u > 0 {
        let amount = u as Balance;
        let e = vest_outcome(b, s, Origin::Signed(who), now)->Ok_0;
        assert(e[0] == (Effect::SetLock { id: VESTING_ID, who, amount, reasons: LOCK_REASONS }));
    }
}

/// A claim is refused in this order: an unsigned
/// or root claim as a bad origin, one before the schedule's first date as
/// too early, one by an account that is not vesting as not vesting.
pub proof fn lemma_refused_claim(
    b: Map<AccountId, Balance>,
    s: Seq<ScheduleEntry>,
    origin: Origin,
    now: Schedule,
)
    ensures
        !(origin is Signed) ==> vest_outcome(b, s, origin, now) == Err::<
            Seq<Effect>,
            DispatchError,
        >(DispatchError::BadOrigin),
        origin is Signed && s.len() > 0 && now < s[0].1 ==> vest_outcome(b, s, origin, now)
            == Err::<Seq<Effect>, DispatchError>(DispatchError::Module(Error::ClaimTooEarly)),
        origin is Signed && !(s.len() > 0 && now < s[0].1) && !b.contains_key(origin->Signed_0)
            ==> vest_outcome(b, s, origin, now) == Err::<Seq<Effect>, DispatchError>(
            DispatchError::Module(Error::NotVesting),
        ),
{
}

/// Adding a vesting balance to `who` touches no other account's entry; an
/// account already vesting, or a zero amount, changes nothing; otherwise
/// `who` vests exactly the amount added, unless it has already fully vested.
pub proof fn lemma_add_touches_only_its_account(
    b: Map<AccountId, Balance>,
    s: Seq<ScheduleEntry>,
    who: AccountId,
    locked: Balance,
    now: Schedule,
)
    ensures
        same_except(b, balances_after_add(b, s, who, locked, now), who),
        locked == 0 || b.contains_key(who) ==> balances_after_add(b, s, who, locked, now) == b,
        balances_after_add(b, s, who, locked, now).contains_key(who) && !b.contains_key(who)
            ==> balances_after_add(b, s, who, locked, now)[who] == locked,
        locked > 0 && !b.contains_key(who) ==> add_schedule_outcome(b, s, who, locked, now) is Ok,
{
}

/// Completing a vested transfer touches no vesting entry but the
/// receiver's; a failed transfer changes nothing; a transfer that went
/// through to an account not vesting makes it vest the amount sent, unless
/// that has already fully vested.
pub proof fn lemma_transfer_completion_touches_only_the_receiver(
    b: Map<AccountId, Balance>,
    s: Seq<ScheduleEntry>,
    transfer: Transfer,
    transferred: bool,
    now: Schedule,
)
    ensures
        same_except(
            b,
            balances_after_transfer_completion(b, s, transfer, transferred, now),
            transfer.to,
        ),
        !transferred ==> balances_after_transfer_completion(b, s, transfer, transferred, now) == b,
        !transferred ==> transfer_completion_outcome(b, s, transfer, transferred, now) == Err::<
            Seq<Effect>,
            DispatchError,
        >(DispatchError::Currency),
        transferred && !b.contains_key(transfer.to) && balances_after_transfer_completion(
            b,
            s,
            transfer,
            transferred,
            now,
        ).contains_key(transfer.to) ==> balances_after_transfer_completion(
            b,
            s,
            transfer,
            transferred,
            now,
        )[transfer.to] == transfer.amount,
        transferred && !b.contains_key(transfer.to) ==> transfer_completion_outcome(
            b,
            s,
            transfer,
            transferred,
            now,
        ) is Ok,
{
}

/// A vested transfer request that is signed, reaches the minimum, is
/// covered by the sender's free balance and names a target that was looked
/// up and is not vesting is accepted, whatever else is vesting (the sender
/// included): the transfer asked for is of the amount, from the sender to
/// the target.
pub proof fn lemma_vested_transfer_accepted(
    b: Map<AccountId, Balance>,
    config: Config,
    from: AccountId,
    to: AccountId,
    locked: Balance,
    free: Balance,
)
    requires
        locked >= config.min_vested_transfer,
        free >= locked,
        !b.contains_key(to),
    ensures
        vested_transfer_outcome(b, config, Origin::Signed(from), Some(to), locked, free) == Ok::<
            Transfer,
            DispatchError,
        >(Transfer { from, to, amount: locked }),
{
}

/// A vested transfer request that is accepted is signed, reaches the
/// minimum, is covered by the sender's free balance, and names a target that
/// is not vesting; the transfer asked for is of the amount, from the sender
/// to the target.
pub proof fn lemma_vested_transfer_result(
    b: Map<AccountId, Balance>,
    config: Config,
    origin: Origin,
    target: Option<AccountId>,
    locked: Balance,
    free: Balance,
)
    requires
        vested_transfer_outcome(b, config, origin, target, locked, free) is Ok,
    ensures
        ({
            let t = vested_transfer_outcome(b, config, origin, target, locked, free)->Ok_0;
            &&& origin == Origin::Signed(t.from)
            &&& target == Some(t.to)
            &&& t.amount == locked
            &&& locked >= config.min_vested_transfer
            &&& free >= locked
            &&& !b.contains_key(t.to)
        }),
{
}

/// The root's replacement of a seven-entry schedule's dates by seven dates,
/// each later than the one before it and none before `now`, is accepted
/// whatever the old dates: it reports the new dates, the schedule's dates
/// become the new ones, and its shares are kept.
pub proof fn lemma_schedule_update_accepted(
    s: Seq<ScheduleEntry>,
    new: Vec<Schedule>,
    now: Schedule,
)
    requires
        s.len() == SCHEDULE_LENGTH,
        new@.len() == SCHEDULE_LENGTH,
        strictly_increasing(new@),
        none_before(new@, now),
    ensures
        schedule_update_error(s, Origin::Root, new@, now) is None,
        schedule_update_outcome(s, Origin::Root, new@, Event::VestingScheduleUpdated(new), now)
            == Ok::<Seq<Effect>, DispatchError>(
            seq![Effect::Deposit(Event::VestingScheduleUpdated(new))],
        ),
        timestamps(schedule_after_update(s, Origin::Root, new@, now)) == new@,
        schedule_after_update(s, Origin::Root, new@, now).len() == s.len(),
        forall|i: int|
            0 <= i < s.len() ==> (#[trigger] schedule_after_update(s, Origin::Root, new@, now)[i]).0
                == s[i].0,
{
    assert(timestamps(schedule_after_update(s, Origin::Root, new@, now)) =~= new@);
}

/// A schedule update either succeeds, and then came from the root with as
/// many increasing dates, none before `now`, as the schedule has entries,
/// seven, and installs them keeping the shares; or fails and leaves the
/// schedule as it was.
pub proof fn lemma_schedule_update_result(
    s: Seq<ScheduleEntry>,
    origin: Origin,
    new: Seq<Schedule>,
    event: Event,
    now: Schedule,
)
    ensures
        schedule_update_outcome(s, origin, new, event, now) is Ok ==> {
            let after = schedule_after_update(s, origin, new, now);
            &&& origin == Origin::Root
            &&& new.len() == SCHEDULE_LENGTH
            &&& new.len() == s.len()
            &&& strictly_increasing(new)
            &&& none_before(new, now)
            &&& timestamps(after) == new
            &&& after.len() == s.len()
            &&& forall|i: int| 0 <= i < s.len() ==> (#[trigger] after[i]).0 == s[i].0
        },
        schedule_update_outcome(s, origin, new, event, now) is Err ==> schedule_after_update(
            s,
            origin,
            new,
            now,
        ) == s,
{
    if schedule_update_outcome(s, origin, new, event, now) is Ok {
        assert(timestamps(schedule_after_update(s, origin, new, now)) =~= new);
    }
}

/// A lock update answers for the account named, and only for it.
pub proof fn lemma_lock_update_names_its_account(
    b: Map<AccountId, Balance>,
    s: Seq<ScheduleEntry>,
    who: AccountId,
    now: Schedule,
)
    ensures
        lock_update_outcome(b, s, who, now) is Ok <==> b.contains_key(who),
        lock_update_outcome(b, s, who, now) is Ok ==> {
            let e = lock_update_outcome(b, s, who, now)->Ok_0;
            &&& e.len() == 2
            &&& e[0] == (Effect::RemoveLock { id: VESTING_ID, who }) || exists|amount: Balance|
                0 < amount <= b[who] && e[0] == (Effect::SetLock {
                    id: VESTING_ID,
                    who,
                    amount,
                    reasons: LOCK_REASONS,
                })
        },
{
    if b.contains_key(who) {
        let u = crate::pallet::unvested_at(s, b[who] as nat, now);
        crate::laws::lemma_unvested_at_most_locked(s, b[who] as nat, now);
        if u > 0 {
            let amount = u as Balance;
            let e = lock_update_outcome(b, s, who, now)->Ok_0;
            assert(e[0] == (Effect::SetLock { id: VESTING_ID, who, amount, reasons: LOCK_REASONS }));
        }
    }
}

/// What is left unvested is the unreleased part of the balance rounded to
/// the nearest integer, a tie rounded down: with `x` the unreleased share
/// times the balance, in hundredths, `100 * u - 50 < x <= 100 * u + 50`.
pub proof fn lemma_unvested_rounds_to_nearest(s: Seq<ScheduleEntry>, locked: nat, now: Schedule)
    ensures
        ({
            let u = unvested_at(s, locked, now);
            let x = (100 - released_portion(s, now)) * locked;
            &&& 100 * u - 50 < x
            &&& x <= 100 * u + 50
        }),
{
}

/// A vested transfer request is refused in this order: one that is not
/// signed as a bad origin; one below the minimum as too low; one that the
/// sender's free balance does not cover as a low balance; one whose target
/// could not be looked up as such; one to a vesting target as clobbering
/// that account's vesting.
pub proof fn lemma_refused_vested_transfer(
    b: Map<AccountId, Balance>,
    config: Config,
    origin: Origin,
    target: Option<AccountId>,
    locked: Balance,
    free: Balance,
)
    ensures
        ({
            let r = vested_transfer_outcome(b, config, origin, target, locked, free);
            &&& !(origin is Signed) ==> r == Err::<Transfer, DispatchError>(DispatchError::BadOrigin)
            &&& origin is Signed && locked < config.min_vested_transfer ==> r == Err::<
                Transfer,
                DispatchError,
            >(DispatchError::Module(Error::AmountLow))
            &&& origin is Signed && locked >= config.min_vested_transfer && free < locked ==> r
                == Err::<Transfer, DispatchError>(DispatchError::Module(Error::BalanceLow))
            &&& origin is Signed && locked >= config.min_vested_transfer && free >= locked
                && target is None ==> r == Err::<Transfer, DispatchError>(
                DispatchError::CannotLookup,
            )
            &&& origin is Signed && locked >= config.min_vested_transfer && free >= locked
                && target is Some && b.contains_key(target->Some_0) ==> r == Err::<
                Transfer,
                DispatchError,
            >(DispatchError::Module(Error::ExistingVestingSchedule))
        }),
{
}

/// A schedule update is refused in this order: one not from the root as a
/// bad origin; one without seven dates, one for each entry, as of the wrong
/// length; one whose dates do not increase as unsorted; one with a date
/// before `now` as an invalid timestamp.
pub proof fn lemma_refused_schedule_update(
    s: Seq<ScheduleEntry>,
    origin: Origin,
    new: Seq<Schedule>,
    now: Schedule,
)
    ensures
        ({
            let r = schedule_update_error(s, origin, new, now);
            let len_ok = new.len() == SCHEDULE_LENGTH && new.len() == s.len();
            &&& origin != Origin::Root ==> r == Some(DispatchError::BadOrigin)
            &&& origin == Origin::Root && !len_ok ==> r == Some(
                DispatchError::Module(Error::InvalidScheduleLength),
            )
            &&& origin == Origin::Root && len_ok && !strictly_increasing(new) ==> r == Some(
                DispatchError::Module(Error::UnsortedSchedule),
            )
            &&& origin == Origin::Root && len_ok && strictly_increasing(new) && !none_before(
                new,
                now,
            ) ==> r == Some(DispatchError::Module(Error::InvalidTimestamp))
        }),
{
}

/// Adding a vesting balance of nothing answers no effect; adding one to an
/// account that is vesting is refused as clobbering its vesting.
pub proof fn lemma_add_outcome(
    b: Map<AccountId, Balance>,
    s: Seq<ScheduleEntry>,
    who: AccountId,
    locked: Balance,
    now: Schedule,
)
    ensures
        locked == 0 ==> add_schedule_outcome(b, s, who, locked, now) == Ok::<
            Seq<Effect>,
            DispatchError,
        >(Seq::empty()),
        locked > 0 && b.contains_key(who) ==> add_schedule_outcome(b, s, who, locked, now)
            == Err::<Seq<Effect>, DispatchError>(
            DispatchError::Module(Error::ExistingVestingSchedule),
        ),
{
}

/// The default schedule: seven dates, from 1636329600 to 1660694400, each
/// later than the one before it; 34 parts of the balance released
/// on the first, and 11 parts on each of the others.
pub proof fn lemma_default_schedule_shape()
    ensures
        default_schedule_entries().len() == SCHEDULE_LENGTH,
        default_schedule_entries()[0] == (34u8, 1636329600u64),
        default_schedule_entries()[6].1 == 1660694400u64,
        forall|i: int| 1 <= i < 7 ==> (#[trigger] default_schedule_entries()[i]).0 == 11u8,
        strictly_increasing(timestamps(default_schedule_entries())),
{
    let s = default_schedule_entries();
    assert(timestamps(s) =~= seq![
        1636329600u64,
        1636502400u64,
        1641340800u64,
        1646179200u64,
        1651017600u64,
        1655856000u64,
        1660694400u64,
    ]);
}

} // verus!
