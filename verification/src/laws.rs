//! What holds of vesting across calls and over time.
use vstd::prelude::*;
use crate::percent::{
    lemma_percent_of_at_most, lemma_percent_of_monotone, lemma_percent_of_whole,
    lemma_percent_of_zero, percent_of,
};
use crate::schedule::{
    default_schedule_entries, lemma_released_count_bounded, lemma_released_count_is,
    released_count, released_portion, strictly_increasing, timestamps, total_shares,
    with_timestamps, shares_bounded, ScheduleEntry, Schedule,
};
use crate::pallet::{
    add_schedule_outcome, balances_after_add, balances_after_lock_update,
    balances_after_transfer_completion, balances_after_vest, lock_effects, lock_update_outcome,
    schedule_after_update, schedule_update_outcome, transfer_completion_outcome, unvested_at, vest_outcome, AccountId,
    Balance, Config, DispatchError, Effect, Error, Event, Origin, Transfer,
};

verus! {

/// The released shares of a prefix of the schedule only grow with the prefix.
proof fn lemma_total_shares_prefix_monotone(s: Seq<ScheduleEntry>, i: int, j: int)
    requires
        0 <= i <= j <= s.len(),
    ensures
        total_shares(s.take(i)) <= total_shares(s.take(j)),
    decreases j - i,
{
    if i < j {
        assert(s.take(j).drop_last() =~= s.take(j - 1));
        lemma_total_shares_prefix_monotone(s, i, j - 1);
    }
}

/// Later, at least as many entries of the schedule are released.
proof fn lemma_released_count_monotone(s: Seq<ScheduleEntry>, earlier: Schedule, later: Schedule)
    requires
        earlier <= later,
    ensures
        released_count(s, earlier) <= released_count(s, later),
    decreases s.len(),
{
    if s.len() > 0 && s[0].1 <= earlier {
        lemma_released_count_monotone(s.drop_first(), earlier, later);
    }
}

/// Every entry before the released count is due, and the entry at it, if
/// any, is not.
proof fn lemma_released_count_facts(s: Seq<ScheduleEntry>, now: Schedule)
    ensures
        released_count(s, now) <= s.len(),
        forall|i: int| 0 <= i < released_count(s, now) ==> (#[trigger] s[i]).1 <= now,
        released_count(s, now) < s.len() ==> now < s[released_count(s, now) as int].1,
    decreases s.len(),
{
    if s.len() > 0 && s[0].1 <= now {
        let t = s.drop_first();
        lemma_released_count_facts(t, now);
        assert forall|i: int| 0 <= i < released_count(s, now) implies (#[trigger] s[i]).1 <= now by {
            if i > 0 {
                assert(s[i] == t[i - 1]);
            }
        }
    }
}

/// Vesting only unlocks over time: what is unvested of a balance at a later
/// time is never more than what was unvested at an earlier time.
pub proof fn lemma_unvested_never_grows(
    s: Seq<ScheduleEntry>,
    locked: nat,
    earlier: Schedule,
    later: Schedule,
)
    requires
        earlier <= later,
    ensures
        unvested_at(s, locked, later) <= unvested_at(s, locked, earlier),
{
    lemma_released_count_monotone(s, earlier, later);
    lemma_released_count_bounded(s, later);
    lemma_total_shares_prefix_monotone(
        s,
        released_count(s, earlier) as int,
        released_count(s, later) as int,
    );
    assert(released_portion(s, earlier) <= released_portion(s, later));
    lemma_percent_of_monotone(
        (100 - released_portion(s, later)) as nat,
        (100 - released_portion(s, earlier)) as nat,
        locked,
    );
}

/// The lock never holds more than the vesting balance: what is unvested is
/// at most what was locked.
pub proof fn lemma_unvested_at_most_locked(s: Seq<ScheduleEntry>, locked: nat, now: Schedule)
    ensures
        unvested_at(s, locked, now) <= locked,
{
    lemma_percent_of_at_most((100 - released_portion(s, now)) as nat, locked);
}

/// Before the schedule's first date nothing has vested: the whole balance
/// stays locked.
pub proof fn lemma_nothing_vests_before_first_date(
    s: Seq<ScheduleEntry>,
    locked: nat,
    now: Schedule,
)
    requires
        s.len() > 0,
        now < s[0].1,
    ensures
        released_portion(s, now) == 0,
        unvested_at(s, locked, now) == locked,
{
    assert(s.take(0) =~= Seq::<ScheduleEntry>::empty());
    lemma_percent_of_whole(locked);
}

/// Once every date of the schedule has passed, and its shares add up to at
/// least a whole, the balance has fully vested.
pub proof fn lemma_fully_vested_after_last_date(
    s: Seq<ScheduleEntry>,
    locked: nat,
    now: Schedule,
)
    requires
        forall|i: int| 0 <= i < s.len() ==> (#[trigger] s[i]).1 <= now,
        total_shares(s) >= 100,
    ensures
        released_portion(s, now) == 100,
        unvested_at(s, locked, now) == 0,
{
    lemma_released_count_is(s, now, s.len());
    assert(s.take(s.len() as int) =~= s);
    lemma_percent_of_zero(0, locked);
}

/// On a schedule whose dates increase, as the pallet's is, the entries
/// released at `now` are exactly those whose date is not after `now`.
pub proof fn lemma_released_entries_of_sorted_schedule(s: Seq<ScheduleEntry>, now: Schedule)
    requires
        strictly_increasing(timestamps(s)),
    ensures
        forall|i: int|
            0 <= i < s.len() ==> (i < released_count(s, now) <==> (#[trigger] s[i]).1 <= now),
{
    lemma_released_count_facts(s, now);
    let k = released_count(s, now) as int;
    assert forall|i: int| 0 <= i < s.len() implies (i < released_count(s, now) <==> (
    #[trigger] s[i]).1 <= now) by {
        if i > k {
            assert(timestamps(s)[k] < timestamps(s)[i]);
        }
    }
}

/// The default schedule releases a whole in all, on increasing dates; so
/// after its last date every balance has vested.
pub proof fn lemma_default_schedule_releases_everything(locked: nat, now: Schedule)
    requires
        1660694400 <= now,
    ensures
        total_shares(default_schedule_entries()) == 100,
        shares_bounded(default_schedule_entries()),
        unvested_at(default_schedule_entries(), locked, now) == 0,
{
    let s = default_schedule_entries();
    assert(s.drop_last().drop_last().drop_last().drop_last().drop_last().drop_last().drop_last()
        =~= Seq::<ScheduleEntry>::empty());
    reveal_with_fuel(total_shares, 8);
    assert(total_shares(s) == 100);
    lemma_fully_vested_after_last_date(s, locked, now);
}

/// Changing the schedule's dates keeps its length and its shares, and the
/// new dates are the given ones.
pub proof fn lemma_new_dates_keep_shares(s: Seq<ScheduleEntry>, t: Seq<Schedule>)
    requires
        t.len() == s.len(),
    ensures
        with_timestamps(s, t).len() == s.len(),
        forall|i: int| 0 <= i < s.len() ==> (#[trigger] with_timestamps(s, t)[i]).0 == s[i].0,
        timestamps(with_timestamps(s, t)) == t,
        total_shares(with_timestamps(s, t)) == total_shares(s),
{
    assert(timestamps(with_timestamps(s, t)) =~= t);
    lemma_same_shares_same_total(s, with_timestamps(s, t));
}

/// Two schedules with the same shares, entry by entry, add up to the same.
proof fn lemma_same_shares_same_total(a: Seq<ScheduleEntry>, b: Seq<ScheduleEntry>)
    requires
        a.len() == b.len(),
        forall|i: int| 0 <= i < a.len() ==> (#[trigger] a[i]).0 == b[i].0,
    ensures
        total_shares(a) == total_shares(b),
    decreases a.len(),
{
    if a.len() > 0 {
        let (a1, b1) = (a.drop_last(), b.drop_last());
        assert forall|i: int| 0 <= i < a1.len() implies (#[trigger] a1[i]).0 == b1[i].0 by {
            assert(a1[i] == a[i] && b1[i] == b[i]);
        }
        lemma_same_shares_same_total(a1, b1);
        assert(a.last().0 == b.last().0);
    }
}

/// Claiming twice at the same time: if the first claim left something
/// locked, the vesting balances are unchanged and a second claim answers the
/// same; if it completed the vesting, the account no longer vests and a
/// second claim is refused.
pub proof fn lemma_repeated_lock_update(
    balances: Map<AccountId, Balance>,
    s: Seq<ScheduleEntry>,
    who: AccountId,
    now: Schedule,
)
    requires
        balances.contains_key(who),
    ensures
        ({
            let after = balances_after_lock_update(balances, s, who, now);
            if unvested_at(s, balances[who] as nat, now) > 0 {
                &&& after == balances
                &&& lock_update_outcome(after, s, who, now) == lock_update_outcome(
                    balances,
                    s,
                    who,
                    now,
                )
            } else {
                &&& !after.contains_key(who)
                &&& lock_update_outcome(after, s, who, now) == Err::<Seq<Effect>, DispatchError>(
                    DispatchError::Module(Error::NotVesting),
                )
            }
        }),
{
}

/// A refused claim, or a refused addition of a vesting balance, leaves the
/// vesting balances as they were.
pub proof fn lemma_refused_calls_change_nothing(
    balances: Map<AccountId, Balance>,
    s: Seq<ScheduleEntry>,
    origin: Origin,
    who: AccountId,
    locked: Balance,
    now: Schedule,
)
    ensures
        vest_outcome(balances, s, origin, now) is Err ==> balances_after_vest(
            balances,
            s,
            origin,
            now,
        ) == balances,
        add_schedule_outcome(balances, s, who, locked, now) is Err ==> balances_after_add(
            balances,
            s,
            who,
            locked,
            now,
        ) == balances,
{
}

/// A vesting balance added to an account that was not vesting is recorded
/// as given, unless it has already fully vested, in which case the account
/// does not vest at all.
pub proof fn lemma_added_balance_is_recorded(
    balances: Map<AccountId, Balance>,
    s: Seq<ScheduleEntry>,
    who: AccountId,
    locked: Balance,
    now: Schedule,
)
    requires
        !balances.contains_key(who),
        locked > 0,
    ensures
        unvested_at(s, locked as nat, now) > 0 ==> balances_after_add(balances, s, who, locked, now)
            == balances.insert(who, locked),
        unvested_at(s, locked as nat, now) == 0 ==> balances_after_add(
            balances,
            s,
            who,
            locked,
            now,
        ) == balances,
{
    if unvested_at(s, locked as nat, now) == 0 {
        assert(balances.insert(who, locked).remove(who) =~= balances);
    }
}

/// The pallet's state, as its calls' contracts describe it.
pub struct VestingState {
    pub config: Config,
    pub schedule: Seq<ScheduleEntry>,
    pub balances: Map<AccountId, Balance>,
}

/// A call that may change the pallet's state. (The first step of a vested
/// transfer changes nothing, and so is not among them.)
pub enum Call {
    UpdateVestingSchedule { origin: Origin, new: Vec<Schedule>, now: Schedule },
    Vest { origin: Origin, now: Schedule },
    CompleteVestedTransfer { transfer: Transfer, transferred: bool, now: Schedule },
    AddVestingSchedule { who: AccountId, locked: Balance, now: Schedule },
    UpdateLock { who: AccountId, now: Schedule },
}

/// The state after `call`, as the call's contract gives it.
pub open spec fn after_call(st: VestingState, call: Call) -> VestingState {
    match call {
        Call::UpdateVestingSchedule { origin, new, now } => VestingState {
            schedule: schedule_after_update(st.schedule, origin, new@, now),
            ..st
        },
        Call::Vest { origin, now } => VestingState {
            balances: balances_after_vest(st.balances, st.schedule, origin, now),
            ..st
        },
        Call::CompleteVestedTransfer { transfer, transferred, now } => VestingState {
            balances: balances_after_transfer_completion(
                st.balances,
                st.schedule,
                transfer,
                transferred,
                now,
            ),
            ..st
        },
        Call::AddVestingSchedule { who, locked, now } => VestingState {
            balances: balances_after_add(st.balances, st.schedule, who, locked, now),
            ..st
        },
        Call::UpdateLock { who, now } => VestingState {
            balances: balances_after_lock_update(st.balances, st.schedule, who, now),
            ..st
        },
    }
}

/// The state after the calls in order.
pub open spec fn after_calls(st: VestingState, calls: Seq<Call>) -> VestingState
    decreases calls.len(),
{
    if calls.len() == 0 {
        st
    } else {
        after_calls(after_call(st, calls[0]), calls.drop_first())
    }
}

/// The call gives `who` a new vesting balance: a completed vested transfer
/// of funds to `who`, or some funds added to `who`'s vesting.
pub open spec fn gives_balance_to(call: Call, who: AccountId) -> bool {
    match call {
        Call::CompleteVestedTransfer { transfer, transferred, .. } => transferred && transfer.to
            == who && transfer.amount > 0,
        Call::AddVestingSchedule { who: w, locked, .. } => w == who && locked > 0,
        _ => false,
    }
}

/// What the call answers in the state `st`, as the call's contract gives it.
pub open spec fn call_outcome(st: VestingState, call: Call) -> Result<Seq<Effect>, DispatchError> {
    match call {
        Call::UpdateVestingSchedule { origin, new, now } => schedule_update_outcome(
            st.schedule,
            origin,
            new@,
            Event::VestingScheduleUpdated(new),
            now,
        ),
        Call::Vest { origin, now } => vest_outcome(st.balances, st.schedule, origin, now),
        Call::CompleteVestedTransfer { transfer, transferred, now } => transfer_completion_outcome(
            st.balances,
            st.schedule,
            transfer,
            transferred,
            now,
        ),
        Call::AddVestingSchedule { who, locked, now } => add_schedule_outcome(
            st.balances,
            st.schedule,
            who,
            locked,
            now,
        ),
        Call::UpdateLock { who, now } => lock_update_outcome(st.balances, st.schedule, who, now),
    }
}

/// Among the effects is the report that `who` has fully vested.
pub open spec fn reports_completion(effects: Seq<Effect>, who: AccountId) -> bool {
    exists|i: int|
        0 <= i < effects.len() && #[trigger] effects[i] == Effect::Deposit(
            Event::VestingCompleted(who),
        )
}

/// The effects of a lock update report `who` fully vested only for `who`,
/// and only when nothing is left unvested.
proof fn lemma_lock_effects_report(w: AccountId, unvested: nat, who: AccountId)
    ensures
        reports_completion(lock_effects(w, unvested), who) ==> w == who && unvested == 0,
{
    let e = lock_effects(w, unvested);
    if reports_completion(e, who) {
        let i = choose|i: int|
            0 <= i < e.len() && #[trigger] e[i] == Effect::Deposit(Event::VestingCompleted(who));
        assert(i == 0 || i == 1);
    }
}

/// A call whose effects report `who` fully vested leaves `who` not vesting.
pub proof fn lemma_completion_report_ends_vesting(st: VestingState, call: Call, who: AccountId)
    requires
        call_outcome(st, call) is Ok,
        reports_completion(call_outcome(st, call)->Ok_0, who),
    ensures
        !after_call(st, call).balances.contains_key(who),
{
    match call {
        Call::UpdateVestingSchedule { origin, new, now } => {
            let e = call_outcome(st, call)->Ok_0;
            let i = choose|i: int|
                0 <= i < e.len() && #[trigger] e[i] == Effect::Deposit(Event::VestingCompleted(who));
            assert(e.len() == 1);
            assert(e[0] != Effect::Deposit(Event::VestingCompleted(who)));
        },
        Call::Vest { origin, now } => {
            let w = origin->Signed_0;
            lemma_lock_effects_report(w, unvested_at(st.schedule, st.balances[w] as nat, now), who);
        },
        Call::CompleteVestedTransfer { transfer, transferred, now } => {
            if transfer.amount != 0 {
                lemma_lock_effects_report(
                    transfer.to,
                    unvested_at(st.schedule, transfer.amount as nat, now),
                    who,
                );
                assert(st.balances.insert(transfer.to, transfer.amount).remove(transfer.to)
                    =~= st.balances.remove(transfer.to));
            }
        },
        Call::AddVestingSchedule { who: w, locked, now } => {
            if locked != 0 {
                lemma_lock_effects_report(w, unvested_at(st.schedule, locked as nat, now), who);
                assert(st.balances.insert(w, locked).remove(w) =~= st.balances.remove(w));
            }
        },
        Call::UpdateLock { who: w, now } => {
            lemma_lock_effects_report(w, unvested_at(st.schedule, st.balances[w] as nat, now), who);
        },
    }
}

/// The call makes `who`, not vesting in `st`, vesting.
pub open spec fn makes_vesting(st: VestingState, call: Call, who: AccountId) -> bool {
    !st.balances.contains_key(who) && after_call(st, call).balances.contains_key(who)
}

/// Only a call that gives `who` a new vesting balance can make `who` vesting.
pub proof fn lemma_only_new_balance_makes_vesting(st: VestingState, call: Call, who: AccountId)
    requires
        !gives_balance_to(call, who),
    ensures
        !makes_vesting(st, call, who),
{
}

/// No further vesting can happen once a call reports an account fully
/// vested: after any later calls none of which makes the account vesting
/// again, the account is not vesting, and a claim by it that is not too
/// early is refused as not vesting, and changes nothing.
pub proof fn lemma_no_vesting_after_completion_report(
    st: VestingState,
    call: Call,
    who: AccountId,
    calls: Seq<Call>,
    later: Schedule,
)
    requires
        call_outcome(st, call) is Ok,
        reports_completion(call_outcome(st, call)->Ok_0, who),
        forall|i: int|
            0 <= i < calls.len() ==> !makes_vesting(
                #[trigger] after_calls(after_call(st, call), calls.take(i)),
                calls[i],
                who,
            ),
    ensures
        ({
            let end = after_calls(after_call(st, call), calls);
            &&& !end.balances.contains_key(who)
            &&& !claim_too_early_at(end, later) ==> vest_outcome(
                end.balances,
                end.schedule,
                Origin::Signed(who),
                later,
            ) == Err::<Seq<Effect>, DispatchError>(DispatchError::Module(Error::NotVesting))
            &&& balances_after_vest(end.balances, end.schedule, Origin::Signed(who), later)
                == end.balances
        }),
{
    lemma_completion_report_ends_vesting(st, call, who);
    lemma_not_made_vesting_stays_so(after_call(st, call), calls, who);
}

/// An account that is not vesting stays so through calls none of which
/// makes it vesting.
proof fn lemma_not_made_vesting_stays_so(st: VestingState, calls: Seq<Call>, who: AccountId)
    requires
        !st.balances.contains_key(who),
        forall|i: int|
            0 <= i < calls.len() ==> !makes_vesting(
                #[trigger] after_calls(st, calls.take(i)),
                calls[i],
                who,
            ),
    ensures
        !after_calls(st, calls).balances.contains_key(who),
    decreases calls.len(),
{
    if calls.len() > 0 {
        assert(calls.take(0) =~= Seq::<Call>::empty());
        assert(!makes_vesting(after_calls(st, calls.take(0)), calls[0], who));
        let next = after_call(st, calls[0]);
        let rest = calls.drop_first();
        assert forall|i: int| 0 <= i < rest.len() implies !makes_vesting(
            #[trigger] after_calls(next, rest.take(i)),
            rest[i],
            who,
        ) by {
            assert(calls.take(i + 1).drop_first() =~= rest.take(i));
            assert(calls.take(i + 1)[0] == calls[0]);
            assert(!makes_vesting(after_calls(st, calls.take(i + 1)), calls[i + 1], who));
        }
        lemma_not_made_vesting_stays_so(next, rest, who);
    }
}

/// An account that is not vesting does not start vesting, whatever calls
/// come, unless one of them gives it a new vesting balance.
pub proof fn lemma_no_vesting_without_new_balance(
    st: VestingState,
    calls: Seq<Call>,
    who: AccountId,
)
    requires
        !st.balances.contains_key(who),
        forall|i: int| 0 <= i < calls.len() ==> !gives_balance_to(#[trigger] calls[i], who),
    ensures
        !after_calls(st, calls).balances.contains_key(who),
    decreases calls.len(),
{
    if calls.len() > 0 {
        let next = after_call(st, calls[0]);
        assert(!gives_balance_to(calls[0], who));
        assert(!next.balances.contains_key(who));
        let rest = calls.drop_first();
        assert forall|i: int| 0 <= i < rest.len() implies !gives_balance_to(#[trigger] rest[i], who) by {
            assert(rest[i] == calls[i + 1]);
        }
        lemma_no_vesting_without_new_balance(next, rest, who);
    }
}

/// A claim at `later` would come before the first date of the state's
/// schedule.
pub open spec fn claim_too_early_at(st: VestingState, later: Schedule) -> bool {
    crate::pallet::claim_too_early(st.schedule, later)
}

/// A vested transfer whose transfer failed changes nothing and is refused
/// as the currency's refusal.
pub proof fn lemma_failed_transfer_changes_nothing(
    balances: Map<AccountId, Balance>,
    s: Seq<ScheduleEntry>,
    transfer: Transfer,
    now: Schedule,
)
    ensures
        transfer_completion_outcome(balances, s, transfer, false, now) == Err::<
            Seq<Effect>,
            DispatchError,
        >(DispatchError::Currency),
        balances_after_transfer_completion(balances, s, transfer, false, now) == balances,
{
}

} // verus!
