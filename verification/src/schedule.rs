//! The vesting schedule: a list of `(share, timestamp)` entries. At each
//! timestamp (UNIX seconds) the entry's share, in parts per hundred, of every
//! vesting balance is released.
use vstd::prelude::*;
use crate::percent::{percent_default, percent_from_percent, percent_saturating_add};

verus! {

/// A date in the schedule, in UNIX seconds.
pub type Schedule = u64;

/// An entry of the schedule: the share released, in parts per hundred, and when.
pub type ScheduleEntry = (u8, Schedule);

/// The schedule a pallet starts with.
pub open spec fn default_schedule_entries() -> Seq<ScheduleEntry> {
    seq![
        (34u8, 1636329600u64),
        (11u8, 1636502400u64),
        (11u8, 1641340800u64),
        (11u8, 1646179200u64),
        (11u8, 1651017600u64),
        (11u8, 1655856000u64),
        (11u8, 1660694400u64),
    ]
}

/// The timestamps of a schedule, in order.
pub open spec fn timestamps(s: Seq<ScheduleEntry>) -> Seq<Schedule> {
    s.map_values(|e: ScheduleEntry| e.1)
}

/// Every share of the schedule is at most a whole.
pub open spec fn shares_bounded(s: Seq<ScheduleEntry>) -> bool {
    forall|i: int| 0 <= i < s.len() ==> #[trigger] s[i].0 <= 100
}

/// Each timestamp is later than the one before it.
pub open spec fn strictly_increasing(t: Seq<Schedule>) -> bool {
    forall|i: int, j: int| 0 <= i < j < t.len() ==> t[i] < t[j]
}

/// No timestamp lies before `now`.
pub open spec fn none_before(t: Seq<Schedule>, now: Schedule) -> bool {
    forall|i: int| 0 <= i < t.len() ==> now <= #[trigger] t[i]
}

/// The schedule `s` with its timestamps replaced by `t`, entry by entry, its
/// shares kept.
pub open spec fn with_timestamps(s: Seq<ScheduleEntry>, t: Seq<Schedule>) -> Seq<ScheduleEntry> {
    Seq::new(s.len(), |i: int| (s[i].0, t[i]))
}

/// The number of leading entries whose timestamp is not after `now`: the
/// entries that have been released by `now`.
pub open spec fn released_count(s: Seq<ScheduleEntry>, now: Schedule) -> nat
    decreases s.len(),
{
    if s.len() == 0 || now < s[0].1 {
        0
    } else {
        1 + released_count(s.drop_first(), now)
    }
}

/// The sum of the shares of a schedule.
pub open spec fn total_shares(s: Seq<ScheduleEntry>) -> nat
    decreases s.len(),
{
    if s.len() == 0 {
        0
    } else {
        total_shares(s.drop_last()) + s.last().0 as nat
    }
}

/// The share of a vesting balance that has been released at `now`: the sum of
/// the released entries' shares, capped at a whole.
pub open spec fn released_portion(s: Seq<ScheduleEntry>, now: Schedule) -> nat {
    let sum = total_shares(s.take(released_count(s, now) as int));
    if sum <= 100 { sum } else { 100 }
}

/// The schedule a pallet starts with, if it fits in `max_len` entries, and
/// else no schedule at all.
pub fn default_vesting_schedule(max_len: u32) -> (r: Vec<ScheduleEntry>)
    ensures
        r@ == if 7 <= max_len { default_schedule_entries() } else { Seq::<ScheduleEntry>::empty() },
{
    let mut v: Vec<ScheduleEntry> = Vec::new();
    v.push((percent_from_percent(34), 1636329600));
    v.push((percent_from_percent(11), 1636502400));
    v.push((percent_from_percent(11), 1641340800));
    v.push((percent_from_percent(11), 1646179200));
    v.push((percent_from_percent(11), 1651017600));
    v.push((percent_from_percent(11), 1655856000));
    v.push((percent_from_percent(11), 1660694400));
    if (v.len() as u64) <= (max_len as u64) {
        assert(v@ =~= default_schedule_entries());
        v
    } else {
        Vec::new()
    }
}

/// Whether each timestamp is later than the one before it.
pub fn is_strictly_increasing(t: &Vec<Schedule>) -> (r: bool)
    ensures
        r == strictly_increasing(t@),
{
    let n = t.len();
    if n == 0 {
        return true;
    }
    let mut i: usize = 1;
    while i < n
        invariant
            1 <= i <= n,
            n == t.len(),
            forall|a: int, b: int| 0 <= a < b < i ==> t@[a] < t@[b],
        decreases n - i,
    {
        if t[i - 1] >= t[i] {
            assert(!strictly_increasing(t@)) by {
                assert(t@[i - 1] >= t@[i as int]);
            }
            return false;
        }
        assert forall|a: int, b: int| 0 <= a < b < i + 1 implies t@[a] < t@[b] by {
            if b == i && a < i - 1 {
                assert(t@[a] < t@[i - 1]);
            }
        }
        i = i + 1;
    }
    true
}

/// Whether no timestamp lies before `now`.
pub fn is_none_before(t: &Vec<Schedule>, now: Schedule) -> (r: bool)
    ensures
        r == none_before(t@, now),
{
    let n = t.len();
    let mut i: usize = 0;
    while i < n
        invariant
            i <= n,
            n == t.len(),
            forall|a: int| 0 <= a < i ==> now <= #[trigger] t@[a],
        decreases n - i,
    {
        if t[i] < now {
            assert(!none_before(t@, now)) by {
                assert(t@[i as int] < now);
            }
            return false;
        }
        i = i + 1;
    }
    true
}

/// Gives the entries of `schedule` the timestamps `new`, in order, keeping
/// their shares.
pub fn replace_timestamps(schedule: &mut Vec<ScheduleEntry>, new: &Vec<Schedule>)
    requires
        old(schedule).len() == new.len(),
    ensures
        final(schedule)@ == with_timestamps(old(schedule)@, new@),
{
    let n = schedule.len();
    let mut i: usize = 0;
    while i < n
        invariant
            i <= n,
            n == schedule.len(),
            n == new.len(),
            forall|a: int| 0 <= a < i ==> #[trigger] schedule@[a] == (old(schedule)@[a].0, new@[a]),
            forall|a: int| i <= a < n ==> #[trigger] schedule@[a] == old(schedule)@[a],
        decreases n - i,
    {
        let share = schedule[i].0;
        schedule.set(i, (share, new[i]));
        i = i + 1;
    }
    assert(schedule@ =~= with_timestamps(old(schedule)@, new@));
}

/// If the first `i` entries are released at `now` and the next one, if any,
/// is not, then exactly `i` entries are released.
pub proof fn lemma_released_count_is(s: Seq<ScheduleEntry>, now: Schedule, i: nat)
    requires
        i <= s.len(),
        forall|a: int| 0 <= a < i ==> (#[trigger] s[a]).1 <= now,
        i < s.len() ==> now < s[i as int].1,
    ensures
        released_count(s, now) == i,
    decreases i,
{
    if i > 0 {
        let t = s.drop_first();
        assert forall|a: int| 0 <= a < i - 1 implies (#[trigger] t[a]).1 <= now by {
            assert(t[a] == s[a + 1]);
        }
        assert(s[0].1 <= now);
        lemma_released_count_is(t, now, (i - 1) as nat);
    }
}

/// The released entries are a prefix of the schedule.
pub proof fn lemma_released_count_bounded(s: Seq<ScheduleEntry>, now: Schedule)
    ensures
        released_count(s, now) <= s.len(),
    decreases s.len(),
{
    if s.len() > 0 && s[0].1 <= now {
        lemma_released_count_bounded(s.drop_first(), now);
    }
}

/// The share of a vesting balance released at `now`: the shares of the
/// leading entries whose timestamps are not after `now`, added up with a cap
/// at a whole.
pub fn vested_portion(schedule: &Vec<ScheduleEntry>, now: Schedule) -> (r: u8)
    requires
        shares_bounded(schedule@),
    ensures
        r as nat == released_portion(schedule@, now),
        r <= 100,
{
    let n = schedule.len();
    let mut portion: u8 = percent_default();
    let mut i: usize = 0;
    while i < n
        invariant_except_break
            i <= n,
            n == schedule.len(),
            shares_bounded(schedule@),
            forall|a: int| 0 <= a < i ==> (#[trigger] schedule@[a]).1 <= now,
            portion as nat == (if total_shares(schedule@.take(i as int)) <= 100 {
                total_shares(schedule@.take(i as int))
            } else {
                100
            }),
        ensures
            i <= n,
            forall|a: int| 0 <= a < i ==> (#[trigger] schedule@[a]).1 <= now,
            i < n ==> now < schedule@[i as int].1,
            portion as nat == (if total_shares(schedule@.take(i as int)) <= 100 {
                total_shares(schedule@.take(i as int))
            } else {
                100
            }),
        decreases n - i,
    {
        let (share, timestamp) = schedule[i];
        if now < timestamp {
            break;
        }
        assert(schedule@[i as int].0 <= 100);
        assert(schedule@.take(i + 1).drop_last() =~= schedule@.take(i as int));
        portion = percent_saturating_add(portion, share);
        i = i + 1;
    }
    proof {
        lemma_released_count_is(schedule@, now, i as nat);
    }
    portion
}

} // verus!
