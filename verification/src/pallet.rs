//! The vesting pallet's state and its calls.
//!
//! The pallet keeps the vesting schedule and, for each vesting account, the
//! balance that vests along it. What the runtime around it does (locking
//! funds on an account, depositing events) the calls hand back as a list of
//! effects, in the order in which they are to happen; the current time, and
//! what the runtime knows of accounts, they take as arguments. A call that
//! fails changes nothing and hands back no effect.
//!
//! A vested transfer takes two steps, around the transfer of the funds that
//! the runtime makes: `vested_transfer` checks the request and answers the
//! transfer to make; `complete_vested_transfer` is told whether the
//! transfer went through and only then records the vesting balance.
use vstd::prelude::*;
use std::collections::HashMap;
use crate::percent::{percent_from_percent, percent_mul, percent_of, percent_sub};
use crate::schedule::{
    default_schedule_entries, default_vesting_schedule, is_none_before, is_strictly_increasing,
    none_before, released_portion, replace_timestamps, shares_bounded, strictly_increasing,
    timestamps, vested_portion, with_timestamps, Schedule, ScheduleEntry,
};

verus! {

broadcast use vstd::std_specs::hash::group_hash_axioms;

/// An account.
pub type AccountId = u64;

/// An amount of tokens.
pub type Balance = u128;

/// The identifier of the lock that the pallet sets on vesting accounts: the
/// bytes of `mantavst`.
pub const VESTING_ID: [u8; 8] = [109u8, 97u8, 110u8, 116u8, 97u8, 118u8, 115u8, 116u8];

/// The withdraw reason of a transfer.
pub const WITHDRAW_TRANSFER: u8 = 2u8;

/// The withdraw reason of a reserve.
pub const WITHDRAW_RESERVE: u8 = 4u8;

/// The withdraw reasons that a vesting lock blocks: transfers and reserves.
pub const LOCK_REASONS: u8 = WITHDRAW_TRANSFER | WITHDRAW_RESERVE;

/// The number of dates in a schedule that the root may set.
pub const SCHEDULE_LENGTH: usize = 7usize;

/// The pallet's parameters.
#[derive(Clone, Copy, Debug, PartialEq, Eq, Structural)]
pub struct Config {
    /// The minimum amount transferred to call `vested_transfer`.
    pub min_vested_transfer: Balance,
    /// The maximum length of schedule is allowed.
    pub max_schedule_length: u32,
}

/// Who sends a call.
#[derive(Clone, Copy, Debug, PartialEq, Eq, Structural)]
pub enum Origin {
    /// The chain's governance.
    Root,
    /// A transaction signed by an account.
    Signed(AccountId),
    /// An unsigned transaction.
    Unsigned,
}

/// Error for the vesting pallet.
#[derive(Clone, Copy, Debug, PartialEq, Eq, Structural)]
pub enum Error {
    /// The account given is not vesting.
    NotVesting,
    /// An existing vesting schedule already exists for this account that cannot be clobbered.
    ExistingVestingSchedule,
    /// Amount being transferred is too low to create a vesting schedule.
    AmountLow,
    /// Not enough tokens for vesting.
    BalanceLow,
    /// Cannot input
    InvalidTimestamp,
    /// The length of new schedule cannot be bigger/smaller than 7.
    InvalidScheduleLength,
    /// The new schedule should be sorted.
    UnsortedSchedule,
    /// The first round of vesting is not done yet.
    ClaimTooEarly,
}

/// Why a call was refused.
#[derive(Clone, Copy, Debug, PartialEq, Eq, Structural)]
pub enum DispatchError {
    /// The call came from an origin that may not make it.
    BadOrigin,
    /// The account named as the target could not be looked up.
    CannotLookup,
    /// The currency refused the transfer.
    Currency,
    /// The pallet refused the call.
    Module(Error),
}

/// What the pallet reports.
#[derive(Debug, PartialEq, Eq)]
pub enum Event {
    /// The amount vested has been updated. This could indicate more funds are available. The
    /// balance given is the amount which is left unvested (and thus locked).
    /// \[account, unvested\]
    VestingUpdated(AccountId, Balance),
    /// An \[account\] has become fully vested. No further vesting can happen.
    VestingCompleted(AccountId),
    /// Update a vesting schedule.
    VestingScheduleUpdated(Vec<Schedule>),
}

/// Something the runtime is to do for a call that succeeded.
#[derive(Debug, PartialEq, Eq)]
pub enum Effect {
    /// Lock `amount` of `who`'s funds against the withdraw `reasons` under
    /// the lock `id`, replacing any earlier lock with that identifier.
    SetLock { id: [u8; 8], who: AccountId, amount: Balance, reasons: u8 },
    /// Lift the lock `id` from `who`'s funds.
    RemoveLock { id: [u8; 8], who: AccountId },
    /// Deposit an event.
    Deposit(Event),
}

/// A transfer that a vested transfer asks the runtime to make: `amount` from
/// `from` to `to`, which may leave `from` empty.
#[derive(Clone, Copy, Debug, PartialEq, Eq, Structural)]
pub struct Transfer {
    pub from: AccountId,
    pub to: AccountId,
    pub amount: Balance,
}

/// The result of a call: the effects that it asks for, or why it was refused.
pub type CallResult = Result<Vec<Effect>, DispatchError>;

/// A call's result, with its effects seen as a sequence.
pub open spec fn outcome(r: CallResult) -> Result<Seq<Effect>, DispatchError> {
    match r {
        Ok(effects) => Ok(effects@),
        Err(e) => Err(e),
    }
}

/// The amount of a vesting balance `locked` that is still unvested at `now`.
pub open spec fn unvested_at(s: Seq<ScheduleEntry>, locked: nat, now: Schedule) -> nat {
    percent_of((100 - released_portion(s, now)) as nat, locked)
}

/// The effects of setting `who`'s lock to the `unvested` amount: the vesting
/// lock is lifted, and the account reported fully vested, when nothing is
/// left unvested; else the vesting lock holds what is left against transfers
/// and reserves, and the update is reported.
pub open spec fn lock_effects(who: AccountId, unvested: nat) -> Seq<Effect> {
    if unvested == 0 {
        seq![
            Effect::RemoveLock { id: VESTING_ID, who },
            Effect::Deposit(Event::VestingCompleted(who)),
        ]
    } else {
        seq![
            Effect::SetLock {
                id: VESTING_ID,
                who,
                amount: unvested as Balance,
                reasons: LOCK_REASONS,
            },
            Effect::Deposit(Event::VestingUpdated(who, unvested as Balance)),
        ]
    }
}

/// What updating `who`'s lock at `now` answers.
pub open spec fn lock_update_outcome(
    balances: Map<AccountId, Balance>,
    s: Seq<ScheduleEntry>,
    who: AccountId,
    now: Schedule,
) -> Result<Seq<Effect>, DispatchError> {
    if !balances.contains_key(who) {
        Err(DispatchError::Module(Error::NotVesting))
    } else {
        Ok(lock_effects(who, unvested_at(s, balances[who] as nat, now)))
    }
}

/// The vesting balances after `who`'s lock is updated at `now`: an account
/// whose balance has fully vested is no longer vesting.
pub open spec fn balances_after_lock_update(
    balances: Map<AccountId, Balance>,
    s: Seq<ScheduleEntry>,
    who: AccountId,
    now: Schedule,
) -> Map<AccountId, Balance> {
    if balances.contains_key(who) && unvested_at(s, balances[who] as nat, now) == 0 {
        balances.remove(who)
    } else {
        balances
    }
}

/// What adding a vesting balance of `locked` to `who` at `now` answers.
pub open spec fn add_schedule_outcome(
    balances: Map<AccountId, Balance>,
    s: Seq<ScheduleEntry>,
    who: AccountId,
    locked: Balance,
    now: Schedule,
) -> Result<Seq<Effect>, DispatchError> {
    if locked == 0 {
        Ok(Seq::empty())
    } else if balances.contains_key(who) {
        Err(DispatchError::Module(Error::ExistingVestingSchedule))
    } else {
        Ok(lock_effects(who, unvested_at(s, locked as nat, now)))
    }
}

/// The vesting balances after adding a vesting balance of `locked` to `who`
/// at `now`.
pub open spec fn balances_after_add(
    balances: Map<AccountId, Balance>,
    s: Seq<ScheduleEntry>,
    who: AccountId,
    locked: Balance,
    now: Schedule,
) -> Map<AccountId, Balance> {
    if locked == 0 || balances.contains_key(who) {
        balances
    } else {
        balances_after_lock_update(balances.insert(who, locked), s, who, now)
    }
}

/// A claim at `now` comes before the schedule's first date.
pub open spec fn claim_too_early(s: Seq<ScheduleEntry>, now: Schedule) -> bool {
    s.len() > 0 && now < s[0].1
}

/// What a claim by `origin` at `now` answers.
pub open spec fn vest_outcome(
    balances: Map<AccountId, Balance>,
    s: Seq<ScheduleEntry>,
    origin: Origin,
    now: Schedule,
) -> Result<Seq<Effect>, DispatchError> {
    match origin {
        Origin::Signed(who) => if claim_too_early(s, now) {
            Err(DispatchError::Module(Error::ClaimTooEarly))
        } else {
            lock_update_outcome(balances, s, who, now)
        },
        _ => Err(DispatchError::BadOrigin),
    }
}

/// The vesting balances after a claim by `origin` at `now`.
pub open spec fn balances_after_vest(
    balances: Map<AccountId, Balance>,
    s: Seq<ScheduleEntry>,
    origin: Origin,
    now: Schedule,
) -> Map<AccountId, Balance> {
    match origin {
        Origin::Signed(who) => if claim_too_early(s, now) {
            balances
        } else {
            balances_after_lock_update(balances, s, who, now)
        },
        _ => balances,
    }
}

/// What a request by `origin` to send `locked` to `target` as a vested
/// transfer answers, before any funds move: `free` is the sender's free
/// balance, and `target` is `None` when the target could not be looked up.
pub open spec fn vested_transfer_outcome(
    balances: Map<AccountId, Balance>,
    config: Config,
    origin: Origin,
    target: Option<AccountId>,
    locked: Balance,
    free: Balance,
) -> Result<Transfer, DispatchError> {
    match origin {
        Origin::Signed(from) => if locked < config.min_vested_transfer {
            Err(DispatchError::Module(Error::AmountLow))
        } else if free < locked {
            Err(DispatchError::Module(Error::BalanceLow))
        } else {
            match target {
                None => Err(DispatchError::CannotLookup),
                Some(to) => if balances.contains_key(to) {
                    Err(DispatchError::Module(Error::ExistingVestingSchedule))
                } else {
                    Ok(Transfer { from, to, amount: locked })
                },
            }
        },
        _ => Err(DispatchError::BadOrigin),
    }
}

/// What completing a vested transfer answers, once the runtime has tried the
/// transfer: nothing vests when the transfer failed.
pub open spec fn transfer_completion_outcome(
    balances: Map<AccountId, Balance>,
    s: Seq<ScheduleEntry>,
    transfer: Transfer,
    transferred: bool,
    now: Schedule,
) -> Result<Seq<Effect>, DispatchError> {
    if transferred {
        add_schedule_outcome(balances, s, transfer.to, transfer.amount, now)
    } else {
        Err(DispatchError::Currency)
    }
}

/// The vesting balances after completing a vested transfer.
pub open spec fn balances_after_transfer_completion(
    balances: Map<AccountId, Balance>,
    s: Seq<ScheduleEntry>,
    transfer: Transfer,
    transferred: bool,
    now: Schedule,
) -> Map<AccountId, Balance> {
    if transferred {
        balances_after_add(balances, s, transfer.to, transfer.amount, now)
    } else {
        balances
    }
}

/// The error, if any, with which the schedule's dates may not be replaced by
/// `new` at `now`: only the root may replace them; exactly
/// `SCHEDULE_LENGTH` dates, one for each entry, each later than the one
/// before it, and none before `now`.
pub open spec fn schedule_update_error(
    s: Seq<ScheduleEntry>,
    origin: Origin,
    new: Seq<Schedule>,
    now: Schedule,
) -> Option<DispatchError> {
    if origin != Origin::Root {
        Some(DispatchError::BadOrigin)
    } else if new.len() != SCHEDULE_LENGTH || new.len() != s.len() {
        Some(DispatchError::Module(Error::InvalidScheduleLength))
    } else if !strictly_increasing(new) {
        Some(DispatchError::Module(Error::UnsortedSchedule))
    } else if !none_before(new, now) {
        Some(DispatchError::Module(Error::InvalidTimestamp))
    } else {
        None
    }
}

/// What replacing the schedule's dates with `new` at `now` answers; `event`
/// is the report of the new dates.
pub open spec fn schedule_update_outcome(
    s: Seq<ScheduleEntry>,
    origin: Origin,
    new: Seq<Schedule>,
    event: Event,
    now: Schedule,
) -> Result<Seq<Effect>, DispatchError> {
    match schedule_update_error(s, origin, new, now) {
        Some(e) => Err(e),
        None => Ok(seq![Effect::Deposit(event)]),
    }
}

/// The schedule after replacing its dates with `new` at `now`.
pub open spec fn schedule_after_update(
    s: Seq<ScheduleEntry>,
    origin: Origin,
    new: Seq<Schedule>,
    now: Schedule,
) -> Seq<ScheduleEntry> {
    if schedule_update_error(s, origin, new, now) is None {
        with_timestamps(s, new)
    } else {
        s
    }
}

/// The state of the vesting pallet.
pub struct Pallet {
    config: Config,
    schedule: Vec<ScheduleEntry>,
    balances: HashMap<AccountId, Balance>,
}

impl Pallet {
    /// The pallet's invariant: the schedule has no entry or
    /// `SCHEDULE_LENGTH` entries, and fits its bound; its shares are at most
    /// a whole, its dates increase; no vesting balance is zero.
    #[verifier::type_invariant]
    spec fn inv(self) -> bool {
        &&& self.schedule@.len() == 0 || self.schedule@.len() == SCHEDULE_LENGTH
        &&& self.schedule@.len() <= self.config.max_schedule_length
        &&& shares_bounded(self.schedule@)
        &&& strictly_increasing(timestamps(self.schedule@))
        &&& forall|a: AccountId| #[trigger] self.balances@.contains_key(a) ==> self.balances@[a] > 0
    }

    /// The pallet's parameters.
    pub closed spec fn config_view(&self) -> Config {
        self.config
    }

    /// The vesting schedule.
    pub closed spec fn schedule_view(&self) -> Seq<ScheduleEntry> {
        self.schedule@
    }

    /// The balance that vests, for each vesting account.
    pub closed spec fn balances_view(&self) -> Map<AccountId, Balance> {
        self.balances@
    }

    /// A pallet with the parameters `config`, the default schedule (none, if
    /// it does not fit in `config.max_schedule_length` entries), and no
    /// vesting account.
    pub fn new(config: Config) -> (r: Pallet)
        ensures
            r.config_view() == config,
            r.schedule_view() == if 7 <= config.max_schedule_length {
                default_schedule_entries()
            } else {
                Seq::<ScheduleEntry>::empty()
            },
            r.balances_view() == Map::<AccountId, Balance>::empty(),
    {
        let schedule = default_vesting_schedule(config.max_schedule_length);
        let balances: HashMap<AccountId, Balance> = HashMap::new();
        proof {
            if 7 <= config.max_schedule_length {
                assert(timestamps(schedule@) =~= seq![
                    1636329600u64,
                    1636502400u64,
                    1641340800u64,
                    1646179200u64,
                    1651017600u64,
                    1655856000u64,
                    1660694400u64,
                ]);
            }
            assert(balances@ =~= Map::<AccountId, Balance>::empty());
        }
        Pallet { config, schedule, balances }
    }

    /// The pallet's parameters.
    pub fn config(&self) -> (r: Config)
        ensures
            r == self.config_view(),
    {
        self.config
    }

    /// The balance that vests on `who`'s account, if `who` is vesting.
    pub fn vesting_balance(&self, who: AccountId) -> (r: Option<Balance>)
        ensures
            r == if self.balances_view().contains_key(who) {
                Some(self.balances_view()[who])
            } else {
                None::<Balance>
            },
    {
        match self.balances.get(&who) {
            Some(v) => Some(*v),
            None => None,
        }
    }

    /// The vesting schedule.
    /// It has no entry or `SCHEDULE_LENGTH` entries, its shares are at most a
    /// whole and its dates increase.
    pub fn vesting_schedule(&self) -> (r: Vec<ScheduleEntry>)
        ensures
            r@ == self.schedule_view(),
            r@.len() == 0 || r@.len() == SCHEDULE_LENGTH,
            r@.len() <= self.config_view().max_schedule_length,
            shares_bounded(r@),
            strictly_increasing(timestamps(r@)),
    {
        proof {
            use_type_invariant(self);
        }
        let n = self.schedule.len();
        let mut r: Vec<ScheduleEntry> = Vec::new();
        let mut i: usize = 0;
        while i < n
            invariant
                i <= n,
                n == self.schedule@.len(),
                r@ =~= self.schedule@.take(i as int),
            decreases n - i,
        {
            r.push(self.schedule[i]);
            i = i + 1;
        }
        assert(self.schedule@.take(n as int) =~= self.schedule@);
        r
    }

    /// (Re)sets the vesting lock on `who`'s account to what is still
    /// unvested of `who`'s vesting balance at `now`; once nothing is left
    /// unvested, lifts the lock and `who` stops vesting.
    pub fn update_lock(&mut self, who: AccountId, now: Schedule) -> (r: CallResult)
        ensures
            final(self).config_view() == old(self).config_view(),
            final(self).schedule_view() == old(self).schedule_view(),
            outcome(r) == lock_update_outcome(
                old(self).balances_view(),
                old(self).schedule_view(),
                who,
                now,
            ),
            final(self).balances_view() == balances_after_lock_update(
                old(self).balances_view(),
                old(self).schedule_view(),
                who,
                now,
            ),
    {
        proof {
            use_type_invariant(&*self);
        }
        let vesting = match self.balances.get(&who) {
            Some(v) => *v,
            None => {
                return Err(DispatchError::Module(Error::NotVesting));
            },
        };
        let portion = vested_portion(&self.schedule, now);
        let whole = percent_from_percent(100);
        let unvested = percent_mul(percent_sub(whole, portion), vesting);
        proof {
            crate::percent::lemma_percent_of_at_most((100 - portion) as nat, vesting as nat);
        }
        if unvested == 0 {
            let mut balances: HashMap<AccountId, Balance> = HashMap::new();
            std::mem::swap(&mut balances, &mut self.balances);
            balances.remove(&who);
            proof {
                assert(balances@ =~= old(self).balances@.remove(who));
            }
            self.balances = balances;
            Ok(
                vec![
                    Effect::RemoveLock { id: VESTING_ID, who },
                    Effect::Deposit(Event::VestingCompleted(who)),
                ],
            )
        } else {
            Ok(
                vec![
                    Effect::SetLock { id: VESTING_ID, who, amount: unvested, reasons: LOCK_REASONS },
                    Effect::Deposit(Event::VestingUpdated(who, unvested)),
                ],
            )
        }
    }

    /// Makes `locked`, just received by `who`, vest along the schedule, and
    /// locks what of it is still unvested at `now`. Nothing happens for a
    /// zero amount; an account that is already vesting is refused.
    pub fn add_vesting_schedule(&mut self, who: AccountId, locked: Balance, now: Schedule) -> (r:
        CallResult)
        ensures
            final(self).config_view() == old(self).config_view(),
            final(self).schedule_view() == old(self).schedule_view(),
            outcome(r) == add_schedule_outcome(
                old(self).balances_view(),
                old(self).schedule_view(),
                who,
                locked,
                now,
            ),
            final(self).balances_view() == balances_after_add(
                old(self).balances_view(),
                old(self).schedule_view(),
                who,
                locked,
                now,
            ),
    {
        proof {
            use_type_invariant(&*self);
        }
        if locked == 0 {
            return Ok(Vec::new());
        }
        if self.balances.contains_key(&who) {
            return Err(DispatchError::Module(Error::ExistingVestingSchedule));
        }
        let mut balances: HashMap<AccountId, Balance> = HashMap::new();
        std::mem::swap(&mut balances, &mut self.balances);
        balances.insert(who, locked);
        self.balances = balances;
        self.update_lock(who, now)
    }

    /// Unlocks whatever of the caller's vesting balance has vested by `now`.
    /// The caller must be signed and vesting, and `now` must not come before
    /// the schedule's first date.
    pub fn vest(&mut self, origin: Origin, now: Schedule) -> (r: CallResult)
        ensures
            final(self).config_view() == old(self).config_view(),
            final(self).schedule_view() == old(self).schedule_view(),
            outcome(r) == vest_outcome(
                old(self).balances_view(),
                old(self).schedule_view(),
                origin,
                now,
            ),
            final(self).balances_view() == balances_after_vest(
                old(self).balances_view(),
                old(self).schedule_view(),
                origin,
                now,
            ),
    {
        let who = match origin {
            Origin::Signed(who) => who,
            _ => {
                return Err(DispatchError::BadOrigin);
            },
        };
        if self.schedule.len() > 0 && now < self.schedule[0].1 {
            return Err(DispatchError::Module(Error::ClaimTooEarly));
        }
        self.update_lock(who, now)
    }

    /// The first step of a vested transfer: the signed caller, whose free
    /// balance is `free_balance`, asks to send `locked_amount` to `target`
    /// (`None` when the target could not be looked up), which is then to vest
    /// along the schedule. The amount must reach the configured minimum and
    /// the caller's free balance, and the target must not be vesting already.
    /// Answers the transfer that the runtime is to make; changes nothing.
    pub fn vested_transfer(
        &self,
        origin: Origin,
        target: Option<AccountId>,
        locked_amount: Balance,
        free_balance: Balance,
    ) -> (r: Result<Transfer, DispatchError>)
        ensures
            r == vested_transfer_outcome(
                self.balances_view(),
                self.config_view(),
                origin,
                target,
                locked_amount,
                free_balance,
            ),
    {
        let from = match origin {
            Origin::Signed(who) => who,
            _ => {
                return Err(DispatchError::BadOrigin);
            },
        };
        if locked_amount < self.config.min_vested_transfer {
            return Err(DispatchError::Module(Error::AmountLow));
        }
        if free_balance < locked_amount {
            return Err(DispatchError::Module(Error::BalanceLow));
        }
        let to = match target {
            Some(to) => to,
            None => {
                return Err(DispatchError::CannotLookup);
            },
        };
        if self.balances.contains_key(&to) {
            return Err(DispatchError::Module(Error::ExistingVestingSchedule));
        }
        Ok(Transfer { from, to, amount: locked_amount })
    }

    /// The second step of a vested transfer, right after the runtime tried
    /// `transfer`: if the funds moved (`transferred`), they vest on the
    /// receiving account, and what of them is unvested at `now` is locked;
    /// if not, the call fails and nothing changes.
    pub fn complete_vested_transfer(
        &mut self,
        transfer: Transfer,
        transferred: bool,
        now: Schedule,
    ) -> (r: CallResult)
        ensures
            final(self).config_view() == old(self).config_view(),
            final(self).schedule_view() == old(self).schedule_view(),
            outcome(r) == transfer_completion_outcome(
                old(self).balances_view(),
                old(self).schedule_view(),
                transfer,
                transferred,
                now,
            ),
            final(self).balances_view() == balances_after_transfer_completion(
                old(self).balances_view(),
                old(self).schedule_view(),
                transfer,
                transferred,
                now,
            ),
    {
        if !transferred {
            return Err(DispatchError::Currency);
        }
        self.add_vesting_schedule(transfer.to, transfer.amount, now)
    }

    /// Replaces the schedule's dates with `new_schedule`, entry by entry,
    /// keeping the shares. Only the root origin may do so; the new dates must
    /// be `SCHEDULE_LENGTH` in number, as many as the entries, each later
    /// than the one before it, and none before `now`.
    pub fn update_vesting_schedule(
        &mut self,
        origin: Origin,
        new_schedule: Vec<Schedule>,
        now: Schedule,
    ) -> (r: CallResult)
        ensures
            final(self).config_view() == old(self).config_view(),
            final(self).balances_view() == old(self).balances_view(),
            outcome(r) == schedule_update_outcome(
                old(self).schedule_view(),
                origin,
                new_schedule@,
                Event::VestingScheduleUpdated(new_schedule),
                now,
            ),
            final(self).schedule_view() == schedule_after_update(
                old(self).schedule_view(),
                origin,
                new_schedule@,
                now,
            ),
    {
        proof {
            use_type_invariant(&*self);
        }
        match origin {
            Origin::Root => {},
            _ => {
                return Err(DispatchError::BadOrigin);
            },
        }
        if new_schedule.len() != SCHEDULE_LENGTH || new_schedule.len() != self.schedule.len() {
            return Err(DispatchError::Module(Error::InvalidScheduleLength));
        }
        if !is_strictly_increasing(&new_schedule) {
            return Err(DispatchError::Module(Error::UnsortedSchedule));
        }
        if !is_none_before(&new_schedule, now) {
            return Err(DispatchError::Module(Error::InvalidTimestamp));
        }
        let mut schedule: Vec<ScheduleEntry> = Vec::new();
        std::mem::swap(&mut schedule, &mut self.schedule);
        replace_timestamps(&mut schedule, &new_schedule);
        proof {
            assert(timestamps(schedule@) =~= new_schedule@);
        }
        self.schedule = schedule;
        let ghost event = Event::VestingScheduleUpdated(new_schedule);
        let effects = vec![Effect::Deposit(Event::VestingScheduleUpdated(new_schedule))];
        assert(effects@ =~= seq![Effect::Deposit(event)]);
        Ok(effects)
    }
}

} // verus!
