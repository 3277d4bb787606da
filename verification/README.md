# vesting

A token-vesting pallet, verified with Verus.

A vesting schedule lists dates and the share of every vesting balance that is
released on each. Accounts receive vesting balances by vested transfers; a
lock on the account holds what is still unvested, and each claim resets the
lock to what the schedule leaves unvested at the claim's time, lifting it
once everything has vested. The chain's root may move the schedule's dates.

Layout:

- `src/percent.rs`: shares in parts per hundred, computed with
  `sp_runtime::Percent` behind small trusted wrappers whose contracts state
  the crate's arithmetic (rounded multiplication, saturating addition).
- `src/schedule.rs`: the schedule, its default, the checks on new dates and
  the released share at a given time.
- `src/pallet.rs`: the pallet's state, with its invariant, and its calls
  (`update_vesting_schedule`, `vest`, `vested_transfer` with
  `complete_vested_transfer`, and the lock update behind them). A call takes
  the current time, the sender's free balance and the looked-up target as
  arguments and answers with the effects (lock, event) that the runtime is
  to carry out. A vested transfer answers the transfer to make; only once
  told that it went through does the pallet record the vesting balance.
- `src/laws.rs`: properties across calls and over time, such as that the
  locked amount never grows as time passes.
- `app/lib.rs`: a runtime around the pallet that supplies time, balances and
  lookups, makes the transfers and carries out the effects. It is ordinary,
  unverified Rust.

Two collections are held as plain values. The schedule is a `Vec` of
`(share, date)` pairs, not a `BoundedVec`: its bound here is a runtime
parameter (`Config::max_schedule_length`), not a type implementing the
outside `Get<u32>` trait, through which verified code cannot call; the
pallet's invariant holds the bound instead, together with the schedule
having no entry or seven. The vesting balances, which a runtime would keep in
storage, are a `HashMap` from account to balance.
