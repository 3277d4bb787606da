//! Token vesting: a schedule of dates at which shares of a locked balance
//! are released, and the accounts whose balances vest along it.
pub mod percent;
pub mod schedule;
pub mod pallet;
pub mod laws;
pub mod call_laws;
