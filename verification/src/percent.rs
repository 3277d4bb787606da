//! Shares of a balance, counted in parts per hundred.
//!
//! The arithmetic is that of `sp_runtime::Percent`; each operation below
//! converts its plain `u8` operands into a `Percent`, makes one call into
//! `sp_runtime`, and converts the result back.
use vstd::prelude::*;
use sp_runtime::traits::Saturating;
use sp_runtime::Percent;

verus! {

/// `value * parts / 100`, rounded to the nearest integer, a tie rounded down.
pub open spec fn percent_of(parts: nat, value: nat) -> nat {
    let x = parts * value;
    x / 100 + if x % 100 > 50 { 1nat } else { 0nat }
}

/// `a + b`, capped at a whole.
pub open spec fn saturating_parts(a: nat, b: nat) -> nat {
    if a + b <= 100 { a + b } else { 100 }
}

/// `Percent::from_percent(x)`: the share of `x` parts, capped at a whole.
/// The contract claims that the parts of the result are `min(x, 100)`.
#[verifier::external_body]
pub(crate) fn percent_from_percent(x: u8) -> (r: u8)
    ensures
        r == if x <= 100 { x } else { 100u8 },
{
    Percent::from_percent(x).deconstruct()
}

/// `Percent::default()`: the contract claims that it has no parts.
#[verifier::external_body]
pub(crate) fn percent_default() -> (r: u8)
    ensures
        r == 0,
{
    Percent::default().deconstruct()
}

/// `Saturating::saturating_add` of two `Percent`s: the contract claims the
/// sum of the parts, capped at a whole.
#[verifier::external_body]
pub(crate) fn percent_saturating_add(a: u8, b: u8) -> (r: u8)
    requires
        a <= 100,
        b <= 100,
    ensures
        r == saturating_parts(a as nat, b as nat),
{
    Percent::from_parts(a).saturating_add(Percent::from_parts(b)).deconstruct()
}

/// `Percent - Percent`: the contract claims the difference of the parts,
/// for operands whose difference is not negative (`sp_runtime` subtracts the
/// inner `u8`s with `-`).
#[verifier::external_body]
pub(crate) fn percent_sub(a: u8, b: u8) -> (r: u8)
    requires
        b <= a <= 100,
    ensures
        r == a - b,
{
    (Percent::from_parts(a) - Percent::from_parts(b)).deconstruct()
}

/// `Percent * u128`: the contract claims `value * parts / 100` rounded to the
/// nearest integer with a tie rounded down, which is what the crate's
/// `overflow_prune_mul` with `Rounding::NearestPrefDown` computes.
#[verifier::external_body]
pub(crate) fn percent_mul(parts: u8, value: u128) -> (r: u128)
    requires
        parts <= 100,
    ensures
        r == percent_of(parts as nat, value as nat),
{
    Percent::from_parts(parts) * value
}

/// A rounded share of a value is never more than the value.
pub proof fn lemma_percent_of_at_most(parts: nat, value: nat)
    requires
        parts <= 100,
    ensures
        percent_of(parts, value) <= value,
{
    lemma_percent_of_monotone(parts, 100, value);
    lemma_percent_of_whole(value);
}

/// A whole share of a value is the value.
pub proof fn lemma_percent_of_whole(value: nat)
    ensures
        percent_of(100, value) == value,
{
    assert((100 * value) / 100 == value && (100 * value) % 100 == 0) by (nonlinear_arith);
}

/// A larger share of the same value is never smaller.
pub proof fn lemma_percent_of_monotone(p: nat, q: nat, value: nat)
    requires
        p <= q,
    ensures
        percent_of(p, value) <= percent_of(q, value),
{
    assert(p * value <= q * value) by (nonlinear_arith)
        requires
            p <= q,
    ;
    lemma_round_monotone(p * value, q * value);
}

/// Rounding to the nearest hundredth, a tie down, keeps the order.
proof fn lemma_round_monotone(x: nat, y: nat)
    requires
        x <= y,
    ensures
        x / 100 + (if x % 100 > 50 { 1nat } else { 0nat }) <= y / 100 + (if y % 100 > 50 {
            1nat
        } else {
            0nat
        }),
{
}

/// No share of nothing, and nothing of any value, is anything.
pub proof fn lemma_percent_of_zero(parts: nat, value: nat)
    requires
        parts == 0 || value == 0,
    ensures
        percent_of(parts, value) == 0,
{
    assert(parts * value == 0) by (nonlinear_arith)
        requires
            parts == 0 || value == 0,
    ;
}

} // verus!
