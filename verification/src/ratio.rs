use crate::types::Balance;
use sp_runtime::{FixedPointNumber, FixedU128};
use vstd::prelude::*;

verus! {

/// The number of parts that make one whole in a [`Ratio`].
pub const ACCURACY: u128 = 1_000_000_000_000_000_000;

/// A fixed-point number that is not negative, with 18 decimal places: `inner`
/// counts parts of one in `ACCURACY`.
#[derive(Clone, Copy, Debug, PartialEq, Eq, Structural)]
pub struct Ratio {
    pub inner: u128,
}

impl Ratio {
    /// The ratio zero.
    pub fn zero() -> (r: Ratio)
        ensures
            r.inner == 0,
    {
        Ratio { inner: 0 }
    }
}

/// The parts of one in `ACCURACY` that the fraction `n / d` comes to.
///
/// The quotient is rounded down. Only where `n * ACCURACY` no longer fits in
/// 128 bits and `d` takes more than 32 bits it is rounded to the nearest
/// whole instead, a remainder of exactly half rounding down.
pub open spec fn rational_inner(n: nat, d: nat) -> nat
    recommends
        d > 0,
{
    let product = n * ACCURACY as nat;
    if product > u128::MAX && d >= 0x1_0000_0000 && product % d > d / 2 {
        product / d + 1
    } else {
        product / d
    }
}

/// The fraction `n / d` as a fixed-point number, where there is one: none for
/// a denominator of zero, and none where the number is too large.
pub open spec fn rational(n: Balance, d: Balance) -> Option<Ratio> {
    if d == 0 || rational_inner(n as nat, d as nat) > u128::MAX {
        None
    } else {
        Some(Ratio { inner: rational_inner(n as nat, d as nat) as u128 })
    }
}

/// The share of `amount` in `total`, and zero where that is no number.
pub open spec fn proportion(amount: Balance, total: Balance) -> Ratio {
    match rational(amount, total) {
        Some(ratio) => ratio,
        None => Ratio { inner: 0 },
    }
}

/// Calls `FixedU128::checked_from_rational` of `sp_runtime` and hands back the
/// inner value of the result.
///
/// The contract claims what the function's source shows. It answers `None`
/// for a denominator of zero. Otherwise it computes `n * ACCURACY / d` with
/// `multiply_by_rational` and answers `None` where that does not fit in 128
/// bits. `multiply_by_rational` divides exactly where 128 bits hold the
/// product (rounding down); beyond that it divides by a denominator of one
/// 32-bit limb rounding down, and by a longer one rounding up where the
/// remainder exceeds half the denominator.
#[verifier::external_body]
fn fixed_u128_from_rational(n: u128, d: u128) -> (r: Option<Ratio>)
    ensures
        r == rational(n, d),
{
    match FixedU128::checked_from_rational(n, d) {
        Some(fixed) => Some(Ratio { inner: fixed.into_inner() }),
        None => None,
    }
}

/// The fraction `n / d` as a fixed-point number, if there is one.
pub fn checked_from_rational(n: Balance, d: Balance) -> (r: Option<Ratio>)
    ensures
        r == rational(n, d),
        d == 0 ==> r is None,
{
    fixed_u128_from_rational(n, d)
}

/// The share of `amount` in `total_issuance`; zero where nothing was issued,
/// and where the share is too large a number.
pub fn debit_proportion(amount: Balance, total_issuance: Balance) -> (r: Ratio)
    ensures
        r == proportion(amount, total_issuance),
        total_issuance == 0 ==> r.inner == 0,
{
    match checked_from_rational(amount, total_issuance) {
        Some(ratio) => ratio,
        None => Ratio::zero(),
    }
}

} // verus!
