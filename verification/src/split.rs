use vstd::prelude::*;

use crate::errors::PayError;

verus! {

/// The even division of an attached payment over the recipient count.
///
/// Invariant (stated by [`split`]): `slice * count + remainder == amount`
/// and `remainder < count`.  The remainder is retained by the operating
/// account by design; it is never redistributed.
#[derive(Clone, Copy, Debug, PartialEq, Eq, Structural)]
pub struct Disbursement {
    /// The per-recipient share: the amount floor-divided by the count.
    pub slice: u128,
    /// The non-distributable rest, smaller than the recipient count.
    pub remainder: u128,
}

/// Computes the even per-recipient share of `amount` over `count`
/// recipients, with floor division; the remainder stays behind.
///
/// Fails with `DivisionByZero` on a zero count.  The validator rejects an
/// empty recipient set before funds are committed, so that branch is a
/// defensive invariant check, not a reachable path of the full pipeline.
pub fn split(amount: u128, count: usize) -> (r: Result<Disbursement, PayError>)
    ensures
        match r {
            Ok(d) => {
                &&& count > 0
                &&& d.slice == amount as int / count as int
                &&& d.remainder == amount as int % count as int
                &&& d.slice * count + d.remainder == amount
                &&& d.remainder < count
            },
            Err(e) => e == PayError::DivisionByZero && count == 0,
        },
{
    if count == 0 {
        return Err(PayError::DivisionByZero);
    }
    let slice: u128 = amount / (count as u128);
    let remainder: u128 = amount % (count as u128);
    proof {
        vstd::arithmetic::div_mod::lemma_fundamental_div_mod(amount as int, count as int);
        vstd::arithmetic::div_mod::lemma_mod_bound(amount as int, count as int);
        vstd::arithmetic::mul::lemma_mul_is_commutative(slice as int, count as int);
    }
    Ok(Disbursement { slice, remainder })
}

} // verus!
