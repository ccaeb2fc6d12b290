//! Laws of the digit type: what holds of its conversions and of its
//! operations for every digit, each proved once for all callers.

use crate::digits::second_value;
use crate::digits::Digits;
use vstd::prelude::*;
use vstd::std_specs::convert::FromSpec;

verus! {

/// `times` is multiplication by the digit's number.
pub proof fn lemma_times_is_product(d: Digits, n: nat)
    ensures
        d.times(n) == d@ * n,
{
    assert(d.times(n) == d@ * n) by (nonlinear_arith)
        requires
            d@ == 0 ==> d.times(n) == 0,
            d@ == 1 ==> d.times(n) == n,
            d@ == 2 ==> d.times(n) == 2 * n,
            d@ == 3 ==> d.times(n) == 3 * n,
            d@ == 4 ==> d.times(n) == 4 * n,
            d@ == 5 ==> d.times(n) == 5 * n,
            d@ == 6 ==> d.times(n) == 6 * n,
            d@ == 7 ==> d.times(n) == 7 * n,
            d@ == 8 ==> d.times(n) == 8 * n,
            d@ == 9 ==> d.times(n) == 9 * n,
            d@ <= 9,
    ;
}

/// The law of multiplication. The pair that `multiply` gives for `a` and `b`
/// holds the two digits of the product of their numbers: first its units,
/// then its tens, which never go beyond eight.
pub proof fn lemma_multiply_gives_product(a: Digits, b: Digits, r: (Digits, Option<Digits>))
    requires
        r.0@ + 10 * second_value(r.1) == a.times(b@),
    ensures
        r.0@ + 10 * second_value(r.1) == a@ * b@,
        r.0@ == (a@ * b@) % 10,
        second_value(r.1) == (a@ * b@) / 10,
        second_value(r.1) <= 8,
{
    lemma_times_is_product(a, b@);
}

/// `of_nat` keeps every number up to nine and cuts larger ones down to nine.
pub proof fn lemma_of_nat_value(n: nat)
    ensures
        Digits::of_nat(n)@ == if n <= 9 { n } else { 9 },
{
}

/// Turning a digit into its number and the number back into a digit gives
/// the digit that one started from.
pub proof fn lemma_value_round_trip(d: Digits)
    ensures
        d@ <= 9,
        Digits::of_nat(d@) == d,
        Digits::from_spec(d@ as u128) == d,
{
}

} // verus!
