//! What the value series of each policy is, value by value: the product of
//! the start and of all the returns so far.
use crate::leverage::{
    accumulated, floored_multipliers, is_floored_multiplier, is_leverage_offset, lowered,
    powers, running_products, LeveragePolicy,
};
use crate::scalar::{is_difference, is_from_usize, is_max, is_product, Scalar};
use vstd::prelude::*;

verus! {

/// `r` is a value that the operations of `T` can give for `start` multiplied
/// by each of `factors` in turn, from the first to the last.
pub open spec fn is_product_of<T: Scalar>(start: T, factors: Seq<T>, r: T) -> bool
    decreases factors.len(),
{
    if factors.len() == 0 {
        r == start
    } else {
        exists|before: T|
            #![trigger is_product(before, factors.last(), r)]
            is_product_of(start, factors.drop_last(), before) && is_product(
                before,
                factors.last(),
                r,
            )
    }
}

/// `r` is a value that the operations of `T` can give for the product of
/// `start` and of `factors`, less `offset`.
pub open spec fn is_lowered_product_of<T: Scalar>(
    start: T,
    factors: Seq<T>,
    offset: T,
    r: T,
) -> bool {
    exists|run: T| is_product_of(start, factors, run) && is_difference(run, offset, r)
}

/// In a series of running products, the value at each place is the product of
/// the start and of the factors up to that place.
pub proof fn lemma_running_product<T: Scalar>(start: T, factors: Seq<T>, out: Seq<T>, i: int)
    requires
        running_products(start, factors, out),
        0 <= i < factors.len(),
    ensures
        is_product_of(start, factors.take(i + 1), out[i]),
    decreases i,
{
    let upto = factors.take(i + 1);
    assert(upto.len() == i + 1);
    assert(upto.drop_last() == factors.take(i));
    assert(upto.last() == factors[i]);
    let before = if i == 0 {
        start
    } else {
        out[i - 1]
    };
    if i > 0 {
        lemma_running_product(start, factors, out, i - 1);
    }
    assert(is_product_of(start, upto.drop_last(), before) && is_product(
        before,
        upto.last(),
        out[i],
    ));
}

/// Under plain compounding, the value after each return is the start value
/// multiplied by all the returns so far.
pub proof fn lemma_compound_identity<T: Scalar>(ticks: Seq<T>, start: T, out: Seq<T>)
    requires
        accumulated(ticks, LeveragePolicy::Compound, start, out),
    ensures
        out.len() == ticks.len(),
        forall|i: int|
            0 <= i < ticks.len() ==> is_product_of(start, ticks.take(i + 1), #[trigger] out[i]),
{
    assert forall|i: int| 0 <= i < ticks.len() implies is_product_of(
        start,
        ticks.take(i + 1),
        #[trigger] out[i],
    ) by {
        lemma_running_product(start, ticks, out, i);
    }
}

/// Under continuous leverage, the value after each return is the start value
/// multiplied by all the returns so far, each raised to the power of the
/// factor.
pub proof fn lemma_continuous_identity<T: Scalar>(
    ticks: Seq<T>,
    factor: T,
    start: T,
    out: Seq<T>,
)
    requires
        accumulated(ticks, LeveragePolicy::ContinuousLeverage(factor), start, out),
    ensures
        out.len() == ticks.len(),
        exists|raised: Seq<T>|
            powers(ticks, factor, raised) && forall|i: int|
                0 <= i < ticks.len() ==> is_product_of(
                    start,
                    raised.take(i + 1),
                    #[trigger] out[i],
                ),
{
    let raised = choose|raised: Seq<T>|
        powers(ticks, factor, raised) && running_products(start, raised, out);
    assert forall|i: int| 0 <= i < ticks.len() implies is_product_of(
        start,
        raised.take(i + 1),
        #[trigger] out[i],
    ) by {
        lemma_running_product(start, raised, out, i);
    }
}

/// Under pointwise leverage, the value after each return is the start value
/// multiplied by the floored multipliers of all the returns so far.
pub proof fn lemma_pointwise_identity<T: Scalar>(
    ticks: Seq<T>,
    factor: T,
    start: T,
    out: Seq<T>,
)
    requires
        accumulated(ticks, LeveragePolicy::PointwiseLeverage(factor), start, out),
    ensures
        out.len() == ticks.len(),
        exists|multipliers: Seq<T>|
            floored_multipliers(ticks, factor, multipliers) && forall|i: int|
                0 <= i < ticks.len() ==> is_product_of(
                    start,
                    multipliers.take(i + 1),
                    #[trigger] out[i],
                ),
{
    let multipliers = choose|multipliers: Seq<T>|
        floored_multipliers(ticks, factor, multipliers) && running_products(
            start,
            multipliers,
            out,
        );
    assert forall|i: int| 0 <= i < ticks.len() implies is_product_of(
        start,
        multipliers.take(i + 1),
        #[trigger] out[i],
    ) by {
        lemma_running_product(start, multipliers, out, i);
    }
}

/// Under initial leverage, the value after each return is the principal, which
/// is the start value multiplied by the factor, multiplied by all the returns
/// so far, less the offset `start * (factor - 1)`.
pub proof fn lemma_initial_identity<T: Scalar>(ticks: Seq<T>, factor: T, start: T, out: Seq<T>)
    requires
        accumulated(ticks, LeveragePolicy::InitialLeverage(factor), start, out),
    ensures
        out.len() == ticks.len(),
        exists|principal: T, offset: T|
            is_product(start, factor, principal) && is_leverage_offset(start, factor, offset)
                && forall|i: int|
                0 <= i < ticks.len() ==> is_lowered_product_of(
                    principal,
                    ticks.take(i + 1),
                    offset,
                    #[trigger] out[i],
                ),
{
    let (principal, offset, run) = choose|principal: T, offset: T, run: Seq<T>|
        is_product(start, factor, principal) && is_leverage_offset(start, factor, offset)
            && running_products(principal, ticks, run) && lowered(run, offset, out);
    assert forall|i: int| 0 <= i < ticks.len() implies is_lowered_product_of(
        principal,
        ticks.take(i + 1),
        offset,
        #[trigger] out[i],
    ) by {
        lemma_running_product(principal, ticks, run, i);
        assert(is_product_of(principal, ticks.take(i + 1), run[i]) && is_difference(
            run[i],
            offset,
            out[i],
        ));
    }
}

/// The multiplier of a tick under pointwise leverage is what `max` gives for
/// some value and zero: it is as far from falling below zero as `max` keeps
/// its result from falling below its second argument.
pub proof fn lemma_pointwise_multiplier_is_max_with_zero<T: Scalar>(r: T, factor: T, m: T)
    requires
        is_floored_multiplier(r, factor, m),
    ensures
        exists|raw: T, zero: T| is_from_usize(0, zero) && is_max(raw, zero, m),
{
}

} // verus!
