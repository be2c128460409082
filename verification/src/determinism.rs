//! With arithmetic that gives one result for the same arguments, the same
//! input gives the same output.
use crate::error::ConfigError;
use crate::grid::{grid_verdict, TimeGridSpec};
use crate::leverage::{
    accumulated, floored_multipliers, is_floored_multiplier, is_leverage_offset, lowered, powers,
    running_products, LeveragePolicy,
};
use crate::sampling::{
    derives_sampling, is_positive, sampling_outcome, GenReturnsArgs, SamplingConfig,
};
use crate::scalar::{deterministic, is_product, Scalar};
use vstd::prelude::*;

verus! {

/// Two series of running products of the same factors from the same start
/// agree at every place.
proof fn lemma_running_products_agree<T: Scalar>(
    start: T,
    factors: Seq<T>,
    a: Seq<T>,
    b: Seq<T>,
    i: int,
)
    requires
        deterministic::<T>(),
        running_products(start, factors, a),
        running_products(start, factors, b),
        0 <= i < factors.len(),
    ensures
        a[i] == b[i],
    decreases i,
{
    if i > 0 {
        lemma_running_products_agree(start, factors, a, b, i - 1);
    }
}

/// The same factors from the same start have one series of running products.
pub proof fn lemma_running_products_unique<T: Scalar>(
    start: T,
    factors: Seq<T>,
    a: Seq<T>,
    b: Seq<T>,
)
    requires
        deterministic::<T>(),
        running_products(start, factors, a),
        running_products(start, factors, b),
    ensures
        a == b,
{
    assert forall|i: int| 0 <= i < a.len() implies a[i] == b[i] by {
        lemma_running_products_agree(start, factors, a, b, i);
    }
    assert(a =~= b);
}

/// One return and one factor have one floored multiplier.
pub proof fn lemma_floored_multiplier_unique<T: Scalar>(r: T, factor: T, a: T, b: T)
    requires
        deterministic::<T>(),
        is_floored_multiplier(r, factor, a),
        is_floored_multiplier(r, factor, b),
    ensures
        a == b,
{
}

/// One start value and one factor have one leverage offset.
pub proof fn lemma_leverage_offset_unique<T: Scalar>(start: T, factor: T, a: T, b: T)
    requires
        deterministic::<T>(),
        is_leverage_offset(start, factor, a),
        is_leverage_offset(start, factor, b),
    ensures
        a == b,
{
}

/// Two runs of the accumulation on the same returns, under the same policy
/// and from the same start value, give the same value series.
pub proof fn lemma_accumulate_deterministic<T: Scalar>(
    ticks: Seq<T>,
    policy: LeveragePolicy<T>,
    start: T,
    first: Seq<T>,
    second: Seq<T>,
)
    requires
        deterministic::<T>(),
        accumulated(ticks, policy, start, first),
        accumulated(ticks, policy, start, second),
    ensures
        first == second,
{
    match policy {
        LeveragePolicy::PassThrough => {},
        LeveragePolicy::Compound => {
            lemma_running_products_unique(start, ticks, first, second);
        },
        LeveragePolicy::ContinuousLeverage(factor) => {
            let given_a = choose|m: Seq<T>|
                powers(ticks, factor, m) && running_products(start, m, first);
            let given_b = choose|m: Seq<T>|
                powers(ticks, factor, m) && running_products(start, m, second);
            assert(given_a =~= given_b);
            lemma_running_products_unique(start, given_a, first, second);
        },
        LeveragePolicy::PointwiseLeverage(factor) => {
            let given_a = choose|m: Seq<T>|
                floored_multipliers(ticks, factor, m) && running_products(start, m, first);
            let given_b = choose|m: Seq<T>|
                floored_multipliers(ticks, factor, m) && running_products(start, m, second);
            assert forall|i: int| 0 <= i < ticks.len() implies given_a[i] == given_b[i] by {
                lemma_floored_multiplier_unique(ticks[i], factor, given_a[i], given_b[i]);
            }
            assert(given_a =~= given_b);
            lemma_running_products_unique(start, given_a, first, second);
        },
        LeveragePolicy::InitialLeverage(factor) => {
            let (principal_a, offset_a, run_a) = choose|p: T, o: T, run: Seq<T>|
                is_product(start, factor, p) && is_leverage_offset(start, factor, o)
                    && running_products(p, ticks, run) && lowered(run, o, first);
            let (principal_b, offset_b, run_b) = choose|p: T, o: T, run: Seq<T>|
                is_product(start, factor, p) && is_leverage_offset(start, factor, o)
                    && running_products(p, ticks, run) && lowered(run, o, second);
            lemma_leverage_offset_unique(start, factor, offset_a, offset_b);
            lemma_running_products_unique(principal_a, ticks, run_a, run_b);
            assert(first =~= second);
        },
    }
}

/// Two derivations of the sampling parameters from the same interval and the
/// same yearly statistics give the same parameters.
pub proof fn lemma_derive_sampling_deterministic<T: Scalar>(
    interval: T,
    mean: T,
    stddev: T,
    first: SamplingConfig<T>,
    second: SamplingConfig<T>,
)
    requires
        deterministic::<T>(),
        derives_sampling(interval, mean, stddev, first),
        derives_sampling(interval, mean, stddev, second),
    ensures
        first == second,
{
}

/// A grid has one interval.
pub proof fn lemma_interval_unique<T: Scalar>(grid: TimeGridSpec, a: T, b: T)
    requires
        deterministic::<T>(),
        grid.interval_is(a),
        grid.interval_is(b),
    ensures
        a == b,
{
}

/// Two runs on the same arguments answer alike: both reject them for the same
/// reason, or both derive the same sampling parameters.
pub proof fn lemma_sampling_deterministic<T: Scalar>(
    args: GenReturnsArgs<T>,
    first: Result<SamplingConfig<T>, ConfigError>,
    second: Result<SamplingConfig<T>, ConfigError>,
)
    requires
        deterministic::<T>(),
        sampling_outcome(args, first),
        sampling_outcome(args, second),
    ensures
        first == second,
{
    match grid_verdict(args.total_seconds, args.interval_seconds, args.num_points) {
        Err(_) => {},
        Ok(grid) => {
            let mean_ok = choose|ok: bool| is_positive(args.yearly_mean, ok);
            let stddev_ok = choose|ok: bool| is_positive(args.yearly_stddev, ok);
            if mean_ok && stddev_ok {
                let interval_a = choose|i: T|
                    grid.interval_is(i) && derives_sampling(
                        i,
                        args.yearly_mean,
                        args.yearly_stddev,
                        first->Ok_0,
                    );
                let interval_b = choose|i: T|
                    grid.interval_is(i) && derives_sampling(
                        i,
                        args.yearly_mean,
                        args.yearly_stddev,
                        second->Ok_0,
                    );
                lemma_interval_unique(grid, interval_a, interval_b);
                lemma_derive_sampling_deterministic(
                    interval_a,
                    args.yearly_mean,
                    args.yearly_stddev,
                    first->Ok_0,
                    second->Ok_0,
                );
            }
        },
    }
}

} // verus!
