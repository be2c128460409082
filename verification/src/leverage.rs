//! Leverage policies, and the accumulation of a return series into a value
//! series under one of them.
use crate::error::ConfigError;
use crate::scalar::{
    is_difference, is_from_usize, is_max, is_power, is_product, is_sum, Scalar,
};
use vstd::prelude::*;

verus! {

/// How a series of per-tick returns becomes a series of values.
#[derive(Debug, PartialEq)]
pub enum LeveragePolicy<T> {
    /// The returns are handed on as they are.
    PassThrough,
    /// The value is multiplied by each return in turn.
    Compound,
    /// Leverage held constant between any two points: each return is raised
    /// to the power of the factor.
    ContinuousLeverage(T),
    /// Leverage restored at every point: the excess of each return over one
    /// is multiplied by the factor, and the multiplier is kept from falling
    /// below zero.
    PointwiseLeverage(T),
    /// Leverage taken once at the start and never restored.
    InitialLeverage(T),
}

/// Each value of `out` is the product of the value before it and the factor
/// at its place, the value before the first being `start`.
pub open spec fn running_products<T: Scalar>(start: T, factors: Seq<T>, out: Seq<T>) -> bool {
    &&& out.len() == factors.len()
    &&& forall|i: int|
        0 <= i < factors.len() ==> is_product(
            if i == 0 {
                start
            } else {
                out[i - 1]
            },
            factors[i],
            #[trigger] out[i],
        )
}

/// Each value of `raised` is the return at its place to the power `exponent`.
pub open spec fn powers<T: Scalar>(ticks: Seq<T>, exponent: T, raised: Seq<T>) -> bool {
    &&& raised.len() == ticks.len()
    &&& forall|i: int|
        0 <= i < ticks.len() ==> is_power(ticks[i], exponent, #[trigger] raised[i])
}

/// `m` is the multiplier of one tick with leverage restored at that tick:
/// `max(1 + (r - 1) * factor, 0)`.
pub open spec fn is_floored_multiplier<T: Scalar>(r: T, factor: T, m: T) -> bool {
    exists|zero: T, one: T, excess: T, levered: T, raw: T|
        is_from_usize(0, zero) && is_from_usize(1, one) && is_difference(r, one, excess)
            && is_product(excess, factor, levered) && is_sum(one, levered, raw) && is_max(
            raw,
            zero,
            m,
        )
}

/// Each value of `multipliers` is the floored multiplier of the return at its
/// place.
pub open spec fn floored_multipliers<T: Scalar>(
    ticks: Seq<T>,
    factor: T,
    multipliers: Seq<T>,
) -> bool {
    &&& multipliers.len() == ticks.len()
    &&& forall|i: int|
        0 <= i < ticks.len() ==> is_floored_multiplier(
            ticks[i],
            factor,
            #[trigger] multipliers[i],
        )
}

/// `offset` is what leverage taken at the start adds to the principal:
/// `start * (factor - 1)`.
pub open spec fn is_leverage_offset<T: Scalar>(start: T, factor: T, offset: T) -> bool {
    exists|one: T, surplus: T|
        is_from_usize(1, one) && is_difference(factor, one, surplus) && is_product(
            start,
            surplus,
            offset,
        )
}

/// Each value of `out` is the value of `run` at its place less `offset`.
pub open spec fn lowered<T: Scalar>(run: Seq<T>, offset: T, out: Seq<T>) -> bool {
    &&& out.len() == run.len()
    &&& forall|i: int| 0 <= i < run.len() ==> is_difference(run[i], offset, #[trigger] out[i])
}

/// `out` is the value series of the returns `ticks` under `policy`, from `start`.
pub open spec fn accumulated<T: Scalar>(
    ticks: Seq<T>,
    policy: LeveragePolicy<T>,
    start: T,
    out: Seq<T>,
) -> bool {
    match policy {
        LeveragePolicy::PassThrough => out == ticks,
        LeveragePolicy::Compound => running_products(start, ticks, out),
        LeveragePolicy::ContinuousLeverage(factor) => exists|raised: Seq<T>|
            powers(ticks, factor, raised) && running_products(start, raised, out),
        LeveragePolicy::PointwiseLeverage(factor) => exists|multipliers: Seq<T>|
            floored_multipliers(ticks, factor, multipliers) && running_products(
                start,
                multipliers,
                out,
            ),
        LeveragePolicy::InitialLeverage(factor) => exists|principal: T, offset: T, run: Seq<T>|
            is_product(start, factor, principal) && is_leverage_offset(start, factor, offset)
                && running_products(principal, ticks, run) && lowered(run, offset, out),
    }
}

/// The multiplier of one tick with leverage restored at that tick.
pub fn pointwise_multiplier<T: Scalar>(r: T, factor: T) -> (m: T)
    ensures
        is_floored_multiplier(r, factor, m),
{
    let zero: T = T::from_usize(0);
    let one: T = T::from_usize(1);
    let excess: T = r.sub(one);
    let levered: T = excess.mul(factor);
    let raw: T = one.add(levered);
    raw.max(zero)
}

/// The running products of `factors`, from `start`.
fn compound_from<T: Scalar>(start: T, factors: &Vec<T>) -> (out: Vec<T>)
    ensures
        running_products(start, factors@, out@),
{
    let mut out: Vec<T> = Vec::with_capacity(factors.len());
    let mut acc: T = start;
    let mut i: usize = 0;
    while i < factors.len()
        invariant
            i <= factors.len(),
            out.len() == i,
            acc == (if i == 0 {
                start
            } else {
                out@[i - 1]
            }),
            running_products(start, factors@.take(i as int), out@),
        decreases factors.len() - i,
    {
        acc = acc.mul(factors[i]);
        out.push(acc);
        i = i + 1;
    }
    assert(factors@.take(i as int) == factors@);
    out
}

/// Each return to the power `exponent`.
fn raise_each<T: Scalar>(ticks: &Vec<T>, exponent: T) -> (raised: Vec<T>)
    ensures
        powers(ticks@, exponent, raised@),
{
    let mut raised: Vec<T> = Vec::with_capacity(ticks.len());
    let mut i: usize = 0;
    while i < ticks.len()
        invariant
            i <= ticks.len(),
            powers(ticks@.take(i as int), exponent, raised@),
        decreases ticks.len() - i,
    {
        raised.push(ticks[i].powf(exponent));
        i = i + 1;
    }
    assert(ticks@.take(i as int) == ticks@);
    raised
}

/// The floored multiplier of each return.
fn floor_each<T: Scalar>(ticks: &Vec<T>, factor: T) -> (multipliers: Vec<T>)
    ensures
        floored_multipliers(ticks@, factor, multipliers@),
{
    let mut multipliers: Vec<T> = Vec::with_capacity(ticks.len());
    let mut i: usize = 0;
    while i < ticks.len()
        invariant
            i <= ticks.len(),
            floored_multipliers(ticks@.take(i as int), factor, multipliers@),
        decreases ticks.len() - i,
    {
        multipliers.push(pointwise_multiplier(ticks[i], factor));
        i = i + 1;
    }
    assert(ticks@.take(i as int) == ticks@);
    multipliers
}

/// Each value of `run` less `offset`.
fn lower_each<T: Scalar>(run: &Vec<T>, offset: T) -> (out: Vec<T>)
    ensures
        lowered(run@, offset, out@),
{
    let mut out: Vec<T> = Vec::with_capacity(run.len());
    let mut i: usize = 0;
    while i < run.len()
        invariant
            i <= run.len(),
            lowered(run@.take(i as int), offset, out@),
        decreases run.len() - i,
    {
        out.push(run[i].sub(offset));
        i = i + 1;
    }
    assert(run@.take(i as int) == run@);
    out
}

impl<T: Scalar> LeveragePolicy<T> {
    /// The value series of the returns `ticks` under this policy, from
    /// `start_value`: one value for each return, in the order of the returns.
    pub fn accumulate(&self, ticks: Vec<T>, start_value: T) -> (out: Vec<T>)
        ensures
            out.len() == ticks.len(),
            accumulated(ticks@, *self, start_value, out@),
    {
        match *self {
            LeveragePolicy::PassThrough => ticks,
            LeveragePolicy::Compound => compound_from(start_value, &ticks),
            LeveragePolicy::ContinuousLeverage(factor) => {
                let raised = raise_each(&ticks, factor);
                compound_from(start_value, &raised)
            },
            LeveragePolicy::PointwiseLeverage(factor) => {
                let multipliers = floor_each(&ticks, factor);
                compound_from(start_value, &multipliers)
            },
            LeveragePolicy::InitialLeverage(factor) => {
                let principal: T = start_value.mul(factor);
                let one: T = T::from_usize(1);
                let surplus: T = factor.sub(one);
                let offset: T = start_value.mul(surplus);
                let run = compound_from(principal, &ticks);
                lower_each(&run, offset)
            },
        }
    }
}

/// What a series of returns is accumulated with.
#[derive(Debug, PartialEq)]
pub struct AccumulateArgs<T> {
    /// Whether to accumulate at all.
    pub accumulate: bool,
    /// The value at the start, before the first return.
    pub start_value: T,
    /// The factor of a leverage that is held constant between any two points.
    pub continuous_leverage: Option<T>,
    /// The factor of a leverage that is restored at every point.
    pub pointwise_leverage: Option<T>,
    /// The factor of a leverage that is taken at the start and never restored.
    pub initial_leverage: Option<T>,
}

impl<T: Scalar> AccumulateArgs<T> {
    /// How many of the three leverage factors are given.
    pub open spec fn leverage_count(&self) -> nat {
        (if self.continuous_leverage is Some {
            1nat
        } else {
            0nat
        }) + (if self.pointwise_leverage is Some {
            1nat
        } else {
            0nat
        }) + (if self.initial_leverage is Some {
            1nat
        } else {
            0nat
        })
    }

    /// The policy that these arguments select where at most one leverage
    /// factor is given: none without accumulation, else the policy of the
    /// factor that is given, else plain compounding.
    pub open spec fn selected_policy(&self) -> LeveragePolicy<T> {
        if !self.accumulate {
            LeveragePolicy::PassThrough
        } else if let Some(factor) = self.continuous_leverage {
            LeveragePolicy::ContinuousLeverage(factor)
        } else if let Some(factor) = self.pointwise_leverage {
            LeveragePolicy::PointwiseLeverage(factor)
        } else if let Some(factor) = self.initial_leverage {
            LeveragePolicy::InitialLeverage(factor)
        } else {
            LeveragePolicy::Compound
        }
    }

    /// The policy that [`Self::selected_policy`] names.
    fn select(&self) -> (policy: LeveragePolicy<T>)
        ensures
            policy == self.selected_policy(),
    {
        if !self.accumulate {
            LeveragePolicy::PassThrough
        } else if let Some(factor) = self.continuous_leverage {
            LeveragePolicy::ContinuousLeverage(factor)
        } else if let Some(factor) = self.pointwise_leverage {
            LeveragePolicy::PointwiseLeverage(factor)
        } else if let Some(factor) = self.initial_leverage {
            LeveragePolicy::InitialLeverage(factor)
        } else {
            LeveragePolicy::Compound
        }
    }

    /// The policy that these arguments select, or the conflict where more
    /// than one leverage factor is given.
    pub fn policy(&self) -> (r: Result<LeveragePolicy<T>, ConfigError>)
        ensures
            self.leverage_count() > 1 ==> r == Err::<LeveragePolicy<T>, ConfigError>(
                ConfigError::LeverageConflict,
            ),
            self.leverage_count() <= 1 ==> r == Ok::<LeveragePolicy<T>, ConfigError>(
                self.selected_policy(),
            ),
    {
        let mut given: u8 = 0;
        if self.continuous_leverage.is_some() {
            given = given + 1;
        }
        if self.pointwise_leverage.is_some() {
            given = given + 1;
        }
        if self.initial_leverage.is_some() {
            given = given + 1;
        }
        if given > 1 {
            Err(ConfigError::LeverageConflict)
        } else {
            Ok(self.select())
        }
    }
}

/// The value series of the returns `ticks` under the policy that `args`
/// select: one value for each return, in the order of the returns.
pub fn accumulate<T: Scalar>(ticks: Vec<T>, args: &AccumulateArgs<T>) -> (out: Vec<T>)
    requires
        args.leverage_count() <= 1,
    ensures
        out.len() == ticks.len(),
        accumulated(ticks@, args.selected_policy(), args.start_value, out@),
{
    args.select().accumulate(ticks, args.start_value)
}

} // verus!
