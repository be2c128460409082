//! From a time grid and yearly statistics to the parameters of the per-tick
//! sampling distribution.
use crate::error::ConfigError;
use crate::grid::{grid_verdict, TimeGridSpec};
use crate::scalar::{is_from_usize, is_gt, is_int_power, is_ln, is_quotient, is_sqrt, Scalar};
use vstd::prelude::*;

verus! {

/// The length of a year in seconds.
pub const SECONDS_PER_YEAR: usize = 31556952;

/// What a series of per-tick returns is generated from.
#[derive(Debug, PartialEq)]
pub struct GenReturnsArgs<T> {
    /// The time from the first point to the last, in seconds, unless the
    /// interval is given.
    pub total_seconds: Option<usize>,
    /// The time between two points, in seconds, unless the total is given.
    pub interval_seconds: Option<usize>,
    /// How many points to generate, equally spaced in time.
    pub num_points: usize,
    /// The geometric mean of the yearly return: one for a flat series.
    pub yearly_mean: T,
    /// The geometric standard deviation of the yearly return.
    pub yearly_stddev: T,
    /// The seed of the random numbers, for a series that can be generated
    /// again.
    pub seed: Option<u64>,
}

/// The parameters of the log-normal distribution that one tick is drawn from.
#[derive(Debug, PartialEq)]
pub struct SamplingConfig<T> {
    /// The mean of the logarithm of a per-tick return.
    pub tick_mu: T,
    /// The standard deviation of the logarithm of a per-tick return.
    pub tick_sigma: T,
    /// How many ticks make a year.
    pub ticks_per_year: T,
}

/// `verdict` is an answer that the operations of `T` can give to whether `x`
/// is strictly greater than zero.
pub open spec fn is_positive<T: Scalar>(x: T, verdict: bool) -> bool {
    exists|zero: T| is_from_usize(0, zero) && is_gt(x, zero, verdict)
}

/// `r` is a value that the operations of `T` can give for the number of ticks
/// in a year: `SECONDS_PER_YEAR / interval`.
pub open spec fn is_ticks_per_year<T: Scalar>(interval: T, r: T) -> bool {
    exists|year: T| is_from_usize(SECONDS_PER_YEAR, year) && is_quotient(year, interval, r)
}

/// `r` is a value that the operations of `T` can give for the drift of one
/// tick, which grows with time: `ln(mean) / ticks_per_year`.
pub open spec fn is_tick_mu<T: Scalar>(mean: T, ticks_per_year: T, r: T) -> bool {
    exists|yearly_mu: T| is_ln(mean, yearly_mu) && is_quotient(yearly_mu, ticks_per_year, r)
}

/// `r` is a value that the operations of `T` can give for the volatility of
/// one tick, which grows with the square root of time:
/// `sqrt(ln(stddev)^2 / ticks_per_year)`.
pub open spec fn is_tick_sigma<T: Scalar>(stddev: T, ticks_per_year: T, r: T) -> bool {
    exists|yearly_sigma: T, yearly_variance: T, tick_variance: T|
        is_ln(stddev, yearly_sigma) && is_int_power(yearly_sigma, 2, yearly_variance)
            && is_quotient(yearly_variance, ticks_per_year, tick_variance) && is_sqrt(
            tick_variance,
            r,
        )
}

/// `config` holds values that the operations of `T` can give for a grid with
/// `interval` seconds between two points and the yearly statistics `mean` and
/// `stddev`, the drift and the volatility being scaled by the same number of
/// ticks per year.
pub open spec fn derives_sampling<T: Scalar>(
    interval: T,
    mean: T,
    stddev: T,
    config: SamplingConfig<T>,
) -> bool {
    &&& is_ticks_per_year(interval, config.ticks_per_year)
    &&& is_tick_mu(mean, config.ticks_per_year, config.tick_mu)
    &&& is_tick_sigma(stddev, config.ticks_per_year, config.tick_sigma)
}

/// `r` is an answer that [`sampling_config`] can give for `args`.
///
/// A grid that is not acceptable is rejected for the reason that
/// [`grid_verdict`] gives. Then the mean is tested, then the standard
/// deviation: one that is not strictly positive is rejected under its own
/// name. Everything else is accepted, with a configuration derived from the
/// interval of the grid.
pub open spec fn sampling_outcome<T: Scalar>(
    args: GenReturnsArgs<T>,
    r: Result<SamplingConfig<T>, ConfigError>,
) -> bool {
    match grid_verdict(args.total_seconds, args.interval_seconds, args.num_points) {
        Err(e) => r == Err::<SamplingConfig<T>, ConfigError>(e),
        Ok(grid) => exists|mean_ok: bool|
            is_positive(args.yearly_mean, mean_ok) && if !mean_ok {
                r == Err::<SamplingConfig<T>, ConfigError>(ConfigError::NonPositiveMean)
            } else {
                exists|stddev_ok: bool|
                    is_positive(args.yearly_stddev, stddev_ok) && if !stddev_ok {
                        r == Err::<SamplingConfig<T>, ConfigError>(
                            ConfigError::NonPositiveStddev,
                        )
                    } else {
                        r is Ok && exists|interval: T|
                            grid.interval_is(interval) && derives_sampling(
                                interval,
                                args.yearly_mean,
                                args.yearly_stddev,
                                r->Ok_0,
                            )
                    }
            },
    }
}

impl<T: Scalar> GenReturnsArgs<T> {
    /// The time grid of these arguments, or why they describe none.
    pub fn grid(&self) -> (r: Result<TimeGridSpec, ConfigError>)
        ensures
            r == grid_verdict(self.total_seconds, self.interval_seconds, self.num_points),
            r is Ok ==> r->Ok_0.wf() && r->Ok_0.points() == self.num_points,
    {
        TimeGridSpec::new(self.total_seconds, self.interval_seconds, self.num_points)
    }
}

/// Whether `x` is strictly greater than zero.
pub fn positive<T: Scalar>(x: T) -> (verdict: bool)
    ensures
        is_positive(x, verdict),
{
    let zero: T = T::from_usize(0);
    x.gt(zero)
}

/// The sampling parameters for a grid with `interval` seconds between two
/// points and the yearly statistics `mean` and `stddev`.
pub fn derive_sampling<T: Scalar>(interval: T, mean: T, stddev: T) -> (config: SamplingConfig<T>)
    ensures
        derives_sampling(interval, mean, stddev, config),
{
    let yearly_mu: T = mean.ln();
    let yearly_sigma: T = stddev.ln();
    let year: T = T::from_usize(SECONDS_PER_YEAR);
    let ticks_per_year: T = year.div(interval);
    let tick_mu: T = yearly_mu.div(ticks_per_year);
    let yearly_variance: T = yearly_sigma.powi(2);
    let tick_variance: T = yearly_variance.div(ticks_per_year);
    let tick_sigma: T = tick_variance.sqrt();
    SamplingConfig { tick_mu, tick_sigma, ticks_per_year }
}

/// The sampling parameters for `args`, or why `args` are rejected.
pub fn sampling_config<T: Scalar>(args: &GenReturnsArgs<T>) -> (r: Result<
    SamplingConfig<T>,
    ConfigError,
>)
    ensures
        sampling_outcome(*args, r),
{
    let grid = match args.grid() {
        Ok(grid) => grid,
        Err(e) => {
            return Err(e);
        },
    };
    if !positive(args.yearly_mean) {
        return Err(ConfigError::NonPositiveMean);
    }
    if !positive(args.yearly_stddev) {
        return Err(ConfigError::NonPositiveStddev);
    }
    let interval: T = grid.interval_seconds();
    Ok(derive_sampling(interval, args.yearly_mean, args.yearly_stddev))
}

} // verus!
