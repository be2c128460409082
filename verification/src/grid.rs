//! The time grid of a simulation: how many points, and how far apart.
use crate::error::ConfigError;
use crate::scalar::{is_from_usize, is_product, is_quotient, Scalar};
use vstd::prelude::*;

verus! {

/// A time grid, given by the number of its points and by exactly one of two
/// times: the span of the whole grid or the distance between two points.
#[derive(Clone, Copy, Debug, PartialEq, Eq, Structural)]
pub enum TimeGridSpec {
    /// The grid spans `total_seconds` in all.
    Total { total_seconds: usize, num_points: usize },
    /// Two neighbouring points are `interval_seconds` apart.
    Interval { interval_seconds: usize, num_points: usize },
}

/// What [`TimeGridSpec::new`] answers: the grid for exactly one time, that
/// time and the number of points being positive, else the first of the
/// reasons against it.
pub open spec fn grid_verdict(
    total_seconds: Option<usize>,
    interval_seconds: Option<usize>,
    num_points: usize,
) -> Result<TimeGridSpec, ConfigError> {
    match (total_seconds, interval_seconds) {
        (Some(_), Some(_)) => Err(ConfigError::TimeGridConflict),
        (None, None) => Err(ConfigError::TimeGridMissing),
        (Some(t), None) => if t == 0 {
            Err(ConfigError::ZeroSeconds)
        } else if num_points == 0 {
            Err(ConfigError::ZeroPoints)
        } else {
            Ok(TimeGridSpec::Total { total_seconds: t, num_points })
        },
        (None, Some(s)) => if s == 0 {
            Err(ConfigError::ZeroSeconds)
        } else if num_points == 0 {
            Err(ConfigError::ZeroPoints)
        } else {
            Ok(TimeGridSpec::Interval { interval_seconds: s, num_points })
        },
    }
}

impl TimeGridSpec {
    /// The time that was given and the number of points are both positive.
    pub open spec fn wf(&self) -> bool {
        match *self {
            TimeGridSpec::Total { total_seconds, num_points } => total_seconds > 0 && num_points
                > 0,
            TimeGridSpec::Interval { interval_seconds, num_points } => interval_seconds > 0
                && num_points > 0,
        }
    }

    /// The number of points of the grid.
    pub open spec fn points(&self) -> nat {
        match *self {
            TimeGridSpec::Total { num_points, .. } => num_points as nat,
            TimeGridSpec::Interval { num_points, .. } => num_points as nat,
        }
    }

    /// The exact distance between two points, in seconds, as a fraction:
    /// numerator and denominator.
    pub open spec fn interval_fraction(&self) -> (nat, nat) {
        match *self {
            TimeGridSpec::Total { total_seconds, num_points } => (
                total_seconds as nat,
                num_points as nat,
            ),
            TimeGridSpec::Interval { interval_seconds, .. } => (interval_seconds as nat, 1),
        }
    }

    /// The exact span of the grid, in seconds.
    pub open spec fn span(&self) -> nat {
        match *self {
            TimeGridSpec::Total { total_seconds, .. } => total_seconds as nat,
            TimeGridSpec::Interval { interval_seconds, num_points } => (interval_seconds
                * num_points) as nat,
        }
    }

    /// `r` is a value that the operations of `T` can give for the distance
    /// between two points: the time itself where the interval was given, the
    /// span divided by the number of points where the span was.
    pub open spec fn interval_is<T: Scalar>(&self, r: T) -> bool {
        match *self {
            TimeGridSpec::Total { total_seconds, num_points } => exists|span: T, count: T|
                is_from_usize(total_seconds, span) && is_from_usize(num_points, count)
                    && is_quotient(span, count, r),
            TimeGridSpec::Interval { interval_seconds, .. } => is_from_usize(interval_seconds, r),
        }
    }

    /// `r` is a value that the operations of `T` can give for the span of the
    /// grid: the time itself where the span was given, the interval multiplied
    /// by the number of points where the interval was.
    pub open spec fn span_is<T: Scalar>(&self, r: T) -> bool {
        match *self {
            TimeGridSpec::Total { total_seconds, .. } => is_from_usize(total_seconds, r),
            TimeGridSpec::Interval { interval_seconds, num_points } => exists|
                interval: T,
                count: T,
            |
                is_from_usize(interval_seconds, interval) && is_from_usize(num_points, count)
                    && is_product(interval, count, r),
        }
    }

    /// Makes the grid from the two optional times and the number of points.
    pub fn new(
        total_seconds: Option<usize>,
        interval_seconds: Option<usize>,
        num_points: usize,
    ) -> (r: Result<TimeGridSpec, ConfigError>)
        ensures
            r == grid_verdict(total_seconds, interval_seconds, num_points),
            r is Ok ==> r->Ok_0.wf(),
    {
        match (total_seconds, interval_seconds) {
            (Some(_), Some(_)) => Err(ConfigError::TimeGridConflict),
            (None, None) => Err(ConfigError::TimeGridMissing),
            (Some(t), None) => {
                if t == 0 {
                    Err(ConfigError::ZeroSeconds)
                } else if num_points == 0 {
                    Err(ConfigError::ZeroPoints)
                } else {
                    Ok(TimeGridSpec::Total { total_seconds: t, num_points })
                }
            },
            (None, Some(s)) => {
                if s == 0 {
                    Err(ConfigError::ZeroSeconds)
                } else if num_points == 0 {
                    Err(ConfigError::ZeroPoints)
                } else {
                    Ok(TimeGridSpec::Interval { interval_seconds: s, num_points })
                }
            },
        }
    }

    /// The number of points of the grid.
    pub fn num_points(&self) -> (n: usize)
        ensures
            n == self.points(),
    {
        match *self {
            TimeGridSpec::Total { num_points, .. } => num_points,
            TimeGridSpec::Interval { num_points, .. } => num_points,
        }
    }

    /// The distance between two points, in seconds, computed in `T`.
    pub fn interval_seconds<T: Scalar>(&self) -> (r: T)
        ensures
            self.interval_is(r),
    {
        match *self {
            TimeGridSpec::Total { total_seconds, num_points } => {
                let span: T = T::from_usize(total_seconds);
                let count: T = T::from_usize(num_points);
                span.div(count)
            },
            TimeGridSpec::Interval { interval_seconds, .. } => T::from_usize(interval_seconds),
        }
    }

    /// The span of the grid, in seconds, computed in `T`.
    pub fn total_seconds<T: Scalar>(&self) -> (r: T)
        ensures
            self.span_is(r),
    {
        match *self {
            TimeGridSpec::Total { total_seconds, .. } => T::from_usize(total_seconds),
            TimeGridSpec::Interval { interval_seconds, num_points } => {
                let interval: T = T::from_usize(interval_seconds);
                let count: T = T::from_usize(num_points);
                interval.mul(count)
            },
        }
    }
}

/// The two grids have the same exact distance between two points: their
/// fractions are equal when multiplied across.
pub open spec fn same_interval(a: TimeGridSpec, b: TimeGridSpec) -> bool {
    a.interval_fraction().0 * b.interval_fraction().1 == b.interval_fraction().0
        * a.interval_fraction().1
}

/// A grid may be given either way. Where the number of points divides the
/// span evenly, the grid with that span and the grid with the quotient as its
/// interval are both accepted, and they have the same number of points, the
/// same exact interval and the same exact span.
pub proof fn lemma_grid_equivalence(total_seconds: usize, num_points: usize)
    requires
        total_seconds > 0,
        num_points > 0,
        total_seconds % num_points == 0,
    ensures
        grid_verdict(Some(total_seconds), None, num_points) is Ok,
        grid_verdict(None, Some((total_seconds / num_points) as usize), num_points) is Ok,
        ({
            let by_span = grid_verdict(Some(total_seconds), None, num_points)->Ok_0;
            let by_interval = grid_verdict(
                None,
                Some((total_seconds / num_points) as usize),
                num_points,
            )->Ok_0;
            &&& by_span.wf() && by_interval.wf()
            &&& by_span.points() == by_interval.points()
            &&& same_interval(by_span, by_interval)
            &&& by_span.span() == by_interval.span()
        }),
{
    let t = total_seconds as int;
    let n = num_points as int;
    assert(t == (t / n) * n && t / n > 0 && t / n <= t) by (nonlinear_arith)
        requires
            t > 0,
            n > 0,
            t % n == 0,
    ;
}

} // verus!
