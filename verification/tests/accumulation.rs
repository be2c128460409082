use finsim::error::ConfigError;
use finsim::leverage::{accumulate, pointwise_multiplier, AccumulateArgs, LeveragePolicy};
use finsim::scalar::Scalar;

#[derive(Clone, Copy, Debug, PartialEq)]
struct Real(f64);

impl Scalar for Real {
    fn from_usize(n: usize) -> Self {
        Real(n as f64)
    }

    fn add(self, rhs: Self) -> Self {
        Real(self.0 + rhs.0)
    }

    fn sub(self, rhs: Self) -> Self {
        Real(self.0 - rhs.0)
    }

    fn mul(self, rhs: Self) -> Self {
        Real(self.0 * rhs.0)
    }

    fn div(self, rhs: Self) -> Self {
        Real(self.0 / rhs.0)
    }

    fn ln(self) -> Self {
        Real(self.0.ln())
    }

    fn sqrt(self) -> Self {
        Real(self.0.sqrt())
    }

    fn powi(self, n: i32) -> Self {
        Real(self.0.powi(n))
    }

    fn powf(self, exponent: Self) -> Self {
        Real(self.0.powf(exponent.0))
    }

    fn max(self, other: Self) -> Self {
        Real(self.0.max(other.0))
    }

    fn gt(self, rhs: Self) -> bool {
        self.0 > rhs.0
    }
}

fn reals(values: &[f64]) -> Vec<Real> {
    values.iter().map(|v| Real(*v)).collect()
}

fn floats(values: Vec<Real>) -> Vec<f64> {
    values.into_iter().map(|v| v.0).collect()
}

fn sample() -> Vec<f64> {
    vec![1.04, 1.01, 0.99, 0.98, 1.05, 1.1, 0.4]
}

fn approx_eq(a: f64, b: f64) -> bool {
    (a - b).abs() < 1.0e-6
}

#[test]
fn main_accumulate_test() {
    let returns: Vec<f64> = vec![1.04, 1.01, 0.99, 0.98, 1.05, 1.1, 0.4];
    let res = floats(LeveragePolicy::Compound.accumulate(reals(&returns), Real(100.0)));
    assert_eq!(vec![
        100.0 * 1.04,
        100.0 * 1.04 * 1.01,
        100.0 * 1.04 * 1.01 * 0.99,
        100.0 * 1.04 * 1.01 * 0.99 * 0.98,
        100.0 * 1.04 * 1.01 * 0.99 * 0.98 * 1.05,
        100.0 * 1.04 * 1.01 * 0.99 * 0.98 * 1.05 * 1.1,
        100.0 * 1.04 * 1.01 * 0.99 * 0.98 * 1.05 * 1.1 * 0.4,
    ], res);
}

#[test]
fn returns_accumulate_test() {
    let args = AccumulateArgs {
        accumulate: true,
        start_value: Real(100.0),
        continuous_leverage: None,
        pointwise_leverage: None,
        initial_leverage: None,
    };
    let returns: Vec<f64> = vec![1.04, 1.01, 0.99, 0.98, 1.05, 1.1, 0.4];
    let res = floats(accumulate(reals(&returns), &args));
    assert_eq!(vec![
        100.0 * 1.04,
        100.0 * 1.04 * 1.01,
        100.0 * 1.04 * 1.01 * 0.99,
        100.0 * 1.04 * 1.01 * 0.99 * 0.98,
        100.0 * 1.04 * 1.01 * 0.99 * 0.98 * 1.05,
        100.0 * 1.04 * 1.01 * 0.99 * 0.98 * 1.05 * 1.1,
        100.0 * 1.04 * 1.01 * 0.99 * 0.98 * 1.05 * 1.1 * 0.4,
    ], res);
}

#[test]
fn accumulate_with_continuous_leverage_test() {
    let leverage = 5.0;
    let args = AccumulateArgs {
        accumulate: true,
        start_value: Real(1.0),
        continuous_leverage: Some(Real(leverage)),
        pointwise_leverage: None,
        initial_leverage: None,
    };
    let returns: Vec<f64> = vec![1.04, 1.01, 0.99, 0.98, 1.05, 1.1, 0.4];
    let leveraged_returns: Vec<f64> = returns.clone().iter().map(|r| r.powf(leverage)).collect();
    let res = floats(accumulate(reals(&returns), &args));
    assert_eq!(vec![
        1.0 * leveraged_returns.iter().take(1).product::<f64>(),
        1.0 * leveraged_returns.iter().take(2).product::<f64>(),
        1.0 * leveraged_returns.iter().take(3).product::<f64>(),
        1.0 * leveraged_returns.iter().take(4).product::<f64>(),
        1.0 * leveraged_returns.iter().take(5).product::<f64>(),
        1.0 * leveraged_returns.iter().take(6).product::<f64>(),
        1.0 * leveraged_returns.iter().take(7).product::<f64>(),
    ], res);
}

#[test]
fn accumulate_with_initial_leverage_test() {
    let leverage = 5.0;
    let args = AccumulateArgs {
        accumulate: true,
        start_value: Real(10.0),
        continuous_leverage: None,
        pointwise_leverage: None,
        initial_leverage: Some(Real(leverage)),
    };
    let returns: Vec<f64> = vec![1.04, 1.01, 0.99, 0.98, 1.05, 1.1, 0.4];
    let res = floats(accumulate(reals(&returns), &args));
    assert_eq!(res.len(), returns.len());
    let mut ret_product = 1.0;
    for (ret, acc) in std::iter::zip(returns, res) {
        ret_product *= ret;
        assert!(approx_eq(50.0 * ret_product - 40.0, acc));
    }
}

#[test]
fn without_accumulation_the_returns_pass_through() {
    let args = AccumulateArgs {
        accumulate: false,
        start_value: Real(100.0),
        continuous_leverage: Some(Real(5.0)),
        pointwise_leverage: None,
        initial_leverage: None,
    };
    assert_eq!(args.policy(), Ok(LeveragePolicy::PassThrough));
    assert_eq!(floats(accumulate(reals(&sample()), &args)), sample());
    assert_eq!(
        floats(LeveragePolicy::PassThrough.accumulate(reals(&sample()), Real(3.0))),
        sample()
    );
}

#[test]
fn every_policy_keeps_the_length() {
    let policies = [
        LeveragePolicy::PassThrough,
        LeveragePolicy::Compound,
        LeveragePolicy::ContinuousLeverage(Real(2.0)),
        LeveragePolicy::PointwiseLeverage(Real(2.0)),
        LeveragePolicy::InitialLeverage(Real(2.0)),
    ];
    for policy in policies.iter() {
        for n in 0..sample().len() {
            let out = policy.accumulate(reals(&sample()[..n]), Real(10.0));
            assert_eq!(out.len(), n);
        }
    }
}

#[test]
fn an_empty_series_gives_an_empty_series() {
    let policies = [
        LeveragePolicy::PassThrough,
        LeveragePolicy::Compound,
        LeveragePolicy::ContinuousLeverage(Real(2.0)),
        LeveragePolicy::PointwiseLeverage(Real(2.0)),
        LeveragePolicy::InitialLeverage(Real(2.0)),
    ];
    for policy in policies.iter() {
        assert_eq!(policy.accumulate(Vec::new(), Real(10.0)), Vec::new());
    }
}

#[test]
fn compounding_multiplies_the_start_by_every_return_so_far() {
    let out = floats(LeveragePolicy::Compound.accumulate(reals(&[2.0, 0.5, 3.0, 1.0]), Real(7.0)));
    assert_eq!(out, vec![14.0, 7.0, 21.0, 21.0]);
    let start = 0.3;
    let out = floats(LeveragePolicy::Compound.accumulate(reals(&sample()), Real(start)));
    let mut product = start;
    for (i, r) in sample().iter().enumerate() {
        product = product * r;
        assert_eq!(out[i], product);
    }
}

#[test]
fn continuous_leverage_raises_every_return_to_the_factor() {
    let policy = LeveragePolicy::ContinuousLeverage(Real(2.0));
    let out = floats(policy.accumulate(reals(&[2.0, 0.5, 3.0]), Real(10.0)));
    assert_eq!(out, vec![40.0, 10.0, 90.0]);
    let factor = -1.5;
    let out = floats(
        LeveragePolicy::ContinuousLeverage(Real(factor)).accumulate(reals(&sample()), Real(3.0)),
    );
    let mut product = 3.0;
    for (i, r) in sample().iter().enumerate() {
        product = product * r.powf(factor);
        assert_eq!(out[i], product);
    }
}

#[test]
fn continuous_leverage_of_zero_is_flat() {
    let policy = LeveragePolicy::ContinuousLeverage(Real(0.0));
    let out = floats(policy.accumulate(reals(&sample()), Real(12.5)));
    assert_eq!(out, vec![12.5; 7]);
}

#[test]
fn pointwise_leverage_multiplies_the_excess_over_one() {
    let policy = LeveragePolicy::PointwiseLeverage(Real(2.0));
    let out = floats(policy.accumulate(reals(&[1.5, 0.75, 1.0, 0.25, 2.0]), Real(8.0)));
    assert_eq!(out, vec![16.0, 8.0, 8.0, 0.0, 0.0]);
    let factor = 3.0;
    let out = floats(
        LeveragePolicy::PointwiseLeverage(Real(factor)).accumulate(reals(&sample()), Real(100.0)),
    );
    let mut acc = 100.0;
    for (i, r) in sample().iter().enumerate() {
        acc = acc * (1.0 + ((r - 1.0) * factor)).max(0.0);
        assert_eq!(out[i], acc);
    }
    assert_eq!(out[6], 0.0);
}

#[test]
fn pointwise_multiplier_is_exact_on_exact_values() {
    assert_eq!(pointwise_multiplier(Real(1.5), Real(2.0)), Real(2.0));
    assert_eq!(pointwise_multiplier(Real(0.75), Real(2.0)), Real(0.5));
    assert_eq!(pointwise_multiplier(Real(1.0), Real(40.0)), Real(1.0));
    assert_eq!(pointwise_multiplier(Real(1.25), Real(0.0)), Real(1.0));
    assert_eq!(pointwise_multiplier(Real(1.25), Real(-2.0)), Real(0.5));
    assert_eq!(pointwise_multiplier(Real(0.5), Real(2.0)), Real(0.0));
}

#[test]
fn pointwise_multiplier_is_never_negative() {
    let returns = [0.0, 1.0e-300, 0.25, 0.5, 0.999, 1.0, 1.001, 2.0, 10.0, 1.0e300, f64::INFINITY];
    let factors = [-1.0e300, -10.0, -2.0, -1.0, -0.5, 0.0, 0.5, 1.0, 2.0, 10.0, 1.0e300];
    for r in returns.iter() {
        for f in factors.iter() {
            let m = pointwise_multiplier(Real(*r), Real(*f)).0;
            assert!(m >= 0.0);
            assert!(!m.is_sign_negative() || m == 0.0);
        }
    }
    assert_eq!(pointwise_multiplier(Real(0.25), Real(2.0)), Real(0.0));
    assert_eq!(pointwise_multiplier(Real(3.0), Real(-1.0)), Real(0.0));
    assert_eq!(pointwise_multiplier(Real(f64::NAN), Real(1.0)), Real(0.0));
}

#[test]
fn initial_leverage_compounds_the_levered_principal() {
    let policy = LeveragePolicy::InitialLeverage(Real(3.0));
    let out = floats(policy.accumulate(reals(&[2.0, 0.5, 0.25]), Real(10.0)));
    assert_eq!(out, vec![40.0, 10.0, -12.5]);
    let (start, factor) = (10.0, 5.0);
    let out = floats(
        LeveragePolicy::InitialLeverage(Real(factor)).accumulate(reals(&sample()), Real(start)),
    );
    let mut acc = start * factor;
    for (i, r) in sample().iter().enumerate() {
        acc = acc * r;
        assert_eq!(out[i], acc - start * (factor - 1.0));
    }
}

#[test]
fn initial_leverage_of_one_is_compounding() {
    let levered = LeveragePolicy::InitialLeverage(Real(1.0)).accumulate(reals(&sample()), Real(100.0));
    let plain = LeveragePolicy::Compound.accumulate(reals(&sample()), Real(100.0));
    assert_eq!(levered, plain);
}

#[test]
fn args_select_the_policy_of_the_one_factor() {
    let base = |c: Option<f64>, p: Option<f64>, i: Option<f64>| AccumulateArgs {
        accumulate: true,
        start_value: Real(1.0),
        continuous_leverage: c.map(Real),
        pointwise_leverage: p.map(Real),
        initial_leverage: i.map(Real),
    };
    assert_eq!(base(None, None, None).policy(), Ok(LeveragePolicy::Compound));
    assert_eq!(
        base(Some(2.0), None, None).policy(),
        Ok(LeveragePolicy::ContinuousLeverage(Real(2.0)))
    );
    assert_eq!(
        base(None, Some(-3.0), None).policy(),
        Ok(LeveragePolicy::PointwiseLeverage(Real(-3.0)))
    );
    assert_eq!(
        base(None, None, Some(0.0)).policy(),
        Ok(LeveragePolicy::InitialLeverage(Real(0.0)))
    );
}

#[test]
fn more_than_one_factor_is_a_conflict() {
    let base = |accumulate: bool, c: Option<f64>, p: Option<f64>, i: Option<f64>| AccumulateArgs {
        accumulate,
        start_value: Real(1.0),
        continuous_leverage: c.map(Real),
        pointwise_leverage: p.map(Real),
        initial_leverage: i.map(Real),
    };
    for accumulate in [true, false] {
        assert_eq!(
            base(accumulate, Some(2.0), Some(2.0), None).policy(),
            Err(ConfigError::LeverageConflict)
        );
        assert_eq!(
            base(accumulate, Some(2.0), None, Some(2.0)).policy(),
            Err(ConfigError::LeverageConflict)
        );
        assert_eq!(
            base(accumulate, None, Some(2.0), Some(2.0)).policy(),
            Err(ConfigError::LeverageConflict)
        );
        assert_eq!(
            base(accumulate, Some(1.0), Some(2.0), Some(3.0)).policy(),
            Err(ConfigError::LeverageConflict)
        );
    }
}

#[test]
fn accumulate_follows_the_selected_policy() {
    let args = AccumulateArgs {
        accumulate: true,
        start_value: Real(8.0),
        continuous_leverage: None,
        pointwise_leverage: Some(Real(2.0)),
        initial_leverage: None,
    };
    let policy = args.policy().unwrap();
    assert_eq!(
        accumulate(reals(&[1.5, 0.75, 1.0]), &args),
        policy.accumulate(reals(&[1.5, 0.75, 1.0]), Real(8.0))
    );
    assert_eq!(floats(accumulate(reals(&[1.5, 0.75, 1.0]), &args)), vec![16.0, 8.0, 8.0]);
}

#[test]
fn accumulating_twice_gives_the_same_series() {
    let policies = [
        LeveragePolicy::PassThrough,
        LeveragePolicy::Compound,
        LeveragePolicy::ContinuousLeverage(Real(1.7)),
        LeveragePolicy::PointwiseLeverage(Real(-2.5)),
        LeveragePolicy::InitialLeverage(Real(4.0)),
    ];
    for policy in policies.iter() {
        let first = policy.accumulate(reals(&sample()), Real(100.0));
        let second = policy.accumulate(reals(&sample()), Real(100.0));
        assert_eq!(first, second);
    }
}
