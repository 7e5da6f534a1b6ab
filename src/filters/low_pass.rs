//! The low-pass filter.
use crate::arith::{minus, negated, one, over, plus, times, zero};
use crate::filters::biquad::{Coefficients, DigitalBiquadFilter};
use crate::filters::design::angular_terms;
use crate::filters::filter::{BiquadFilterWrapper, Filter};
use crate::filters::filter_configuration::FilterConfiguration;
use num_traits::{Float, FloatConst};
use vstd::prelude::*;

verus! {

/// A low-pass biquad.
#[derive(Debug, Clone)]
pub struct LowPassFilter<T> {
    filter: DigitalBiquadFilter<T>,
    config: FilterConfiguration<T>,
}

impl<T: Float + FloatConst + Copy> LowPassFilter<T> {
    /// A low-pass at `cutoff` Hz for `sample_rate` Hz with the given Q
    /// factor, not bypassed; `None` where the parameters are out of range.
    pub fn new(cutoff: T, sample_rate: u32, q_factor: T) -> (r: Option<Self>)
        ensures
            sample_rate == 0 ==> r is None,
            r matches Some(f) ==> {
                &&& f.configuration()@.cutoff == cutoff
                &&& f.configuration()@.sample_rate == sample_rate
                &&& f.configuration()@.q_factor == q_factor
                &&& !f.configuration()@.constant_skirt_gain
                &&& !f.configuration()@.bypass
                &&& f.engine().is_fresh()
            },
    {
        let config = FilterConfiguration::new(cutoff, sample_rate, q_factor, zero(), false, false);
        let coefficients = Self::calculate_coefficients(&config)?;
        let filter = DigitalBiquadFilter::new(coefficients)?;
        Some(Self { filter, config })
    }
}

impl<T: Copy> BiquadFilterWrapper<T> for LowPassFilter<T> {
    closed spec fn wrapped_filter(&self) -> DigitalBiquadFilter<T> {
        self.filter
    }

    closed spec fn wrapped_config(&self) -> FilterConfiguration<T> {
        self.config
    }

    fn get_filter(&mut self) -> (r: &mut DigitalBiquadFilter<T>) {
        &mut self.filter
    }

    fn get_config(&self) -> (r: &FilterConfiguration<T>) {
        &self.config
    }

    fn get_config_mut(&mut self) -> (r: &mut FilterConfiguration<T>) {
        &mut self.config
    }

    /// `b0 = b2 = (1 - cos w0) / 2`, `b1 = 1 - cos w0`, `a0 = 1 + alpha`,
    /// `a1 = -2 cos w0`, `a2 = 1 - alpha`.
    fn calculate_coefficients(config: &FilterConfiguration<T>) -> (r: Option<Coefficients<T>>)
        where
            T: Float + FloatConst,
        ensures
            r matches Some(c) ==> c.b2 == c.b0,
    {
        let (cos_w0, alpha) = angular_terms(config)?;
        let one = one();
        let two = plus(one, one);
        let b1 = minus(one, cos_w0);
        let b0 = over(b1, two);
        Some(Coefficients {
            b0,
            b1,
            b2: b0,
            a0: plus(one, alpha),
            a1: negated(times(two, cos_w0)),
            a2: minus(one, alpha),
        })
    }
}

} // verus!
