//! The peaking filter.
use crate::arith::{minus, negated, one, over, plus, times};
use crate::filters::biquad::{Coefficients, DigitalBiquadFilter};
use crate::filters::design::{angular_terms, shelf_amplitude};
use crate::filters::filter::{BiquadFilterWrapper, Filter};
use crate::filters::filter_configuration::FilterConfiguration;
use num_traits::{Float, FloatConst};
use vstd::prelude::*;

verus! {

/// A peaking (bell) biquad with `gain` dB at its centre.
#[derive(Debug, Clone)]
pub struct PeakingFilter<T> {
    filter: DigitalBiquadFilter<T>,
    config: FilterConfiguration<T>,
}

impl<T: Float + FloatConst + Copy> PeakingFilter<T> {
    /// A peaking filter centred on `cutoff` Hz for `sample_rate` Hz with the
    /// given Q factor and gain (dB), not bypassed; `None` where the
    /// parameters are out of range.
    pub fn new(cutoff: T, sample_rate: u32, q_factor: T, gain: T) -> (r: Option<Self>)
        ensures
            sample_rate == 0 ==> r is None,
            r matches Some(f) ==> {
                &&& f.configuration()@.cutoff == cutoff
                &&& f.configuration()@.sample_rate == sample_rate
                &&& f.configuration()@.q_factor == q_factor
                &&& f.configuration()@.gain == gain
                &&& !f.configuration()@.constant_skirt_gain
                &&& !f.configuration()@.bypass
                &&& f.engine().is_fresh()
            },
    {
        let config = FilterConfiguration::new(cutoff, sample_rate, q_factor, gain, false, false);
        let coefficients = Self::calculate_coefficients(&config)?;
        let filter = DigitalBiquadFilter::new(coefficients)?;
        Some(Self { filter, config })
    }
}

impl<T: Copy> BiquadFilterWrapper<T> for PeakingFilter<T> {
    closed spec fn wrapped_filter(&self) -> DigitalBiquadFilter<T> {
        self.filter
    }

    closed spec fn wrapped_config(&self) -> FilterConfiguration<T> {
        self.config
    }

    fn get_filter(&mut self) -> (r: &mut DigitalBiquadFilter<T>) {
        &mut self.filter
    }

    fn get_config(&self) -> (r: &FilterConfiguration<T>) {
        &self.config
    }

    fn get_config_mut(&mut self) -> (r: &mut FilterConfiguration<T>) {
        &mut self.config
    }

    /// With `A = 10^(gain / 40)`: `b0 = 1 + alpha A`, `b1 = a1 = -2 cos w0`,
    /// `b2 = 1 - alpha A`, `a0 = 1 + alpha / A`, `a2 = 1 - alpha / A`.
    fn calculate_coefficients(config: &FilterConfiguration<T>) -> (r: Option<Coefficients<T>>)
        where
            T: Float + FloatConst,
        ensures
            r matches Some(c) ==> c.b1 == c.a1,
    {
        let (cos_w0, alpha) = angular_terms(config)?;
        let a = shelf_amplitude(config.get_gain())?;
        let one = one();
        let two = plus(one, one);
        let middle = negated(times(two, cos_w0));
        let alpha_times_a = times(alpha, a);
        let alpha_over_a = over(alpha, a);
        Some(Coefficients {
            b0: plus(one, alpha_times_a),
            b1: middle,
            b2: minus(one, alpha_times_a),
            a0: plus(one, alpha_over_a),
            a1: middle,
            a2: minus(one, alpha_over_a),
        })
    }
}

} // verus!
