//! The high-shelf filter.
use crate::arith::{minus, negated, one, plus, square_root, times};
use crate::filters::biquad::{Coefficients, DigitalBiquadFilter};
use crate::filters::design::{angular_terms, shelf_amplitude};
use crate::filters::filter::{BiquadFilterWrapper, Filter};
use crate::filters::filter_configuration::FilterConfiguration;
use num_traits::{Float, FloatConst};
use vstd::prelude::*;

verus! {

/// A high-shelf biquad: `gain` dB above the shelf frequency.
#[derive(Debug, Clone)]
pub struct HighShelfFilter<T> {
    filter: DigitalBiquadFilter<T>,
    config: FilterConfiguration<T>,
}

impl<T: Float + FloatConst + Copy> HighShelfFilter<T> {
    /// A high shelf at `cutoff` Hz for `sample_rate` Hz with the given Q
    /// factor and gain (dB), not bypassed; `None` where the parameters are
    /// out of range.
    pub fn new(cutoff: T, sample_rate: u32, q_factor: T, gain: T) -> (r: Option<Self>)
        ensures
            sample_rate == 0 ==> r is None,
            r matches Some(f) ==> {
                &&& f.configuration()@.cutoff == cutoff
                &&& f.configuration()@.sample_rate == sample_rate
                &&& f.configuration()@.q_factor == q_factor
                &&& f.configuration()@.gain == gain
                &&& !f.configuration()@.constant_skirt_gain
                &&& !f.configuration()@.bypass
                &&& f.engine().is_fresh()
            },
    {
        let config = FilterConfiguration::new(cutoff, sample_rate, q_factor, gain, false, false);
        let coefficients = Self::calculate_coefficients(&config)?;
        let filter = DigitalBiquadFilter::new(coefficients)?;
        Some(Self { filter, config })
    }
}

impl<T: Copy> BiquadFilterWrapper<T> for HighShelfFilter<T> {
    closed spec fn wrapped_filter(&self) -> DigitalBiquadFilter<T> {
        self.filter
    }

    closed spec fn wrapped_config(&self) -> FilterConfiguration<T> {
        self.config
    }

    fn get_filter(&mut self) -> (r: &mut DigitalBiquadFilter<T>) {
        &mut self.filter
    }

    fn get_config(&self) -> (r: &FilterConfiguration<T>) {
        &self.config
    }

    fn get_config_mut(&mut self) -> (r: &mut FilterConfiguration<T>) {
        &mut self.config
    }

    /// With `A = 10^(gain / 40)` and `k = 2 sqrt(A) alpha`:
    /// `b0 = A((A+1) + (A-1) cos w0 + k)`, `b1 = -2A((A-1) + (A+1) cos w0)`,
    /// `b2 = A((A+1) + (A-1) cos w0 - k)`, `a0 = (A+1) - (A-1) cos w0 + k`,
    /// `a1 = 2((A-1) - (A+1) cos w0)`, `a2 = (A+1) - (A-1) cos w0 - k`.
    fn calculate_coefficients(config: &FilterConfiguration<T>) -> (r: Option<Coefficients<T>>)
        where
            T: Float + FloatConst,
    {
        let (cos_w0, alpha) = angular_terms(config)?;
        let a = shelf_amplitude(config.get_gain())?;
        let one = one();
        let two = plus(one, one);
        let a_plus = plus(a, one);
        let a_minus = minus(a, one);
        let k = times(times(two, square_root(a)), alpha);
        let rising = plus(a_plus, times(a_minus, cos_w0));
        let falling = minus(a_plus, times(a_minus, cos_w0));
        Some(Coefficients {
            b0: times(a, plus(rising, k)),
            b1: negated(times(times(two, a), plus(a_minus, times(a_plus, cos_w0)))),
            b2: times(a, minus(rising, k)),
            a0: plus(falling, k),
            a1: times(two, minus(a_minus, times(a_plus, cos_w0))),
            a2: minus(falling, k),
        })
    }
}

} // verus!
