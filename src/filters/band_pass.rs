//! The band-pass filter.
use crate::arith::{minus, negated, one, plus, times, zero};
use crate::filters::biquad::{Coefficients, DigitalBiquadFilter};
use crate::filters::design::{angular_terms};
use crate::filters::filter::{BiquadFilterWrapper, Filter};
use crate::filters::filter_configuration::FilterConfiguration;
use num_traits::{Float, FloatConst};
use vstd::prelude::*;

verus! {

/// A band-pass biquad, with constant skirt gain (peak gain Q) or with a
/// constant 0 dB peak gain.
#[derive(Debug, Clone)]
pub struct BandPassFilter<T> {
    filter: DigitalBiquadFilter<T>,
    config: FilterConfiguration<T>,
}

impl<T: Float + FloatConst + Copy> BandPassFilter<T> {
    /// A band-pass centred on `cutoff` Hz for `sample_rate` Hz with the given
    /// Q factor and skirt mode, not bypassed; `None` where the parameters are
    /// out of range.
    pub fn new(cutoff: T, sample_rate: u32, q_factor: T, constant_skirt_gain: bool) -> (r: Option<Self>)
        ensures
            sample_rate == 0 ==> r is None,
            r matches Some(f) ==> {
                &&& f.configuration()@.cutoff == cutoff
                &&& f.configuration()@.sample_rate == sample_rate
                &&& f.configuration()@.q_factor == q_factor
                &&& f.configuration()@.constant_skirt_gain == constant_skirt_gain
                &&& !f.configuration()@.bypass
                &&& f.engine().is_fresh()
            },
    {
        let config = FilterConfiguration::new(cutoff, sample_rate, q_factor, zero(), constant_skirt_gain, false);
        let coefficients = Self::calculate_coefficients(&config)?;
        let filter = DigitalBiquadFilter::new(coefficients)?;
        Some(Self { filter, config })
    }
}

impl<T: Copy> BiquadFilterWrapper<T> for BandPassFilter<T> {
    closed spec fn wrapped_filter(&self) -> DigitalBiquadFilter<T> {
        self.filter
    }

    closed spec fn wrapped_config(&self) -> FilterConfiguration<T> {
        self.config
    }

    fn get_filter(&mut self) -> (r: &mut DigitalBiquadFilter<T>) {
        &mut self.filter
    }

    fn get_config(&self) -> (r: &FilterConfiguration<T>) {
        &self.config
    }

    fn get_config_mut(&mut self) -> (r: &mut FilterConfiguration<T>) {
        &mut self.config
    }

    /// With constant skirt gain `b0 = Q alpha`, else `b0 = alpha`; `b1 = 0`,
    /// `b2 = -b0`, `a0 = 1 + alpha`, `a1 = -2 cos w0`, `a2 = 1 - alpha`.
    fn calculate_coefficients(config: &FilterConfiguration<T>) -> (r: Option<Coefficients<T>>)
        where
            T: Float + FloatConst,
    {
        let (cos_w0, alpha) = angular_terms(config)?;
        let one = one();
        let two = plus(one, one);
        let b0 = if config.get_constant_skirt_gain() {
            times(config.get_q_factor(), alpha)
        } else {
            alpha
        };
        Some(Coefficients {
            b0,
            b1: zero(),
            b2: negated(b0),
            a0: plus(one, alpha),
            a1: negated(times(two, cos_w0)),
            a2: minus(one, alpha),
        })
    }
}

} // verus!
