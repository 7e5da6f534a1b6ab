//! The steps every cookbook formula shares: parameter checks, the angular
//! frequency, and the shelf amplitude.
use crate::arith::{at_most, cosine, from_u32, one, over, pi, plus, power, sine, times, zero};
use crate::filters::filter_configuration::FilterConfiguration;
use num_traits::{Float, FloatConst};
use vstd::prelude::*;

verus! {

/// `cos(w0)` and `alpha = sin(w0) / (2 Q)` for `w0 = 2 pi cutoff / sample_rate`;
/// `None` where the cutoff or the Q factor is not positive or the sample
/// rate is zero.
pub(crate) fn angular_terms<T: Float + FloatConst>(config: &FilterConfiguration<T>) -> (r: Option<(T, T)>)
    ensures
        config@.sample_rate == 0 ==> r is None,
{
    let cutoff = config.get_cutoff();
    let sample_rate = config.get_sample_rate();
    let q = config.get_q_factor();
    let z = zero();
    if at_most(cutoff, z) || sample_rate == 0 || at_most(q, z) {
        return None;
    }
    let rate = from_u32(sample_rate)?;
    let two = plus(one(), one());
    let w0 = over(times(times(two, pi()), cutoff), rate);
    let alpha = over(sine(w0), times(two, q));
    Some((cosine(w0), alpha))
}

/// The shelf and peak amplitude `A = 10^(gain / 40)`; `None` where `T`
/// cannot hold the constants.
pub(crate) fn shelf_amplitude<T: Float>(gain: T) -> Option<T> {
    let ten = from_u32(10)?;
    let forty = from_u32(40)?;
    Some(power(ten, over(gain, forty)))
}

} // verus!
