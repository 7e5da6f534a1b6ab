//! The behaviour every filter type shares: processing with bypass, and
//! configuration changes that recompute and swap the coefficients.
//!
//! A configuration change is all or nothing: where the new configuration
//! yields no coefficients, or coefficients the engine refuses, neither the
//! configuration nor the engine changes. A parameter that a filter type's
//! formula does not read (the gain of a low-pass, the skirt mode of a
//! shelf) is stored like any other and recomputes the same coefficients.
use crate::filters::biquad::{counted, run, step, Coefficients, DigitalBiquadFilter};
use crate::filters::filter_configuration::{FilterConfiguration, Settings};
use num_traits::{Float, FloatConst};
use vstd::prelude::*;

verus! {

/// What a filter type supplies: access to its engine and configuration,
/// and the formula from a configuration to coefficients.
pub trait BiquadFilterWrapper<T: Copy>: Sized {
    /// The engine the filter processes with.
    spec fn wrapped_filter(&self) -> DigitalBiquadFilter<T>;

    /// The configuration the engine's coefficients were computed from.
    spec fn wrapped_config(&self) -> FilterConfiguration<T>;

    /// The engine, for changing it.
    fn get_filter(&mut self) -> (r: &mut DigitalBiquadFilter<T>)
        ensures
            *r == old(self).wrapped_filter(),
            final(self).wrapped_filter() == *final(r),
            final(self).wrapped_config() == old(self).wrapped_config(),
    ;

    /// The configuration, for reading it.
    fn get_config(&self) -> (r: &FilterConfiguration<T>)
        ensures
            *r == self.wrapped_config(),
    ;

    /// The configuration, for changing it.
    fn get_config_mut(&mut self) -> (r: &mut FilterConfiguration<T>)
        ensures
            *r == old(self).wrapped_config(),
            final(self).wrapped_config() == *final(r),
            final(self).wrapped_filter() == old(self).wrapped_filter(),
    ;

    /// The coefficients for `config`, not yet divided by `a0`; `None` where
    /// the cutoff or the Q factor is not positive or the sample rate is zero.
    fn calculate_coefficients(config: &FilterConfiguration<T>) -> (r: Option<Coefficients<T>>)
        where
            T: Float + FloatConst,
        ensures
            config@.sample_rate == 0 ==> r is None,
    ;
}

/// Processing and configuration, the same for every filter type.
pub trait Filter<T: Copy>: Sized {
    /// The engine the filter processes with.
    spec fn engine(&self) -> DigitalBiquadFilter<T>;

    /// The configuration in force.
    spec fn configuration(&self) -> FilterConfiguration<T>;

    /// Filters one sample in place; with bypass set, the sample and the
    /// filter are left as they are.
    fn process(&mut self, sample: &mut T) -> (r: bool)
        where
            T: Float,
        ensures
            r,
            final(self).configuration() == old(self).configuration(),
            old(self).configuration()@.bypass ==> *final(sample) == *old(sample) && (final(self).engine() == old(self).engine() && final(self).configuration() == old(self).configuration()),
            !old(self).configuration()@.bypass ==> {
                &&& final(self).engine().active() == old(self).engine().active()
                &&& final(self).engine().history() == step(old(self).engine().history(), *old(sample), *final(sample))
                &&& final(self).engine().processed() == counted(old(self).engine().processed(), 1)
            },
    ;

    /// Filters a block in place, in order; with bypass set, succeeds and
    /// leaves the block and the filter as they are; otherwise fails on an
    /// empty block, changing nothing.
    fn process_block(&mut self, samples: &mut [T]) -> (r: bool)
        where
            T: Float,
        ensures
            final(samples)@.len() == old(samples)@.len(),
            final(self).configuration() == old(self).configuration(),
            old(self).configuration()@.bypass ==> r && final(samples)@ == old(samples)@ && (final(self).engine() == old(self).engine() && final(self).configuration() == old(self).configuration()),
            !old(self).configuration()@.bypass ==> {
                &&& r == (old(samples)@.len() > 0)
                &&& !r ==> final(samples)@ == old(samples)@ && (final(self).engine() == old(self).engine() && final(self).configuration() == old(self).configuration())
                &&& final(self).engine().active() == old(self).engine().active()
                &&& final(self).engine().history() == run(old(self).engine().history(), old(samples)@, final(samples)@, old(samples)@.len())
                &&& final(self).engine().processed() == counted(old(self).engine().processed(), old(samples)@.len())
            },
    ;

    /// A copy of the configuration in force.
    fn get_configuration(&self) -> (r: FilterConfiguration<T>)
        ensures
            r == self.configuration(),
    ;

    /// Puts `config` in force with the coefficients computed from it, and
    /// clears the history; fails, changing nothing, where `config` yields no
    /// coefficients the engine accepts.
    fn set_configuration(&mut self, config: FilterConfiguration<T>) -> (r: bool)
        where
            T: Float + FloatConst,
        ensures
            config@.sample_rate == 0 ==> !r,
            r ==> final(self).configuration() == config && final(self).engine().is_fresh(),
            !r ==> (final(self).engine() == old(self).engine() && final(self).configuration() == old(self).configuration()),
    ;

    /// The cutoff frequency in force.
    fn get_cutoff(&self) -> (r: T)
        ensures
            r == self.configuration()@.cutoff,
    ;

    /// Changes the cutoff frequency, as `set_configuration` does.
    fn set_cutoff(&mut self, cutoff: T) -> (r: bool)
        where
            T: Float + FloatConst,
        ensures
            r ==> final(self).configuration()@ == (Settings { cutoff, ..old(self).configuration()@ })
                && final(self).engine().is_fresh(),
            !r ==> (final(self).engine() == old(self).engine() && final(self).configuration() == old(self).configuration()),
    ;

    /// The sample rate in force.
    fn get_sample_rate(&self) -> (r: u32)
        ensures
            r == self.configuration()@.sample_rate,
    ;

    /// Changes the sample rate, as `set_configuration` does; a rate of zero
    /// is refused.
    fn set_sample_rate(&mut self, sample_rate: u32) -> (r: bool)
        where
            T: Float + FloatConst,
        ensures
            sample_rate == 0 ==> !r,
            r ==> final(self).configuration()@ == (Settings { sample_rate, ..old(self).configuration()@ })
                && final(self).engine().is_fresh(),
            !r ==> (final(self).engine() == old(self).engine() && final(self).configuration() == old(self).configuration()),
    ;

    /// The Q factor in force.
    fn get_q_factor(&self) -> (r: T)
        ensures
            r == self.configuration()@.q_factor,
    ;

    /// Changes the Q factor, as `set_configuration` does.
    fn set_q_factor(&mut self, q_factor: T) -> (r: bool)
        where
            T: Float + FloatConst,
        ensures
            r ==> final(self).configuration()@ == (Settings { q_factor, ..old(self).configuration()@ })
                && final(self).engine().is_fresh(),
            !r ==> (final(self).engine() == old(self).engine() && final(self).configuration() == old(self).configuration()),
    ;

    /// The gain in force.
    fn get_gain(&self) -> (r: T)
        ensures
            r == self.configuration()@.gain,
    ;

    /// Changes the gain, as `set_configuration` does.
    fn set_gain(&mut self, gain: T) -> (r: bool)
        where
            T: Float + FloatConst,
        ensures
            r ==> final(self).configuration()@ == (Settings { gain, ..old(self).configuration()@ })
                && final(self).engine().is_fresh(),
            !r ==> (final(self).engine() == old(self).engine() && final(self).configuration() == old(self).configuration()),
    ;

    /// The band-pass skirt mode in force.
    fn get_constant_skirt_gain(&self) -> (r: bool)
        ensures
            r == self.configuration()@.constant_skirt_gain,
    ;

    /// Changes the band-pass skirt mode, as `set_configuration` does.
    fn set_constant_skirt_gain(&mut self, constant_skirt_gain: bool) -> (r: bool)
        where
            T: Float + FloatConst,
        ensures
            r ==> final(self).configuration()@ == (Settings { constant_skirt_gain, ..old(self).configuration()@ })
                && final(self).engine().is_fresh(),
            !r ==> (final(self).engine() == old(self).engine() && final(self).configuration() == old(self).configuration()),
    ;

    /// Whether processing is bypassed.
    fn get_bypass(&self) -> (r: bool)
        ensures
            r == self.configuration()@.bypass,
    ;

    /// Changes the bypass flag, as `set_configuration` does.
    fn set_bypass(&mut self, bypass: bool) -> (r: bool)
        where
            T: Float + FloatConst,
        ensures
            r ==> final(self).configuration()@ == (Settings { bypass, ..old(self).configuration()@ })
                && final(self).engine().is_fresh(),
            !r ==> (final(self).engine() == old(self).engine() && final(self).configuration() == old(self).configuration()),
    ;
}

impl<T: Copy, F: BiquadFilterWrapper<T>> Filter<T> for F {
    open spec fn engine(&self) -> DigitalBiquadFilter<T> {
        self.wrapped_filter()
    }

    open spec fn configuration(&self) -> FilterConfiguration<T> {
        self.wrapped_config()
    }

    fn process(&mut self, sample: &mut T) -> (r: bool)
        where
            T: Float,
    {
        if self.get_config().get_bypass() {
            return true;
        }
        self.get_filter().process(sample)
    }

    fn process_block(&mut self, samples: &mut [T]) -> (r: bool)
        where
            T: Float,
    {
        if self.get_config().get_bypass() {
            return true;
        }
        self.get_filter().process_block(samples)
    }

    fn get_configuration(&self) -> (r: FilterConfiguration<T>) {
        *self.get_config()
    }

    fn set_configuration(&mut self, config: FilterConfiguration<T>) -> (r: bool)
        where
            T: Float + FloatConst,
    {
        match Self::calculate_coefficients(&config) {
            Some(coefficients) => {
                if self.get_filter().set_coefficients(coefficients) {
                    *self.get_config_mut() = config;
                    true
                } else {
                    false
                }
            },
            None => false,
        }
    }

    fn get_cutoff(&self) -> (r: T) {
        self.get_config().get_cutoff()
    }

    fn set_cutoff(&mut self, cutoff: T) -> (r: bool)
        where
            T: Float + FloatConst,
    {
        let mut config = *self.get_config();
        config.set_cutoff(cutoff);
        self.set_configuration(config)
    }

    fn get_sample_rate(&self) -> (r: u32) {
        self.get_config().get_sample_rate()
    }

    fn set_sample_rate(&mut self, sample_rate: u32) -> (r: bool)
        where
            T: Float + FloatConst,
    {
        let mut config = *self.get_config();
        config.set_sample_rate(sample_rate);
        self.set_configuration(config)
    }

    fn get_q_factor(&self) -> (r: T) {
        self.get_config().get_q_factor()
    }

    fn set_q_factor(&mut self, q_factor: T) -> (r: bool)
        where
            T: Float + FloatConst,
    {
        let mut config = *self.get_config();
        config.set_q_factor(q_factor);
        self.set_configuration(config)
    }

    fn get_gain(&self) -> (r: T) {
        self.get_config().get_gain()
    }

    fn set_gain(&mut self, gain: T) -> (r: bool)
        where
            T: Float + FloatConst,
    {
        let mut config = *self.get_config();
        config.set_gain(gain);
        self.set_configuration(config)
    }

    fn get_constant_skirt_gain(&self) -> (r: bool) {
        self.get_config().get_constant_skirt_gain()
    }

    fn set_constant_skirt_gain(&mut self, constant_skirt_gain: bool) -> (r: bool)
        where
            T: Float + FloatConst,
    {
        let mut config = *self.get_config();
        config.set_constant_skirt_gain(constant_skirt_gain);
        self.set_configuration(config)
    }

    fn get_bypass(&self) -> (r: bool) {
        self.get_config().get_bypass()
    }

    fn set_bypass(&mut self, bypass: bool) -> (r: bool)
        where
            T: Float + FloatConst,
    {
        let mut config = *self.get_config();
        config.set_bypass(bypass);
        self.set_configuration(config)
    }
}

} // verus!
