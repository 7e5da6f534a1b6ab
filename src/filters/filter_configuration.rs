//! The parameters a filter is designed from.
use vstd::prelude::*;

verus! {

/// The fields of a `FilterConfiguration`, as the contracts speak of them.
pub struct Settings<T> {
    pub cutoff: T,
    pub sample_rate: u32,
    pub q_factor: T,
    pub gain: T,
    pub constant_skirt_gain: bool,
    pub bypass: bool,
}

/// Cutoff frequency (Hz), sample rate (Hz), Q factor, gain (dB), the
/// band-pass skirt mode, and whether processing is bypassed.
#[derive(Debug, Clone, Copy)]
pub struct FilterConfiguration<T> {
    cutoff: T,
    sample_rate: u32,
    q_factor: T,
    gain: T,
    constant_skirt_gain: bool,
    bypass: bool,
}

impl<T> View for FilterConfiguration<T> {
    type V = Settings<T>;

    closed spec fn view(&self) -> Settings<T> {
        Settings {
            cutoff: self.cutoff,
            sample_rate: self.sample_rate,
            q_factor: self.q_factor,
            gain: self.gain,
            constant_skirt_gain: self.constant_skirt_gain,
            bypass: self.bypass,
        }
    }
}

impl<T: Copy> FilterConfiguration<T> {
    /// A configuration holding exactly the given values.
    pub fn new(
        cutoff: T,
        sample_rate: u32,
        q_factor: T,
        gain: T,
        constant_skirt_gain: bool,
        bypass: bool,
    ) -> (r: Self)
        ensures
            r@ == (Settings { cutoff, sample_rate, q_factor, gain, constant_skirt_gain, bypass }),
    {
        Self { cutoff, sample_rate, q_factor, gain, constant_skirt_gain, bypass }
    }

    /// The cutoff frequency.
    pub fn get_cutoff(&self) -> (r: T)
        ensures
            r == self@.cutoff,
    {
        self.cutoff
    }

    /// The sample rate.
    pub fn get_sample_rate(&self) -> (r: u32)
        ensures
            r == self@.sample_rate,
    {
        self.sample_rate
    }

    /// The Q factor.
    pub fn get_q_factor(&self) -> (r: T)
        ensures
            r == self@.q_factor,
    {
        self.q_factor
    }

    /// The gain.
    pub fn get_gain(&self) -> (r: T)
        ensures
            r == self@.gain,
    {
        self.gain
    }

    /// Whether a band-pass keeps a constant skirt gain.
    pub fn get_constant_skirt_gain(&self) -> (r: bool)
        ensures
            r == self@.constant_skirt_gain,
    {
        self.constant_skirt_gain
    }

    /// Whether processing is bypassed.
    pub fn get_bypass(&self) -> (r: bool)
        ensures
            r == self@.bypass,
    {
        self.bypass
    }

    /// Stores a new cutoff frequency.
    pub fn set_cutoff(&mut self, value: T)
        ensures
            final(self)@ == (Settings { cutoff: value, ..old(self)@ }),
    {
        self.cutoff = value;
    }

    /// Stores a new sample rate.
    pub fn set_sample_rate(&mut self, value: u32)
        ensures
            final(self)@ == (Settings { sample_rate: value, ..old(self)@ }),
    {
        self.sample_rate = value;
    }

    /// Stores a new Q factor.
    pub fn set_q_factor(&mut self, value: T)
        ensures
            final(self)@ == (Settings { q_factor: value, ..old(self)@ }),
    {
        self.q_factor = value;
    }

    /// Stores a new gain.
    pub fn set_gain(&mut self, value: T)
        ensures
            final(self)@ == (Settings { gain: value, ..old(self)@ }),
    {
        self.gain = value;
    }

    /// Stores a new skirt mode.
    pub fn set_constant_skirt_gain(&mut self, value: bool)
        ensures
            final(self)@ == (Settings { constant_skirt_gain: value, ..old(self)@ }),
    {
        self.constant_skirt_gain = value;
    }

    /// Stores a new bypass flag.
    pub fn set_bypass(&mut self, value: bool)
        ensures
            final(self)@ == (Settings { bypass: value, ..old(self)@ }),
    {
        self.bypass = value;
    }
}

impl<T: Default + Copy> Default for FilterConfiguration<T> {
    /// An inert configuration: bypassed, sample rate zero, and the cutoff,
    /// Q factor and gain all `T::default()` (zero for the float types).
    fn default() -> (r: Self)
        ensures
            r@.sample_rate == 0,
            r@.bypass,
            !r@.constant_skirt_gain,
            r@.q_factor == r@.cutoff,
            r@.gain == r@.cutoff,
    {
        let z = T::default();
        Self {
            cutoff: z,
            sample_rate: 0,
            q_factor: z,
            gain: z,
            constant_skirt_gain: false,
            bypass: true,
        }
    }
}

} // verus!
