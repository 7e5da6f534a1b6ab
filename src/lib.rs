//! Second-order IIR (biquad) audio filters: an engine that applies the
//! difference equation, and filter types that derive its coefficients from
//! cutoff, sample rate, Q factor and gain by the audio-EQ cookbook.
mod arith;
pub mod filters;

pub use filters::all_pass::AllPassFilter;
pub use filters::band_pass::BandPassFilter;
pub use filters::biquad::{Coefficients, DigitalBiquadFilter, State};
pub use filters::filter::{BiquadFilterWrapper, Filter};
pub use filters::filter_configuration::{FilterConfiguration, Settings};
pub use filters::high_pass::HighPassFilter;
pub use filters::high_shelf::HighShelfFilter;
pub use filters::low_pass::LowPassFilter;
pub use filters::low_shelf::LowShelfFilter;
pub use filters::peaking::PeakingFilter;
