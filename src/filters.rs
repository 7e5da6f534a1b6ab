//! The biquad engine and the filter types built on it.
pub mod all_pass;
pub mod band_pass;
pub mod biquad;
mod design;
pub mod filter;
pub mod filter_configuration;
pub mod high_pass;
pub mod high_shelf;
pub mod low_pass;
pub mod low_shelf;
pub mod peaking;
