//! Core of an audio-reactive LED strip driver.
//!
//! The pipeline turns a stream of signed 16-bit stereo samples into
//! per-channel frequency-band vectors and finally into per-pixel color
//! commands: byte buffering, sample framing, log-scale re-binning of FFT
//! magnitudes, smoothing, adaptive scaling, decay, and a family of
//! interchangeable pattern generators.
//!
//! All spectrum math is carried out in exact integer arithmetic; fixed-point
//! helpers (`fixed`) supply the logarithms and exponentials that the
//! log-scale band partition needs.

pub mod api_types;
pub mod blend_viz;
pub mod buffer;
pub mod capture;
pub mod center_viz;
pub mod fading_beat_viz;
pub mod fixed;
pub mod render;
pub mod rotating_viz;
pub mod samples;
pub mod settings;
pub mod solid_beat_viz;
pub mod solid_viz;
pub mod sparkle_viz;
pub mod sys;
pub mod theme;
pub mod transform;
pub mod viz;

pub use buffer::Buffer;
pub use theme::{Color, Theme};
