//! A mono Schroeder/Moorer artificial-reverberation core in Q16 fixed point.
//!
//! The engine converts one dry input sample into one reverberant output
//! sample per call: a serial pre-diffusion all-pass chain, a parallel bank
//! of lowpass-feedback comb filters summed with alternating polarity, an
//! optional modulated all-pass, a serial post-diffusion all-pass chain, and
//! a linear dry/wet blend.  Samples and coefficients are `i64` values with
//! sixteen fractional bits, so every step of the signal path carries an
//! exact arithmetic contract.

pub mod fixed;
pub mod delay;
pub mod lfo;
pub mod comb;
pub mod allpass;
pub mod modallpass;
pub mod schroeder;
pub mod laws;

pub use fixed::ONE;
pub use fixed::HALF;
pub use fixed::SAMPLE_LIMIT;
pub use schroeder::Schroeder;
