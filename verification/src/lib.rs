//! The decisions of a Bluetooth speaker with a spectrum display.
//!
//! Audio arrives as A2DP packets or as hands-free call audio, is decoded, and
//! leaves through an I2S DAC. Every chunk of PCM carries its own format. A
//! spectrum analyser taps the stream and lights a LED strip.
//!
//! This crate holds what the speaker decides and computes. Tasks, drivers,
//! the Bluetooth host and the floating-point signal path are its callers.

pub mod audio;
pub mod bluetooth;
pub mod bt;
pub mod channel;
pub mod console;
pub mod fft_analysis;
pub mod fft_output;
pub mod gamma;
pub mod led_output;
pub mod led_ring;
pub mod rmt_output;
pub mod sample_ring;
pub mod stats;
