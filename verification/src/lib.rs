//! Decoder for 112-bit Mode S extended squitter (ADS-B) frames.
//!
//! The wire grammar is written as verified readers over a bit cursor; each
//! reader's contract states the decoded value as a function of the frame's
//! bits.

pub mod bits;
pub mod error;
pub mod mode_ac;
pub mod types;
pub mod altitude;
pub mod units;
pub mod text;
pub mod adsb;
pub mod velocity;
pub mod status;
pub mod frame;
pub mod render;
pub mod line;
pub mod city;
