//! Audio: the APU's channel logic and the buffer its samples go through.
pub mod apu2a03;
pub mod laws;
pub mod buffer;
