//! The semantic checker that runs before the encoder.

pub mod chk;
pub mod rules;
pub mod shared;
pub mod sound;
