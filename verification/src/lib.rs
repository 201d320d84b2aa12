//! An x86-64 machine-code encoder with its semantic checker and its
//! section and relocation model.

pub mod cli;
pub mod shr;
pub mod enc;
pub mod pre;
pub mod object;
