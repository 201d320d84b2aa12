//! The encoder: from a checked instruction to its bytes.

pub mod modrm;
pub mod rex;
pub mod sib;
pub mod disp;
pub mod comp;
pub mod simd;
pub mod bounds;
pub mod forms;
pub mod section;
pub mod api;
pub mod vex;
