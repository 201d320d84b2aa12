//! Types shared by the checker and the encoder.

pub mod size;
pub mod reg;
pub mod num;
pub mod mem;
pub mod atype;
pub mod segment;
pub mod ins;
pub mod reloc;
pub mod error;
pub mod symbol;
pub mod var;
pub mod ast;
