//! A WebAssembly engine: a decoder from the binary format to a typed module,
//! and a stack machine that runs the module's functions.

pub mod binary;
pub mod decoder;
pub mod le;
pub mod runtime;
pub mod types;
pub mod views;
