//! The machine that runs a module.

pub mod frame;
pub mod instances;
pub mod instantiate;
pub mod label;
pub mod laws;
pub mod machine;
pub mod memory;
pub mod operation;
pub mod operators;
pub mod result;
pub mod runtime;
pub mod rust_value;
pub mod store;
pub mod value;

pub use instantiate::instantiate;
pub use result::{Error, Result};
pub use runtime::{ExternalHook, FloatUnit, Runtime};
