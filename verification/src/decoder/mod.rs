//! From bytes to a module.

pub mod codec;
pub mod decoder;
pub mod encoding;
pub mod grammar;
pub mod laws;
pub mod leb;
pub mod module;
pub mod result;
pub mod section_id;
pub mod sections;

pub use decoder::Decoder;
pub use result::Error;
pub use section_id::SectionId;
