//! Dictionary entries: their data model, their decoding from the JSON that a
//! dictionary service answers with, and their rendering as text.

pub mod concat;
pub mod decode;
pub mod entry;
pub mod error;
pub mod json;
pub mod lookup;
pub mod render;
pub mod request;
