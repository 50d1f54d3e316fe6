//! A fixed-length boolean array with Python-style negative indexing:
//! tolerant reads, strict writes, and truthiness coercion of written values.
pub mod index;
pub mod laws;
pub mod store;
pub mod value;

pub use store::{BitArrayError, BitArrayStore};
pub use value::Value;
