//! Character models for Vietnamese text.

pub mod vietnamese;

pub use vietnamese::{ToneIndex, VietnameseChar};
