//! Keystroke engine for typing Vietnamese with the Telex convention.
//!
//! A host forwards each key to an engine and gets back an instruction that
//! says how to edit the text it has already emitted: how many characters to
//! take back and what to put in their place.
//!
//! - [`models`]: the vowel and tone table and the functions that read it.
//! - [`engines`]: the engine contract and the Telex engine.
//! - [`text`]: what the engines need of `char` and `String`.

use vstd::prelude::*;

pub mod engines;
pub mod models;
pub mod text;

pub use engines::{EditInstruction, InputEngine, ProcessKeyResult};
pub use models::vietnamese;
pub use models::vietnamese::{ToneIndex, VietnameseChar};

verus! {

/// Number of characters that an engine's buffer holds at most. The longest
/// Vietnamese syllables stay well below it.
pub const MAX_BUFFER_SIZE: usize = 20;

/// Milliseconds without a key after which a host should reset the engine.
pub const BUFFER_TIMEOUT_MS: u64 = 2000;

} // verus!
