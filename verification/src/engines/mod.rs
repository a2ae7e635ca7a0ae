//! The contract between a host and an input engine.
//!
//! The host programs against [`InputEngine`]; [`telex`] implements it.

use vstd::prelude::*;

pub mod laws;
pub mod placement;
pub mod rules;
pub mod telex;

verus! {

/// What a key asks of the host, as the contracts see it: the view of a
/// [`ProcessKeyResult`].
pub struct EditInstruction {
    /// Whether the engine took the key; if not, the host handles it itself.
    pub handled: bool,
    /// The text to insert, if any.
    pub output_text: Option<Seq<char>>,
    /// How many of the characters emitted last the host takes back first.
    pub backspace_count: nat,
    /// The engine's buffer after the key.
    pub current_buffer: Seq<char>,
}

/// Result of processing a keystroke.
#[derive(Debug, Clone, PartialEq)]
pub struct ProcessKeyResult {
    /// true = the engine took the key, false = the host handles it itself.
    pub handled: bool,
    /// Text to send, if any.
    pub output_text: Option<String>,
    /// Number of backspaces to send before `output_text`.
    pub backspace_count: usize,
    /// Buffer state after processing.
    pub current_buffer: String,
}

impl View for ProcessKeyResult {
    type V = EditInstruction;

    open spec fn view(&self) -> EditInstruction {
        EditInstruction {
            handled: self.handled,
            output_text: match self.output_text {
                Some(text) => Some(text@),
                None => None,
            },
            backspace_count: self.backspace_count as nat,
            current_buffer: self.current_buffer@,
        }
    }
}

/// The instruction that leaves a key to the host: nothing to take back,
/// nothing to insert.
pub open spec fn passed_through(buffer: Seq<char>) -> EditInstruction {
    EditInstruction {
        handled: false,
        output_text: None,
        backspace_count: 0,
        current_buffer: buffer,
    }
}

/// The instruction that takes back `backspaces` characters and inserts
/// `output`.
pub open spec fn replaced(
    backspaces: nat,
    output: Seq<char>,
    buffer: Seq<char>,
) -> EditInstruction {
    EditInstruction {
        handled: true,
        output_text: Some(output),
        backspace_count: backspaces,
        current_buffer: buffer,
    }
}

/// The view of a result that may be absent.
pub open spec fn instruction_of(result: Option<ProcessKeyResult>) -> Option<EditInstruction> {
    match result {
        Some(r) => Some(r@),
        None => None,
    }
}

impl ProcessKeyResult {
    /// A result that leaves the key to the host, with an empty buffer.
    pub fn new() -> (r: Self)
        ensures
            r@ == passed_through(Seq::<char>::empty()),
    {
        Self {
            handled: false,
            output_text: None,
            backspace_count: 0,
            current_buffer: String::new(),
        }
    }

    /// A result that passes the key through unchanged.
    pub fn pass_through(buffer: String) -> (r: Self)
        ensures
            r@ == passed_through(buffer@),
    {
        Self {
            handled: false,
            output_text: None,
            backspace_count: 0,
            current_buffer: buffer,
        }
    }

    /// A result that replaces the last `backspaces` characters by `output`.
    pub fn replace(backspaces: usize, output: String, buffer: String) -> (r: Self)
        ensures
            r@ == replaced(backspaces as nat, output@, buffer@),
    {
        Self {
            handled: true,
            output_text: Some(output),
            backspace_count: backspaces,
            current_buffer: buffer,
        }
    }
}

impl Default for ProcessKeyResult {
    fn default() -> (r: Self)
        ensures
            r@ == passed_through(Seq::<char>::empty()),
    {
        Self::new()
    }
}

/// A Vietnamese input engine: it keeps the characters of the syllable being
/// typed and answers each key with an instruction for the host.
///
/// An engine is used from one calling context at a time.
pub trait InputEngine: Send + Sync {
    /// The characters typed and not yet committed.
    spec fn pending(&self) -> Seq<char>;

    /// The instruction with which the engine, in this state, answers a key.
    spec fn key_effect(&self, key: char, is_shift_pressed: bool) -> EditInstruction;

    /// The engine's name, such as "Telex".
    fn name(&self) -> (r: &str);

    /// Processes one key. The answer is `key_effect` of the state before the
    /// key; the buffer afterwards is the one that the answer reports. A key
    /// that the engine does not handle changes nothing for the host.
    fn process_key(&mut self, key: char, is_shift_pressed: bool) -> (r: ProcessKeyResult)
        ensures
            r@ == old(self).key_effect(key, is_shift_pressed),
            final(self).pending() == r@.current_buffer,
            !r@.handled ==> r@.output_text is None && r@.backspace_count == 0,
    ;

    /// Empties the buffer. Hosts call it on word boundaries and after a pause.
    fn reset(&mut self)
        ensures
            final(self).pending() == Seq::<char>::empty(),
    ;

    /// Takes the last character off the buffer, if there is one. The host
    /// still has to erase the character it shows.
    fn process_backspace(&mut self) -> (r: bool)
        ensures
            final(self).pending() == if old(self).pending().len() > 0 {
                old(self).pending().drop_last()
            } else {
                old(self).pending()
            },
    ;

    /// The buffer as a string.
    fn get_buffer(&self) -> (r: String)
        ensures
            r@ == self.pending(),
    ;

    /// The buffer as a slice, for engines that can lend it; empty otherwise.
    fn get_buffer_slice(&self) -> (r: &[char])
        ensures
            r@.len() == 0 || r@ == self.pending(),
    {
        &[]
    }
}

} // verus!
