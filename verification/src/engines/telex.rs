//! The Telex engine.
//!
//! The engine keeps one bounded buffer and nothing else. What a key does to
//! it is laid down in [`crate::engines::rules`]; the functions here compute
//! it.

use crate::engines::placement::{
    cluster_start, first_marked, is_marked_vowel, last_vowel_before,
    lemma_tone_position_is_vowel, tone_position,
};
use crate::engines::rules::{
    capped_push, double_vowel_effect, flush_trigger, is_modifier_key, telex_effect,
    tone_for_key, tone_mark_effect,
};
use crate::engines::{instruction_of, replaced, EditInstruction};
use crate::engines::{InputEngine, ProcessKeyResult};
use crate::models::vietnamese::{is_vowel, lower_vowel, ToneIndex, VietnameseChar};
use crate::text::{char_is_alphabetic, string_from};
use crate::MAX_BUFFER_SIZE;
use vstd::prelude::*;

verus! {

/// Telex input engine: one buffer of at most `MAX_BUFFER_SIZE` characters,
/// which holds the syllable being typed.
///
/// The view of an engine (`engine@`) is that buffer.
pub struct TelexEngine {
    /// The buffer's storage; the characters past `len` mean nothing.
    chars: [char; MAX_BUFFER_SIZE],
    /// Number of characters in the buffer.
    len: usize,
}

impl View for TelexEngine {
    type V = Seq<char>;

    /// The buffer: the characters typed and not yet committed.
    closed spec fn view(&self) -> Seq<char> {
        self.chars@.subrange(0, self.len as int)
    }
}

impl TelexEngine {
    #[verifier::type_invariant]
    spec fn within_capacity(self) -> bool {
        self.len <= MAX_BUFFER_SIZE
    }

    /// An engine with an empty buffer.
    pub fn new() -> (engine: Self)
        ensures
            engine@ == Seq::<char>::empty(),
    {
        Self { chars: ['\0'; MAX_BUFFER_SIZE], len: 0 }
    }

    /// Appends `key` to the buffer; a full buffer drops it.
    pub fn push(&mut self, key: char)
        ensures
            final(self)@ == capped_push(old(self)@, key),
            final(self)@.len() <= MAX_BUFFER_SIZE,
    {
        proof {
            use_type_invariant(&*self);
        }
        if self.len < MAX_BUFFER_SIZE {
            self.chars[self.len] = key;
            self.len = self.len + 1;
        }
    }

    /// The buffer as a string.
    pub fn current_state(&self) -> (s: String)
        ensures
            s@ == self@,
            s@.len() <= MAX_BUFFER_SIZE,
    {
        string_from(self.get_buffer_slice(), 0)
    }

    /// Whether `c` is a Vietnamese vowel.
    pub fn is_vowel(c: char) -> (r: bool)
        ensures
            r == is_vowel(c),
    {
        VietnameseChar::is_vowel(c)
    }

    /// Whether `key` ends the syllable in the buffer.
    pub fn is_flush_trigger_key(&self, key: char) -> (r: bool)
        ensures
            r == flush_trigger(self@, key, char_is_alphabetic(key)),
    {
        self.ends_syllable(key, key.is_alphabetic())
    }

    /// Whether `key` ends the syllable in the buffer, for a key of which the
    /// caller knows whether it is a letter.
    pub fn ends_syllable(&self, key: char, alphabetic: bool) -> (r: bool)
        ensures
            r == flush_trigger(self@, key, alphabetic),
    {
        proof {
            use_type_invariant(&*self);
        }
        if !alphabetic {
            return true;
        }
        if Self::is_modifier(key) {
            return false;
        }
        self.len > 0 && Self::is_vowel(self.chars[self.len - 1]) && !Self::is_vowel(key)
    }

    /// Commits the buffer: the instruction emits all of it, and the buffer is
    /// empty afterwards.
    pub fn flush(&mut self) -> (r: ProcessKeyResult)
        ensures
            r@ == replaced(0, old(self)@, Seq::<char>::empty()),
            final(self)@ == Seq::<char>::empty(),
    {
        let content = self.current_state();
        self.len = 0;
        ProcessKeyResult::replace(0, content, String::new())
    }

    /// Folds the key into the last glyph where it doubles an `a`, `e` or `o`.
    /// Otherwise nothing changes and there is no result.
    pub fn try_process_double_vowel(&mut self, key: char) -> (r: Option<ProcessKeyResult>)
        ensures
            instruction_of(r) == double_vowel_effect(old(self)@, key),
            final(self)@ == match double_vowel_effect(old(self)@, key) {
                Some(edit) => edit.current_buffer,
                None => old(self)@,
            },
            final(self)@.len() <= MAX_BUFFER_SIZE,
    {
        proof {
            use_type_invariant(&*self);
        }
        if self.len == 0 {
            return None;
        }
        let last = self.chars[self.len - 1];
        let base = VietnameseChar::get_vowel_without_tone(last);
        let folded = match base {
            'a' => 'â',
            'A' => 'Â',
            'e' => 'ê',
            'E' => 'Ê',
            'o' => 'ô',
            'O' => 'Ô',
            _ => {
                return None;
            },
        };
        if Self::lower(base) != Self::lower(key) {
            return None;
        }
        let glyph = VietnameseChar::apply_tone(folded, VietnameseChar::get_tone_index(last));
        self.set(self.len - 1, glyph);
        let mut output = String::new();
        output.push(glyph);
        proof {
            assert(self@ == old(self)@.drop_last().push(glyph));
            assert(output@ == seq![glyph]);
        }
        Some(ProcessKeyResult::replace(1, output, self.current_state()))
    }

    /// The tone that a key asks for, if it is a tone key.
    pub fn is_tone_key(key: char) -> (r: Option<ToneIndex>)
        ensures
            r == tone_for_key(key),
    {
        match key {
            's' | 'S' => Some(ToneIndex::Acute),
            'f' | 'F' => Some(ToneIndex::Grave),
            'r' | 'R' => Some(ToneIndex::Hook),
            'x' | 'X' => Some(ToneIndex::Tilde),
            'j' | 'J' => Some(ToneIndex::Dot),
            'z' | 'Z' => Some(ToneIndex::Level),
            _ => None,
        }
    }

    /// The position in `buffer` that takes a tone mark: the index of a vowel,
    /// or nothing where `buffer` holds no vowel.
    pub fn find_vowel_position_for_tone(&self, buffer: &[char]) -> (r: Option<usize>)
        ensures
            match r {
                Some(p) => tone_position(buffer@) == Some(p as int),
                None => tone_position(buffer@) is None,
            },
            r matches Some(p) ==> p < buffer@.len() && is_vowel(buffer@[p as int]),
    {
        proof {
            lemma_tone_position_is_vowel(buffer@);
        }
        let mut n = buffer.len();
        while n > 0 && !Self::is_vowel(buffer[n - 1])
            invariant
                n <= buffer@.len(),
                last_vowel_before(buffer@, buffer@.len() as int) == last_vowel_before(
                    buffer@,
                    n as int,
                ),
            decreases n,
        {
            n -= 1;
        }
        if n == 0 {
            return None;
        }
        let end = n - 1;
        let mut start = end;
        while start > 0 && Self::is_vowel(buffer[start - 1])
            invariant
                start <= end < buffer@.len(),
                cluster_start(buffer@, end as int) == cluster_start(buffer@, start as int),
            decreases start,
        {
            start -= 1;
        }
        if start == end {
            return Some(end);
        }
        let first = Self::lower(VietnameseChar::get_vowel_without_tone(buffer[start]));
        let second = Self::lower(VietnameseChar::get_vowel_without_tone(buffer[start + 1]));
        let has_trailing_consonant = end < buffer.len() - 1;
        if first == 'ư' && second == 'ơ' && has_trailing_consonant {
            return Some(start + 1);
        }
        if first == 'o' && (second == 'a' || second == 'e' || second == 'ă') {
            return Some(start + 1);
        }
        let mut i = start;
        while i <= end
            invariant
                start <= i <= end + 1,
                end < buffer@.len(),
                tone_position(buffer@) == Some(
                    match first_marked(buffer@, i as int, end as int) {
                        Some(p) => p,
                        None => start as int,
                    },
                ),
            decreases end + 1 - i,
        {
            if Self::is_marked(buffer[i]) {
                return Some(i);
            }
            i += 1;
        }
        Some(start)
    }

    /// Places, toggles or removes a tone as `key` asks. Where the key places
    /// no tone, nothing changes and there is no result.
    pub fn process_tone_mark(&mut self, key: char) -> (r: Option<ProcessKeyResult>)
        ensures
            instruction_of(r) == tone_mark_effect(old(self)@, key),
            final(self)@ == match tone_mark_effect(old(self)@, key) {
                Some(edit) => edit.current_buffer,
                None => old(self)@,
            },
            final(self)@.len() <= MAX_BUFFER_SIZE,
            r matches Some(edit) ==> tone_position(old(self)@) matches Some(p)
                && edit.backspace_count == old(self)@.len() - p,
    {
        proof {
            use_type_invariant(&*self);
        }
        let tone = match Self::is_tone_key(key) {
            Some(tone) => tone,
            None => {
                return None;
            },
        };
        let vowel_pos = match self.find_vowel_position_for_tone(self.get_buffer_slice()) {
            Some(p) => p,
            None => {
                return None;
            },
        };
        let old_vowel = self.chars[vowel_pos];
        let backspace_count = self.len - vowel_pos;
        if tone == ToneIndex::Level || VietnameseChar::get_tone_index(old_vowel) == tone {
            // Removal and toggle alike strip the vowel bare and keep the key.
            let bare = VietnameseChar::get_base_vowel(old_vowel);
            if bare == old_vowel {
                return None;
            }
            self.set(vowel_pos, bare);
            self.push(key);
        } else {
            self.set(vowel_pos, VietnameseChar::apply_tone(old_vowel, tone));
        }
        let output = string_from(self.get_buffer_slice(), vowel_pos);
        Some(ProcessKeyResult::replace(backspace_count, output, self.current_state()))
    }

    /// Processes a key of which the caller knows whether it is a letter.
    /// [`InputEngine::process_key`] is this function with what
    /// `char::is_alphabetic` says of the key.
    pub fn process_classified_key(&mut self, key: char, alphabetic: bool) -> (r: ProcessKeyResult)
        ensures
            r@ == telex_effect(old(self)@, key, alphabetic),
            final(self)@ == r@.current_buffer,
            final(self)@.len() <= MAX_BUFFER_SIZE,
            !r@.handled ==> r@.output_text is None && r@.backspace_count == 0,
    {
        if let Some(result) = self.process_tone_mark(key) {
            return result;
        }
        if let Some(result) = self.try_process_double_vowel(key) {
            return result;
        }
        proof {
            use_type_invariant(&*self);
        }
        if self.len > 0 && self.ends_syllable(key, alphabetic) {
            let flushed = self.flush();
            self.push(key);
            return ProcessKeyResult {
                handled: true,
                output_text: flushed.output_text,
                backspace_count: flushed.backspace_count,
                current_buffer: self.current_state(),
            };
        }
        self.push(key);
        ProcessKeyResult::pass_through(self.current_state())
    }

    /// Puts `glyph` in the place of the character at `index`.
    fn set(&mut self, index: usize, glyph: char)
        requires
            index < old(self)@.len(),
        ensures
            final(self)@ == old(self)@.update(index as int, glyph),
    {
        proof {
            use_type_invariant(&*self);
        }
        self.chars[index] = glyph;
    }

    /// Whether `key` is a tone key or `w`.
    fn is_modifier(key: char) -> (r: bool)
        ensures
            r == is_modifier_key(key),
    {
        key == 'w' || key == 'W' || Self::is_tone_key(key).is_some()
    }

    /// The lower-case form of a base vowel; any other character as it is.
    fn lower(c: char) -> (r: char)
        ensures
            r == lower_vowel(c),
    {
        match c {
            'A' => 'a',
            'Ă' => 'ă',
            'Â' => 'â',
            'E' => 'e',
            'Ê' => 'ê',
            'I' => 'i',
            'O' => 'o',
            'Ô' => 'ô',
            'Ơ' => 'ơ',
            'U' => 'u',
            'Ư' => 'ư',
            'Y' => 'y',
            _ => c,
        }
    }

    /// Whether `c` is a vowel with a circumflex, breve or horn.
    fn is_marked(c: char) -> (r: bool)
        ensures
            r == is_marked_vowel(c),
    {
        match Self::lower(VietnameseChar::get_vowel_without_tone(c)) {
            'ê' | 'ô' | 'ơ' | 'â' | 'ă' | 'ư' => true,
            _ => false,
        }
    }
}

impl Default for TelexEngine {
    fn default() -> (engine: Self)
        ensures
            engine@ == Seq::<char>::empty(),
    {
        Self::new()
    }
}

impl InputEngine for TelexEngine {
    open spec fn pending(&self) -> Seq<char> {
        self@
    }

    /// Telex answers by the buffer and the key alone; the shift state plays
    /// no part.
    open spec fn key_effect(&self, key: char, is_shift_pressed: bool) -> EditInstruction {
        telex_effect(self@, key, char_is_alphabetic(key))
    }

    fn name(&self) -> (r: &str)
        ensures
            r@ == "Telex"@,
    {
        "Telex"
    }

    /// Answers `key` by the Telex rules, with what `char::is_alphabetic` says
    /// of the key.
    fn process_key(&mut self, key: char, _is_shift_pressed: bool) -> (r: ProcessKeyResult)
        ensures
            r@ == telex_effect(old(self)@, key, char_is_alphabetic(key)),
            final(self)@ == r@.current_buffer,
            final(self)@.len() <= MAX_BUFFER_SIZE,
    {
        self.process_classified_key(key, key.is_alphabetic())
    }

    fn reset(&mut self)
        ensures
            final(self)@ == Seq::<char>::empty(),
    {
        self.len = 0;
    }

    /// Always answers `false`: the engine shows no text of its own, so the
    /// host's erase is still due.
    fn process_backspace(&mut self) -> (r: bool)
        ensures
            !r,
            final(self)@ == if old(self)@.len() > 0 {
                old(self)@.drop_last()
            } else {
                old(self)@
            },
            final(self)@.len() <= MAX_BUFFER_SIZE,
    {
        proof {
            use_type_invariant(&*self);
        }
        if self.len > 0 {
            self.len = self.len - 1;
        }
        false
    }

    fn get_buffer(&self) -> (r: String)
        ensures
            r@ == self@,
            r@.len() <= MAX_BUFFER_SIZE,
    {
        self.current_state()
    }

    fn get_buffer_slice(&self) -> (r: &[char])
        ensures
            r@ == self@,
            r@.len() <= MAX_BUFFER_SIZE,
    {
        proof {
            use_type_invariant(&*self);
        }
        &self.chars[0..self.len]
    }
}

} // verus!
