//! What holds of the Telex rules, proved once for all buffers and keys.

use crate::engines::placement::{
    is_marked_vowel, lemma_tone_position_ignores_tones, lemma_tone_position_is_vowel,
    tone_position,
};
use crate::engines::rules::{
    capped_push, circumflexed, doubled, telex_effect, tone_edit, tone_for_key, tone_mark_effect,
};
use crate::engines::telex::TelexEngine;
use crate::engines::{passed_through, InputEngine};
use crate::models::vietnamese::{
    base_vowel, is_plain_vowel, is_upper_vowel, lemma_base_vowel, lemma_tone_form_inverse,
    lemma_with_tone, tone_of, vowel_without_tone, with_tone, ToneIndex,
};
use crate::text::char_is_alphabetic;
use crate::MAX_BUFFER_SIZE;
use vstd::prelude::*;

verus! {

/// One call that a host makes on an engine.
pub enum Operation {
    /// A key, as for `process_key`.
    Key(char),
    /// A backspace, as for `process_backspace`.
    Backspace,
    /// A reset.
    Reset,
}

/// The buffer after one call.
pub open spec fn buffer_after(buf: Seq<char>, op: Operation) -> Seq<char> {
    match op {
        Operation::Key(key) => telex_effect(buf, key, char_is_alphabetic(key)).current_buffer,
        Operation::Backspace => if buf.len() > 0 {
            buf.drop_last()
        } else {
            buf
        },
        Operation::Reset => Seq::empty(),
    }
}

/// The buffer after a sequence of calls, made in order.
pub open spec fn buffer_after_all(buf: Seq<char>, ops: Seq<Operation>) -> Seq<char>
    decreases ops.len(),
{
    if ops.len() == 0 {
        buf
    } else {
        buffer_after(buffer_after_all(buf, ops.drop_last()), ops.last())
    }
}

/// No key makes a buffer that is within the capacity exceed it, whatever the
/// key and whether or not it is a letter.
pub proof fn lemma_key_keeps_capacity(buf: Seq<char>, key: char, alphabetic: bool)
    requires
        buf.len() <= MAX_BUFFER_SIZE,
    ensures
        telex_effect(buf, key, alphabetic).current_buffer.len() <= MAX_BUFFER_SIZE,
{
    lemma_tone_position_is_vowel(buf);
}

/// After any sequence of keys, backspaces and resets, the buffer of an engine
/// that started within the capacity, such as a new one, holds at most
/// `MAX_BUFFER_SIZE` characters.
pub proof fn lemma_capacity_invariant(buf: Seq<char>, ops: Seq<Operation>)
    requires
        buf.len() <= MAX_BUFFER_SIZE,
    ensures
        buffer_after_all(buf, ops).len() <= MAX_BUFFER_SIZE,
    decreases ops.len(),
{
    if ops.len() > 0 {
        lemma_capacity_invariant(buf, ops.drop_last());
        let before = buffer_after_all(buf, ops.drop_last());
        match ops.last() {
            Operation::Key(key) => lemma_key_keeps_capacity(before, key, char_is_alphabetic(key)),
            _ => {},
        }
    }
}

/// A key that the engine leaves to the host asks nothing of the host: no
/// text to take back and none to insert. A key that the engine handles
/// always comes with a text.
pub proof fn lemma_unhandled_asks_nothing(buf: Seq<char>, key: char, alphabetic: bool)
    ensures
        ({
            let answer = telex_effect(buf, key, alphabetic);
            if answer.handled {
                answer.output_text is Some
            } else {
                answer.output_text is None && answer.backspace_count == 0
            }
        }),
{
}

/// The answer to a key depends on the buffer and the key alone. Two engines
/// that hold the same buffer answer a key with the same instruction, and so
/// end with the same buffer, whatever else differs between them and whatever
/// the shift state.
pub proof fn lemma_same_buffer_same_answer(
    a: TelexEngine,
    b: TelexEngine,
    key: char,
    shift_a: bool,
    shift_b: bool,
)
    requires
        a@ == b@,
    ensures
        a.key_effect(key, shift_a) == b.key_effect(key, shift_b),
{
}

/// An edit by a tone key takes back the characters from the tone position to
/// the end of the buffer as it was before the key, at least one and at most
/// all of them, and emits what stands from that position on afterwards.
pub proof fn lemma_retract_count(buf: Seq<char>, key: char)
    ensures
        tone_mark_effect(buf, key) matches Some(edit) ==> {
            &&& tone_position(buf) matches Some(p)
            &&& edit.handled
            &&& edit.backspace_count == buf.len() - p
            &&& 1 <= edit.backspace_count <= buf.len()
            &&& edit.output_text == Some(
                edit.current_buffer.subrange(p, edit.current_buffer.len() as int),
            )
        },
{
    lemma_tone_position_is_vowel(buf);
}

/// Whether `key` asks for a tone mark and finds in `buf` a vowel that does
/// not carry that mark yet.
pub open spec fn places_new_tone(buf: Seq<char>, key: char) -> bool {
    match (tone_for_key(key), tone_position(buf)) {
        (Some(tone), Some(p)) => tone != ToneIndex::Level && tone_of(buf[p]) != tone,
        _ => false,
    }
}

/// A tone key that finds a vowel under another tone puts the vowel under its
/// own tone and changes nothing else; the key itself is absorbed. The tone
/// position stays where it was.
pub proof fn lemma_tone_applied(buf: Seq<char>, key: char, alphabetic: bool)
    requires
        places_new_tone(buf, key),
    ensures
        ({
            let tone = tone_for_key(key).unwrap();
            let p = tone_position(buf).unwrap();
            let toned = telex_effect(buf, key, alphabetic).current_buffer;
            &&& toned == buf.update(p, with_tone(buf[p], tone))
            &&& tone_of(toned[p]) == tone
            &&& tone_position(toned) == Some(p)
        }),
{
    let tone = tone_for_key(key).unwrap();
    let p = tone_position(buf).unwrap();
    lemma_tone_position_is_vowel(buf);
    lemma_with_tone(buf[p], tone);
    lemma_tone_position_ignores_tones(buf, buf.update(p, with_tone(buf[p], tone)));
}

/// Whether `key` asks for a tone mark and finds in `buf` a vowel that
/// carries that very mark.
pub open spec fn repeats_tone(buf: Seq<char>, key: char) -> bool {
    match (tone_for_key(key), tone_position(buf)) {
        (Some(tone), Some(p)) => tone != ToneIndex::Level && tone_of(buf[p]) == tone,
        _ => false,
    }
}

/// The buffer in which the glyph at `p` is stripped to its plain Latin vowel
/// and `key` is appended, where there is room for it.
pub open spec fn stripped_with_key(buf: Seq<char>, p: int, key: char) -> Seq<char> {
    capped_push(buf.update(p, base_vowel(buf[p])), key)
}

/// A tone key that finds the vowel under its own tone takes the mark away
/// again. The vowel is left as its plain Latin letter, in the same case, and
/// the key stays in the buffer as a literal character (where the buffer has
/// room).
pub proof fn lemma_tone_repeated(buf: Seq<char>, key: char, alphabetic: bool)
    requires
        repeats_tone(buf, key),
    ensures
        ({
            let p = tone_position(buf).unwrap();
            let answer = telex_effect(buf, key, alphabetic);
            &&& answer == tone_edit(buf, p, stripped_with_key(buf, p, key))
            &&& is_plain_vowel(answer.current_buffer[p])
            &&& is_upper_vowel(answer.current_buffer[p]) == is_upper_vowel(buf[p])
            &&& answer.current_buffer != buf
        }),
{
    let p = tone_position(buf).unwrap();
    lemma_tone_position_is_vowel(buf);
    lemma_base_vowel(buf[p]);
    assert(stripped_with_key(buf, p, key)[p] == base_vowel(buf[p]));
}

/// A tone key typed twice in succession undoes itself. The first key puts the
/// vowel under the tone; the second strips the vowel to its plain Latin
/// letter and stays in the buffer as a literal character (where the buffer
/// has room). The two results differ.
pub proof fn lemma_tone_key_twice(buf: Seq<char>, key: char, alphabetic: bool)
    requires
        places_new_tone(buf, key),
    ensures
        ({
            let p = tone_position(buf).unwrap();
            let once = telex_effect(buf, key, alphabetic);
            let twice = telex_effect(once.current_buffer, key, alphabetic);
            &&& twice == tone_edit(buf, p, stripped_with_key(buf, p, key))
            &&& twice.backspace_count == buf.len() - p
            &&& is_plain_vowel(twice.current_buffer[p])
            &&& twice.current_buffer != once.current_buffer
        }),
{
    let tone = tone_for_key(key).unwrap();
    let p = tone_position(buf).unwrap();
    let once = telex_effect(buf, key, alphabetic).current_buffer;
    lemma_tone_position_is_vowel(buf);
    lemma_tone_applied(buf, key, alphabetic);
    lemma_tone_repeated(once, key, alphabetic);
    lemma_with_tone(buf[p], tone);
    lemma_base_vowel(buf[p]);
    lemma_base_vowel(once[p]);
    assert(once.update(p, base_vowel(once[p])) == buf.update(p, base_vowel(buf[p])));
    assert(tone_of(stripped_with_key(buf, p, key)[p]) != tone_of(once[p]));
}

/// Doubling keeps what was there: it happens to a plain `a`, `e` or `o` only,
/// and the glyph with the circumflex is the same letter, in the same case and
/// under the same tone.
pub proof fn lemma_doubling(last: char, key: char)
    ensures
        doubled(last, key) matches Some(glyph) ==> {
            &&& is_plain_vowel(vowel_without_tone(last))
            &&& is_marked_vowel(glyph)
            &&& base_vowel(glyph) == base_vowel(last)
            &&& is_upper_vowel(glyph) == is_upper_vowel(last)
            &&& tone_of(glyph) == tone_of(last)
        },
{
    if let Some(folded) = circumflexed(vowel_without_tone(last)) {
        lemma_tone_form_inverse(folded, tone_of(last));
    }
}

/// `z` strips a vowel that carries any mark, be it a tone, a circumflex, a
/// breve or a horn, to its plain Latin letter in the same case, and stays in
/// the buffer as a literal character (where the buffer has room).
pub proof fn lemma_z_strips(buf: Seq<char>, z: char, alphabetic: bool)
    requires
        tone_for_key(z) == Some(ToneIndex::Level),
        tone_position(buf) is Some,
        !is_plain_vowel(buf[tone_position(buf).unwrap()]),
    ensures
        ({
            let p = tone_position(buf).unwrap();
            let answer = telex_effect(buf, z, alphabetic);
            &&& answer == tone_edit(buf, p, stripped_with_key(buf, p, z))
            &&& is_plain_vowel(answer.current_buffer[p])
            &&& is_upper_vowel(answer.current_buffer[p]) == is_upper_vowel(buf[p])
        }),
{
    let p = tone_position(buf).unwrap();
    lemma_tone_position_is_vowel(buf);
    lemma_base_vowel(buf[p]);
    assert(stripped_with_key(buf, p, z)[p] == base_vowel(buf[p]));
}

/// After a tone key, `z` gives the plain Latin vowel back, in the case of the
/// glyph that was there, and stays in the buffer as a literal character
/// (where the buffer has room).
pub proof fn lemma_z_after_tone(buf: Seq<char>, key: char, z: char, alphabetic: bool)
    requires
        tone_for_key(z) == Some(ToneIndex::Level),
        places_new_tone(buf, key),
    ensures
        ({
            let p = tone_position(buf).unwrap();
            let toned = telex_effect(buf, key, alphabetic).current_buffer;
            let cleared = telex_effect(toned, z, alphabetic);
            &&& cleared == tone_edit(buf, p, stripped_with_key(buf, p, z))
            &&& cleared.backspace_count == buf.len() - p
            &&& is_plain_vowel(cleared.current_buffer[p])
            &&& is_upper_vowel(cleared.current_buffer[p]) == is_upper_vowel(buf[p])
        }),
{
    let tone = tone_for_key(key).unwrap();
    let p = tone_position(buf).unwrap();
    let toned = telex_effect(buf, key, alphabetic).current_buffer;
    lemma_tone_position_is_vowel(buf);
    lemma_tone_applied(buf, key, alphabetic);
    lemma_with_tone(buf[p], tone);
    lemma_base_vowel(buf[p]);
    lemma_base_vowel(toned[p]);
    lemma_z_strips(toned, z, alphabetic);
    assert(toned.update(p, base_vowel(toned[p])) == buf.update(p, base_vowel(buf[p])));
}

/// Where the vowel at the tone position is a plain Latin vowel already, or
/// the buffer holds no vowel, `z` places nothing. It is then a letter like
/// any other modifier key: it goes into the buffer, and the host handles the
/// key itself.
pub proof fn lemma_z_without_diacritic(buf: Seq<char>, z: char)
    requires
        tone_for_key(z) == Some(ToneIndex::Level),
        tone_position(buf) matches Some(p) ==> is_plain_vowel(buf[p]),
    ensures
        tone_mark_effect(buf, z) is None,
        telex_effect(buf, z, true) == passed_through(capped_push(buf, z)),
{
    if let Some(p) = tone_position(buf) {
        lemma_base_vowel(buf[p]);
    }
}

} // verus!
