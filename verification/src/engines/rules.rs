//! The Telex rules, as functions on sequences of characters.
//!
//! [`telex_effect`] says what one key does to a buffer. It tries, in this
//! order: a tone mark ([`tone_mark_effect`]), the doubling of a vowel
//! ([`double_vowel_effect`]), a commit of the buffer ([`flush_trigger`]),
//! and at last the plain appending of the key.

use crate::engines::placement::tone_position;
use crate::engines::{passed_through, replaced, EditInstruction};
use crate::models::vietnamese::{
    base_vowel, is_vowel, lower_vowel, tone_form, tone_of, vowel_without_tone, with_tone,
    ToneIndex,
};
use crate::MAX_BUFFER_SIZE;
use vstd::prelude::*;

verus! {

/// The tone that a key asks for, in either case: `s` acute, `f` grave, `r`
/// hook, `x` tilde, `j` dot, and `z` for taking the mark away.
pub open spec fn tone_for_key(key: char) -> Option<ToneIndex> {
    match key {
        's' | 'S' => Some(ToneIndex::Acute),
        'f' | 'F' => Some(ToneIndex::Grave),
        'r' | 'R' => Some(ToneIndex::Hook),
        'x' | 'X' => Some(ToneIndex::Tilde),
        'j' | 'J' => Some(ToneIndex::Dot),
        'z' | 'Z' => Some(ToneIndex::Level),
        _ => None,
    }
}

/// Whether a key modifies what stands before it: a tone key, or `w`.
pub open spec fn is_modifier_key(key: char) -> bool {
    key == 'w' || key == 'W' || tone_for_key(key) is Some
}

/// `buf` with `key` appended, unless `buf` is full: then the key is dropped.
pub open spec fn capped_push(buf: Seq<char>, key: char) -> Seq<char> {
    if buf.len() < MAX_BUFFER_SIZE {
        buf.push(key)
    } else {
        buf
    }
}

/// The instruction for an edit at position `at` that turned `before` into
/// `after`: the host takes back what it showed from `at` on and inserts what
/// stands there now.
pub open spec fn tone_edit(before: Seq<char>, at: int, after: Seq<char>) -> EditInstruction {
    replaced((before.len() - at) as nat, after.subrange(at, after.len() as int), after)
}

/// What a tone key does to `buf`, or `None` where the key places no tone:
/// where `key` is no tone key, where `buf` holds no vowel, and where `z`
/// finds nothing to take away.
///
/// With `p` the tone position and `g` the glyph there:
/// - `z`: `g` loses tone, circumflex, breve and horn, and the key is
///   appended; only if that changes `g`.
/// - The tone that `g` carries already: the same, unconditionally. Typing a
///   tone twice undoes it and leaves the key in the text.
/// - Another tone: `g` changes its tone and nothing else, and the key is
///   absorbed.
pub open spec fn tone_mark_effect(buf: Seq<char>, key: char) -> Option<EditInstruction> {
    match (tone_for_key(key), tone_position(buf)) {
        (Some(tone), Some(p)) => {
            let glyph = buf[p];
            if tone == ToneIndex::Level {
                if base_vowel(glyph) != glyph {
                    Some(tone_edit(buf, p, capped_push(buf.update(p, base_vowel(glyph)), key)))
                } else {
                    None
                }
            } else if tone_of(glyph) == tone {
                Some(tone_edit(buf, p, capped_push(buf.update(p, base_vowel(glyph)), key)))
            } else {
                Some(tone_edit(buf, p, buf.update(p, with_tone(glyph, tone))))
            }
        },
        _ => None,
    }
}

/// The base vowel with a circumflex that doubling makes of a plain `a`, `e`
/// or `o`, in the same case; `None` for any other character.
pub open spec fn circumflexed(base: char) -> Option<char> {
    match base {
        'a' => Some('â'),
        'A' => Some('Â'),
        'e' => Some('ê'),
        'E' => Some('Ê'),
        'o' => Some('ô'),
        'O' => Some('Ô'),
        _ => None,
    }
}

/// The glyph that the key `key` makes of the glyph `last` by doubling: where
/// `last` is an `a`, `e` or `o` under any tone and `key` is the same letter
/// in either case, that vowel with a circumflex, in the case and under the
/// tone of `last`.
pub open spec fn doubled(last: char, key: char) -> Option<char> {
    let base = vowel_without_tone(last);
    match circumflexed(base) {
        Some(folded) if lower_vowel(base) == lower_vowel(key) => Some(
            tone_form(folded, tone_of(last)),
        ),
        _ => None,
    }
}

/// What a doubling key does to `buf`, or `None` where nothing is doubled: the
/// last glyph takes its circumflex, and the host replaces the one character
/// it showed for it.
pub open spec fn double_vowel_effect(buf: Seq<char>, key: char) -> Option<EditInstruction> {
    if buf.len() > 0 {
        match doubled(buf.last(), key) {
            Some(glyph) => Some(replaced(1, seq![glyph], buf.drop_last().push(glyph))),
            None => None,
        }
    } else {
        None
    }
}

/// Whether `key` ends the syllable in `buf`. `alphabetic` says whether the
/// key is a letter.
///
/// A key that is no letter always does. A letter does where it is neither a
/// modifier key nor a vowel and the buffer ends in a vowel.
pub open spec fn flush_trigger(buf: Seq<char>, key: char, alphabetic: bool) -> bool {
    !alphabetic || (!is_modifier_key(key) && buf.len() > 0 && is_vowel(buf.last()) && !is_vowel(
        key,
    ))
}

/// What the key `key` does to the buffer `buf`, where `alphabetic` says
/// whether the key is a letter. The buffer afterwards is `current_buffer` of
/// the instruction. The first of these that applies decides:
///
/// 1. A tone key places, toggles or removes a tone.
/// 2. A key doubles the last vowel.
/// 3. A key ends the syllable in a buffer that is not empty: all of the
///    buffer is emitted, nothing is taken back, and the key begins the next
///    buffer.
/// 4. The key is appended, unless the buffer is full, and left to the host.
pub open spec fn telex_effect(buf: Seq<char>, key: char, alphabetic: bool) -> EditInstruction {
    if let Some(edit) = tone_mark_effect(buf, key) {
        edit
    } else if let Some(edit) = double_vowel_effect(buf, key) {
        edit
    } else if buf.len() > 0 && flush_trigger(buf, key, alphabetic) {
        replaced(0, buf, seq![key])
    } else {
        passed_through(capped_push(buf, key))
    }
}

} // verus!
