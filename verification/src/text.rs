//! What the engines need of `char` and `String`.
//!
//! The two specifications at the top are taken on trust from the standard
//! library's documentation; everything else in this crate is proved.

use vstd::prelude::*;

verus! {

/// Whether `c` has the Unicode property `Alphabetic`. The property is a table
/// of the Unicode Character Database; nothing is stated of it here.
pub uninterp spec fn char_is_alphabetic(c: char) -> bool;

/// `char::is_alphabetic` answers whether the character has the Unicode
/// property `Alphabetic`: its result depends on the character alone.
pub assume_specification[ char::is_alphabetic ](c: char) -> (b: bool)
    ensures
        b == char_is_alphabetic(c),
;

/// `String::push` appends the character to the end of the string and leaves
/// the rest of it as it was.
pub assume_specification[ String::push ](s: &mut String, ch: char)
    ensures
        final(s)@ == old(s)@.push(ch),
;

/// The characters of `chars` from index `from` on, as a string. Empty where
/// `from` is past the end.
pub fn string_from(chars: &[char], from: usize) -> (s: String)
    ensures
        s@ == if from <= chars@.len() {
            chars@.subrange(from as int, chars@.len() as int)
        } else {
            Seq::<char>::empty()
        },
{
    let mut s = String::new();
    let mut i: usize = from;
    while i < chars.len()
        invariant
            from <= i,
            i <= chars@.len() || from > chars@.len(),
            from <= chars@.len() ==> s@ == chars@.subrange(from as int, i as int),
            from > chars@.len() ==> s@ == Seq::<char>::empty(),
        decreases chars.len() - i,
    {
        s.push(chars[i]);
        i += 1;
    }
    s
}

} // verus!
