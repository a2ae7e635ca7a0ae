//! Where a tone mark goes.
//!
//! A tone mark stands on one vowel of the last block of consecutive vowels of
//! a syllable. [`tone_position`] names that vowel; the lemmas after it say
//! what its parts find.

use crate::models::vietnamese::{is_vowel, lower_vowel, vowel_without_tone};
use vstd::prelude::*;

verus! {

/// The glyph `c` without its tone and in lower case: what the placement
/// rules compare.
pub open spec fn vowel_kind(c: char) -> char {
    lower_vowel(vowel_without_tone(c))
}

/// Whether `c` is a vowel with a circumflex, breve or horn. Such a vowel
/// takes the tone before a plain one does.
pub open spec fn is_marked_vowel(c: char) -> bool {
    match vowel_kind(c) {
        'ê' | 'ô' | 'ơ' | 'â' | 'ă' | 'ư' => true,
        _ => false,
    }
}

/// Index of the last vowel among the first `n` characters of `buf`, or -1
/// where there is none.
pub open spec fn last_vowel_before(buf: Seq<char>, n: int) -> int
    decreases n,
{
    if n <= 0 {
        -1
    } else if is_vowel(buf[n - 1]) {
        n - 1
    } else {
        last_vowel_before(buf, n - 1)
    }
}

/// Index at which the block of consecutive vowels that ends at `end` begins.
pub open spec fn cluster_start(buf: Seq<char>, end: int) -> int
    decreases end,
{
    if end > 0 && is_vowel(buf[end - 1]) {
        cluster_start(buf, end - 1)
    } else {
        end
    }
}

/// Whether `buf[start..=end]` is the last block of consecutive vowels of
/// `buf`: vowels throughout, no vowel after it, and none just before it.
pub open spec fn is_last_cluster(buf: Seq<char>, start: int, end: int) -> bool {
    &&& 0 <= start <= end < buf.len()
    &&& forall|i: int| start <= i <= end ==> is_vowel(#[trigger] buf[i])
    &&& forall|i: int| end < i < buf.len() ==> !is_vowel(#[trigger] buf[i])
    &&& start > 0 ==> !is_vowel(buf[start - 1])
}

/// Index of the first marked vowel among `buf[from..=to]`, if there is one.
pub open spec fn first_marked(buf: Seq<char>, from: int, to: int) -> Option<int>
    decreases to - from + 1,
{
    if from > to {
        None
    } else if is_marked_vowel(buf[from]) {
        Some(from)
    } else {
        first_marked(buf, from + 1, to)
    }
}

/// The position that takes the tone within the vowel cluster
/// `buf[start..=end]`, for a cluster of two or more vowels.
///
/// - `ươ` before a consonant: the `ơ`.
/// - `oa`, `oe`, `oă`: the second vowel.
/// - Otherwise the first marked vowel of the cluster, or its first vowel
///   where none is marked.
pub open spec fn position_in_cluster(buf: Seq<char>, start: int, end: int) -> int {
    let first = vowel_kind(buf[start]);
    let second = vowel_kind(buf[start + 1]);
    let has_trailing_consonant = end < buf.len() - 1;
    if first == 'ư' && second == 'ơ' && has_trailing_consonant {
        start + 1
    } else if first == 'o' && (second == 'a' || second == 'e' || second == 'ă') {
        start + 1
    } else {
        match first_marked(buf, start, end) {
            Some(p) => p,
            None => start,
        }
    }
}

/// The position in `buf` that takes a tone mark: none where `buf` holds no
/// vowel; otherwise a position in the last block of consecutive vowels, the
/// only one where the block is a single vowel.
///
/// The block is found from the end: `last_vowel_before` gives its last index
/// and `cluster_start` its first.
pub open spec fn tone_position(buf: Seq<char>) -> Option<int> {
    let end = last_vowel_before(buf, buf.len() as int);
    if end < 0 {
        None
    } else {
        let start = cluster_start(buf, end);
        if start == end {
            Some(end)
        } else {
            Some(position_in_cluster(buf, start, end))
        }
    }
}

/// `last_vowel_before` finds the last vowel among the first `n` characters:
/// what it returns is a vowel, and no vowel stands between it and `n`.
pub proof fn lemma_last_vowel_before(buf: Seq<char>, n: int)
    requires
        0 <= n <= buf.len(),
    ensures
        -1 <= last_vowel_before(buf, n) < n,
        last_vowel_before(buf, n) >= 0 ==> is_vowel(buf[last_vowel_before(buf, n)]),
        forall|i: int| last_vowel_before(buf, n) < i < n ==> !is_vowel(#[trigger] buf[i]),
    decreases n,
{
    if n > 0 && !is_vowel(buf[n - 1]) {
        lemma_last_vowel_before(buf, n - 1);
    }
}

/// `cluster_start` finds where the block of vowels that ends at `end`
/// begins: vowels from there to `end`, and no vowel just before.
pub proof fn lemma_cluster_start(buf: Seq<char>, end: int)
    requires
        0 <= end < buf.len(),
        is_vowel(buf[end]),
    ensures
        0 <= cluster_start(buf, end) <= end,
        forall|i: int| cluster_start(buf, end) <= i <= end ==> is_vowel(#[trigger] buf[i]),
        cluster_start(buf, end) > 0 ==> !is_vowel(buf[cluster_start(buf, end) - 1]),
    decreases end,
{
    if end > 0 && is_vowel(buf[end - 1]) {
        lemma_cluster_start(buf, end - 1);
    }
}

/// `first_marked` finds the first marked vowel of `buf[from..=to]`.
pub proof fn lemma_first_marked(buf: Seq<char>, from: int, to: int)
    requires
        0 <= from,
        to < buf.len(),
    ensures
        match first_marked(buf, from, to) {
            Some(p) => from <= p <= to && is_marked_vowel(buf[p]) && forall|i: int|
                from <= i < p ==> !is_marked_vowel(#[trigger] buf[i]),
            None => forall|i: int| from <= i <= to ==> !is_marked_vowel(#[trigger] buf[i]),
        },
    decreases to - from + 1,
{
    if from <= to && !is_marked_vowel(buf[from]) {
        lemma_first_marked(buf, from + 1, to);
    }
}

/// A buffer with a vowel has a last block of consecutive vowels, and the two
/// searches from the end find it; a buffer without a vowel makes the first
/// search return -1.
pub proof fn lemma_last_cluster(buf: Seq<char>)
    ensures
        ({
            let end = last_vowel_before(buf, buf.len() as int);
            if exists|i: int| 0 <= i < buf.len() && is_vowel(#[trigger] buf[i]) {
                is_last_cluster(buf, cluster_start(buf, end), end)
            } else {
                end == -1
            }
        }),
{
    let end = last_vowel_before(buf, buf.len() as int);
    lemma_last_vowel_before(buf, buf.len() as int);
    if end >= 0 {
        lemma_cluster_start(buf, end);
    }
}

/// A buffer has one last block of consecutive vowels at most.
pub proof fn lemma_last_cluster_unique(buf: Seq<char>, start: int, end: int)
    requires
        is_last_cluster(buf, start, end),
    ensures
        end == last_vowel_before(buf, buf.len() as int),
        start == cluster_start(buf, end),
{
    lemma_last_vowel_before(buf, buf.len() as int);
    assert(is_vowel(buf[end]));
    lemma_cluster_start(buf, end);
}

/// Where the tone goes. A buffer without a vowel has no tone position. In any
/// other buffer the last block of consecutive vowels decides: a single vowel
/// takes the tone itself, a longer block gives it to the position that
/// `position_in_cluster` names.
pub proof fn lemma_tone_position(buf: Seq<char>)
    ensures
        tone_position(buf) is None <==> forall|i: int|
            0 <= i < buf.len() ==> !is_vowel(#[trigger] buf[i]),
        forall|start: int, end: int| #[trigger]
            is_last_cluster(buf, start, end) ==> tone_position(buf) == Some(
                if start == end {
                    start
                } else {
                    position_in_cluster(buf, start, end)
                },
            ),
{
    lemma_last_cluster(buf);
    assert forall|start: int, end: int| #[trigger] is_last_cluster(buf, start, end) implies
        tone_position(buf) == Some(
            if start == end {
                start
            } else {
                position_in_cluster(buf, start, end)
            },
        ) by {
        lemma_last_cluster_unique(buf, start, end);
    }
}

/// The tone position is the index of a vowel in the last block of
/// consecutive vowels: there are vowels only from the position to the last
/// vowel of the buffer.
pub proof fn lemma_tone_position_is_vowel(buf: Seq<char>)
    ensures
        tone_position(buf) matches Some(p) ==> {
            &&& 0 <= p < buf.len()
            &&& is_vowel(buf[p])
            &&& forall|i: int|
                p <= i <= last_vowel_before(buf, buf.len() as int) ==> is_vowel(#[trigger] buf[i])
        },
{
    let end = last_vowel_before(buf, buf.len() as int);
    lemma_last_vowel_before(buf, buf.len() as int);
    if end >= 0 {
        let start = cluster_start(buf, end);
        lemma_cluster_start(buf, end);
        if start < end {
            lemma_first_marked(buf, start, end);
        }
    }
}

/// The tone position looks at each glyph without its tone: two buffers that
/// differ in tones only have the same tone position.
pub proof fn lemma_tone_position_ignores_tones(a: Seq<char>, b: Seq<char>)
    requires
        a.len() == b.len(),
        forall|i: int|
            0 <= i < a.len() ==> vowel_without_tone(#[trigger] a[i]) == vowel_without_tone(b[i]),
    ensures
        tone_position(a) == tone_position(b),
{
    let n = a.len() as int;
    lemma_same_last_vowel(a, b, n);
    let end = last_vowel_before(a, n);
    lemma_last_vowel_before(a, n);
    if end >= 0 {
        lemma_same_cluster_start(a, b, end);
        let start = cluster_start(a, end);
        lemma_cluster_start(a, end);
        if start < end {
            lemma_same_first_marked(a, b, start, end);
        }
    }
}

/// Buffers that agree glyph by glyph, tones apart, have their last vowel at
/// the same index.
proof fn lemma_same_last_vowel(a: Seq<char>, b: Seq<char>, n: int)
    requires
        a.len() == b.len(),
        0 <= n <= a.len(),
        forall|i: int|
            0 <= i < a.len() ==> vowel_without_tone(#[trigger] a[i]) == vowel_without_tone(b[i]),
    ensures
        last_vowel_before(a, n) == last_vowel_before(b, n),
    decreases n,
{
    if n > 0 {
        lemma_same_last_vowel(a, b, n - 1);
    }
}

/// In such buffers a block of vowels that ends at `end` begins at the same
/// index.
proof fn lemma_same_cluster_start(a: Seq<char>, b: Seq<char>, end: int)
    requires
        a.len() == b.len(),
        0 <= end < a.len(),
        forall|i: int|
            0 <= i < a.len() ==> vowel_without_tone(#[trigger] a[i]) == vowel_without_tone(b[i]),
    ensures
        cluster_start(a, end) == cluster_start(b, end),
    decreases end,
{
    if end > 0 {
        lemma_same_cluster_start(a, b, end - 1);
    }
}

/// In such buffers the first marked vowel of a range is the same.
proof fn lemma_same_first_marked(a: Seq<char>, b: Seq<char>, from: int, to: int)
    requires
        a.len() == b.len(),
        0 <= from,
        to < a.len(),
        forall|i: int|
            0 <= i < a.len() ==> vowel_without_tone(#[trigger] a[i]) == vowel_without_tone(b[i]),
    ensures
        first_marked(a, from, to) == first_marked(b, from, to),
    decreases to - from + 1,
{
    if from <= to {
        lemma_same_first_marked(a, b, from + 1, to);
    }
}

} // verus!
