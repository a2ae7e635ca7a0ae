//! Vowels, tone marks and the table that relates them.
//!
//! A Vietnamese vowel glyph is a base vowel (one of `a ă â e ê i o ô ơ u ư y`,
//! in either case) under one of six tones. [`tone_form`] is the table of all
//! such glyphs; the other functions of this module read it in one direction
//! or the other, and the lemmas at the end show that the two directions agree.

use vstd::prelude::*;

verus! {

/// The six tones of Vietnamese. `Level` is the tone written without a mark.
#[derive(Debug, Clone, Copy, PartialEq, Eq, Structural)]
pub enum ToneIndex {
    /// Level tone, written without a mark (ngang).
    Level,
    /// Grave accent (huyền).
    Grave,
    /// Acute accent (sắc).
    Acute,
    /// Hook above (hỏi).
    Hook,
    /// Tilde (ngã).
    Tilde,
    /// Dot below (nặng).
    Dot,
}

impl ToneIndex {
    /// Whether this tone is written with a mark.
    pub fn is_toned(self) -> (r: bool)
        ensures
            r == (self != ToneIndex::Level),
    {
        self != ToneIndex::Level
    }

    /// The Telex key that asks for this tone; `z` asks for the mark to go.
    pub fn telex_key(self) -> (r: Option<char>)
        ensures
            r == Some(
                match self {
                    ToneIndex::Acute => 's',
                    ToneIndex::Grave => 'f',
                    ToneIndex::Hook => 'r',
                    ToneIndex::Tilde => 'x',
                    ToneIndex::Dot => 'j',
                    ToneIndex::Level => 'z',
                },
            ),
    {
        match self {
            ToneIndex::Acute => Some('s'),
            ToneIndex::Grave => Some('f'),
            ToneIndex::Hook => Some('r'),
            ToneIndex::Tilde => Some('x'),
            ToneIndex::Dot => Some('j'),
            ToneIndex::Level => Some('z'),
        }
    }
}

/// The entry of one table row that stands under `tone`. A row lists its
/// glyphs in the order level, grave, acute, hook, tilde, dot.
pub open spec fn select(
    tone: ToneIndex,
    level: char,
    grave: char,
    acute: char,
    hook: char,
    tilde: char,
    dot: char,
) -> char {
    match tone {
        ToneIndex::Level => level,
        ToneIndex::Grave => grave,
        ToneIndex::Acute => acute,
        ToneIndex::Hook => hook,
        ToneIndex::Tilde => tilde,
        ToneIndex::Dot => dot,
    }
}

/// Whether `c` is a base vowel: a vowel letter without a tone mark, with or
/// without its circumflex, breve or horn.
pub open spec fn is_base_vowel(c: char) -> bool {
    match c {
        'a' | 'ă' | 'â' | 'e' | 'ê' | 'i' | 'o' | 'ô' | 'ơ' | 'u' | 'ư' | 'y'
            | 'A' | 'Ă' | 'Â' | 'E' | 'Ê' | 'I' | 'O' | 'Ô' | 'Ơ' | 'U' | 'Ư' | 'Y' => true,
        _ => false,
    }
}

/// The vowel table: the glyph that writes the base vowel `base` under
/// `tone`. A character that is no base vowel has no row and comes back as
/// it is.
pub open spec fn tone_form(base: char, tone: ToneIndex) -> char {
    match base {
        'a' => select(tone, 'a', 'à', 'á', 'ả', 'ã', 'ạ'),
        'A' => select(tone, 'A', 'À', 'Á', 'Ả', 'Ã', 'Ạ'),
        'ă' => select(tone, 'ă', 'ằ', 'ắ', 'ẳ', 'ẵ', 'ặ'),
        'Ă' => select(tone, 'Ă', 'Ằ', 'Ắ', 'Ẳ', 'Ẵ', 'Ặ'),
        'â' => select(tone, 'â', 'ầ', 'ấ', 'ẩ', 'ẫ', 'ậ'),
        'Â' => select(tone, 'Â', 'Ầ', 'Ấ', 'Ẩ', 'Ẫ', 'Ậ'),
        'e' => select(tone, 'e', 'è', 'é', 'ẻ', 'ẽ', 'ẹ'),
        'E' => select(tone, 'E', 'È', 'É', 'Ẻ', 'Ẽ', 'Ẹ'),
        'ê' => select(tone, 'ê', 'ề', 'ế', 'ể', 'ễ', 'ệ'),
        'Ê' => select(tone, 'Ê', 'Ề', 'Ế', 'Ể', 'Ễ', 'Ệ'),
        'i' => select(tone, 'i', 'ì', 'í', 'ỉ', 'ĩ', 'ị'),
        'I' => select(tone, 'I', 'Ì', 'Í', 'Ỉ', 'Ĩ', 'Ị'),
        'o' => select(tone, 'o', 'ò', 'ó', 'ỏ', 'õ', 'ọ'),
        'O' => select(tone, 'O', 'Ò', 'Ó', 'Ỏ', 'Õ', 'Ọ'),
        'ô' => select(tone, 'ô', 'ồ', 'ố', 'ổ', 'ỗ', 'ộ'),
        'Ô' => select(tone, 'Ô', 'Ồ', 'Ố', 'Ổ', 'Ỗ', 'Ộ'),
        'ơ' => select(tone, 'ơ', 'ờ', 'ớ', 'ở', 'ỡ', 'ợ'),
        'Ơ' => select(tone, 'Ơ', 'Ờ', 'Ớ', 'Ở', 'Ỡ', 'Ợ'),
        'u' => select(tone, 'u', 'ù', 'ú', 'ủ', 'ũ', 'ụ'),
        'U' => select(tone, 'U', 'Ù', 'Ú', 'Ủ', 'Ũ', 'Ụ'),
        'ư' => select(tone, 'ư', 'ừ', 'ứ', 'ử', 'ữ', 'ự'),
        'Ư' => select(tone, 'Ư', 'Ừ', 'Ứ', 'Ử', 'Ữ', 'Ự'),
        'y' => select(tone, 'y', 'ỳ', 'ý', 'ỷ', 'ỹ', 'ỵ'),
        'Y' => select(tone, 'Y', 'Ỳ', 'Ý', 'Ỷ', 'Ỹ', 'Ỵ'),
        _ => base,
    }
}

/// The glyph `c` without its tone mark; circumflex, breve and horn stay.
/// A character outside the table comes back as it is.
pub open spec fn vowel_without_tone(c: char) -> char {
    match c {
        'a' | 'à' | 'á' | 'ả' | 'ã' | 'ạ' => 'a',
        'A' | 'À' | 'Á' | 'Ả' | 'Ã' | 'Ạ' => 'A',
        'ă' | 'ằ' | 'ắ' | 'ẳ' | 'ẵ' | 'ặ' => 'ă',
        'Ă' | 'Ằ' | 'Ắ' | 'Ẳ' | 'Ẵ' | 'Ặ' => 'Ă',
        'â' | 'ầ' | 'ấ' | 'ẩ' | 'ẫ' | 'ậ' => 'â',
        'Â' | 'Ầ' | 'Ấ' | 'Ẩ' | 'Ẫ' | 'Ậ' => 'Â',
        'e' | 'è' | 'é' | 'ẻ' | 'ẽ' | 'ẹ' => 'e',
        'E' | 'È' | 'É' | 'Ẻ' | 'Ẽ' | 'Ẹ' => 'E',
        'ê' | 'ề' | 'ế' | 'ể' | 'ễ' | 'ệ' => 'ê',
        'Ê' | 'Ề' | 'Ế' | 'Ể' | 'Ễ' | 'Ệ' => 'Ê',
        'i' | 'ì' | 'í' | 'ỉ' | 'ĩ' | 'ị' => 'i',
        'I' | 'Ì' | 'Í' | 'Ỉ' | 'Ĩ' | 'Ị' => 'I',
        'o' | 'ò' | 'ó' | 'ỏ' | 'õ' | 'ọ' => 'o',
        'O' | 'Ò' | 'Ó' | 'Ỏ' | 'Õ' | 'Ọ' => 'O',
        'ô' | 'ồ' | 'ố' | 'ổ' | 'ỗ' | 'ộ' => 'ô',
        'Ô' | 'Ồ' | 'Ố' | 'Ổ' | 'Ỗ' | 'Ộ' => 'Ô',
        'ơ' | 'ờ' | 'ớ' | 'ở' | 'ỡ' | 'ợ' => 'ơ',
        'Ơ' | 'Ờ' | 'Ớ' | 'Ở' | 'Ỡ' | 'Ợ' => 'Ơ',
        'u' | 'ù' | 'ú' | 'ủ' | 'ũ' | 'ụ' => 'u',
        'U' | 'Ù' | 'Ú' | 'Ủ' | 'Ũ' | 'Ụ' => 'U',
        'ư' | 'ừ' | 'ứ' | 'ử' | 'ữ' | 'ự' => 'ư',
        'Ư' | 'Ừ' | 'Ứ' | 'Ử' | 'Ữ' | 'Ự' => 'Ư',
        'y' | 'ỳ' | 'ý' | 'ỷ' | 'ỹ' | 'ỵ' => 'y',
        'Y' | 'Ỳ' | 'Ý' | 'Ỷ' | 'Ỹ' | 'Ỵ' => 'Y',
        _ => c,
    }
}

/// Whether `c` is one of the glyphs of the table: a vowel in either case,
/// under any tone.
pub open spec fn is_vowel(c: char) -> bool {
    is_base_vowel(vowel_without_tone(c))
}

/// The tone under which `c` stands in its row of the table; `Level` for a
/// character outside the table.
pub open spec fn tone_of(c: char) -> ToneIndex {
    let base = vowel_without_tone(c);
    if c == base {
        ToneIndex::Level
    } else if c == tone_form(base, ToneIndex::Grave) {
        ToneIndex::Grave
    } else if c == tone_form(base, ToneIndex::Acute) {
        ToneIndex::Acute
    } else if c == tone_form(base, ToneIndex::Hook) {
        ToneIndex::Hook
    } else if c == tone_form(base, ToneIndex::Tilde) {
        ToneIndex::Tilde
    } else if c == tone_form(base, ToneIndex::Dot) {
        ToneIndex::Dot
    } else {
        ToneIndex::Level
    }
}

/// The glyph `c` under `tone` instead of its own: the entry for `tone` in the
/// row in which `c` stands. A character outside the table comes back as it is.
pub open spec fn with_tone(c: char, tone: ToneIndex) -> char {
    tone_form(vowel_without_tone(c), tone)
}

/// The base vowel `c` without its circumflex, breve or horn, in the same case.
pub open spec fn plain_vowel(c: char) -> char {
    match c {
        'ă' | 'â' => 'a',
        'Ă' | 'Â' => 'A',
        'ê' => 'e',
        'Ê' => 'E',
        'ô' | 'ơ' => 'o',
        'Ô' | 'Ơ' => 'O',
        'ư' => 'u',
        'Ư' => 'U',
        _ => c,
    }
}

/// Whether `c` is one of the six plain Latin vowels, in either case.
pub open spec fn is_plain_vowel(c: char) -> bool {
    match c {
        'a' | 'e' | 'i' | 'o' | 'u' | 'y' | 'A' | 'E' | 'I' | 'O' | 'U' | 'Y' => true,
        _ => false,
    }
}

/// The lower-case form of a base vowel; any other character as it is.
pub open spec fn lower_vowel(c: char) -> char {
    match c {
        'A' => 'a',
        'Ă' => 'ă',
        'Â' => 'â',
        'E' => 'e',
        'Ê' => 'ê',
        'I' => 'i',
        'O' => 'o',
        'Ô' => 'ô',
        'Ơ' => 'ơ',
        'U' => 'u',
        'Ư' => 'ư',
        'Y' => 'y',
        _ => c,
    }
}

/// Whether `c` is a vowel in upper case.
pub open spec fn is_upper_vowel(c: char) -> bool {
    match vowel_without_tone(c) {
        'A' | 'Ă' | 'Â' | 'E' | 'Ê' | 'I' | 'O' | 'Ô' | 'Ơ' | 'U' | 'Ư' | 'Y' => true,
        _ => false,
    }
}

/// The glyph `c` without tone mark, circumflex, breve or horn: for a vowel,
/// one of `a e i o u y` in the case of `c`.
pub open spec fn base_vowel(c: char) -> char {
    plain_vowel(vowel_without_tone(c))
}

/// Namespace for the functions that classify single glyphs and change their
/// tone.
pub struct VietnameseChar;

impl VietnameseChar {
    /// Whether `c` is a Vietnamese vowel, in either case and under any tone.
    pub fn is_vowel(c: char) -> (r: bool)
        ensures
            r == is_vowel(c),
    {
        match Self::get_vowel_without_tone(c) {
            'a' | 'ă' | 'â' | 'e' | 'ê' | 'i' | 'o' | 'ô' | 'ơ' | 'u' | 'ư' | 'y'
            | 'A' | 'Ă' | 'Â' | 'E' | 'Ê' | 'I' | 'O' | 'Ô' | 'Ơ' | 'U' | 'Ư' | 'Y' => true,
            _ => false,
        }
    }

    /// Strips tone mark, circumflex, breve and horn, keeping the case.
    pub fn get_base_vowel(c: char) -> (r: char)
        ensures
            r == base_vowel(c),
    {
        match Self::get_vowel_without_tone(c) {
            'ă' | 'â' => 'a',
            'Ă' | 'Â' => 'A',
            'ê' => 'e',
            'Ê' => 'E',
            'ô' | 'ơ' => 'o',
            'Ô' | 'Ơ' => 'O',
            'ư' => 'u',
            'Ư' => 'U',
            other => other,
        }
    }

    /// Strips the tone mark only.
    pub fn get_vowel_without_tone(c: char) -> (r: char)
        ensures
            r == vowel_without_tone(c),
    {
        match c {
            'a' | 'à' | 'á' | 'ả' | 'ã' | 'ạ' => 'a',
            'A' | 'À' | 'Á' | 'Ả' | 'Ã' | 'Ạ' => 'A',
            'ă' | 'ằ' | 'ắ' | 'ẳ' | 'ẵ' | 'ặ' => 'ă',
            'Ă' | 'Ằ' | 'Ắ' | 'Ẳ' | 'Ẵ' | 'Ặ' => 'Ă',
            'â' | 'ầ' | 'ấ' | 'ẩ' | 'ẫ' | 'ậ' => 'â',
            'Â' | 'Ầ' | 'Ấ' | 'Ẩ' | 'Ẫ' | 'Ậ' => 'Â',
            'e' | 'è' | 'é' | 'ẻ' | 'ẽ' | 'ẹ' => 'e',
            'E' | 'È' | 'É' | 'Ẻ' | 'Ẽ' | 'Ẹ' => 'E',
            'ê' | 'ề' | 'ế' | 'ể' | 'ễ' | 'ệ' => 'ê',
            'Ê' | 'Ề' | 'Ế' | 'Ể' | 'Ễ' | 'Ệ' => 'Ê',
            'i' | 'ì' | 'í' | 'ỉ' | 'ĩ' | 'ị' => 'i',
            'I' | 'Ì' | 'Í' | 'Ỉ' | 'Ĩ' | 'Ị' => 'I',
            'o' | 'ò' | 'ó' | 'ỏ' | 'õ' | 'ọ' => 'o',
            'O' | 'Ò' | 'Ó' | 'Ỏ' | 'Õ' | 'Ọ' => 'O',
            'ô' | 'ồ' | 'ố' | 'ổ' | 'ỗ' | 'ộ' => 'ô',
            'Ô' | 'Ồ' | 'Ố' | 'Ổ' | 'Ỗ' | 'Ộ' => 'Ô',
            'ơ' | 'ờ' | 'ớ' | 'ở' | 'ỡ' | 'ợ' => 'ơ',
            'Ơ' | 'Ờ' | 'Ớ' | 'Ở' | 'Ỡ' | 'Ợ' => 'Ơ',
            'u' | 'ù' | 'ú' | 'ủ' | 'ũ' | 'ụ' => 'u',
            'U' | 'Ù' | 'Ú' | 'Ủ' | 'Ũ' | 'Ụ' => 'U',
            'ư' | 'ừ' | 'ứ' | 'ử' | 'ữ' | 'ự' => 'ư',
            'Ư' | 'Ừ' | 'Ứ' | 'Ử' | 'Ữ' | 'Ự' => 'Ư',
            'y' | 'ỳ' | 'ý' | 'ỷ' | 'ỹ' | 'ỵ' => 'y',
            'Y' | 'Ỳ' | 'Ý' | 'Ỷ' | 'Ỹ' | 'Ỵ' => 'Y',
            _ => c,
        }
    }

    /// The tone that `c` carries; `Level` for anything that is no vowel.
    pub fn get_tone_index(c: char) -> (r: ToneIndex)
        ensures
            r == tone_of(c),
    {
        let base = Self::get_vowel_without_tone(c);
        if c == base {
            ToneIndex::Level
        } else if c == Self::form(base, ToneIndex::Grave) {
            ToneIndex::Grave
        } else if c == Self::form(base, ToneIndex::Acute) {
            ToneIndex::Acute
        } else if c == Self::form(base, ToneIndex::Hook) {
            ToneIndex::Hook
        } else if c == Self::form(base, ToneIndex::Tilde) {
            ToneIndex::Tilde
        } else if c == Self::form(base, ToneIndex::Dot) {
            ToneIndex::Dot
        } else {
            ToneIndex::Level
        }
    }

    /// Puts `vowel` under `tone`, whatever tone it had; circumflex, breve and
    /// horn stay. Anything that is no vowel comes back unchanged.
    pub fn apply_tone(vowel: char, tone: ToneIndex) -> (r: char)
        ensures
            r == with_tone(vowel, tone),
    {
        Self::form(Self::get_vowel_without_tone(vowel), tone)
    }

    /// Reads the vowel table.
    fn form(base: char, tone: ToneIndex) -> (r: char)
        ensures
            r == tone_form(base, tone),
    {
        match base {
            'a' => Self::pick(tone, 'a', 'à', 'á', 'ả', 'ã', 'ạ'),
            'A' => Self::pick(tone, 'A', 'À', 'Á', 'Ả', 'Ã', 'Ạ'),
            'ă' => Self::pick(tone, 'ă', 'ằ', 'ắ', 'ẳ', 'ẵ', 'ặ'),
            'Ă' => Self::pick(tone, 'Ă', 'Ằ', 'Ắ', 'Ẳ', 'Ẵ', 'Ặ'),
            'â' => Self::pick(tone, 'â', 'ầ', 'ấ', 'ẩ', 'ẫ', 'ậ'),
            'Â' => Self::pick(tone, 'Â', 'Ầ', 'Ấ', 'Ẩ', 'Ẫ', 'Ậ'),
            'e' => Self::pick(tone, 'e', 'è', 'é', 'ẻ', 'ẽ', 'ẹ'),
            'E' => Self::pick(tone, 'E', 'È', 'É', 'Ẻ', 'Ẽ', 'Ẹ'),
            'ê' => Self::pick(tone, 'ê', 'ề', 'ế', 'ể', 'ễ', 'ệ'),
            'Ê' => Self::pick(tone, 'Ê', 'Ề', 'Ế', 'Ể', 'Ễ', 'Ệ'),
            'i' => Self::pick(tone, 'i', 'ì', 'í', 'ỉ', 'ĩ', 'ị'),
            'I' => Self::pick(tone, 'I', 'Ì', 'Í', 'Ỉ', 'Ĩ', 'Ị'),
            'o' => Self::pick(tone, 'o', 'ò', 'ó', 'ỏ', 'õ', 'ọ'),
            'O' => Self::pick(tone, 'O', 'Ò', 'Ó', 'Ỏ', 'Õ', 'Ọ'),
            'ô' => Self::pick(tone, 'ô', 'ồ', 'ố', 'ổ', 'ỗ', 'ộ'),
            'Ô' => Self::pick(tone, 'Ô', 'Ồ', 'Ố', 'Ổ', 'Ỗ', 'Ộ'),
            'ơ' => Self::pick(tone, 'ơ', 'ờ', 'ớ', 'ở', 'ỡ', 'ợ'),
            'Ơ' => Self::pick(tone, 'Ơ', 'Ờ', 'Ớ', 'Ở', 'Ỡ', 'Ợ'),
            'u' => Self::pick(tone, 'u', 'ù', 'ú', 'ủ', 'ũ', 'ụ'),
            'U' => Self::pick(tone, 'U', 'Ù', 'Ú', 'Ủ', 'Ũ', 'Ụ'),
            'ư' => Self::pick(tone, 'ư', 'ừ', 'ứ', 'ử', 'ữ', 'ự'),
            'Ư' => Self::pick(tone, 'Ư', 'Ừ', 'Ứ', 'Ử', 'Ữ', 'Ự'),
            'y' => Self::pick(tone, 'y', 'ỳ', 'ý', 'ỷ', 'ỹ', 'ỵ'),
            'Y' => Self::pick(tone, 'Y', 'Ỳ', 'Ý', 'Ỷ', 'Ỹ', 'Ỵ'),
            _ => base,
        }
    }

    /// Picks the entry for `tone` out of one row.
    fn pick(
        tone: ToneIndex,
        level: char,
        grave: char,
        acute: char,
        hook: char,
        tilde: char,
        dot: char,
    ) -> (r: char)
        ensures
            r == select(tone, level, grave, acute, hook, tilde, dot),
    {
        match tone {
            ToneIndex::Level => level,
            ToneIndex::Grave => grave,
            ToneIndex::Acute => acute,
            ToneIndex::Hook => hook,
            ToneIndex::Tilde => tilde,
            ToneIndex::Dot => dot,
        }
    }
}

/// Reading the table forwards and then backwards gives back what went in:
/// the glyph that writes `base` under `tone` is a vowel, standing in the row
/// of `base` under `tone`.
pub proof fn lemma_tone_form_inverse(base: char, tone: ToneIndex)
    requires
        is_base_vowel(base),
    ensures
        is_vowel(tone_form(base, tone)),
        vowel_without_tone(tone_form(base, tone)) == base,
        tone_of(tone_form(base, tone)) == tone,
{
}

/// Reading the table backwards and then forwards gives back the glyph: every
/// character is the form of its tone-stripped glyph under its own tone. For a
/// character outside the table both readings leave it alone.
pub proof fn lemma_glyph_is_its_form(c: char)
    ensures
        tone_form(vowel_without_tone(c), tone_of(c)) == c,
        is_vowel(c) ==> is_base_vowel(vowel_without_tone(c)),
        !is_vowel(c) ==> vowel_without_tone(c) == c && tone_of(c) == ToneIndex::Level,
{
}

/// Whether `c` stands in the vowel table: whether it writes some base vowel
/// under some tone.
pub open spec fn in_table(c: char) -> bool {
    exists|base: char, tone: ToneIndex| is_base_vowel(base) && #[trigger] tone_form(base, tone) == c
}

/// The vowels are the glyphs of the table, and no others.
pub proof fn lemma_vowels_are_the_table(c: char)
    ensures
        is_vowel(c) <==> in_table(c),
{
    if is_vowel(c) {
        lemma_glyph_is_its_form(c);
        assert(tone_form(vowel_without_tone(c), tone_of(c)) == c);
    }
    if in_table(c) {
        let (base, tone) = choose|base: char, tone: ToneIndex|
            is_base_vowel(base) && #[trigger] tone_form(base, tone) == c;
        lemma_tone_form_inverse(base, tone);
    }
}

/// No glyph stands in the table twice: a glyph determines its base vowel and
/// its tone.
pub proof fn lemma_table_injective(base1: char, tone1: ToneIndex, base2: char, tone2: ToneIndex)
    requires
        is_base_vowel(base1),
        is_base_vowel(base2),
        tone_form(base1, tone1) == tone_form(base2, tone2),
    ensures
        base1 == base2,
        tone1 == tone2,
{
    lemma_tone_form_inverse(base1, tone1);
    lemma_tone_form_inverse(base2, tone2);
}

/// Changing the tone changes nothing else: the result stands in the same row,
/// under the tone asked for, and a character that is no vowel is left alone.
pub proof fn lemma_with_tone(c: char, tone: ToneIndex)
    ensures
        vowel_without_tone(with_tone(c, tone)) == vowel_without_tone(c),
        is_vowel(with_tone(c, tone)) == is_vowel(c),
        is_vowel(c) ==> tone_of(with_tone(c, tone)) == tone,
        !is_vowel(c) ==> with_tone(c, tone) == c,
        with_tone(c, tone_of(c)) == c,
{
    lemma_glyph_is_its_form(c);
    if is_vowel(c) {
        lemma_tone_form_inverse(vowel_without_tone(c), tone);
    }
}

/// What stripping everything leaves: for a vowel one of the six plain Latin
/// vowels in the case of the glyph, which carries no tone and is left alone
/// when stripped again; anything else is left alone. Only a plain Latin vowel
/// and a character that is no vowel are their own base vowel.
pub proof fn lemma_base_vowel(c: char)
    ensures
        is_vowel(c) ==> is_plain_vowel(base_vowel(c)),
        !is_vowel(c) ==> base_vowel(c) == c,
        is_vowel(base_vowel(c)) == is_vowel(c),
        tone_of(base_vowel(c)) == ToneIndex::Level,
        base_vowel(base_vowel(c)) == base_vowel(c),
        base_vowel(c) == c <==> !is_vowel(c) || is_plain_vowel(c),
        is_upper_vowel(base_vowel(c)) == is_upper_vowel(c),
{
}

} // verus!
