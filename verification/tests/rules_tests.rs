//! The Telex rules on chosen buffers and keys.

use vietime_core::engines::telex::TelexEngine;
use vietime_core::engines::{InputEngine, ProcessKeyResult};
use vietime_core::text::string_from;
use vietime_core::{BUFFER_TIMEOUT_MS, MAX_BUFFER_SIZE};

/// An engine whose buffer holds `text`, put there without any rule applied.
fn engine_holding(text: &str) -> TelexEngine {
    let mut engine = TelexEngine::new();
    for c in text.chars() {
        engine.push(c);
    }
    engine
}

fn type_keys(engine: &mut TelexEngine, keys: &str) -> Vec<ProcessKeyResult> {
    keys.chars().map(|key| engine.process_key(key, false)).collect()
}

fn edit(backspaces: usize, output: &str, buffer: &str) -> ProcessKeyResult {
    ProcessKeyResult::replace(backspaces, output.to_string(), buffer.to_string())
}

fn passed(buffer: &str) -> ProcessKeyResult {
    ProcessKeyResult::pass_through(buffer.to_string())
}

#[test]
fn constants() {
    assert_eq!(MAX_BUFFER_SIZE, 20);
    assert_eq!(BUFFER_TIMEOUT_MS, 2000);
}

#[test]
fn same_keys_give_the_same_answers() {
    let keys = "thuyeenf tooif muwowngj Aas oz banr";
    let mut first = TelexEngine::new();
    let mut second = TelexEngine::default();
    for key in keys.chars() {
        let a = first.process_key(key, false);
        let b = second.process_key(key, true);
        assert_eq!(a, b);
        assert_eq!(first.get_buffer(), second.get_buffer());
    }
}

#[test]
fn stale_storage_does_not_show() {
    // The second engine has held other text before; it answers like a new one.
    let mut fresh = TelexEngine::new();
    let mut used = engine_holding("ươợớởỡờẠẶẬ");
    used.reset();
    for key in "toans".chars() {
        assert_eq!(fresh.process_key(key, false), used.process_key(key, false));
    }
    assert_eq!(used.get_buffer(), fresh.get_buffer());
}

#[test]
fn buffer_never_exceeds_capacity() {
    let mut engine = TelexEngine::new();
    for i in 0..50 {
        let result = engine.process_key('b', false);
        let expected = "b".repeat(if i < 20 { i + 1 } else { 20 });
        assert_eq!(result, passed(&expected));
        assert_eq!(engine.get_buffer_slice().len(), expected.len());
    }
    let mut engine = TelexEngine::new();
    for key in "bcdghklmnpqtvbcdghklmnpqtvaasszzeeoo".chars() {
        engine.process_key(key, false);
        assert!(engine.get_buffer_slice().len() <= MAX_BUFFER_SIZE);
    }
}

#[test]
fn push_drops_what_does_not_fit() {
    let mut engine = engine_holding("abcdefghijklmnopqrstuvwxyz");
    assert_eq!(engine.get_buffer(), "abcdefghijklmnopqrst");
    engine.push('!');
    assert_eq!(engine.get_buffer(), "abcdefghijklmnopqrst");
    engine.process_backspace();
    engine.push('!');
    assert_eq!(engine.get_buffer(), "abcdefghijklmnopqrs!");
}

#[test]
fn tone_edit_in_a_full_buffer() {
    let mut engine = engine_holding("abbbbbbbbbbbbbbbbbbb");
    let applied = engine.process_key('s', false);
    assert_eq!(applied, edit(20, "ábbbbbbbbbbbbbbbbbbb", "ábbbbbbbbbbbbbbbbbbb"));
    // The toggle strips the vowel; the key itself finds no room.
    let toggled = engine.process_key('s', false);
    assert_eq!(toggled, edit(20, "abbbbbbbbbbbbbbbbbbb", "abbbbbbbbbbbbbbbbbbb"));
    assert_eq!(engine.get_buffer(), "abbbbbbbbbbbbbbbbbbb");
}

#[test]
fn tone_key_twice_restores_the_plain_vowel() {
    let mut engine = engine_holding("a");
    assert_eq!(engine.process_key('s', false), edit(1, "á", "á"));
    assert_eq!(engine.process_key('s', false), edit(1, "as", "as"));

    // Circumflex, breve and horn go together with the tone.
    let mut engine = engine_holding("thơ");
    assert_eq!(engine.process_key('J', false), edit(1, "ợ", "thợ"));
    assert_eq!(engine.process_key('J', false), edit(1, "oJ", "thoJ"));

    let mut engine = engine_holding("Ặ");
    assert_eq!(engine.process_key('j', false), edit(1, "Aj", "Aj"));
}

#[test]
fn retract_count_is_length_minus_tone_position() {
    let mut engine = engine_holding("toan");
    assert_eq!(engine.find_vowel_position_for_tone(engine.get_buffer_slice()), Some(2));
    assert_eq!(engine.process_key('s', false), edit(2, "án", "toán"));

    let mut engine = engine_holding("nghieng");
    assert_eq!(engine.find_vowel_position_for_tone(engine.get_buffer_slice()), Some(3));
    assert_eq!(engine.process_key('f', false), edit(4, "ìeng", "nghìeng"));
    assert_eq!(engine.process_key('f', false), edit(4, "iengf", "nghiengf"));

    let mut engine = engine_holding("a");
    assert_eq!(engine.process_tone_mark('x'), Some(edit(1, "ã", "ã")));
}

#[test]
fn z_after_a_tone_gives_the_plain_vowel_back() {
    let mut engine = engine_holding("Ơ");
    assert_eq!(engine.process_key('f', false), edit(1, "Ờ", "Ờ"));
    assert_eq!(engine.process_key('z', false), edit(1, "Oz", "Oz"));

    let mut engine = engine_holding("tha");
    assert_eq!(engine.process_key('r', false), edit(1, "ả", "thả"));
    assert_eq!(engine.process_key('Z', false), edit(1, "aZ", "thaZ"));
}

#[test]
fn z_strips_a_horn_without_a_tone() {
    let mut engine = engine_holding("mư");
    assert_eq!(engine.process_key('z', false), edit(1, "uz", "muz"));
    let mut engine = engine_holding("Â");
    assert_eq!(engine.process_key('z', false), edit(1, "Az", "Az"));
}

#[test]
fn z_without_a_diacritic_is_an_ordinary_letter() {
    let mut engine = engine_holding("tha");
    assert_eq!(engine.process_tone_mark('z'), None);
    assert_eq!(engine.get_buffer(), "tha");
    assert_eq!(engine.process_key('z', false), passed("thaz"));

    let mut engine = TelexEngine::new();
    assert_eq!(engine.process_key('z', false), passed("z"));
}

#[test]
fn tone_key_without_a_vowel_is_an_ordinary_letter() {
    let mut engine = engine_holding("th");
    assert_eq!(engine.process_tone_mark('s'), None);
    assert_eq!(engine.process_key('s', false), passed("ths"));
    let mut engine = TelexEngine::new();
    assert_eq!(engine.process_key('f', false), passed("f"));
}

#[test]
fn keys_that_are_no_tone_keys_place_no_tone() {
    let mut engine = engine_holding("tha");
    for key in ['a', 'w', 'n', '1', ' ', 'ế'] {
        assert_eq!(engine.process_tone_mark(key), None);
        assert_eq!(engine.get_buffer(), "tha");
    }
}

#[test]
fn acute_on_a_circumflexed_e() {
    let mut engine = TelexEngine::new();
    let results = type_keys(&mut engine, "thês");
    assert_eq!(results[0], passed("t"));
    assert_eq!(results[1], passed("th"));
    assert_eq!(results[2], passed("thê"));
    assert_eq!(results[3], edit(1, "ế", "thế"));
    assert_eq!(engine.get_buffer(), "thế");
}

#[test]
fn doubled_o_then_grave() {
    let mut engine = TelexEngine::new();
    let results = type_keys(&mut engine, "tooi");
    assert_eq!(results[1], passed("to"));
    assert_eq!(results[2], edit(1, "ô", "tô"));
    assert_eq!(results[3], passed("tôi"));
    assert_eq!(engine.process_key('f', false), edit(2, "ồi", "tồi"));
}

#[test]
fn consonant_after_vowel_commits() {
    let mut engine = TelexEngine::new();
    type_keys(&mut engine, "ti");
    let result = engine.process_key('n', false);
    assert_eq!(result, edit(0, "ti", "n"));
    assert!(result.handled);
    assert_eq!(engine.get_buffer(), "n");
}

#[test]
fn horned_pair_before_a_consonant() {
    let engine = engine_holding("mươn");
    assert_eq!(engine.get_buffer_slice(), &['m', 'ư', 'ơ', 'n']);
    assert_eq!(engine.find_vowel_position_for_tone(engine.get_buffer_slice()), Some(2));
    let mut engine = engine;
    assert_eq!(engine.process_key('j', false), edit(2, "ợn", "mượn"));
}

#[test]
fn second_tone_replaces_the_first() {
    let mut engine = TelexEngine::new();
    let results = type_keys(&mut engine, "thasf");
    assert_eq!(results[3], edit(1, "á", "thá"));
    assert_eq!(results[4], edit(1, "à", "thà"));
}

#[test]
fn doubling_keeps_case_and_tone() {
    let mut engine = engine_holding("tá");
    assert_eq!(engine.process_key('a', false), edit(1, "ấ", "tấ"));

    let mut engine = engine_holding("E");
    assert_eq!(engine.process_key('e', false), edit(1, "Ê", "Ê"));

    let mut engine = engine_holding("họ");
    assert_eq!(engine.process_key('O', false), edit(1, "ộ", "hộ"));

    let mut engine = engine_holding("À");
    assert_eq!(engine.try_process_double_vowel('A'), Some(edit(1, "Ầ", "Ầ")));
}

#[test]
fn only_plain_a_e_o_are_doubled() {
    for (buffer, key) in [("â", 'a'), ("ă", 'a'), ("ơ", 'o'), ("ê", 'e'), ("i", 'i'), ("u", 'u'),
        ("a", 'e'), ("o", 'a'), ("b", 'b'), ("ta", 'o'), ("", 'a')]
    {
        let mut engine = engine_holding(buffer);
        assert_eq!(engine.try_process_double_vowel(key), None);
        assert_eq!(engine.get_buffer(), buffer);
    }
    let mut engine = engine_holding("â");
    assert_eq!(engine.process_key('a', false), passed("âa"));
}

#[test]
fn doubling_in_a_full_buffer() {
    let mut engine = engine_holding("bbbbbbbbbbbbbbbbbbba");
    assert_eq!(engine.process_key('a', false), edit(1, "â", "bbbbbbbbbbbbbbbbbbbâ"));
}

#[test]
fn what_is_no_letter_commits_the_buffer() {
    for key in ['1', ' ', '.', '\n', '-'] {
        let mut engine = engine_holding("ti");
        assert!(engine.is_flush_trigger_key(key));
        let result = engine.process_key(key, false);
        assert_eq!(result, edit(0, "ti", &key.to_string()));

        let mut engine = engine_holding("th");
        assert_eq!(engine.process_key(key, false), edit(0, "th", &key.to_string()));
    }
}

#[test]
fn empty_buffer_has_nothing_to_commit() {
    let mut engine = TelexEngine::new();
    assert!(engine.is_flush_trigger_key(' '));
    assert_eq!(engine.process_key(' ', false), passed(" "));
    let mut engine = TelexEngine::new();
    assert!(!engine.is_flush_trigger_key('n'));
    assert_eq!(engine.process_key('n', false), passed("n"));
}

#[test]
fn letters_commit_only_after_a_vowel() {
    let after_vowel = engine_holding("ti");
    let after_consonant = engine_holding("th");
    for key in ['n', 'b', 'đ', 'N', 'q'] {
        assert!(after_vowel.is_flush_trigger_key(key));
        assert!(!after_consonant.is_flush_trigger_key(key));
    }
    // Vowels and modifier keys never end a syllable.
    for key in ['a', 'ê', 'Ư', 'ỵ', 'w', 'W', 's', 'f', 'r', 'x', 'j', 'z', 'S', 'Z'] {
        assert!(!after_vowel.is_flush_trigger_key(key));
        assert!(!after_consonant.is_flush_trigger_key(key));
    }
    let after_toned_vowel = engine_holding("thế");
    assert!(after_toned_vowel.is_flush_trigger_key('n'));
    let after_upper_vowel = engine_holding("Ă");
    assert!(after_upper_vowel.is_flush_trigger_key('n'));
}

#[test]
fn w_after_a_vowel_stays_in_the_buffer() {
    let mut engine = engine_holding("tu");
    assert_eq!(engine.process_key('w', false), passed("tuw"));
}

#[test]
fn the_caller_may_classify_the_key() {
    let engine = engine_holding("th");
    assert!(engine.ends_syllable('n', false));
    assert!(!engine.ends_syllable('n', true));
    assert!(engine.ends_syllable('s', false));
    assert!(!engine.ends_syllable('s', true));

    let mut engine = engine_holding("th");
    assert_eq!(engine.process_classified_key('n', false), edit(0, "th", "n"));
    let mut engine = engine_holding("th");
    assert_eq!(engine.process_classified_key('n', true), passed("thn"));
    let mut engine = engine_holding("ti");
    assert_eq!(engine.process_classified_key('n', true), edit(0, "ti", "n"));
    // A tone is placed before the question of a commit comes up.
    let mut engine = engine_holding("ti");
    assert_eq!(engine.process_classified_key('s', false), edit(1, "í", "tí"));
}

#[test]
fn flush_emits_the_buffer_and_empties_it() {
    let mut engine = engine_holding("việt");
    assert_eq!(engine.flush(), edit(0, "việt", ""));
    assert_eq!(engine.get_buffer(), "");
    assert_eq!(engine.flush(), edit(0, "", ""));
}

#[test]
fn current_state_is_the_buffer() {
    let engine = engine_holding("nghiêng");
    assert_eq!(engine.current_state(), "nghiêng");
    assert_eq!(TelexEngine::new().current_state(), "");
}

#[test]
fn engine_tells_vowels_as_the_model_does() {
    assert!(TelexEngine::is_vowel('a'));
    assert!(TelexEngine::is_vowel('Ở'));
    assert!(!TelexEngine::is_vowel('đ'));
    assert!(!TelexEngine::is_vowel('7'));
}

#[test]
fn tone_position_in_clusters() {
    let engine = TelexEngine::new();
    let cases: [(&str, Option<usize>); 20] = [
        ("", None),
        ("ng", None),
        ("a", Some(0)),
        ("ban", Some(1)),
        // The last block of vowels decides.
        ("abeo", Some(2)),
        ("hoa", Some(2)),
        ("hoà", Some(2)),
        ("khoe", Some(3)),
        ("loăn", Some(2)),
        ("OA", Some(1)),
        // `ươ` needs a consonant after it; otherwise the first marked vowel.
        ("mươn", Some(2)),
        ("MƯỢN", Some(2)),
        ("mươ", Some(1)),
        ("mươi", Some(1)),
        // Marked before plain.
        ("uyên", Some(2)),
        ("tiền", Some(2)),
        ("thuở", Some(3)),
        // No marked vowel: the first of the block.
        ("quy", Some(1)),
        ("ngoai", Some(3)),
        ("NGUY", Some(2)),
    ];
    for (text, expected) in cases {
        let buffer: Vec<char> = text.chars().collect();
        assert_eq!(engine.find_vowel_position_for_tone(&buffer), expected, "{}", text);
    }
}

#[test]
fn tone_position_in_a_long_slice() {
    let engine = TelexEngine::new();
    let mut buffer: Vec<char> = "b".repeat(100).chars().collect();
    assert_eq!(engine.find_vowel_position_for_tone(&buffer), None);
    buffer[40] = 'o';
    buffer[41] = 'a';
    buffer[42] = 'i';
    assert_eq!(engine.find_vowel_position_for_tone(&buffer), Some(41));
    buffer[99] = 'y';
    assert_eq!(engine.find_vowel_position_for_tone(&buffer), Some(99));
}

#[test]
fn string_from_takes_the_tail() {
    let chars = ['t', 'o', 'á', 'n'];
    assert_eq!(string_from(&chars, 0), "toán");
    assert_eq!(string_from(&chars, 2), "án");
    assert_eq!(string_from(&chars, 4), "");
    assert_eq!(string_from(&chars, 9), "");
    assert_eq!(string_from(&[], 0), "");
}
