use kotoba_clip::filter::{contains_japanese, should_speak, JAPANESE_CLASS};

#[test]
fn latin_text_is_not_japanese() {
    assert_eq!(contains_japanese("hello, world"), false);
    assert_eq!(should_speak("hello", false), false);
}

#[test]
fn empty_text_is_rejected_in_japanese_mode() {
    assert_eq!(should_speak("", false), false);
}

#[test]
fn empty_text_is_accepted_in_english_mode() {
    assert_eq!(should_speak("", true), true);
}

#[test]
fn hiragana_is_japanese() {
    assert_eq!(should_speak("こんにちは", false), true);
}

#[test]
fn katakana_and_kanji_are_japanese() {
    assert_eq!(contains_japanese("カタカナ"), true);
    assert_eq!(contains_japanese("漢字"), true);
    assert_eq!(contains_japanese("ｶﾀｶﾅ"), true);
    assert_eq!(contains_japanese("\u{3400}"), true);
    assert_eq!(contains_japanese("\u{4dbf}"), true);
    assert_eq!(contains_japanese("\u{4dc0}"), false);
    assert_eq!(contains_japanese("\u{4e00}"), true);
    assert_eq!(contains_japanese("\u{9fff}"), true);
    assert_eq!(contains_japanese("\u{a000}"), false);
    assert_eq!(contains_japanese("\u{faff}"), true);
    assert_eq!(contains_japanese("\u{fb00}"), false);
    assert_eq!(contains_japanese("\u{f900}"), true);
}

#[test]
fn range_edges_are_kept() {
    assert_eq!(contains_japanese("\u{3040}"), true);
    assert_eq!(contains_japanese("\u{30ff}"), true);
    assert_eq!(contains_japanese("\u{303f}"), false);
    assert_eq!(contains_japanese("\u{3100}"), false);
    assert_eq!(contains_japanese("\u{ff65}"), false);
    assert_eq!(contains_japanese("\u{ff66}"), true);
    assert_eq!(contains_japanese("\u{ff9f}"), true);
    assert_eq!(contains_japanese("\u{ffa0}"), false);
}

#[test]
fn later_ideograph_extensions_are_japanese() {
    assert_eq!(should_speak("\u{20000}", false), true);
    assert_eq!(contains_japanese("\u{2a6df}"), true);
    assert_eq!(contains_japanese("\u{2a6e0}"), false);
    assert_eq!(contains_japanese("\u{2a700}"), true);
    assert_eq!(contains_japanese("\u{2ee5f}"), true);
    assert_eq!(contains_japanese("\u{2ee60}"), false);
    assert_eq!(contains_japanese("\u{30000}"), true);
    assert_eq!(contains_japanese("\u{323af}"), true);
    assert_eq!(contains_japanese("\u{323b0}"), false);
    assert_eq!(contains_japanese("\u{1ffff}"), false);
}

#[test]
fn one_japanese_character_among_others_is_enough() {
    assert_eq!(should_speak("The word 猫 means cat", false), true);
    assert_eq!(should_speak("abc def ghi !? 123 あ", false), true);
    assert_eq!(should_speak("hello あ world", false), true);
}

#[test]
fn other_scripts_are_not_japanese() {
    assert_eq!(should_speak("Привет мир", false), false);
    assert_eq!(should_speak("안녕하세요", false), false);
    assert_eq!(should_speak("ÀÉÎÕÜ 😀", false), false);
}

#[test]
fn english_mode_speaks_any_script() {
    assert_eq!(should_speak("hello", true), true);
    assert_eq!(should_speak("こんにちは", true), true);
    assert_eq!(should_speak("Привет", true), true);
}

#[test]
fn class_pattern_is_one_bracketed_class() {
    assert!(JAPANESE_CLASS.starts_with('['));
    assert!(JAPANESE_CLASS.ends_with(']'));
}
