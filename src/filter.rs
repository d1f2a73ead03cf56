use vstd::prelude::*;

verus! {

/// The character class that marks Japanese script: Hiragana and Katakana,
/// CJK Unified Ideographs Extension A, CJK Unified Ideographs,
/// CJK Compatibility Ideographs, half-width Katakana, and the later
/// CJK Unified Ideographs extensions (B to F, then G to I).
pub const JAPANESE_CLASS: &'static str = "[\\u3040-\\u30ff\\u3400-\\u4dbf\\u4e00-\\u9fff\\uf900-\\ufaff\\uff66-\\uff9f\\u{20000}-\\u{2a6df}\\u{2a700}-\\u{2ee5f}\\u{30000}-\\u{323af}]";

/// Whether one character lies in one of the Japanese ranges.
pub open spec fn is_japanese_char(c: char) -> bool {
    let u = c as u32;
    (0x3040 <= u && u <= 0x30ff) || (0x3400 <= u && u <= 0x4dbf) || (0x4e00 <= u && u <= 0x9fff)
        || (0xf900 <= u && u <= 0xfaff) || (0xff66 <= u && u <= 0xff9f)
        || (0x20000 <= u && u <= 0x2a6df) || (0x2a700 <= u && u <= 0x2ee5f)
        || (0x30000 <= u && u <= 0x323af)
}

/// Whether some character of `s` lies in one of the Japanese ranges.
pub open spec fn has_japanese_char(s: Seq<char>) -> bool {
    exists|i: int| 0 <= i < s.len() && #[trigger] is_japanese_char(s[i])
}

#[verifier::external_type_specification]
#[verifier::external_body]
pub struct ExRegexError(regex::Error);

/// Relies on regex::Regex::new and regex::Regex::is_match. The pattern is one
/// bracketed class of `\u` escape ranges: valid syntax, far below the
/// default size limit, so it compiles; and it matches a text exactly when
/// some character of the text lies in one of those ranges.
#[verifier::external_body]
fn class_is_match(pattern: &str, text: &str) -> (r: Result<bool, regex::Error>)
    requires
        pattern@ == JAPANESE_CLASS@,
    ensures
        r is Ok,
        r matches Ok(b) ==> b == has_japanese_char(text@),
{
    regex::Regex::new(pattern).map(|re| re.is_match(text))
}

/// Whether `text` holds at least one character of Japanese script.
pub fn contains_japanese(text: &str) -> (r: bool)
    ensures
        r == has_japanese_char(text@),
{
    match class_is_match(JAPANESE_CLASS, text) {
        Ok(b) => b,
        Err(_) => false,
    }
}

/// Whether copied text is to be spoken: always in English mode, otherwise
/// exactly when it holds Japanese script.
pub fn should_speak(text: &str, english_mode: bool) -> (r: bool)
    ensures
        r == (english_mode || has_japanese_char(text@)),
{
    if english_mode {
        true
    } else {
        contains_japanese(text)
    }
}

} // verus!
