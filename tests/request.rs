use kotoba_clip::ssml::{
    bearer, ssml_body, synthesis_request, voice_name, ENGLISH_VOICE, JAPANESE_VOICE,
};

#[test]
fn japanese_mode_picks_the_ja_jp_voice() {
    assert_eq!(voice_name(false), JAPANESE_VOICE);
    assert!(voice_name(false).contains("ja-JP"));
    assert_eq!(voice_name(false), voice_name(false));
}

#[test]
fn english_mode_picks_the_en_au_voice() {
    assert_eq!(voice_name(true), ENGLISH_VOICE);
    assert!(voice_name(true).contains("en-AU"));
}

#[test]
fn ssml_body_is_exact() {
    assert_eq!(
        ssml_body("こんにちは", false),
        "<speak version='1.0' xmlns='http://www.w3.org/2001/10/synthesis' xml:lang='en-US'>\
<voice name='Microsoft Server Speech Text to Speech Voice (ja-JP, KeitaNeural)'>こんにちは</voice></speak>"
    );
}

#[test]
fn ssml_body_keeps_text_unescaped() {
    let body = ssml_body("a < b & c", true);
    assert!(body.contains("NatashaNeural)'>a < b & c</voice></speak>"));
}

#[test]
fn bearer_prefixes_the_token() {
    assert_eq!(bearer("abc.def"), "Bearer abc.def");
    assert_eq!(bearer(""), "Bearer ");
}

#[test]
fn synthesis_request_holds_body_and_authorization() {
    let r = synthesis_request("hello", "tok", true);
    assert_eq!(r.ssml, ssml_body("hello", true));
    assert_eq!(r.authorization, "Bearer tok");
}
