use vstd::prelude::*;
use vstd::string::StringExecFns;

verus! {

/// Where the bearer token is issued.
pub const TOKEN_ENDPOINT: &'static str = "https://australiaeast.api.cognitive.microsoft.com/sts/v1.0/issuetoken";

/// Where speech is synthesised.
pub const SYNTHESIS_ENDPOINT: &'static str = "https://australiaeast.tts.speech.microsoft.com/cognitiveservices/v1";

/// The environment variable that holds the subscription key.
pub const API_KEY_VARIABLE: &'static str = "AZURE_SPEECH_KEY";

/// The header that carries the subscription key on a token request.
pub const SUBSCRIPTION_KEY_HEADER: &'static str = "Ocp-Apim-Subscription-Key";

/// The header and value that ask for the audio format of the reply.
pub const OUTPUT_FORMAT_HEADER: &'static str = "X-Microsoft-OutputFormat";

pub const OUTPUT_FORMAT: &'static str = "audio-16khz-64kbitrate-mono-mp3";

pub const USER_AGENT: &'static str = "australiaeast";

pub const SSML_CONTENT_TYPE: &'static str = "application/ssml+xml";

/// The neural voice used for Japanese text.
pub const JAPANESE_VOICE: &'static str = "Microsoft Server Speech Text to Speech Voice (ja-JP, KeitaNeural)";

/// The neural voice used in English mode.
pub const ENGLISH_VOICE: &'static str = "Microsoft Server Speech Text to Speech Voice (en-AU, NatashaNeural)";

pub const SSML_HEAD: &'static str = "<speak version='1.0' xmlns='http://www.w3.org/2001/10/synthesis' xml:lang='en-US'><voice name='";

pub const SSML_VOICE_CLOSE: &'static str = "'>";

pub const SSML_TAIL: &'static str = "</voice></speak>";

pub const BEARER_PREFIX: &'static str = "Bearer ";

/// The voice for a mode.
pub open spec fn voice_spec(english_mode: bool) -> Seq<char> {
    if english_mode {
        ENGLISH_VOICE@
    } else {
        JAPANESE_VOICE@
    }
}

/// The SSML document that reads `text` in the voice of the mode; the text
/// stands inside the `<voice>` element as it is, without escaping.
pub open spec fn ssml_spec(text: Seq<char>, english_mode: bool) -> Seq<char> {
    SSML_HEAD@ + voice_spec(english_mode) + SSML_VOICE_CLOSE@ + text + SSML_TAIL@
}

/// The value of the `Authorization` header for a token.
pub open spec fn bearer_spec(token: Seq<char>) -> Seq<char> {
    BEARER_PREFIX@ + token
}

/// Whether `part` occurs in `s` as a contiguous run.
pub open spec fn occurs_in(part: Seq<char>, s: Seq<char>) -> bool {
    exists|i: int|
        0 <= i && i + part.len() <= s.len() && #[trigger] s.subrange(i, i + part.len()) == part
}

/// The Japanese voice is tagged ja-JP and the English voice en-AU.
pub proof fn lemma_voice_tags()
    ensures
        occurs_in("ja-JP"@, voice_spec(false)),
        occurs_in("en-AU"@, voice_spec(true)),
{
    reveal_strlit("ja-JP");
    reveal_strlit("en-AU");
    reveal_strlit("Microsoft Server Speech Text to Speech Voice (ja-JP, KeitaNeural)");
    reveal_strlit("Microsoft Server Speech Text to Speech Voice (en-AU, NatashaNeural)");
    assert(voice_spec(false).subrange(46, 46 + "ja-JP"@.len() as int) =~= "ja-JP"@);
    assert(voice_spec(true).subrange(46, 46 + "en-AU"@.len() as int) =~= "en-AU"@);
}

/// A part of a part of `s` is a part of `s`.
proof fn lemma_occurs_in_trans(a: Seq<char>, b: Seq<char>, c: Seq<char>)
    requires
        occurs_in(a, b),
        occurs_in(b, c),
    ensures
        occurs_in(a, c),
{
    let i = choose|i: int| 0 <= i && i + a.len() <= b.len() && #[trigger] b.subrange(i, i + a.len()) == a;
    let j = choose|j: int| 0 <= j && j + b.len() <= c.len() && #[trigger] c.subrange(j, j + b.len()) == b;
    assert(c.subrange(j + i, j + i + a.len()) =~= a);
}

/// The SSML body names the voice of its mode, whose language tag thus
/// occurs in it, and holds the text between the opening and the closing of
/// the `<voice>` element.
pub proof fn lemma_ssml_contents(text: Seq<char>, english_mode: bool)
    ensures
        occurs_in(voice_spec(english_mode), ssml_spec(text, english_mode)),
        occurs_in(SSML_VOICE_CLOSE@ + text + SSML_TAIL@, ssml_spec(text, english_mode)),
        occurs_in(text, ssml_spec(text, english_mode)),
        !english_mode ==> occurs_in("ja-JP"@, ssml_spec(text, english_mode)),
        english_mode ==> occurs_in("en-AU"@, ssml_spec(text, english_mode)),
{
    let s = ssml_spec(text, english_mode);
    let v = voice_spec(english_mode);
    let h: int = SSML_HEAD@.len() as int;
    assert(s.subrange(h, h + v.len()) =~= v);
    let rest = SSML_VOICE_CLOSE@ + text + SSML_TAIL@;
    assert(s.subrange(h + v.len(), h + v.len() + rest.len()) =~= rest);
    let k: int = h + v.len() + SSML_VOICE_CLOSE@.len();
    assert(s.subrange(k, k + text.len()) =~= text);
    lemma_voice_tags();
    if english_mode {
        lemma_occurs_in_trans("en-AU"@, v, s);
    } else {
        lemma_occurs_in_trans("ja-JP"@, v, s);
    }
}

/// The voice identifier for a mode: the en-AU voice in English mode, the
/// ja-JP voice otherwise.
pub fn voice_name(english_mode: bool) -> (r: &'static str)
    ensures
        r@ == voice_spec(english_mode),
{
    if english_mode {
        ENGLISH_VOICE
    } else {
        JAPANESE_VOICE
    }
}

/// The SSML body of a synthesis request for `text`.
pub fn ssml_body(text: &str, english_mode: bool) -> (r: String)
    ensures
        r@ == ssml_spec(text@, english_mode),
{
    let mut body = String::from_str(SSML_HEAD);
    body.append(voice_name(english_mode));
    body.append(SSML_VOICE_CLOSE);
    body.append(text);
    body.append(SSML_TAIL);
    body
}

/// The `Authorization` header value that presents `token`.
pub fn bearer(token: &str) -> (r: String)
    ensures
        r@ == bearer_spec(token@),
{
    let mut value = String::from_str(BEARER_PREFIX);
    value.append(token);
    value
}

/// What a synthesis request sends: the SSML body and the authorization.
#[derive(Debug, PartialEq, Eq)]
pub struct SynthesisRequest {
    pub ssml: String,
    pub authorization: String,
}

/// The synthesis request that reads `text` aloud with `token`.
pub fn synthesis_request(text: &str, token: &str, english_mode: bool) -> (r: SynthesisRequest)
    ensures
        r.ssml@ == ssml_spec(text@, english_mode),
        r.authorization@ == bearer_spec(token@),
{
    SynthesisRequest { ssml: ssml_body(text, english_mode), authorization: bearer(token) }
}

} // verus!
