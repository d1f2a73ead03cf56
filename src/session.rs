use vstd::prelude::*;
use crate::audio::AudioBuffer;
use crate::filter::{has_japanese_char, should_speak};
use crate::ssml::{bearer_spec, ssml_spec, synthesis_request, SynthesisRequest};

verus! {

/// What went wrong in one cycle; the session is back to idle after each.
#[derive(Debug, Clone, Copy, PartialEq, Eq)]
pub enum Failure {
    /// The clipboard could not be read.
    ClipboardUnreadable,
    /// No bearer token was issued.
    TokenRequest,
    /// The synthesis request failed.
    Synthesis,
    /// The audio could not be played.
    Playback,
}

/// What the outside world reports to the session.
pub enum Event {
    /// The clipboard changed and now holds this text.
    ClipboardChanged(String),
    /// The clipboard could not be read.
    ClipboardUnreadable,
    /// A bearer token was issued.
    TokenIssued(String),
    /// The token request failed.
    TokenFailed,
    /// The synthesis service answered with these audio bytes.
    AudioReceived(Vec<u8>),
    /// The synthesis request failed.
    SynthesisFailed,
    /// Playback ran to its end.
    PlaybackFinished,
    /// Playback could not be done.
    PlaybackFailed,
}

/// What the session asks the outside world to do next.
pub enum Action {
    /// Nothing: keep watching the clipboard.
    Wait,
    /// Ask for a fresh bearer token.
    RequestToken,
    /// Send this synthesis request.
    Synthesize(SynthesisRequest),
    /// Play this audio to its end.
    Play(AudioBuffer),
    /// Report this failure.
    Report(Failure),
}

/// The model of an event.
pub enum Signal {
    ClipboardChanged(Seq<char>),
    ClipboardUnreadable,
    TokenIssued(Seq<char>),
    TokenFailed,
    AudioReceived(Seq<u8>),
    SynthesisFailed,
    PlaybackFinished,
    PlaybackFailed,
}

/// The model of an action: a synthesis request as its SSML body and its
/// authorization, audio as its bytes and position.
pub enum Directive {
    Wait,
    RequestToken,
    Synthesize(Seq<char>, Seq<char>),
    Play(Seq<u8>, nat),
    Report(Failure),
}

/// Where a session stands: idle, or waiting on a token for a text, on audio,
/// or on playback.
pub enum Phase {
    Idle,
    AwaitingToken(Seq<char>),
    AwaitingAudio,
    Playing,
}

impl View for Event {
    type V = Signal;

    open spec fn view(&self) -> Signal {
        match self {
            Event::ClipboardChanged(t) => Signal::ClipboardChanged(t@),
            Event::ClipboardUnreadable => Signal::ClipboardUnreadable,
            Event::TokenIssued(t) => Signal::TokenIssued(t@),
            Event::TokenFailed => Signal::TokenFailed,
            Event::AudioReceived(b) => Signal::AudioReceived(b@),
            Event::SynthesisFailed => Signal::SynthesisFailed,
            Event::PlaybackFinished => Signal::PlaybackFinished,
            Event::PlaybackFailed => Signal::PlaybackFailed,
        }
    }
}

impl View for Action {
    type V = Directive;

    open spec fn view(&self) -> Directive {
        match self {
            Action::Wait => Directive::Wait,
            Action::RequestToken => Directive::RequestToken,
            Action::Synthesize(r) => Directive::Synthesize(r.ssml@, r.authorization@),
            Action::Play(b) => Directive::Play(b.data_spec(), b.position_spec()),
            Action::Report(f) => Directive::Report(*f),
        }
    }
}

/// Whether copied text is spoken in a mode.
pub open spec fn wants_speech(english_mode: bool, text: Seq<char>) -> bool {
    english_mode || has_japanese_char(text)
}

/// One step of the session: the next phase and what to do.
pub open spec fn transition(english_mode: bool, phase: Phase, signal: Signal) -> (Phase, Directive) {
    match (phase, signal) {
        (Phase::Idle, Signal::ClipboardChanged(t)) => if wants_speech(english_mode, t) {
            (Phase::AwaitingToken(t), Directive::RequestToken)
        } else {
            (Phase::Idle, Directive::Wait)
        },
        (p, Signal::ClipboardUnreadable) => (p, Directive::Report(Failure::ClipboardUnreadable)),
        (Phase::AwaitingToken(t), Signal::TokenIssued(token)) => (
            Phase::AwaitingAudio,
            Directive::Synthesize(ssml_spec(t, english_mode), bearer_spec(token)),
        ),
        (Phase::AwaitingToken(_), Signal::TokenFailed) => (
            Phase::Idle,
            Directive::Report(Failure::TokenRequest),
        ),
        (Phase::AwaitingAudio, Signal::AudioReceived(bytes)) => (
            Phase::Playing,
            Directive::Play(bytes, 0),
        ),
        (Phase::AwaitingAudio, Signal::SynthesisFailed) => (
            Phase::Idle,
            Directive::Report(Failure::Synthesis),
        ),
        (Phase::Playing, Signal::PlaybackFinished) => (Phase::Idle, Directive::Wait),
        (Phase::Playing, Signal::PlaybackFailed) => (
            Phase::Idle,
            Directive::Report(Failure::Playback),
        ),
        (p, _) => (p, Directive::Wait),
    }
}

/// In English mode every clipboard change that holds text starts a
/// synthesis attempt, whatever its script: the session asks for a token and
/// then sends the text in the English voice.
pub proof fn lemma_english_mode_speaks_all(text: Seq<char>, token: Seq<char>)
    requires
        text.len() > 0,
    ensures
        transition(true, Phase::Idle, Signal::ClipboardChanged(text)) == (
            Phase::AwaitingToken(text),
            Directive::RequestToken,
        ),
        transition(true, Phase::AwaitingToken(text), Signal::TokenIssued(token)) == (
            Phase::AwaitingAudio,
            Directive::Synthesize(ssml_spec(text, true), bearer_spec(token)),
        ),
{
}

/// A whole cycle: text that is to be spoken first asks for a fresh token;
/// only the issued token leads to the synthesis request, which reads the
/// text in the voice of the mode with that token as bearer; the audio that
/// comes back is played as received, from its start; and the end of
/// playback leaves the session idle with nothing more to do.
pub proof fn lemma_whole_cycle(english_mode: bool, text: Seq<char>, token: Seq<char>, audio: Seq<u8>)
    requires
        wants_speech(english_mode, text),
    ensures
        ({
            let (p1, d1) = transition(english_mode, Phase::Idle, Signal::ClipboardChanged(text));
            let (p2, d2) = transition(english_mode, p1, Signal::TokenIssued(token));
            let (p3, d3) = transition(english_mode, p2, Signal::AudioReceived(audio));
            let (p4, d4) = transition(english_mode, p3, Signal::PlaybackFinished);
            d1 == Directive::RequestToken
                && d2 == Directive::Synthesize(ssml_spec(text, english_mode), bearer_spec(token))
                && d3 == Directive::Play(audio, 0) && d4 == Directive::Wait && p4 == Phase::Idle
        }),
{
}

/// A failed token request is reported and leaves the session idle, where
/// the next clipboard change is taken as by a fresh session.
pub proof fn lemma_token_failure_recovers(english_mode: bool, text: Seq<char>, next: Seq<char>)
    ensures
        transition(english_mode, Phase::AwaitingToken(text), Signal::TokenFailed) == (
            Phase::Idle,
            Directive::Report(Failure::TokenRequest),
        ),
        transition(
            english_mode,
            transition(english_mode, Phase::AwaitingToken(text), Signal::TokenFailed).0,
            Signal::ClipboardChanged(next),
        ) == transition(english_mode, Phase::Idle, Signal::ClipboardChanged(next)),
        wants_speech(english_mode, next) ==> transition(
            english_mode,
            transition(english_mode, Phase::AwaitingToken(text), Signal::TokenFailed).0,
            Signal::ClipboardChanged(next),
        ) == (Phase::AwaitingToken(next), Directive::RequestToken),
{
}

/// Every failure of a cycle, at any stage, brings the session back to idle
/// without any other effect than its report.
pub proof fn lemma_failures_return_to_idle(english_mode: bool, text: Seq<char>)
    ensures
        transition(english_mode, Phase::AwaitingToken(text), Signal::TokenFailed).0 is Idle,
        transition(english_mode, Phase::AwaitingAudio, Signal::SynthesisFailed).0 is Idle,
        transition(english_mode, Phase::Playing, Signal::PlaybackFailed).0 is Idle,
        transition(english_mode, Phase::Idle, Signal::ClipboardUnreadable) == (
            Phase::Idle,
            Directive::Report(Failure::ClipboardUnreadable),
        ),
{
}

/// Text that is not to be spoken leaves the session idle and asks for
/// nothing: no request is made and nothing is played.
pub proof fn lemma_rejected_text_does_nothing(english_mode: bool, text: Seq<char>)
    requires
        !wants_speech(english_mode, text),
    ensures
        transition(english_mode, Phase::Idle, Signal::ClipboardChanged(text)) == (
            Phase::Idle,
            Directive::Wait,
        ),
{
}

/// Received audio is handed to playback as the same bytes, of the same
/// length, ready to be read from the start.
pub proof fn lemma_audio_played_as_received(english_mode: bool, bytes: Seq<u8>)
    ensures
        transition(english_mode, Phase::AwaitingAudio, Signal::AudioReceived(bytes)) == (
            Phase::Playing,
            Directive::Play(bytes, 0),
        ),
{
}

enum Stage {
    Idle,
    AwaitingToken(String),
    AwaitingAudio,
    Playing,
}

/// The decisions of one clipboard watcher, from a change of the clipboard to
/// the end of playback.
pub struct Session {
    english_mode: bool,
    stage: Stage,
}

impl Session {
    /// Whether English text is spoken too.
    pub closed spec fn english_mode_spec(&self) -> bool {
        self.english_mode
    }

    /// Where the session stands.
    pub closed spec fn phase(&self) -> Phase {
        match self.stage {
            Stage::Idle => Phase::Idle,
            Stage::AwaitingToken(t) => Phase::AwaitingToken(t@),
            Stage::AwaitingAudio => Phase::AwaitingAudio,
            Stage::Playing => Phase::Playing,
        }
    }

    /// An idle session in the given mode.
    pub fn new(english_mode: bool) -> (r: Session)
        ensures
            r.english_mode_spec() == english_mode,
            r.phase() == Phase::Idle,
    {
        Session { english_mode, stage: Stage::Idle }
    }

    /// Whether English text is spoken too.
    pub fn english_mode(&self) -> (r: bool)
        ensures
            r == self.english_mode_spec(),
    {
        self.english_mode
    }

    /// Whether the session is idle, waiting for the clipboard.
    pub fn is_idle(&self) -> (r: bool)
        ensures
            r == (self.phase() is Idle),
    {
        match self.stage {
            Stage::Idle => true,
            _ => false,
        }
    }

    /// Takes one event and says what to do next, as `transition` gives it.
    pub fn step(&mut self, event: Event) -> (action: Action)
        ensures
            final(self).english_mode_spec() == old(self).english_mode_spec(),
            ({
                let (p, d) = transition(old(self).english_mode_spec(), old(self).phase(), event@);
                final(self).phase() == p && action@ == d
            }),
            action matches Action::Play(b) ==> b.wf(),
    {
        let mut stage = Stage::Idle;
        std::mem::swap(&mut stage, &mut self.stage);
        match (stage, event) {
            (Stage::Idle, Event::ClipboardChanged(text)) => {
                if should_speak(text.as_str(), self.english_mode) {
                    self.stage = Stage::AwaitingToken(text);
                    Action::RequestToken
                } else {
                    Action::Wait
                }
            },
            (s, Event::ClipboardUnreadable) => {
                self.stage = s;
                Action::Report(Failure::ClipboardUnreadable)
            },
            (Stage::AwaitingToken(text), Event::TokenIssued(token)) => {
                let request = synthesis_request(text.as_str(), token.as_str(), self.english_mode);
                self.stage = Stage::AwaitingAudio;
                Action::Synthesize(request)
            },
            (Stage::AwaitingToken(_), Event::TokenFailed) => Action::Report(Failure::TokenRequest),
            (Stage::AwaitingAudio, Event::AudioReceived(bytes)) => {
                let buffer = AudioBuffer::from_bytes(bytes.as_slice());
                self.stage = Stage::Playing;
                Action::Play(buffer)
            },
            (Stage::AwaitingAudio, Event::SynthesisFailed) => Action::Report(Failure::Synthesis),
            (Stage::Playing, Event::PlaybackFinished) => Action::Wait,
            (Stage::Playing, Event::PlaybackFailed) => Action::Report(Failure::Playback),
            (s, _) => {
                self.stage = s;
                Action::Wait
            },
        }
    }
}

} // verus!
