//! Reads copied text aloud: decides whether clipboard text is to be spoken,
//! builds the speech-synthesis request for it, buffers the audio that comes
//! back, and drives the whole cycle as a state machine.

pub mod filter;
pub mod ssml;
pub mod audio;
pub mod session;
