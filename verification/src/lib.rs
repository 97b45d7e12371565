//! A thin, verified convenience layer around an audio-decoding engine and a
//! speech-recognition engine: it provisions a model artifact, plans the
//! decoding of an audio container into a mono 16 kHz sample stream, and
//! reshapes the engine's timed segments into a simple result model.
pub mod audio_parser;
pub mod model_handler;
pub mod transcriber;
