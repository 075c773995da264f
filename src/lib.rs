//! Safe, verified core of a binding to the whisper.cpp speech recognition engine.
//!
//! The native engine takes its configuration as a flat parameter block whose
//! optional strings are nullable pointers into caller-owned storage. This crate
//! holds the safe configuration value, the codec between it and that block, and
//! the per-session bookkeeping that threads emitted tokens into the next call.
//! The native calls themselves are made by the surrounding program.

mod params;
mod session;
mod text;

pub use params::{
    lemma_codec_round_trip, lemma_encoded_block_readable, lemma_strategy_round_trip,
    FullParamsBlock, ParamsStorage, WhisperParams, WhisperParamsError, WhisperSampling,
    SAMPLING_BEAM_SEARCH, SAMPLING_GREEDY,
};
pub use session::{
    flatten, lemma_prompt_after_passes, passes_total, prompt_after, segment_views, token_total,
    SessionContext, WhisperError, WhisperSessionError,
};
pub use text::{string_or_empty, text_from_bytes};
