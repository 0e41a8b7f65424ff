//! Verified core of safe Rust bindings for whisper.cpp: parameter builders,
//! argument checks, and the decisions taken on what the C library hands back.
mod c_string;
mod context;
mod error;
mod params;
mod types;
mod vad;

pub use c_string::{
    c_str_compatible, check_c_str, check_optional_c_str, is_c_compatible,
    lemma_utf8_zero_byte_iff_nul_char,
};
pub use context::{
    call_status, handle_status, join_segment_texts, joined_text, lang_detect_result,
    lang_probs_len, lemma_joined_text_append, lemma_joined_text_push, lemma_joined_text_single,
    lemma_segment_text_whole, openvino_args_status, segment_text, text_or_empty, token_buffer_len, tokenize_result,
};
pub use error::{error_message, WhisperError};
pub use params::{lemma_context_params_builder_laws, lemma_full_params_new_keeps_strategy_and_defaults, WhisperContextParams, WhisperFullParams};
pub use types::{lemma_raw_strategy_injective, raw_strategy, ModelLoader, SamplingStrategy, WhisperToken};
pub use vad::{probs_len, VadContextParams, VadParams};

use vstd::prelude::*;

verus! {

// --- Constants ---

/// Sample rate of the audio whisper expects, in Hz.
pub const SAMPLE_RATE: u32 = 16000;

/// Size of the FFT window.
pub const N_FFT: u32 = 400;

/// Hop length between FFT windows, in samples.
pub const HOP_LENGTH: u32 = 160;

/// Length of an audio chunk, in seconds.
pub const CHUNK_SIZE: u32 = 30;

/// The language id that `whisper_lang_id` returned, or `None` when it
/// reported an unknown language with a negative value.
pub fn lang_id_from_raw(id: i32) -> (r: Option<i32>)
    ensures
        id < 0 ==> r is None,
        id >= 0 ==> r == Some(id),
{
    if id < 0 {
        None
    } else {
        Some(id)
    }
}

} // verus!
