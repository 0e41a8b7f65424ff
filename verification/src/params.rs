use vstd::prelude::*;

use crate::c_string::{c_str_compatible, is_c_compatible};
use crate::types::SamplingStrategy;

verus! {

/// Parameters for creating a whisper context.
///
/// Each setting is an override of `whisper_context_default_params`; `None`
/// keeps that default.
#[derive(Debug, Clone, Copy, PartialEq, Eq, Structural)]
pub struct WhisperContextParams {
    /// `use_gpu`; `None` keeps whisper.cpp's default.
    pub use_gpu: Option<bool>,
    /// `flash_attn`; `None` keeps whisper.cpp's default.
    pub flash_attn: Option<bool>,
    /// `gpu_device`; `None` keeps whisper.cpp's default.
    pub gpu_device: Option<i32>,
}

impl WhisperContextParams {
    /// Enables or disables the GPU, leaving every other setting as it was.
    pub fn use_gpu(self, enable: bool) -> (p: Self)
        ensures
            p == (WhisperContextParams { use_gpu: Some(enable), ..self }),
    {
        WhisperContextParams { use_gpu: Some(enable), ..self }
    }

    /// Enables or disables flash attention, leaving every other setting as it was.
    pub fn flash_attn(self, enable: bool) -> (p: Self)
        ensures
            p == (WhisperContextParams { flash_attn: Some(enable), ..self }),
    {
        WhisperContextParams { flash_attn: Some(enable), ..self }
    }

    /// Chooses the GPU device, leaving every other setting as it was.
    pub fn gpu_device(self, device: i32) -> (p: Self)
        ensures
            p == (WhisperContextParams { gpu_device: Some(device), ..self }),
    {
        WhisperContextParams { gpu_device: Some(device), ..self }
    }
}

/// Choosing a context setting twice keeps only the last choice, and choices
/// of different settings can be made in either order.
pub proof fn lemma_context_params_builder_laws(
    p: WhisperContextParams,
    a: bool,
    b: bool,
    c: bool,
    d: i32,
    e: i32,
)
    ensures
        (WhisperContextParams { use_gpu: Some(b), ..(WhisperContextParams { use_gpu: Some(a), ..p }) })
            == (WhisperContextParams { use_gpu: Some(b), ..p }),
        (WhisperContextParams { flash_attn: Some(b), ..(WhisperContextParams { flash_attn: Some(a), ..p }) })
            == (WhisperContextParams { flash_attn: Some(b), ..p }),
        (WhisperContextParams { gpu_device: Some(e), ..(WhisperContextParams { gpu_device: Some(d), ..p }) })
            == (WhisperContextParams { gpu_device: Some(e), ..p }),
        (WhisperContextParams { flash_attn: Some(c), ..(WhisperContextParams { use_gpu: Some(a), ..p }) })
            == (WhisperContextParams { use_gpu: Some(a), ..(WhisperContextParams { flash_attn: Some(c), ..p }) }),
        (WhisperContextParams { gpu_device: Some(d), ..(WhisperContextParams { use_gpu: Some(a), ..p }) })
            == (WhisperContextParams { use_gpu: Some(a), ..(WhisperContextParams { gpu_device: Some(d), ..p }) }),
        (WhisperContextParams { gpu_device: Some(d), ..(WhisperContextParams { flash_attn: Some(c), ..p }) })
            == (WhisperContextParams { flash_attn: Some(c), ..(WhisperContextParams { gpu_device: Some(d), ..p }) }),
{
}

impl Default for WhisperContextParams {
    /// Parameters holding whisper.cpp's default context settings.
    fn default() -> (p: Self)
        ensures
            p == (WhisperContextParams { use_gpu: None, flash_attn: None, gpu_device: None }),
    {
        WhisperContextParams { use_gpu: None, flash_attn: None, gpu_device: None }
    }
}

/// Parameters for whisper_full inference.
///
/// Each setting is an override of the defaults that whisper.cpp gives the
/// chosen sampling strategy; `None` keeps that default.
#[derive(Debug)]
pub struct WhisperFullParams {
    /// The sampling strategy whose defaults the settings override.
    pub strategy: SamplingStrategy,
    /// `n_threads`; `None` keeps whisper.cpp's default.
    pub n_threads: Option<i32>,
    /// `n_max_text_ctx`; `None` keeps whisper.cpp's default.
    pub n_max_text_ctx: Option<i32>,
    /// `offset_ms`; `None` keeps whisper.cpp's default.
    pub offset_ms: Option<i32>,
    /// `duration_ms`; `None` keeps whisper.cpp's default.
    pub duration_ms: Option<i32>,
    /// `translate`; `None` keeps whisper.cpp's default.
    pub translate: Option<bool>,
    /// `no_context`; `None` keeps whisper.cpp's default.
    pub no_context: Option<bool>,
    /// `no_timestamps`; `None` keeps whisper.cpp's default.
    pub no_timestamps: Option<bool>,
    /// `single_segment`; `None` keeps whisper.cpp's default.
    pub single_segment: Option<bool>,
    /// `print_special`; `None` keeps whisper.cpp's default.
    pub print_special: Option<bool>,
    /// `print_progress`; `None` keeps whisper.cpp's default.
    pub print_progress: Option<bool>,
    /// `print_realtime`; `None` keeps whisper.cpp's default.
    pub print_realtime: Option<bool>,
    /// `print_timestamps`; `None` keeps whisper.cpp's default.
    pub print_timestamps: Option<bool>,
    /// `token_timestamps`; `None` keeps whisper.cpp's default.
    pub token_timestamps: Option<bool>,
    /// Bit pattern (`f32::to_bits`) of the `thold_pt` value to set; `None` keeps whisper.cpp's default.
    pub thold_pt_bits: Option<u32>,
    /// Bit pattern (`f32::to_bits`) of the `thold_ptsum` value to set; `None` keeps whisper.cpp's default.
    pub thold_ptsum_bits: Option<u32>,
    /// `max_len`; `None` keeps whisper.cpp's default.
    pub max_len: Option<i32>,
    /// `split_on_word`; `None` keeps whisper.cpp's default.
    pub split_on_word: Option<bool>,
    /// `max_tokens`; `None` keeps whisper.cpp's default.
    pub max_tokens: Option<i32>,
    /// `debug_mode`; `None` keeps whisper.cpp's default.
    pub debug_mode: Option<bool>,
    /// `audio_ctx`; `None` keeps whisper.cpp's default.
    pub audio_ctx: Option<i32>,
    /// `tdrz_enable`; `None` keeps whisper.cpp's default.
    pub tdrz_enable: Option<bool>,
    /// `language`; `None` keeps whisper.cpp's default.
    pub language: Option<String>,
    /// `detect_language`; `None` keeps whisper.cpp's default.
    pub detect_language: Option<bool>,
    /// `initial_prompt`; `None` keeps whisper.cpp's default.
    pub initial_prompt: Option<String>,
    /// `suppress_regex`; `None` keeps whisper.cpp's default.
    pub suppress_regex: Option<String>,
    /// `suppress_blank`; `None` keeps whisper.cpp's default.
    pub suppress_blank: Option<bool>,
    /// `suppress_nst`; `None` keeps whisper.cpp's default.
    pub suppress_nst: Option<bool>,
    /// Bit pattern (`f32::to_bits`) of the `temperature` value to set; `None` keeps whisper.cpp's default.
    pub temperature_bits: Option<u32>,
    /// Bit pattern (`f32::to_bits`) of the `max_initial_ts` value to set; `None` keeps whisper.cpp's default.
    pub max_initial_ts_bits: Option<u32>,
    /// Bit pattern (`f32::to_bits`) of the `length_penalty` value to set; `None` keeps whisper.cpp's default.
    pub length_penalty_bits: Option<u32>,
    /// Bit pattern (`f32::to_bits`) of the `temperature_inc` value to set; `None` keeps whisper.cpp's default.
    pub temperature_inc_bits: Option<u32>,
    /// Bit pattern (`f32::to_bits`) of the `entropy_thold` value to set; `None` keeps whisper.cpp's default.
    pub entropy_thold_bits: Option<u32>,
    /// Bit pattern (`f32::to_bits`) of the `logprob_thold` value to set; `None` keeps whisper.cpp's default.
    pub logprob_thold_bits: Option<u32>,
    /// Bit pattern (`f32::to_bits`) of the `no_speech_thold` value to set; `None` keeps whisper.cpp's default.
    pub no_speech_thold_bits: Option<u32>,
    /// `greedy_best_of`; `None` keeps whisper.cpp's default.
    pub greedy_best_of: Option<i32>,
    /// `beam_size`; `None` keeps whisper.cpp's default.
    pub beam_size: Option<i32>,
    /// Bit pattern (`f32::to_bits`) of the `beam_patience` value to set; `None` keeps whisper.cpp's default.
    pub beam_patience_bits: Option<u32>,
}

impl WhisperFullParams {
    /// Every text setting can be handed to whisper.cpp as a C string.
    pub open spec fn wf(&self) -> bool {
        &&& (self.language matches Some(s) ==> is_c_compatible(s@))
        &&& (self.initial_prompt matches Some(s) ==> is_c_compatible(s@))
        &&& (self.suppress_regex matches Some(s) ==> is_c_compatible(s@))
    }

    /// The defaults of whisper.cpp for `strategy`, with nothing overridden.
    pub open spec fn spec_new(strategy: SamplingStrategy) -> Self {
        WhisperFullParams {
            strategy,
            n_threads: None,
            n_max_text_ctx: None,
            offset_ms: None,
            duration_ms: None,
            translate: None,
            no_context: None,
            no_timestamps: None,
            single_segment: None,
            print_special: None,
            print_progress: None,
            print_realtime: None,
            print_timestamps: None,
            token_timestamps: None,
            thold_pt_bits: None,
            thold_ptsum_bits: None,
            max_len: None,
            split_on_word: None,
            max_tokens: None,
            debug_mode: None,
            audio_ctx: None,
            tdrz_enable: None,
            language: None,
            detect_language: None,
            initial_prompt: None,
            suppress_regex: None,
            suppress_blank: None,
            suppress_nst: None,
            temperature_bits: None,
            max_initial_ts_bits: None,
            length_penalty_bits: None,
            temperature_inc_bits: None,
            entropy_thold_bits: None,
            logprob_thold_bits: None,
            no_speech_thold_bits: None,
            greedy_best_of: None,
            beam_size: None,
            beam_patience_bits: None,
        }
    }

    /// Parameters holding whisper.cpp's defaults for `strategy`.
    pub fn new(strategy: SamplingStrategy) -> (p: Self)
        ensures
            p == Self::spec_new(strategy),
            p.wf(),
            p.strategy == strategy,
            p.n_threads is None,
            p.n_max_text_ctx is None,
            p.offset_ms is None,
            p.duration_ms is None,
            p.translate is None,
            p.no_context is None,
            p.no_timestamps is None,
            p.single_segment is None,
            p.print_special is None,
            p.print_progress is None,
            p.print_realtime is None,
            p.print_timestamps is None,
            p.token_timestamps is None,
            p.thold_pt_bits is None,
            p.thold_ptsum_bits is None,
            p.max_len is None,
            p.split_on_word is None,
            p.max_tokens is None,
            p.debug_mode is None,
            p.audio_ctx is None,
            p.tdrz_enable is None,
            p.language is None,
            p.detect_language is None,
            p.initial_prompt is None,
            p.suppress_regex is None,
            p.suppress_blank is None,
            p.suppress_nst is None,
            p.temperature_bits is None,
            p.max_initial_ts_bits is None,
            p.length_penalty_bits is None,
            p.temperature_inc_bits is None,
            p.entropy_thold_bits is None,
            p.logprob_thold_bits is None,
            p.no_speech_thold_bits is None,
            p.greedy_best_of is None,
            p.beam_size is None,
            p.beam_patience_bits is None,
    {
        WhisperFullParams {
            strategy,
            n_threads: None,
            n_max_text_ctx: None,
            offset_ms: None,
            duration_ms: None,
            translate: None,
            no_context: None,
            no_timestamps: None,
            single_segment: None,
            print_special: None,
            print_progress: None,
            print_realtime: None,
            print_timestamps: None,
            token_timestamps: None,
            thold_pt_bits: None,
            thold_ptsum_bits: None,
            max_len: None,
            split_on_word: None,
            max_tokens: None,
            debug_mode: None,
            audio_ctx: None,
            tdrz_enable: None,
            language: None,
            detect_language: None,
            initial_prompt: None,
            suppress_regex: None,
            suppress_blank: None,
            suppress_nst: None,
            temperature_bits: None,
            max_initial_ts_bits: None,
            length_penalty_bits: None,
            temperature_inc_bits: None,
            entropy_thold_bits: None,
            logprob_thold_bits: None,
            no_speech_thold_bits: None,
            greedy_best_of: None,
            beam_size: None,
            beam_patience_bits: None,
        }
    }

    /// Sets `n_threads`, leaving every other setting as it was.
    pub fn set_n_threads(&mut self, n: i32) -> (ret: &mut Self)
        ensures
            *ret == (WhisperFullParams { n_threads: Some(n), ..*old(self) }),
            *final(self) == *final(ret),
    {
        self.n_threads = Some(n);
        self
    }

    /// Sets `n_max_text_ctx`, leaving every other setting as it was.
    pub fn set_n_max_text_ctx(&mut self, n: i32) -> (ret: &mut Self)
        ensures
            *ret == (WhisperFullParams { n_max_text_ctx: Some(n), ..*old(self) }),
            *final(self) == *final(ret),
    {
        self.n_max_text_ctx = Some(n);
        self
    }

    /// Sets `offset_ms`, leaving every other setting as it was.
    pub fn set_offset_ms(&mut self, ms: i32) -> (ret: &mut Self)
        ensures
            *ret == (WhisperFullParams { offset_ms: Some(ms), ..*old(self) }),
            *final(self) == *final(ret),
    {
        self.offset_ms = Some(ms);
        self
    }

    /// Sets `duration_ms`, leaving every other setting as it was.
    pub fn set_duration_ms(&mut self, ms: i32) -> (ret: &mut Self)
        ensures
            *ret == (WhisperFullParams { duration_ms: Some(ms), ..*old(self) }),
            *final(self) == *final(ret),
    {
        self.duration_ms = Some(ms);
        self
    }

    /// Sets `translate`, leaving every other setting as it was.
    pub fn set_translate(&mut self, enable: bool) -> (ret: &mut Self)
        ensures
            *ret == (WhisperFullParams { translate: Some(enable), ..*old(self) }),
            *final(self) == *final(ret),
    {
        self.translate = Some(enable);
        self
    }

    /// Sets `no_context`, leaving every other setting as it was.
    pub fn set_no_context(&mut self, enable: bool) -> (ret: &mut Self)
        ensures
            *ret == (WhisperFullParams { no_context: Some(enable), ..*old(self) }),
            *final(self) == *final(ret),
    {
        self.no_context = Some(enable);
        self
    }

    /// Sets `no_timestamps`, leaving every other setting as it was.
    pub fn set_no_timestamps(&mut self, enable: bool) -> (ret: &mut Self)
        ensures
            *ret == (WhisperFullParams { no_timestamps: Some(enable), ..*old(self) }),
            *final(self) == *final(ret),
    {
        self.no_timestamps = Some(enable);
        self
    }

    /// Sets `single_segment`, leaving every other setting as it was.
    pub fn set_single_segment(&mut self, enable: bool) -> (ret: &mut Self)
        ensures
            *ret == (WhisperFullParams { single_segment: Some(enable), ..*old(self) }),
            *final(self) == *final(ret),
    {
        self.single_segment = Some(enable);
        self
    }

    /// Sets `print_special`, leaving every other setting as it was.
    pub fn set_print_special(&mut self, enable: bool) -> (ret: &mut Self)
        ensures
            *ret == (WhisperFullParams { print_special: Some(enable), ..*old(self) }),
            *final(self) == *final(ret),
    {
        self.print_special = Some(enable);
        self
    }

    /// Sets `print_progress`, leaving every other setting as it was.
    pub fn set_print_progress(&mut self, enable: bool) -> (ret: &mut Self)
        ensures
            *ret == (WhisperFullParams { print_progress: Some(enable), ..*old(self) }),
            *final(self) == *final(ret),
    {
        self.print_progress = Some(enable);
        self
    }

    /// Sets `print_realtime`, leaving every other setting as it was.
    pub fn set_print_realtime(&mut self, enable: bool) -> (ret: &mut Self)
        ensures
            *ret == (WhisperFullParams { print_realtime: Some(enable), ..*old(self) }),
            *final(self) == *final(ret),
    {
        self.print_realtime = Some(enable);
        self
    }

    /// Sets `print_timestamps`, leaving every other setting as it was.
    pub fn set_print_timestamps(&mut self, enable: bool) -> (ret: &mut Self)
        ensures
            *ret == (WhisperFullParams { print_timestamps: Some(enable), ..*old(self) }),
            *final(self) == *final(ret),
    {
        self.print_timestamps = Some(enable);
        self
    }

    /// Sets `token_timestamps`, leaving every other setting as it was.
    pub fn set_token_timestamps(&mut self, enable: bool) -> (ret: &mut Self)
        ensures
            *ret == (WhisperFullParams { token_timestamps: Some(enable), ..*old(self) }),
            *final(self) == *final(ret),
    {
        self.token_timestamps = Some(enable);
        self
    }

    /// Sets `max_len`, leaving every other setting as it was.
    pub fn set_max_len(&mut self, val: i32) -> (ret: &mut Self)
        ensures
            *ret == (WhisperFullParams { max_len: Some(val), ..*old(self) }),
            *final(self) == *final(ret),
    {
        self.max_len = Some(val);
        self
    }

    /// Sets `split_on_word`, leaving every other setting as it was.
    pub fn set_split_on_word(&mut self, enable: bool) -> (ret: &mut Self)
        ensures
            *ret == (WhisperFullParams { split_on_word: Some(enable), ..*old(self) }),
            *final(self) == *final(ret),
    {
        self.split_on_word = Some(enable);
        self
    }

    /// Sets `max_tokens`, leaving every other setting as it was.
    pub fn set_max_tokens(&mut self, val: i32) -> (ret: &mut Self)
        ensures
            *ret == (WhisperFullParams { max_tokens: Some(val), ..*old(self) }),
            *final(self) == *final(ret),
    {
        self.max_tokens = Some(val);
        self
    }

    /// Sets `debug_mode`, leaving every other setting as it was.
    pub fn set_debug_mode(&mut self, enable: bool) -> (ret: &mut Self)
        ensures
            *ret == (WhisperFullParams { debug_mode: Some(enable), ..*old(self) }),
            *final(self) == *final(ret),
    {
        self.debug_mode = Some(enable);
        self
    }

    /// Sets `audio_ctx`, leaving every other setting as it was.
    pub fn set_audio_ctx(&mut self, val: i32) -> (ret: &mut Self)
        ensures
            *ret == (WhisperFullParams { audio_ctx: Some(val), ..*old(self) }),
            *final(self) == *final(ret),
    {
        self.audio_ctx = Some(val);
        self
    }

    /// Sets `tdrz_enable`, leaving every other setting as it was.
    pub fn set_tdrz_enable(&mut self, enable: bool) -> (ret: &mut Self)
        ensures
            *ret == (WhisperFullParams { tdrz_enable: Some(enable), ..*old(self) }),
            *final(self) == *final(ret),
    {
        self.tdrz_enable = Some(enable);
        self
    }

    /// Sets `language`; a text holding a NUL character cannot reach whisper.cpp
    /// and leaves the parameters unchanged.
    pub fn set_language(&mut self, lang: &str) -> (ret: &mut Self)
        ensures
            is_c_compatible(lang@) ==> ret.language is Some && ret.language->0@ == lang@ && *ret == (WhisperFullParams { language: ret.language, ..*old(self) }),
            !is_c_compatible(lang@) ==> *ret == *old(self),
            old(self).wf() ==> ret.wf(),
            *final(self) == *final(ret),
    {
        if c_str_compatible(lang) {
            self.language = Some(lang.to_owned());
        }
        self
    }

    /// Sets `detect_language`, leaving every other setting as it was.
    pub fn set_detect_language(&mut self, enable: bool) -> (ret: &mut Self)
        ensures
            *ret == (WhisperFullParams { detect_language: Some(enable), ..*old(self) }),
            *final(self) == *final(ret),
    {
        self.detect_language = Some(enable);
        self
    }

    /// Sets `initial_prompt`; a text holding a NUL character cannot reach whisper.cpp
    /// and leaves the parameters unchanged.
    pub fn set_initial_prompt(&mut self, prompt: &str) -> (ret: &mut Self)
        ensures
            is_c_compatible(prompt@) ==> ret.initial_prompt is Some && ret.initial_prompt->0@ == prompt@ && *ret == (WhisperFullParams { initial_prompt: ret.initial_prompt, ..*old(self) }),
            !is_c_compatible(prompt@) ==> *ret == *old(self),
            old(self).wf() ==> ret.wf(),
            *final(self) == *final(ret),
    {
        if c_str_compatible(prompt) {
            self.initial_prompt = Some(prompt.to_owned());
        }
        self
    }

    /// Sets `suppress_regex`; a text holding a NUL character cannot reach whisper.cpp
    /// and leaves the parameters unchanged.
    pub fn set_suppress_regex(&mut self, regex: &str) -> (ret: &mut Self)
        ensures
            is_c_compatible(regex@) ==> ret.suppress_regex is Some && ret.suppress_regex->0@ == regex@ && *ret == (WhisperFullParams { suppress_regex: ret.suppress_regex, ..*old(self) }),
            !is_c_compatible(regex@) ==> *ret == *old(self),
            old(self).wf() ==> ret.wf(),
            *final(self) == *final(ret),
    {
        if c_str_compatible(regex) {
            self.suppress_regex = Some(regex.to_owned());
        }
        self
    }

    /// Sets `suppress_blank`, leaving every other setting as it was.
    pub fn set_suppress_blank(&mut self, enable: bool) -> (ret: &mut Self)
        ensures
            *ret == (WhisperFullParams { suppress_blank: Some(enable), ..*old(self) }),
            *final(self) == *final(ret),
    {
        self.suppress_blank = Some(enable);
        self
    }

    /// Sets `suppress_nst`, leaving every other setting as it was.
    pub fn set_suppress_nst(&mut self, enable: bool) -> (ret: &mut Self)
        ensures
            *ret == (WhisperFullParams { suppress_nst: Some(enable), ..*old(self) }),
            *final(self) == *final(ret),
    {
        self.suppress_nst = Some(enable);
        self
    }

    /// Sets `greedy_best_of`, leaving every other setting as it was.
    pub fn set_greedy_best_of(&mut self, val: i32) -> (ret: &mut Self)
        ensures
            *ret == (WhisperFullParams { greedy_best_of: Some(val), ..*old(self) }),
            *final(self) == *final(ret),
    {
        self.greedy_best_of = Some(val);
        self
    }

    /// Sets `beam_size`, leaving every other setting as it was.
    pub fn set_beam_size(&mut self, val: i32) -> (ret: &mut Self)
        ensures
            *ret == (WhisperFullParams { beam_size: Some(val), ..*old(self) }),
            *final(self) == *final(ret),
    {
        self.beam_size = Some(val);
        self
    }

}

/// Fresh parameters for a strategy keep that strategy and override none of
/// whisper.cpp's defaults: every setting is left to whisper.cpp.
pub proof fn lemma_full_params_new_keeps_strategy_and_defaults(strategy: SamplingStrategy)
    ensures
        WhisperFullParams::spec_new(strategy).strategy == strategy,
        WhisperFullParams::spec_new(strategy).n_threads is None,
        WhisperFullParams::spec_new(strategy).n_max_text_ctx is None,
        WhisperFullParams::spec_new(strategy).offset_ms is None,
        WhisperFullParams::spec_new(strategy).duration_ms is None,
        WhisperFullParams::spec_new(strategy).translate is None,
        WhisperFullParams::spec_new(strategy).no_context is None,
        WhisperFullParams::spec_new(strategy).no_timestamps is None,
        WhisperFullParams::spec_new(strategy).single_segment is None,
        WhisperFullParams::spec_new(strategy).print_special is None,
        WhisperFullParams::spec_new(strategy).print_progress is None,
        WhisperFullParams::spec_new(strategy).print_realtime is None,
        WhisperFullParams::spec_new(strategy).print_timestamps is None,
        WhisperFullParams::spec_new(strategy).token_timestamps is None,
        WhisperFullParams::spec_new(strategy).thold_pt_bits is None,
        WhisperFullParams::spec_new(strategy).thold_ptsum_bits is None,
        WhisperFullParams::spec_new(strategy).max_len is None,
        WhisperFullParams::spec_new(strategy).split_on_word is None,
        WhisperFullParams::spec_new(strategy).max_tokens is None,
        WhisperFullParams::spec_new(strategy).debug_mode is None,
        WhisperFullParams::spec_new(strategy).audio_ctx is None,
        WhisperFullParams::spec_new(strategy).tdrz_enable is None,
        WhisperFullParams::spec_new(strategy).language is None,
        WhisperFullParams::spec_new(strategy).detect_language is None,
        WhisperFullParams::spec_new(strategy).initial_prompt is None,
        WhisperFullParams::spec_new(strategy).suppress_regex is None,
        WhisperFullParams::spec_new(strategy).suppress_blank is None,
        WhisperFullParams::spec_new(strategy).suppress_nst is None,
        WhisperFullParams::spec_new(strategy).temperature_bits is None,
        WhisperFullParams::spec_new(strategy).max_initial_ts_bits is None,
        WhisperFullParams::spec_new(strategy).length_penalty_bits is None,
        WhisperFullParams::spec_new(strategy).temperature_inc_bits is None,
        WhisperFullParams::spec_new(strategy).entropy_thold_bits is None,
        WhisperFullParams::spec_new(strategy).logprob_thold_bits is None,
        WhisperFullParams::spec_new(strategy).no_speech_thold_bits is None,
        WhisperFullParams::spec_new(strategy).greedy_best_of is None,
        WhisperFullParams::spec_new(strategy).beam_size is None,
        WhisperFullParams::spec_new(strategy).beam_patience_bits is None,
        WhisperFullParams::spec_new(strategy).wf(),
{
}

} // verus!
