use whisper_bind_rs::{
    SamplingStrategy, VadContextParams, VadParams, WhisperContextParams, WhisperFullParams,
};

#[test]
fn context_params_default_overrides_nothing() {
    let p = WhisperContextParams::default();
    assert_eq!(p.use_gpu, None);
    assert_eq!(p.flash_attn, None);
    assert_eq!(p.gpu_device, None);
}

#[test]
fn context_params_builder_sets_each_field() {
    let p = WhisperContextParams::default().use_gpu(false).flash_attn(true).gpu_device(2);
    assert_eq!(p.use_gpu, Some(false));
    assert_eq!(p.flash_attn, Some(true));
    assert_eq!(p.gpu_device, Some(2));
}

#[test]
fn context_params_last_write_wins() {
    let p = WhisperContextParams::default().gpu_device(1).gpu_device(3);
    assert_eq!(p, WhisperContextParams::default().gpu_device(3));
}

#[test]
fn context_params_builders_commute() {
    let a = WhisperContextParams::default().use_gpu(true).gpu_device(7);
    let b = WhisperContextParams::default().gpu_device(7).use_gpu(true);
    assert_eq!(a, b);
}

#[test]
fn full_params_new_keeps_strategy_and_defaults() {
    let p = WhisperFullParams::new(SamplingStrategy::BeamSearch);
    assert_eq!(p.strategy, SamplingStrategy::BeamSearch);
    assert_eq!(p.n_threads, None);
    assert_eq!(p.language, None);
    assert_eq!(p.beam_size, None);
    assert_eq!(p.temperature_bits, None);
}

#[test]
fn full_params_greedy_chain_values() {
    let mut p = WhisperFullParams::new(SamplingStrategy::Greedy);
    p.set_language("en").set_n_threads(4).set_print_progress(false);
    assert_eq!(p.language.as_deref(), Some("en"));
    assert_eq!(p.n_threads, Some(4));
    assert_eq!(p.print_progress, Some(false));
    assert_eq!(p.translate, None);
}

#[test]
fn full_params_all_non_float_setters() {
    let mut p = WhisperFullParams::new(SamplingStrategy::Greedy);
    p.set_n_threads(4)
        .set_n_max_text_ctx(16384)
        .set_offset_ms(0)
        .set_duration_ms(0)
        .set_translate(false)
        .set_no_context(true)
        .set_no_timestamps(false)
        .set_single_segment(false)
        .set_print_special(false)
        .set_print_progress(false)
        .set_print_realtime(false)
        .set_print_timestamps(true)
        .set_token_timestamps(false)
        .set_max_len(0)
        .set_split_on_word(false)
        .set_max_tokens(0)
        .set_debug_mode(false)
        .set_audio_ctx(0)
        .set_tdrz_enable(false)
        .set_suppress_regex("")
        .set_initial_prompt("")
        .set_language("en")
        .set_detect_language(false)
        .set_suppress_blank(true)
        .set_suppress_nst(false)
        .set_greedy_best_of(5)
        .set_beam_size(5);
    assert_eq!(p.n_max_text_ctx, Some(16384));
    assert_eq!(p.no_context, Some(true));
    assert_eq!(p.print_timestamps, Some(true));
    assert_eq!(p.suppress_regex.as_deref(), Some(""));
    assert_eq!(p.initial_prompt.as_deref(), Some(""));
    assert_eq!(p.suppress_blank, Some(true));
    assert_eq!(p.greedy_best_of, Some(5));
    assert_eq!(p.beam_size, Some(5));
    assert_eq!(p.thold_pt_bits, None);
}

#[test]
fn full_params_text_with_nul_is_ignored() {
    let mut p = WhisperFullParams::new(SamplingStrategy::Greedy);
    p.set_language("de");
    p.set_language("e\0n");
    assert_eq!(p.language.as_deref(), Some("de"));
    p.set_initial_prompt("\0");
    assert_eq!(p.initial_prompt, None);
    p.set_suppress_regex("a\0");
    assert_eq!(p.suppress_regex, None);
}

#[test]
fn full_params_text_last_write_wins() {
    let mut p = WhisperFullParams::new(SamplingStrategy::Greedy);
    p.set_initial_prompt("first").set_initial_prompt("второй");
    assert_eq!(p.initial_prompt.as_deref(), Some("второй"));
}

#[test]
fn vad_params_default_and_setters() {
    let mut p = VadParams::default();
    assert_eq!(p.min_speech_duration_ms, None);
    p.set_min_speech_duration_ms(250)
        .set_min_silence_duration_ms(100)
        .set_speech_pad_ms(30);
    assert_eq!(p.min_speech_duration_ms, Some(250));
    assert_eq!(p.min_silence_duration_ms, Some(100));
    assert_eq!(p.speech_pad_ms, Some(30));
    assert_eq!(p.threshold_bits, None);
}

#[test]
fn vad_context_params_setters() {
    let mut p = VadContextParams::default();
    p.set_n_threads(4).set_use_gpu(false).set_gpu_device(1);
    assert_eq!(p.n_threads, Some(4));
    assert_eq!(p.use_gpu, Some(false));
    assert_eq!(p.gpu_device, Some(1));
    let mut q = VadContextParams::default();
    q.set_gpu_device(1).set_use_gpu(false).set_n_threads(4);
    assert_eq!(p, q);
}
