use whisper_bind_rs::{SamplingStrategy, VadContextParams, WhisperContextParams, WhisperFullParams};

#[test]
fn test_default_context_params() {
    let params = WhisperContextParams::default();
    // Just verify it doesn't crash and has reasonable defaults
    let _ = params;
}

#[test]
fn test_full_params_greedy() {
    let mut params = WhisperFullParams::new(SamplingStrategy::Greedy);
    params.set_language("en").set_n_threads(4).set_print_progress(false);
    // Verify chaining works without crash
}

#[test]
fn test_sampling_strategy() {
    assert_eq!(SamplingStrategy::Greedy, SamplingStrategy::Greedy);
    assert_ne!(SamplingStrategy::Greedy, SamplingStrategy::BeamSearch);
}

#[test]
fn test_vad_default_context_params() {
    let mut params = VadContextParams::default();
    params.set_n_threads(4).set_use_gpu(false);
    // Verify creation and setter chaining
}
