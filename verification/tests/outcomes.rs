use whisper_bind_rs::{
    c_str_compatible, call_status, check_c_str, check_optional_c_str, handle_status,
    join_segment_texts, lang_detect_result, lang_id_from_raw, lang_probs_len,
    openvino_args_status, probs_len, text_or_empty, token_buffer_len, tokenize_result, SamplingStrategy,
    WhisperError, CHUNK_SIZE, HOP_LENGTH, N_FFT, SAMPLE_RATE,
};

#[test]
fn constants_match_whisper() {
    assert_eq!(SAMPLE_RATE, 16000);
    assert_eq!(N_FFT, 400);
    assert_eq!(HOP_LENGTH, 160);
    assert_eq!(CHUNK_SIZE, 30);
}

#[test]
fn c_string_compatibility() {
    assert!(c_str_compatible(""));
    assert!(c_str_compatible("en"));
    assert!(c_str_compatible("日本語"));
    assert!(!c_str_compatible("e\0n"));
    assert!(!c_str_compatible("é\0"));
    assert!(!c_str_compatible("\0"));
}

#[test]
fn check_text_arguments() {
    assert_eq!(check_c_str("models/ggml-base.bin"), Ok(()));
    assert_eq!(check_c_str("bad\0path"), Err(WhisperError::InvalidInput));
    assert_eq!(check_optional_c_str(None), Ok(()));
    assert_eq!(check_optional_c_str(Some("x")), Ok(()));
    assert_eq!(check_optional_c_str(Some("x\0")), Err(WhisperError::InvalidInput));
}

#[test]
fn openvino_arguments() {
    assert_eq!(openvino_args_status(None, "CPU", None), Ok(()));
    assert_eq!(openvino_args_status(Some("m.xml"), "GPU", Some("cache")), Ok(()));
    assert_eq!(openvino_args_status(Some("m\0"), "CPU", None), Err(WhisperError::InvalidInput));
    assert_eq!(openvino_args_status(None, "C\0PU", None), Err(WhisperError::InvalidInput));
    assert_eq!(openvino_args_status(None, "CPU", Some("\0")), Err(WhisperError::InvalidInput));
}

#[test]
fn call_status_codes() {
    assert_eq!(call_status(0, WhisperError::EncodeFailed), Ok(()));
    assert_eq!(call_status(-1, WhisperError::EncodeFailed), Err(WhisperError::EncodeFailed));
    assert_eq!(call_status(1, WhisperError::DecodeFailed), Err(WhisperError::DecodeFailed));
    assert_eq!(call_status(7, WhisperError::ProcessingFailed), Err(WhisperError::ProcessingFailed));
}

#[test]
fn handle_status_null() {
    assert_eq!(handle_status(false, WhisperError::InitFailed), Ok(()));
    assert_eq!(handle_status(true, WhisperError::InitFailed), Err(WhisperError::InitFailed));
    assert_eq!(handle_status(true, WhisperError::ProcessingFailed), Err(WhisperError::ProcessingFailed));
}

#[test]
fn token_buffer_sizes() {
    assert_eq!(token_buffer_len(0), None);
    assert_eq!(token_buffer_len(-3), None);
    assert_eq!(token_buffer_len(5), Some(5));
}

#[test]
fn tokenize_outcomes() {
    assert_eq!(tokenize_result(-1, vec![1, 2, 3]), Err(WhisperError::ProcessingFailed));
    assert_eq!(tokenize_result(2, vec![10, 20, 30]), Ok(vec![10, 20]));
    assert_eq!(tokenize_result(3, vec![10, 20, 30]), Ok(vec![10, 20, 30]));
    assert_eq!(tokenize_result(5, vec![10, 20, 30]), Ok(vec![10, 20, 30]));
    assert_eq!(tokenize_result(0, vec![10]), Ok(vec![]));
}

#[test]
fn language_detection() {
    assert_eq!(lang_probs_len(98), 99);
    assert_eq!(lang_probs_len(-1), 0);
    assert_eq!(lang_detect_result(-1), Err(WhisperError::ProcessingFailed));
    assert_eq!(lang_detect_result(0), Ok(0));
    assert_eq!(lang_detect_result(17), Ok(17));
    assert_eq!(lang_id_from_raw(-1), None);
    assert_eq!(lang_id_from_raw(0), Some(0));
    assert_eq!(lang_id_from_raw(5), Some(5));
}

#[test]
fn joined_segment_texts() {
    assert_eq!(join_segment_texts(&vec![]), "");
    let texts = vec![Some(" Hello"), None, Some(" world.")];
    assert_eq!(join_segment_texts(&texts), " Hello world.");
}

#[test]
fn joined_text_of_appended_segments() {
    let a = vec![Some("one "), None];
    let b = vec![Some("two "), Some("three")];
    let mut ab = a.clone();
    ab.extend(b.iter().cloned());
    let whole = join_segment_texts(&ab);
    let parts = join_segment_texts(&a) + &join_segment_texts(&b);
    assert_eq!(whole, parts);
    assert_eq!(whole, "one two three");
}

#[test]
fn vad_probability_count() {
    assert_eq!(probs_len(true, 5), 0);
    assert_eq!(probs_len(true, -1), 0);
    assert_eq!(probs_len(false, 0), 0);
    assert_eq!(probs_len(false, 7), 7);
}

#[test]
fn error_messages() {
    assert_eq!(WhisperError::InitFailed.message(), "whisper initialization failed");
    assert_eq!(WhisperError::InvalidInput.message(), "invalid input");
    assert_eq!(WhisperError::ProcessingFailed.message(), "processing failed");
    assert_eq!(WhisperError::EncodeFailed.message(), "encoder failed");
    assert_eq!(WhisperError::DecodeFailed.message(), "decoder failed");
    assert_eq!(WhisperError::Utf8Error.message(), "UTF-8 conversion error");
    assert_eq!(WhisperError::NullPointer.message(), "null pointer returned");
}

#[test]
fn sampling_strategy_raw_values() {
    assert_eq!(SamplingStrategy::Greedy.to_raw(), 0);
    assert_eq!(SamplingStrategy::BeamSearch.to_raw(), 1);
    assert_ne!(SamplingStrategy::Greedy.to_raw(), SamplingStrategy::BeamSearch.to_raw());
}

#[test]
fn absent_text_reads_empty() {
    assert_eq!(text_or_empty(None), "");
    assert_eq!(text_or_empty(Some("")), "");
    assert_eq!(text_or_empty(Some("base")), "base");
}
