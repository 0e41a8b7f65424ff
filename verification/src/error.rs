use vstd::prelude::*;

verus! {

/// Errors reported by the bindings.
#[derive(Debug, Clone, Copy, PartialEq, Eq, Structural)]
pub enum WhisperError {
    /// Model or context initialization failed
    InitFailed,
    /// Invalid input (e.g. null byte in string, invalid parameters)
    InvalidInput,
    /// General processing error (whisper_full, whisper_full_parallel, etc.)
    ProcessingFailed,
    /// Encoder execution failed
    EncodeFailed,
    /// Decoder execution failed
    DecodeFailed,
    /// UTF-8 conversion error
    Utf8Error,
    /// Null pointer returned from C API
    NullPointer,
}

/// The human-readable description of each error.
pub open spec fn error_message(e: WhisperError) -> Seq<char> {
    match e {
        WhisperError::InitFailed => "whisper initialization failed"@,
        WhisperError::InvalidInput => "invalid input"@,
        WhisperError::ProcessingFailed => "processing failed"@,
        WhisperError::EncodeFailed => "encoder failed"@,
        WhisperError::DecodeFailed => "decoder failed"@,
        WhisperError::Utf8Error => "UTF-8 conversion error"@,
        WhisperError::NullPointer => "null pointer returned"@,
    }
}

impl WhisperError {
    /// The text that displaying this error shows.
    pub fn message(&self) -> (s: &'static str)
        ensures
            s@ == error_message(*self),
    {
        match self {
            WhisperError::InitFailed => "whisper initialization failed",
            WhisperError::InvalidInput => "invalid input",
            WhisperError::ProcessingFailed => "processing failed",
            WhisperError::EncodeFailed => "encoder failed",
            WhisperError::DecodeFailed => "decoder failed",
            WhisperError::Utf8Error => "UTF-8 conversion error",
            WhisperError::NullPointer => "null pointer returned",
        }
    }
}

} // verus!
