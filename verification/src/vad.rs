use vstd::prelude::*;

verus! {

/// VAD (Voice Activity Detection) parameters.
///
/// Each setting is an override of `whisper_vad_default_params`; `None` keeps
/// that default.
#[derive(Debug, Clone, Copy, PartialEq, Eq, Structural)]
pub struct VadParams {
    /// Bit pattern (`f32::to_bits`) of the `threshold` value to set; `None` keeps whisper.cpp's default.
    pub threshold_bits: Option<u32>,
    /// `min_speech_duration_ms`; `None` keeps whisper.cpp's default.
    pub min_speech_duration_ms: Option<i32>,
    /// `min_silence_duration_ms`; `None` keeps whisper.cpp's default.
    pub min_silence_duration_ms: Option<i32>,
    /// Bit pattern (`f32::to_bits`) of the `max_speech_duration_s` value to set; `None` keeps whisper.cpp's default.
    pub max_speech_duration_s_bits: Option<u32>,
    /// `speech_pad_ms`; `None` keeps whisper.cpp's default.
    pub speech_pad_ms: Option<i32>,
    /// Bit pattern (`f32::to_bits`) of the `samples_overlap` value to set; `None` keeps whisper.cpp's default.
    pub samples_overlap_bits: Option<u32>,
}

impl VadParams {
    /// Sets `min_speech_duration_ms`, leaving every other setting as it was.
    pub fn set_min_speech_duration_ms(&mut self, val: i32) -> (ret: &mut Self)
        ensures
            *ret == (VadParams { min_speech_duration_ms: Some(val), ..*old(self) }),
            *final(self) == *final(ret),
    {
        self.min_speech_duration_ms = Some(val);
        self
    }

    /// Sets `min_silence_duration_ms`, leaving every other setting as it was.
    pub fn set_min_silence_duration_ms(&mut self, val: i32) -> (ret: &mut Self)
        ensures
            *ret == (VadParams { min_silence_duration_ms: Some(val), ..*old(self) }),
            *final(self) == *final(ret),
    {
        self.min_silence_duration_ms = Some(val);
        self
    }

    /// Sets `speech_pad_ms`, leaving every other setting as it was.
    pub fn set_speech_pad_ms(&mut self, val: i32) -> (ret: &mut Self)
        ensures
            *ret == (VadParams { speech_pad_ms: Some(val), ..*old(self) }),
            *final(self) == *final(ret),
    {
        self.speech_pad_ms = Some(val);
        self
    }

}

impl Default for VadParams {
    /// Parameters holding whisper.cpp's default VAD settings.
    fn default() -> (p: Self)
        ensures
            p == (VadParams {
            threshold_bits: None,
            min_speech_duration_ms: None,
            min_silence_duration_ms: None,
            max_speech_duration_s_bits: None,
            speech_pad_ms: None,
            samples_overlap_bits: None,
        }),
    {
        VadParams {
            threshold_bits: None,
            min_speech_duration_ms: None,
            min_silence_duration_ms: None,
            max_speech_duration_s_bits: None,
            speech_pad_ms: None,
            samples_overlap_bits: None,
        }
    }
}

/// VAD context creation parameters.
///
/// Each setting is an override of `whisper_vad_default_context_params`;
/// `None` keeps that default.
#[derive(Debug, Clone, Copy, PartialEq, Eq, Structural)]
pub struct VadContextParams {
    /// `n_threads`; `None` keeps whisper.cpp's default.
    pub n_threads: Option<i32>,
    /// `use_gpu`; `None` keeps whisper.cpp's default.
    pub use_gpu: Option<bool>,
    /// `gpu_device`; `None` keeps whisper.cpp's default.
    pub gpu_device: Option<i32>,
}

impl VadContextParams {
    /// Sets `n_threads`, leaving every other setting as it was.
    pub fn set_n_threads(&mut self, val: i32) -> (ret: &mut Self)
        ensures
            *ret == (VadContextParams { n_threads: Some(val), ..*old(self) }),
            *final(self) == *final(ret),
    {
        self.n_threads = Some(val);
        self
    }

    /// Sets `use_gpu`, leaving every other setting as it was.
    pub fn set_use_gpu(&mut self, val: bool) -> (ret: &mut Self)
        ensures
            *ret == (VadContextParams { use_gpu: Some(val), ..*old(self) }),
            *final(self) == *final(ret),
    {
        self.use_gpu = Some(val);
        self
    }

    /// Sets `gpu_device`, leaving every other setting as it was.
    pub fn set_gpu_device(&mut self, val: i32) -> (ret: &mut Self)
        ensures
            *ret == (VadContextParams { gpu_device: Some(val), ..*old(self) }),
            *final(self) == *final(ret),
    {
        self.gpu_device = Some(val);
        self
    }

}

impl Default for VadContextParams {
    /// Parameters holding whisper.cpp's default VAD context settings.
    fn default() -> (p: Self)
        ensures
            p == (VadContextParams {
            n_threads: None,
            use_gpu: None,
            gpu_device: None,
        }),
    {
        VadContextParams {
            n_threads: None,
            use_gpu: None,
            gpu_device: None,
        }
    }
}

/// The number of speech probabilities to expose, given whether
/// `whisper_vad_probs` handed back a null array and what `whisper_vad_n_probs`
/// counts: none when there is no array.
pub fn probs_len(is_null: bool, n_probs: i32) -> (n: usize)
    requires
        is_null || n_probs >= 0,
    ensures
        is_null ==> n == 0,
        !is_null ==> n == n_probs,
{
    if is_null || n_probs == 0 {
        0
    } else {
        n_probs as usize
    }
}

} // verus!
