use vstd::prelude::*;

verus! {

/// A token id of the whisper vocabulary.
pub type WhisperToken = i32;

/// Sampling strategy for the decoder
#[derive(Debug, Clone, Copy, PartialEq, Eq, Structural)]
pub enum SamplingStrategy {
    Greedy,
    BeamSearch,
}

/// The value of `enum whisper_sampling_strategy` in `whisper.h` that each
/// strategy stands for (`WHISPER_SAMPLING_GREEDY` is the first enumerator,
/// `WHISPER_SAMPLING_BEAM_SEARCH` the second).
pub open spec fn raw_strategy(s: SamplingStrategy) -> u32 {
    match s {
        SamplingStrategy::Greedy => 0,
        SamplingStrategy::BeamSearch => 1,
    }
}

impl SamplingStrategy {
    /// The C enumerator value handed to `whisper_full_default_params`.
    pub fn to_raw(self) -> (r: u32)
        ensures
            r == raw_strategy(self),
    {
        match self {
            SamplingStrategy::Greedy => 0,
            SamplingStrategy::BeamSearch => 1,
        }
    }
}

/// Distinct strategies are handed to whisper.cpp as distinct enumerators, so
/// the choice of strategy is never lost on the way.
pub proof fn lemma_raw_strategy_injective(a: SamplingStrategy, b: SamplingStrategy)
    ensures
        raw_strategy(a) == raw_strategy(b) <==> a == b,
{
}

/// Trait for custom model loaders.
///
/// Implement this trait to load whisper models from custom sources
/// (e.g. network streams, encrypted files, embedded resources).
pub trait ModelLoader {
    /// Read `output.len()` bytes into `output`. Returns the number of bytes actually read.
    fn read(&mut self, output: &mut [u8]) -> (n: usize)
        ensures
            n <= old(output)@.len(),
    ;

    /// Return true if the end of the data source has been reached.
    fn eof(&mut self) -> bool;

    /// Close the data source and release any resources.
    fn close(&mut self);
}

} // verus!
