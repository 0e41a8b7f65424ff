//! Decisions that `WhisperContext` and `WhisperState` take on what
//! whisper.cpp hands back: return codes, handles, token buffers, language
//! probabilities and segment texts.
use vstd::prelude::*;

use crate::c_string::{check_c_str, check_optional_c_str, is_c_compatible};
use crate::error::WhisperError;
use crate::types::WhisperToken;

verus! {

/// Maps the return code of a whisper.cpp call to a result: `0` is success,
/// any other code is the given error.
pub fn call_status(code: i32, err: WhisperError) -> (r: Result<(), WhisperError>)
    ensures
        r is Ok <==> code == 0,
        r is Err ==> r == Err::<(), WhisperError>(err),
{
    if code == 0 {
        Ok(())
    } else {
        Err(err)
    }
}

/// Maps whether whisper.cpp handed back a null handle to a result: a null
/// handle is the given error.
pub fn handle_status(is_null: bool, err: WhisperError) -> (r: Result<(), WhisperError>)
    ensures
        r is Ok <==> !is_null,
        r is Err ==> r == Err::<(), WhisperError>(err),
{
    if is_null {
        Err(err)
    } else {
        Ok(())
    }
}

/// Checks the text arguments of an OpenVINO encoder initialization: the
/// optional model path, the device name and the optional cache directory
/// must each be able to become a C string.
pub fn openvino_args_status(model_path: Option<&str>, device: &str, cache_dir: Option<&str>) -> (r:
    Result<(), WhisperError>)
    ensures
        r is Ok <==> ((model_path matches Some(m) ==> is_c_compatible(m@)) && is_c_compatible(
            device@,
        ) && (cache_dir matches Some(c) ==> is_c_compatible(c@))),
        r is Err ==> r == Err::<(), WhisperError>(WhisperError::InvalidInput),
{
    check_optional_c_str(model_path)?;
    check_c_str(device)?;
    check_optional_c_str(cache_dir)?;
    Ok(())
}

/// The number of slots to give `whisper_tokenize` for a text that
/// `whisper_token_count` counted `count` tokens in; `None` when there is
/// nothing to tokenize and the token list is empty.
pub fn token_buffer_len(count: i32) -> (r: Option<usize>)
    ensures
        count <= 0 ==> r is None,
        count > 0 ==> r == Some(count as usize),
{
    if count <= 0 {
        None
    } else {
        Some(count as usize)
    }
}

/// The tokens of a text, given what `whisper_tokenize` wrote into `tokens`
/// and the number it returned: a negative number is a failure, any other
/// keeps that many tokens from the front of the buffer.
pub fn tokenize_result(written: i32, tokens: Vec<WhisperToken>) -> (r: Result<
    Vec<WhisperToken>,
    WhisperError,
>)
    ensures
        written < 0 ==> r == Err::<Vec<WhisperToken>, WhisperError>(WhisperError::ProcessingFailed),
        written >= 0 && written <= tokens@.len() ==> r is Ok && r->Ok_0@ == tokens@.subrange(
            0,
            written as int,
        ),
        written >= 0 && written > tokens@.len() ==> r is Ok && r->Ok_0@ == tokens@,
{
    if written < 0 {
        Err(WhisperError::ProcessingFailed)
    } else {
        let mut kept = tokens;
        kept.truncate(written as usize);
        Ok(kept)
    }
}

/// The number of language probabilities to allocate for language detection:
/// one slot per language id from `0` to `max_id`.
pub fn lang_probs_len(max_id: i32) -> (n: usize)
    requires
        -1 <= max_id < i32::MAX,
    ensures
        n == max_id + 1,
{
    (max_id + 1) as usize
}

/// The detected language, given what `whisper_lang_auto_detect` returned: a
/// negative value is a failure, any other is the id of the detected language.
pub fn lang_detect_result(result: i32) -> (r: Result<i32, WhisperError>)
    ensures
        result < 0 ==> r == Err::<i32, WhisperError>(WhisperError::ProcessingFailed),
        result >= 0 ==> r == Ok::<i32, WhisperError>(result),
{
    if result < 0 {
        Err(WhisperError::ProcessingFailed)
    } else {
        Ok(result)
    }
}

/// The text of a segment, or nothing when whisper.cpp gave none.
pub open spec fn segment_text(t: Option<&str>) -> Seq<char> {
    match t {
        Some(s) => s@,
        None => Seq::empty(),
    }
}

/// A text that whisper.cpp may not have given, read as empty when absent.
pub fn text_or_empty(t: Option<&str>) -> (s: &str)
    ensures
        s@ == segment_text(t),
        t matches Some(x) ==> s@ == x@,
        t is None ==> s@.len() == 0,
{
    match t {
        Some(s) => s,
        None => {
            proof {
                reveal_strlit("");
            }
            ""
        },
    }
}

/// The texts of the segments one after another; a segment without a text adds nothing.
pub open spec fn joined_text(texts: Seq<Option<&str>>) -> Seq<char>
    decreases texts.len(),
{
    if texts.len() == 0 {
        Seq::empty()
    } else {
        joined_text(texts.drop_last()) + segment_text(texts.last())
    }
}

/// A present segment text is read whole and unchanged; an absent one is empty.
pub proof fn lemma_segment_text_whole(s: &str)
    ensures
        segment_text(Some(s)) == s@,
        segment_text(None) == Seq::<char>::empty(),
{
}

/// No segment gives no text, a single segment gives exactly its whole text
/// (nothing when it has none); with the append law this makes the transcript
/// the plain concatenation of the present segment texts.
pub proof fn lemma_joined_text_single(s: &str)
    ensures
        joined_text(Seq::<Option<&str>>::empty()) == Seq::<char>::empty(),
        joined_text(seq![Some(s)]) == s@,
        joined_text(seq![None::<&str>]) == Seq::<char>::empty(),
{
    let one = seq![Some(s)];
    let none = seq![None::<&str>];
    assert(one.drop_last() =~= Seq::<Option<&str>>::empty());
    assert(none.drop_last() =~= Seq::<Option<&str>>::empty());
    assert(Seq::<char>::empty() + s@ =~= s@);
    assert(Seq::<char>::empty() + Seq::<char>::empty() =~= Seq::<char>::empty());
}

/// Appending one more segment appends exactly its whole text to the transcript.
pub proof fn lemma_joined_text_push(texts: Seq<Option<&str>>, s: &str)
    ensures
        joined_text(texts.push(Some(s))) == joined_text(texts) + s@,
        joined_text(texts.push(None)) == joined_text(texts),
{
    assert(texts.push(Some(s)).drop_last() =~= texts);
    assert(texts.push(None).drop_last() =~= texts);
    assert(joined_text(texts) + Seq::<char>::empty() =~= joined_text(texts));
}

/// The whole transcript is the transcript of the first segments followed by
/// that of the rest.
pub proof fn lemma_joined_text_append(a: Seq<Option<&str>>, b: Seq<Option<&str>>)
    ensures
        joined_text(a + b) == joined_text(a) + joined_text(b),
    decreases b.len(),
{
    if b.len() == 0 {
        assert(a + b =~= a);
        assert(joined_text(b) =~= Seq::<char>::empty());
        assert(joined_text(a) + joined_text(b) =~= joined_text(a));
    } else {
        let b0 = b.drop_last();
        lemma_joined_text_append(a, b0);
        assert((a + b).drop_last() =~= a + b0);
        assert((a + b).last() == b.last());
        assert(joined_text(a) + joined_text(b0) + segment_text(b.last()) =~= joined_text(a) + (
        joined_text(b0) + segment_text(b.last())));
    }
}

/// Concatenates the texts of all segments, skipping the segments whose text
/// could not be read.
pub fn join_segment_texts(texts: &Vec<Option<&str>>) -> (text: String)
    ensures
        text@ == joined_text(texts@),
{
    let mut text = String::new();
    let n = texts.len();
    let mut i: usize = 0;
    while i < n
        invariant
            n == texts@.len(),
            i <= n,
            text@ == joined_text(texts@.subrange(0, i as int)),
        decreases n - i,
    {
        match texts[i] {
            Some(t) => {
                text.append(t);
            },
            None => {},
        }
        assert(texts@.subrange(0, i as int + 1).drop_last() =~= texts@.subrange(0, i as int));
        i = i + 1;
    }
    assert(texts@.subrange(0, n as int) =~= texts@);
    text
}

} // verus!
