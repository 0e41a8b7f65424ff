//! Text handed to whisper.cpp travels as NUL-terminated C strings, so a
//! text that holds a NUL byte cannot be passed on.
use vstd::prelude::*;
use vstd::string::StringSliceAdditionalSpecFns;
use vstd::utf8::*;

use crate::error::WhisperError;

verus! {

/// The UTF-8 encoding of a single scalar holds a zero byte exactly when the
/// scalar is NUL.
proof fn lemma_encode_scalar_zero(c: char)
    ensures
        encode_scalar(c as u32).contains(0u8) <==> c == '\0',
{
    let v = c as u32;
    char_is_scalar(c);
    let e = encode_scalar(v);
    if has_width_1_encoding(v) {
        assert(e =~= seq![leading_byte_width_1(v)]);
        assert(leading_byte_width_1(v) == 0u8 <==> v == 0u32) by (bit_vector)
            requires
                0 <= v <= 0x7F,
        ;
        if c == '\0' {
            assert(e[0] == 0u8);
        }
    } else if has_width_2_encoding(v) {
        assert(leading_byte_width_2(v) != 0u8) by (bit_vector);
        assert(last_continuation_byte(v) != 0u8) by (bit_vector);
        assert(forall|i: int| 0 <= i < e.len() ==> e[i] != 0u8);
    } else if has_width_3_encoding(v) {
        assert(leading_byte_width_3(v) != 0u8) by (bit_vector);
        assert(second_last_continuation_byte(v) != 0u8) by (bit_vector);
        assert(last_continuation_byte(v) != 0u8) by (bit_vector);
        assert(forall|i: int| 0 <= i < e.len() ==> e[i] != 0u8);
    } else {
        assert(leading_byte_width_4(v) != 0u8) by (bit_vector);
        assert(third_last_continuation_byte(v) != 0u8) by (bit_vector);
        assert(second_last_continuation_byte(v) != 0u8) by (bit_vector);
        assert(last_continuation_byte(v) != 0u8) by (bit_vector);
        assert(forall|i: int| 0 <= i < e.len() ==> e[i] != 0u8);
    }
}

/// The UTF-8 encoding of a text holds a zero byte exactly when the text
/// holds a NUL character: a byte-level check and a character-level check of
/// a text agree.
pub proof fn lemma_utf8_zero_byte_iff_nul_char(chars: Seq<char>)
    ensures
        encode_utf8(chars).contains(0u8) <==> chars.contains('\0'),
    decreases chars.len(),
{
    if chars.len() == 0 {
        assert(!encode_utf8(chars).contains(0u8));
    } else {
        let head = encode_scalar(chars[0] as u32);
        let rest = chars.drop_first();
        let tail = encode_utf8(rest);
        lemma_encode_scalar_zero(chars[0]);
        lemma_utf8_zero_byte_iff_nul_char(rest);
        assert(encode_utf8(chars) =~= head + tail);
        if (head + tail).contains(0u8) {
            let k = choose|k: int| 0 <= k < (head + tail).len() && (head + tail)[k] == 0u8;
            if k < head.len() {
                assert(head[k] == 0u8);
                assert(chars[0] == '\0');
            } else {
                assert(tail[k - head.len()] == 0u8);
                let j = choose|j: int| 0 <= j < rest.len() && rest[j] == '\0';
                assert(chars[j + 1] == '\0');
            }
        }
        if chars.contains('\0') {
            let j = choose|j: int| 0 <= j < chars.len() && chars[j] == '\0';
            if j == 0 {
                let k = choose|k: int| 0 <= k < head.len() && head[k] == 0u8;
                assert((head + tail)[k] == 0u8);
            } else {
                assert(rest[j - 1] == '\0');
                let k = choose|k: int| 0 <= k < tail.len() && tail[k] == 0u8;
                assert((head + tail)[k + head.len()] == 0u8);
            }
        }
    }
}

/// True when `s` can be handed over as a C string: it holds no NUL character.
pub open spec fn is_c_compatible(s: Seq<char>) -> bool {
    !s.contains('\0')
}

/// Whether `s` can be converted into a C string, that is whether its bytes
/// hold no zero byte (the test that `CString::new` makes).
pub fn c_str_compatible(s: &str) -> (ok: bool)
    ensures
        ok == !s.spec_bytes().contains(0u8),
        ok == is_c_compatible(s@),
{
    let bytes = s.as_bytes();
    let n = bytes.len();
    let mut i: usize = 0;
    while i < n
        invariant
            n == bytes@.len(),
            bytes@ == s.spec_bytes(),
            i <= n,
            forall|j: int| 0 <= j < i ==> bytes@[j] != 0u8,
        decreases n - i,
    {
        if bytes[i] == 0u8 {
            proof {
                lemma_utf8_zero_byte_iff_nul_char(s@);
            }
            return false;
        }
        i = i + 1;
    }
    proof {
        lemma_utf8_zero_byte_iff_nul_char(s@);
    }
    true
}

/// Checks a text argument: `InvalidInput` when it cannot become a C string.
pub fn check_c_str(s: &str) -> (r: Result<(), WhisperError>)
    ensures
        r is Ok <==> is_c_compatible(s@),
        r is Err ==> r == Err::<(), WhisperError>(WhisperError::InvalidInput),
{
    if c_str_compatible(s) {
        Ok(())
    } else {
        Err(WhisperError::InvalidInput)
    }
}

/// Checks an optional text argument; an absent text is always accepted.
pub fn check_optional_c_str(s: Option<&str>) -> (r: Result<(), WhisperError>)
    ensures
        r is Ok <==> (match s {
            Some(t) => is_c_compatible(t@),
            None => true,
        }),
        r is Err ==> r == Err::<(), WhisperError>(WhisperError::InvalidInput),
{
    match s {
        Some(t) => check_c_str(t),
        None => Ok(()),
    }
}

} // verus!
