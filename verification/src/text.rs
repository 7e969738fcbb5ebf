//! Zero-terminated strings, as the host reads and writes them.

use vstd::prelude::*;
use vstd::slice::{slice_subrange, slice_to_vec};
use vstd::string::StringSliceAdditionalSpecFns;
use vstd::utf8::{
    char_is_scalar, char_u32_cast, decode_utf8, encode_scalar, encode_utf8,
    encode_utf8_decode_utf8, encode_utf8_valid_utf8, is_scalar, valid_utf8,
};

verus! {

/// Index of the first zero byte of `bytes`, or its length if it holds none.
pub open spec fn nul_position(bytes: Seq<u8>) -> int {
    match bytes.index_of_first(0u8) {
        Some(i) => i,
        None => bytes.len() as int,
    }
}

/// The bytes of `bytes` that come before its first zero byte; all of them if
/// it holds none.
pub open spec fn until_nul(bytes: Seq<u8>) -> Seq<u8> {
    bytes.subrange(0, nul_position(bytes))
}

/// The text that `String::from_utf8_lossy` makes of `bytes`.
pub uninterp spec fn lossy_text(bytes: Seq<u8>) -> Seq<char>;

/// Whether `text` is the zero-terminated string at the start of `bytes` read
/// as UTF-8: what `String::from_utf8_lossy` makes of the bytes before the
/// first zero byte, which for valid UTF-8 is the text that they encode.
pub open spec fn is_text_of(text: Seq<char>, bytes: Seq<u8>) -> bool {
    &&& text == lossy_text(until_nul(bytes))
    &&& valid_utf8(until_nul(bytes)) ==> text == decode_utf8(until_nul(bytes))
}

/// `nul_position` is the one index that is within the length, has no zero byte
/// before it, and is either the length or the place of a zero byte.
pub proof fn lemma_nul_position(bytes: Seq<u8>)
    ensures
        0 <= nul_position(bytes) <= bytes.len(),
        forall|j: int| 0 <= j < nul_position(bytes) ==> bytes[j] != 0,
        nul_position(bytes) < bytes.len() ==> bytes[nul_position(bytes)] == 0,
        nul_position(bytes) < bytes.len() <==> bytes.contains(0u8),
        !until_nul(bytes).contains(0u8),
{
    bytes.index_of_first_ensures(0u8);
    let n = nul_position(bytes);
    if until_nul(bytes).contains(0u8) {
        let j = choose|j: int| 0 <= j < until_nul(bytes).len() && until_nul(bytes)[j] == 0u8;
        assert(bytes[j] == 0u8);
    }
}

/// A zero byte appended to bytes that hold none is the first one, so that
/// reading up to it gives the bytes back.
pub proof fn lemma_terminated_round_trip(bytes: Seq<u8>)
    requires
        !bytes.contains(0u8),
    ensures
        nul_position(bytes.push(0u8)) == bytes.len(),
        until_nul(bytes.push(0u8)) == bytes,
{
    let terminated = bytes.push(0u8);
    lemma_nul_position(terminated);
    let n = nul_position(terminated);
    assert(terminated[bytes.len() as int] == 0u8);
    if n < bytes.len() {
        assert(bytes[n] == 0u8);
        assert(bytes.contains(0u8));
    }
    assert(until_nul(terminated) =~= bytes);
}

/// The UTF-8 encoding of a scalar value holds a zero byte only if the value
/// is zero: every byte of a longer encoding has its top bit set.
proof fn lemma_scalar_zero_byte(scalar: u32)
    requires
        is_scalar(scalar),
    ensures
        encode_scalar(scalar).contains(0u8) <==> scalar == 0,
{
    let encoded = encode_scalar(scalar);
    assert(scalar <= 0x7F ==> ((scalar & 0x7F) as u8 == 0u8 <==> scalar == 0)) by (bit_vector);
    assert(0xC0u8 | ((scalar >> 6) & 0x1F) as u8 != 0u8) by (bit_vector);
    assert(0xE0u8 | ((scalar >> 12) & 0x0F) as u8 != 0u8) by (bit_vector);
    assert(0xF0u8 | ((scalar >> 18) & 0x7) as u8 != 0u8) by (bit_vector);
    assert(0x80u8 | (scalar & 0x3F) as u8 != 0u8) by (bit_vector);
    assert(0x80u8 | ((scalar >> 6) & 0x3F) as u8 != 0u8) by (bit_vector);
    assert(0x80u8 | ((scalar >> 12) & 0x3F) as u8 != 0u8) by (bit_vector);
    if scalar == 0 {
        assert(encoded[0] == 0u8);
    }
    if encoded.contains(0u8) {
        let i = choose|i: int| 0 <= i < encoded.len() && encoded[i] == 0u8;
        assert(encoded[i] == 0u8);
    }
}

/// A text holds a zero byte in its UTF-8 encoding exactly if it holds the
/// character U+0000.
pub proof fn lemma_zero_byte_iff_nul_char(chars: Seq<char>)
    ensures
        encode_utf8(chars).contains(0u8) <==> chars.contains('\0'),
    decreases chars.len(),
{
    if chars.len() > 0 {
        let head = encode_scalar(chars[0] as u32);
        let rest = chars.drop_first();
        let tail = encode_utf8(rest);
        char_is_scalar(chars[0]);
        lemma_scalar_zero_byte(chars[0] as u32);
        lemma_zero_byte_iff_nul_char(rest);
        assert(chars[0] as u32 == 0 <==> chars[0] == '\0') by {
            char_u32_cast(chars[0], chars[0] as u32);
            char_u32_cast('\0', 0u32);
        }
        if (head + tail).contains(0u8) {
            let i = choose|i: int| 0 <= i < (head + tail).len() && (head + tail)[i] == 0u8;
            if i < head.len() {
                assert(head[i] == 0u8);
            } else {
                assert(tail[i - head.len()] == 0u8);
            }
        }
        if head.contains(0u8) {
            let i = choose|i: int| 0 <= i < head.len() && head[i] == 0u8;
            assert((head + tail)[i] == 0u8);
        }
        if tail.contains(0u8) {
            let i = choose|i: int| 0 <= i < tail.len() && tail[i] == 0u8;
            assert((head + tail)[i + head.len()] == 0u8);
        }
        if chars.contains('\0') {
            let i = choose|i: int| 0 <= i < chars.len() && chars[i] == '\0';
            if i > 0 {
                assert(rest[i - 1] == '\0');
            }
        }
        if rest.contains('\0') {
            let i = choose|i: int| 0 <= i < rest.len() && rest[i] == '\0';
            assert(chars[i + 1] == '\0');
        }
    }
}

/// A text without the character U+0000 that is written out in
/// zero-terminated form reads back as itself.
pub proof fn lemma_text_round_trip(chars: Seq<char>, text: Seq<char>)
    requires
        !chars.contains('\0'),
        is_text_of(text, encode_utf8(chars).push(0u8)),
    ensures
        text == chars,
{
    lemma_zero_byte_iff_nul_char(chars);
    lemma_terminated_round_trip(encode_utf8(chars));
    encode_utf8_valid_utf8(chars);
    encode_utf8_decode_utf8(chars);
}

/// Length of the zero-terminated string at the start of `bytes`: the number
/// of bytes before the first zero byte, or `bytes.len()` if there is none.
pub fn c_str_len(bytes: &[u8]) -> (n: usize)
    ensures
        n == nul_position(bytes@),
{
    let mut i: usize = 0;
    while i < bytes.len() && bytes[i] != 0
        invariant
            i <= bytes.len(),
            forall|j: int| 0 <= j < i ==> bytes@[j] != 0,
        decreases bytes.len() - i,
    {
        i += 1;
    }
    proof {
        lemma_nul_position(bytes@);
    }
    i
}

/// The zero-terminated form of `text`: its UTF-8 bytes followed by one zero
/// byte. There is none if `text` itself holds the character U+0000, whose
/// encoding is a zero byte that the host would read as the end.
pub fn to_c_string(text: &str) -> (r: Option<Vec<u8>>)
    ensures
        r is Some <==> !text@.contains('\0'),
        r is Some <==> !text.spec_bytes().contains(0u8),
        r matches Some(bytes) ==> bytes@ == text.spec_bytes().push(0u8),
        r matches Some(bytes) ==> until_nul(bytes@) == text.spec_bytes(),
{
    let bytes = text.as_bytes();
    let n = c_str_len(bytes);
    proof {
        lemma_nul_position(bytes@);
        lemma_zero_byte_iff_nul_char(text@);
        if !bytes@.contains(0u8) {
            lemma_terminated_round_trip(bytes@);
        }
    }
    if n < bytes.len() {
        None
    } else {
        let mut terminated = slice_to_vec(bytes);
        terminated.push(0u8);
        Some(terminated)
    }
}

/// Decodes bytes as UTF-8, replacing what is not valid by U+FFFD.
///
/// Calls `String::from_utf8_lossy` and takes ownership of what it returns.
/// The result is a function of the bytes alone, named `lossy_text`; for
/// valid UTF-8 the standard library documents that the text is the one the
/// bytes encode.
#[verifier::external_body]
fn decode_lossy(bytes: &[u8]) -> (text: String)
    ensures
        text@ == lossy_text(bytes@),
        valid_utf8(bytes@) ==> text@ == decode_utf8(bytes@),
{
    String::from_utf8_lossy(bytes).into_owned()
}

/// Reads the zero-terminated string at the start of `bytes` as text: the
/// bytes before the first zero byte (all of them if there is none), decoded
/// as UTF-8 with invalid sequences replaced.
pub fn from_c_string(bytes: &[u8]) -> (text: String)
    ensures
        is_text_of(text@, bytes@),
{
    let n = c_str_len(bytes);
    proof {
        lemma_nul_position(bytes@);
    }
    decode_lossy(slice_subrange(bytes, 0, n))
}

} // verus!
