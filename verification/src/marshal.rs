//! Text that crosses the boundary as NUL-terminated UTF-8 buffers.

use vstd::prelude::*;
use vstd::slice::{slice_subrange, slice_to_vec};
use vstd::utf8::*;

verus! {

/// The number of bytes of `buffer` before its first NUL byte: all of them
/// where it holds none.
pub open spec fn c_str_len(buffer: Seq<u8>) -> nat
    decreases buffer.len(),
{
    if buffer.len() == 0 || buffer[0] == 0u8 {
        0
    } else {
        1 + c_str_len(buffer.drop_first())
    }
}

/// The bytes of the C string that `buffer` holds, without the terminator.
pub open spec fn c_str_bytes(buffer: Seq<u8>) -> Seq<u8> {
    buffer.take(c_str_len(buffer) as int)
}

/// `c_str_len` is the one position up to which no byte is NUL and at which
/// the buffer ends or holds NUL.
pub proof fn lemma_c_str_len(buffer: Seq<u8>, n: int)
    requires
        0 <= n <= buffer.len(),
        forall|i: int| 0 <= i < n ==> buffer[i] != 0u8,
        n < buffer.len() ==> buffer[n] == 0u8,
    ensures
        c_str_len(buffer) == n,
    decreases buffer.len(),
{
    if buffer.len() == 0 || buffer[0] == 0u8 {
    } else {
        let rest = buffer.drop_first();
        assert forall|i: int| 0 <= i < n - 1 implies rest[i] != 0u8 by {
            assert(rest[i] == buffer[i + 1]);
        }
        lemma_c_str_len(rest, n - 1);
    }
}

/// `core::str::from_utf8`, with its error dropped: a text is handed back for
/// well-formed UTF-8 and for nothing else, and its bytes are those of `bytes`.
#[verifier::external_body]
pub(crate) fn utf8_text(bytes: &[u8]) -> (text: Option<&str>)
    ensures
        text is Some <==> valid_utf8(bytes@),
        text matches Some(s) ==> encode_utf8(s@) == bytes@,
{
    core::str::from_utf8(bytes).ok()
}

/// The text that well-formed UTF-8 was decoded from is what encodes it.
pub proof fn lemma_decode_of_encoding(text: Seq<char>, bytes: Seq<u8>)
    requires
        encode_utf8(text) == bytes,
    ensures
        valid_utf8(bytes),
        decode_utf8(bytes) == text,
{
    encode_utf8_valid_utf8(text);
    encode_utf8_decode_utf8(text);
}

/// Where the C string in `buffer` ends.
pub(crate) fn c_str_end(buffer: &[u8]) -> (n: usize)
    ensures
        n == c_str_len(buffer@),
        n <= buffer@.len(),
{
    let mut n: usize = 0;
    while n < buffer.len() && buffer[n] != 0
        invariant
            n <= buffer@.len(),
            forall|i: int| 0 <= i < n ==> buffer@[i] != 0u8,
        decreases buffer@.len() - n,
    {
        n += 1;
    }
    proof {
        lemma_c_str_len(buffer@, n as int);
    }
    n
}

/// The text of the C string in `buffer`.
///
/// The caller hands over a buffer whose C string is well-formed UTF-8.
pub fn c_char_to_string(buffer: &[u8]) -> (text: String)
    requires
        valid_utf8(c_str_bytes(buffer@)),
    ensures
        text@ == decode_utf8(c_str_bytes(buffer@)),
{
    let end = c_str_end(buffer);
    let bytes = slice_subrange(buffer, 0, end);
    assert(bytes@ == c_str_bytes(buffer@));
    match utf8_text(bytes) {
        Some(text) => {
            proof {
                lemma_decode_of_encoding(text@, bytes@);
            }
            text.to_owned()
        },
        None => String::new(),
    }
}

/// A freshly allocated buffer that holds `string` as a C string: its UTF-8
/// bytes and the terminating NUL.
///
/// A C string cannot hold a NUL byte, so the caller hands over text without
/// one.
pub fn string_to_c_char(string: &str) -> (buffer: Vec<u8>)
    requires
        !encode_utf8(string@).contains(0u8),
    ensures
        buffer@ == encode_utf8(string@).push(0u8),
{
    let mut buffer = slice_to_vec(string.as_bytes());
    buffer.push(0u8);
    buffer
}

/// What `string_to_c_char` writes, `c_char_to_string` reads back unchanged.
pub proof fn lemma_c_string_round_trip(text: Seq<char>)
    requires
        !encode_utf8(text).contains(0u8),
    ensures
        c_str_bytes(encode_utf8(text).push(0u8)) == encode_utf8(text),
        valid_utf8(c_str_bytes(encode_utf8(text).push(0u8))),
        decode_utf8(c_str_bytes(encode_utf8(text).push(0u8))) == text,
{
    let bytes = encode_utf8(text);
    let buffer = bytes.push(0u8);
    assert forall|i: int| 0 <= i < bytes.len() implies buffer[i] != 0u8 by {
        assert(bytes.contains(bytes[i]));
    }
    lemma_c_str_len(buffer, bytes.len() as int);
    assert(buffer.take(bytes.len() as int) == bytes);
    lemma_decode_of_encoding(text, bytes);
}

} // verus!
