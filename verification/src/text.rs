//! The text of a server error, as the native library leaves it in a buffer.

use vstd::prelude::*;
use vstd::slice::slice_subrange;
use vstd::utf8::{decode_utf8, valid_utf8};

verus! {

/// The size of the buffer that the native library fills with an error text.
/// Bytes beyond it are never read.
pub const ERROR_TEXT_CAPACITY: usize = 1024;

/// The number of bytes before the first NUL of `bytes`, or its length where
/// it holds none.
pub open spec fn text_length(bytes: Seq<u8>) -> nat
    decreases bytes.len(),
{
    if bytes.len() == 0 || bytes[0] == 0 {
        0
    } else {
        1 + text_length(bytes.skip(1))
    }
}

/// The bytes of the text that a buffer holds: what stands before the first
/// NUL among its first [`ERROR_TEXT_CAPACITY`] bytes.
pub open spec fn text_bytes(buffer: Seq<u8>) -> Seq<u8> {
    let window = if buffer.len() <= ERROR_TEXT_CAPACITY {
        buffer
    } else {
        buffer.take(ERROR_TEXT_CAPACITY as int)
    };
    window.take(text_length(window) as int)
}

/// The characters that a lossy decoding of `bytes` as UTF-8 yields.
pub uninterp spec fn lossy_text(bytes: Seq<u8>) -> Seq<char>;

/// `text_length` is the one position that has no NUL before it and either a
/// NUL at it or the end of the bytes.
pub proof fn lemma_text_length(bytes: Seq<u8>)
    ensures
        text_length(bytes) <= bytes.len(),
        forall|i: int| 0 <= i < text_length(bytes) ==> bytes[i] != 0,
        text_length(bytes) < bytes.len() ==> bytes[text_length(bytes) as int] == 0,
    decreases bytes.len(),
{
    if bytes.len() != 0 && bytes[0] != 0 {
        let rest = bytes.skip(1);
        lemma_text_length(rest);
        assert forall|i: int| 0 <= i < text_length(bytes) implies bytes[i] != 0 by {
            if i > 0 {
                assert(bytes[i] == rest[i - 1]);
            }
        }
    }
}

/// A position with no NUL before it, and a NUL at it or the end of the
/// bytes, is `text_length`.
pub proof fn lemma_text_length_is(bytes: Seq<u8>, n: int)
    requires
        0 <= n <= bytes.len(),
        forall|i: int| 0 <= i < n ==> bytes[i] != 0,
        n < bytes.len() ==> bytes[n] == 0,
    ensures
        text_length(bytes) == n,
    decreases bytes.len(),
{
    if n > 0 {
        let rest = bytes.skip(1);
        assert(forall|i: int| 0 <= i < n - 1 ==> rest[i] == bytes[i + 1]);
        lemma_text_length_is(rest, n - 1);
    }
}

/// The text never holds a NUL, and never more than the buffer's capacity.
pub proof fn lemma_text_bytes(buffer: Seq<u8>)
    ensures
        text_bytes(buffer).len() <= ERROR_TEXT_CAPACITY,
        text_bytes(buffer).len() <= buffer.len(),
        text_bytes(buffer) == buffer.take(text_bytes(buffer).len() as int),
        forall|i: int| 0 <= i < text_bytes(buffer).len() ==> text_bytes(buffer)[i] != 0,
{
    let window = if buffer.len() <= ERROR_TEXT_CAPACITY {
        buffer
    } else {
        buffer.take(ERROR_TEXT_CAPACITY as int)
    };
    lemma_text_length(window);
}

/// The length of the text that `buffer` holds.
pub fn text_end(buffer: &[u8]) -> (n: usize)
    ensures
        n == text_bytes(buffer@).len(),
        n <= buffer@.len(),
        n <= ERROR_TEXT_CAPACITY,
        text_bytes(buffer@) == buffer@.take(n as int),
{
    let limit: usize = if buffer.len() <= ERROR_TEXT_CAPACITY {
        buffer.len()
    } else {
        ERROR_TEXT_CAPACITY
    };
    let ghost window = buffer@.take(limit as int);
    let mut n: usize = 0;
    while n < limit && buffer[n] != 0
        invariant
            n <= limit <= buffer.len(),
            window == buffer@.take(limit as int),
            forall|i: int| 0 <= i < n ==> window[i] != 0,
        decreases limit - n,
    {
        n = n + 1;
    }
    proof {
        lemma_text_length_is(window, n as int);
        assert(buffer@.len() <= ERROR_TEXT_CAPACITY ==> window =~= buffer@);
    }
    n
}

/// Calls `String::from_utf8_lossy` of std and takes the result as an owned
/// string. The result is [`lossy_text`] of the bytes; where the bytes are
/// valid UTF-8 it is the text they encode, as std documents.
#[verifier::external_body]
fn decode_lossy(bytes: &[u8]) -> (text: String)
    ensures
        text@ == lossy_text(bytes@),
        valid_utf8(bytes@) ==> text@ == decode_utf8(bytes@),
{
    String::from_utf8_lossy(bytes).into_owned()
}

/// The text that a buffer filled by the native library holds: its bytes up
/// to the first NUL, decoded as UTF-8 with each malformed sequence replaced.
pub fn error_text(buffer: &[u8]) -> (text: String)
    ensures
        text@ == lossy_text(text_bytes(buffer@)),
        valid_utf8(text_bytes(buffer@)) ==> text@ == decode_utf8(text_bytes(buffer@)),
{
    let n = text_end(buffer);
    let bytes = slice_subrange(buffer, 0, n);
    decode_lossy(bytes)
}

} // verus!
