//! Reading the engine's output: a fixed buffer, a capped size, lossy decoding.

use vstd::prelude::*;
use vstd::slice::slice_subrange;
use vstd::utf8::{decode_utf8, valid_utf8};

verus! {

/// The size of the output buffer: room for 4096 tokens of six bytes each.
/// Output beyond it is cut off.
pub const MAX_OUTPUT_BUFFER_SIZE: usize = 4096 * 6;

/// The text that lossy UTF-8 decoding makes of `bytes`: invalid sequences are
/// replaced by U+FFFD.
pub uninterp spec fn utf8_lossy(bytes: Seq<u8>) -> Seq<char>;

/// `String::from_utf8_lossy`: decodes `bytes` as UTF-8 and replaces what is
/// invalid by U+FFFD. Trusted: the result is a function of the bytes, and
/// valid UTF-8 is decoded unchanged.
#[verifier::external_body]
fn lossy_text(bytes: &[u8]) -> (text: String)
    ensures
        text@ == utf8_lossy(bytes@),
        valid_utf8(bytes@) ==> text@ == decode_utf8(bytes@),
{
    String::from_utf8_lossy(bytes).into_owned()
}

/// How many bytes of a buffer of `capacity` bytes hold output, when the engine
/// reports `reported` bytes: never more than the buffer holds, nor more than
/// the size limit.
pub open spec fn valid_len(capacity: nat, reported: nat) -> nat {
    if reported <= capacity && reported <= MAX_OUTPUT_BUFFER_SIZE {
        reported
    } else if capacity <= MAX_OUTPUT_BUFFER_SIZE {
        capacity
    } else {
        MAX_OUTPUT_BUFFER_SIZE as nat
    }
}

/// The bytes of `buffer` that hold output.
pub open spec fn valid_bytes(buffer: Seq<u8>, reported: nat) -> Seq<u8> {
    buffer.take(valid_len(buffer.len(), reported) as int)
}

/// The text in a buffer for which the engine reported `reported` bytes.
pub open spec fn decoded(buffer: Seq<u8>, reported: nat) -> Seq<char> {
    utf8_lossy(valid_bytes(buffer, reported))
}

/// A zeroed buffer of [`MAX_OUTPUT_BUFFER_SIZE`] bytes for the engine to fill.
pub fn output_buffer() -> (buffer: Vec<u8>)
    ensures
        buffer@.len() == MAX_OUTPUT_BUFFER_SIZE,
        forall|i: int| 0 <= i < buffer@.len() ==> buffer@[i] == 0u8,
{
    vec![0u8; MAX_OUTPUT_BUFFER_SIZE]
}

/// The number of bytes of a buffer of `capacity` bytes that hold output.
pub fn cap_output_size(capacity: usize, reported: usize) -> (n: usize)
    ensures
        n == valid_len(capacity as nat, reported as nat),
        n <= capacity,
        n <= reported,
        n <= MAX_OUTPUT_BUFFER_SIZE,
{
    let mut n: usize = reported;
    if MAX_OUTPUT_BUFFER_SIZE < n {
        n = MAX_OUTPUT_BUFFER_SIZE;
    }
    if capacity < n {
        n = capacity;
    }
    n
}

/// Decodes what the engine wrote into `buffer`, of which it reported `reported`
/// bytes. The size is capped, never trusted; bytes that are not UTF-8 are
/// replaced, never rejected.
pub fn decode_output(buffer: &[u8], reported: usize) -> (text: String)
    ensures
        text@ == decoded(buffer@, reported as nat),
        valid_utf8(valid_bytes(buffer@, reported as nat)) ==> text@ == decode_utf8(
            valid_bytes(buffer@, reported as nat),
        ),
{
    let n: usize = cap_output_size(buffer.len(), reported);
    let bytes = slice_subrange(buffer, 0, n);
    lossy_text(bytes)
}

} // verus!
