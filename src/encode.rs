//! Preparing a call of the engine's encode entry point, and reading its size.
//!
//! A caller builds an `EncodeRequest` with `encode_request`; only on `Ok`
//! does it call the engine. It hands the returned size to `encoded_len`: on
//! `Ok(n)` it copies `n` bytes out of the engine's buffer and then releases
//! that buffer once, also where `n` is zero; on `Err` it reads nothing.
use vstd::prelude::*;
use vstd::string::StringSliceAdditionalSpecFns;
use vstd::utf8::{decode_utf8, encode_utf8_decode_utf8, encode_utf8_valid_utf8, valid_utf8};

use crate::error::EncodeError;
use crate::format::Format;

verus! {

/// The largest value of the engine's integer parameters, widened.
pub const NATIVE_INT_MAX_U64: u64 = 0x7fff_ffff;

/// The arguments of the engine's encode entry point.
#[derive(Debug)]
pub struct EncodeRequest {
    /// The text's UTF-8 bytes followed by one zero byte.
    pub text: Vec<u8>,
    pub format: i32,
    pub width: i32,
    pub height: i32,
    pub margin: i32,
    pub ecc_level: i32,
}

/// The text's bytes with a zero byte appended, where the text holds none.
pub open spec fn spec_nul_terminated(bytes: Seq<u8>) -> Option<Seq<u8>> {
    if bytes.contains(0u8) {
        None
    } else {
        Some(bytes.push(0u8))
    }
}

/// The text's UTF-8 bytes followed by one zero byte, as the engine reads a
/// string. `None` where the text itself holds a zero byte, which the engine
/// would take for the end of the text.
pub fn nul_terminated(text: &str) -> (r: Option<Vec<u8>>)
    ensures
        r matches Some(v) ==> spec_nul_terminated(text.spec_bytes()) == Some(v@),
        r is None ==> spec_nul_terminated(text.spec_bytes()) is None,
{
    let bytes = text.as_bytes();
    let mut out: Vec<u8> = Vec::new();
    let mut i: usize = 0;
    while i < bytes.len()
        invariant
            i <= bytes@.len(),
            bytes@ == text.spec_bytes(),
            out@ == bytes@.subrange(0, i as int),
            !out@.contains(0u8),
        decreases bytes@.len() - i,
    {
        let b = bytes[i];
        if b == 0 {
            assert(bytes@[i as int] == 0u8);
            assert(bytes@.contains(0u8));
            return None;
        }
        out.push(b);
        i += 1;
        assert(out@ == bytes@.subrange(0, i as int));
    }
    assert(bytes@.subrange(0, bytes@.len() as int) == bytes@);
    out.push(0);
    Some(out)
}

/// Every part of an encode call is acceptable: the text holds no zero byte,
/// the format is one named symbology, and each number fits the engine's
/// integers.
pub open spec fn encode_accepts(
    text: Seq<u8>,
    format: Format,
    width: u64,
    height: u64,
    margin: u64,
    ecc_level: u64,
) -> bool {
    &&& !text.contains(0u8)
    &&& format.is_named()
    &&& width <= NATIVE_INT_MAX_U64
    &&& height <= NATIVE_INT_MAX_U64
    &&& margin <= NATIVE_INT_MAX_U64
    &&& ecc_level <= NATIVE_INT_MAX_U64
}

/// The engine's encode arguments for rendering `text` as one symbology.
///
/// Fails with `FormatError`, before the engine is ever called, where the text
/// holds a zero byte, where `format` is not exactly one named symbology, or
/// where a size, margin or error-correction level does not fit the engine's
/// integers.
pub fn encode_request(
    text: &str,
    format: Format,
    width: u64,
    height: u64,
    margin: u64,
    ecc_level: u64,
) -> (r: Result<EncodeRequest, EncodeError>)
    ensures
        r is Ok <==> encode_accepts(text.spec_bytes(), format, width, height, margin, ecc_level),
        r matches Err(e) ==> e == EncodeError::FormatError,
        r matches Ok(q) ==> {
            &&& q.text@ == text.spec_bytes().push(0u8)
            &&& q.format == format.spec_native_code()
            &&& q.width == width as i32
            &&& q.height == height as i32
            &&& q.margin == margin as i32
            &&& q.ecc_level == ecc_level as i32
        },
{
    if !format.is_single() || width > NATIVE_INT_MAX_U64 || height > NATIVE_INT_MAX_U64 || margin
        > NATIVE_INT_MAX_U64 || ecc_level > NATIVE_INT_MAX_U64 {
        return Err(EncodeError::FormatError);
    }
    match nul_terminated(text) {
        None => Err(EncodeError::FormatError),
        Some(bytes) => Ok(
            EncodeRequest {
                text: bytes,
                format: format.native_code(),
                width: width as i32,
                height: height as i32,
                margin: margin as i32,
                ecc_level: ecc_level as i32,
            },
        ),
    }
}

/// The number of bytes to copy out of the engine's buffer for a given
/// returned size, where the size reports success.
pub open spec fn spec_encoded_len(size: i32) -> Result<usize, EncodeError> {
    if size < 0 {
        Err(EncodeError::FormatError)
    } else {
        Ok(size as usize)
    }
}

/// What the size returned by the engine's encode entry point means. A
/// negative size is a refusal; any other size, zero included, is the number
/// of bytes to copy before the engine's buffer is released.
pub fn encoded_len(size: i32) -> (r: Result<usize, EncodeError>)
    ensures
        r == spec_encoded_len(size),
{
    if size < 0 {
        Err(EncodeError::FormatError)
    } else {
        Ok(size as usize)
    }
}

/// The bytes an encode request carries, less their terminating zero, are
/// valid UTF-8 and decode to the very text they were made from: text that the
/// engine renders and then reads back unchanged comes out as it went in.
pub proof fn lemma_request_text_round_trip(text: &str)
    ensures
        valid_utf8(text.spec_bytes().push(0u8).drop_last()),
        decode_utf8(text.spec_bytes().push(0u8).drop_last()) == text@,
{
    assert(text.spec_bytes().push(0u8).drop_last() == text.spec_bytes());
    encode_utf8_valid_utf8(text@);
    encode_utf8_decode_utf8(text@);
}

/// A text with a zero byte in it is refused whatever the other arguments, so
/// the engine is never called with a text it would cut short.
pub proof fn lemma_zero_byte_refused(
    text: &str,
    format: Format,
    width: u64,
    height: u64,
    margin: u64,
    ecc_level: u64,
)
    requires
        text.spec_bytes().contains(0u8),
    ensures
        !encode_accepts(text.spec_bytes(), format, width, height, margin, ecc_level),
        spec_nul_terminated(text.spec_bytes()) is None,
{
}

} // verus!
