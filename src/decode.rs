//! The decisions taken on what the engine's decode entry point hands back.
//!
//! The engine always hands back a result handle, on success and on failure.
//! A caller that has made the native call asks `decode_status` what the
//! return code and the handle's status field mean. On `Success` it reads the
//! handle's format code and bytes and gives them, with the handle itself, to
//! `DecodedQrCode::new`, which either keeps the handle for as long as the
//! decoded text lives or gives it back to be released at once. On any other
//! status the handle's bytes are never read and the handle is released
//! before the error is returned.
use vstd::prelude::*;
use vstd::utf8::{decode_utf8, valid_utf8};

use crate::error::{decode_error_of, DecodeError};
use crate::format::Format;

verus! {

/// What the engine's decode return code and status field mean.
#[derive(Clone, Copy, Debug, PartialEq, Eq, Structural)]
pub enum DecodeStatus {
    /// The decode succeeded: the handle holds a result to be read and kept.
    Success,
    /// The decode failed for a known reason; the handle is to be released.
    Failed(DecodeError),
    /// The decode failed with a status code outside the known ones: the
    /// engine broke its contract. The handle is to be released.
    Unrecognised(i32),
}

/// The meaning of a decode return code and, where it is not zero, of the
/// status field of the handle the engine handed back.
pub open spec fn spec_decode_status(ret_code: i32, status: i32) -> DecodeStatus {
    if ret_code == 0 {
        DecodeStatus::Success
    } else {
        match decode_error_of(status as int) {
            Some(e) => DecodeStatus::Failed(e),
            None => DecodeStatus::Unrecognised(status),
        }
    }
}

/// Classifies the outcome of a native decode call. A non-zero return code is
/// never taken for success, and an unknown status code is never taken for
/// one of the known errors.
pub fn decode_status(ret_code: i32, status: i32) -> (r: DecodeStatus)
    ensures
        r == spec_decode_status(ret_code, status),
{
    if ret_code == 0 {
        return DecodeStatus::Success;
    }
    match DecodeError::from_i32(status) {
        Some(e) => DecodeStatus::Failed(e),
        None => DecodeStatus::Unrecognised(status),
    }
}

/// Relies on std's `str::from_utf8`: it succeeds exactly on valid UTF-8, and
/// then the string holds the characters the bytes encode.
#[verifier::external_body]
fn utf8_text<'a>(bytes: &'a [u8]) -> (r: Option<&'a str>)
    ensures
        r is Some <==> valid_utf8(bytes@),
        r matches Some(s) ==> s@ == decode_utf8(bytes@),
{
    match std::str::from_utf8(bytes) {
        Ok(s) => Some(s),
        Err(_) => None,
    }
}

/// A decoded barcode, together with the engine's result handle it came from.
///
/// The handle is held, never copied, for as long as the value lives; the
/// handle type's own drop releases it. The text is copied out of the handle
/// when the value is made, so reading it never touches the handle.
pub struct DecodedQrCode<H> {
    raw_result: H,
    pub text: String,
    pub format: Format,
}

impl<H> DecodedQrCode<H> {
    /// The handle this value holds.
    pub closed spec fn spec_handle(&self) -> H {
        self.raw_result
    }

    /// The decoded text, as characters.
    pub closed spec fn spec_text(&self) -> Seq<char> {
        self.text@
    }

    /// The detected symbology.
    pub closed spec fn spec_format(&self) -> Format {
        self.format
    }

    /// Takes ownership of a successful result handle, whose format code and
    /// text bytes have been read from it. Where the bytes are not valid
    /// UTF-8 the handle is handed back, to be released, and nothing is kept.
    pub fn new(raw_result: H, format_code: i32, bytes: &[u8]) -> (r: Result<
        DecodedQrCode<H>,
        H,
    >)
        ensures
            r is Ok <==> valid_utf8(bytes@),
            r matches Ok(d) ==> {
                &&& d.spec_text() == decode_utf8(bytes@)
                &&& d.spec_format() == Format::spec_from_native(format_code)
                &&& d.spec_format().wf()
                &&& d.spec_handle() == raw_result
            },
            r matches Err(h) ==> h == raw_result,
    {
        match utf8_text(bytes) {
            Some(s) => {
                let text = s.to_owned();
                Ok(DecodedQrCode { raw_result, text, format: Format::from_native(format_code) })
            },
            None => Err(raw_result),
        }
    }

    /// The decoded text.
    pub fn text(&self) -> (r: &str)
        ensures
            r@ == self.spec_text(),
    {
        self.text.as_str()
    }

    /// The symbology that was detected.
    pub fn format(&self) -> (r: Format)
        ensures
            r == self.spec_format(),
    {
        self.format
    }

    /// The engine's result handle, borrowed.
    pub fn handle(&self) -> (r: &H)
        ensures
            *r == self.spec_handle(),
    {
        &self.raw_result
    }
}

/// A decode whose return code is not zero is never a success: the handle's
/// bytes are not read, and the status is either one of the known errors or
/// reported as unrecognised, never passed off as a known error.
pub proof fn lemma_failed_decode_not_success(ret_code: i32, status: i32)
    requires
        ret_code != 0,
    ensures
        spec_decode_status(ret_code, status) !is Success,
        spec_decode_status(ret_code, status) is Failed <==> 1 <= status <= 3,
        spec_decode_status(ret_code, status) matches DecodeStatus::Failed(e) ==> e.spec_code()
            == status,
        spec_decode_status(ret_code, status) matches DecodeStatus::Unrecognised(c) ==> c
            == status,
{
}

} // verus!
