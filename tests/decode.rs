use std::cell::Cell;
use std::rc::Rc;
use zxing_qr::{decode_status, DecodeError, DecodeStatus, DecodedQrCode, Format};

/// Stands in for an engine result handle; counts its releases.
struct CountingHandle {
    releases: Rc<Cell<u32>>,
}

impl Drop for CountingHandle {
    fn drop(&mut self) {
        self.releases.set(self.releases.get() + 1);
    }
}

const URL: &str = "http://www.amazon.co.jp/gp/aw/rd.html?uid=NULLGWDOCOMO&url=/gp/aw/h.html&at=aw_intl6-22";

#[test]
fn zero_return_code_is_success() {
    assert_eq!(decode_status(0, 0), DecodeStatus::Success);
    assert_eq!(decode_status(0, 7), DecodeStatus::Success);
}

#[test]
fn no_symbol_is_not_found() {
    assert_eq!(decode_status(1, 1), DecodeStatus::Failed(DecodeError::NotFound));
    assert_eq!(decode_status(-1, 2), DecodeStatus::Failed(DecodeError::FormatError));
    assert_eq!(decode_status(5, 3), DecodeStatus::Failed(DecodeError::ChecksumError));
}

#[test]
fn unknown_status_is_unrecognised() {
    assert_eq!(decode_status(1, 0), DecodeStatus::Unrecognised(0));
    assert_eq!(decode_status(1, 9), DecodeStatus::Unrecognised(9));
    assert_eq!(decode_status(1, -4), DecodeStatus::Unrecognised(-4));
}

#[test]
fn known_result_gives_text_and_qr_format() {
    let releases = Rc::new(Cell::new(0));
    let handle = CountingHandle { releases: releases.clone() };
    let decoded = match DecodedQrCode::new(handle, 2048, URL.as_bytes()) {
        Ok(d) => d,
        Err(_) => panic!("valid text refused"),
    };
    assert_eq!(decoded.text, URL);
    assert_eq!(decoded.text(), URL);
    assert_eq!(decoded.format, Format::QR_CODE());
    assert_eq!(decoded.format(), Format::QR_CODE());
    assert_eq!(releases.get(), 0);
    drop(decoded);
    assert_eq!(releases.get(), 1);
}

#[test]
fn unknown_format_bits_are_dropped_from_result() {
    let decoded = match DecodedQrCode::new((), (1 << 11) | (1 << 25), b"x") {
        Ok(d) => d,
        Err(_) => panic!("valid text refused"),
    };
    assert_eq!(decoded.format, Format::QR_CODE());
    assert_eq!(decoded.text, "x");
}

#[test]
fn moved_result_is_released_once() {
    let releases = Rc::new(Cell::new(0));
    let handle = CountingHandle { releases: releases.clone() };
    let decoded = DecodedQrCode::new(handle, 1, "héllo".as_bytes()).ok().unwrap();
    let moved = vec![decoded];
    assert_eq!(moved[0].text, "héllo");
    assert_eq!(moved[0].format, Format::AZTEC());
    assert_eq!(releases.get(), 0);
    drop(moved);
    assert_eq!(releases.get(), 1);
}

#[test]
fn invalid_text_hands_handle_back() {
    let releases = Rc::new(Cell::new(0));
    let handle = CountingHandle { releases: releases.clone() };
    let back = match DecodedQrCode::new(handle, 2048, &[0x66, 0xff, 0x6f]) {
        Ok(_) => panic!("invalid text accepted"),
        Err(h) => h,
    };
    assert_eq!(releases.get(), 0);
    drop(back);
    assert_eq!(releases.get(), 1);
}

#[test]
fn empty_text_is_valid() {
    let decoded = DecodedQrCode::new((), 2048, &[]).ok().unwrap();
    assert_eq!(decoded.text, "");
}
