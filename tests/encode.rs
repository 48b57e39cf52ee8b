use zxing_qr::{encode_request, encoded_len, nul_terminated, EncodeError, Format};

#[test]
fn text_gets_one_terminating_zero() {
    assert_eq!(nul_terminated("abc"), Some(vec![b'a', b'b', b'c', 0]));
    assert_eq!(nul_terminated(""), Some(vec![0]));
    assert_eq!(nul_terminated("é"), Some(vec![0xc3, 0xa9, 0]));
    assert_eq!(nul_terminated("a\0b"), None);
}

#[test]
fn request_carries_the_arguments() {
    let q = encode_request("nadeko is cute", Format::QR_CODE(), 200, 200, 10, 0).unwrap();
    let mut text = b"nadeko is cute".to_vec();
    text.push(0);
    assert_eq!(q.text, text);
    assert_eq!(q.format, 2048);
    assert_eq!(q.width, 200);
    assert_eq!(q.height, 200);
    assert_eq!(q.margin, 10);
    assert_eq!(q.ecc_level, 0);
}

#[test]
fn embedded_zero_byte_is_refused() {
    let r = encode_request("nadeko\0is cute", Format::QR_CODE(), 200, 200, 10, 0);
    assert_eq!(r.unwrap_err(), EncodeError::FormatError);
    let r = encode_request("\0", Format::QR_CODE(), 200, 200, 10, 0);
    assert_eq!(r.unwrap_err(), EncodeError::FormatError);
}

#[test]
fn combined_or_empty_format_is_refused() {
    let both = Format::QR_CODE().union(Format::AZTEC());
    assert_eq!(encode_request("a", both, 200, 200, 10, 0).unwrap_err(), EncodeError::FormatError);
    assert_eq!(
        encode_request("a", Format::empty(), 200, 200, 10, 0).unwrap_err(),
        EncodeError::FormatError
    );
}

#[test]
fn oversized_parameters_are_refused() {
    let big = 1u64 << 31;
    let qr = Format::QR_CODE();
    assert_eq!(encode_request("a", qr, big, 200, 10, 0).unwrap_err(), EncodeError::FormatError);
    assert_eq!(encode_request("a", qr, 200, big, 10, 0).unwrap_err(), EncodeError::FormatError);
    assert_eq!(encode_request("a", qr, 200, 200, big, 0).unwrap_err(), EncodeError::FormatError);
    assert_eq!(encode_request("a", qr, 200, 200, 10, big).unwrap_err(), EncodeError::FormatError);
    let q = encode_request("a", qr, big - 1, 1, 0, 3).unwrap();
    assert_eq!(q.width, i32::MAX);
}

#[test]
fn zero_size_is_an_empty_success() {
    assert_eq!(encoded_len(0), Ok(0));
}

#[test]
fn encoded_sizes() {
    assert_eq!(encoded_len(40000), Ok(40000));
    assert_eq!(encoded_len(-1), Err(EncodeError::FormatError));
    assert_eq!(encoded_len(i32::MIN), Err(EncodeError::FormatError));
}
