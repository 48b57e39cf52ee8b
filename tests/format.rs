use zxing_qr::Format;

fn named() -> Vec<(Format, u32)> {
    vec![
        (Format::AZTEC(), 1 << 0),
        (Format::CODABAR(), 1 << 1),
        (Format::CODE_39(), 1 << 2),
        (Format::CODE_93(), 1 << 3),
        (Format::CODE_128(), 1 << 4),
        (Format::DATA_MATRIX(), 1 << 5),
        (Format::EAN_8(), 1 << 6),
        (Format::EAN_13(), 1 << 7),
        (Format::ITF(), 1 << 8),
        (Format::MAXICODE(), 1 << 9),
        (Format::PDF_417(), 1 << 10),
        (Format::QR_CODE(), 1 << 11),
        (Format::RSS_14(), 1 << 12),
        (Format::RSS_EXPANDED(), 1 << 13),
        (Format::UPC_A(), 1 << 14),
        (Format::UPC_E(), 1 << 15),
        (Format::UPC_EAN_EXTENSION(), 1 << 16),
    ]
}

#[test]
fn named_formats_have_their_bits() {
    for (f, bits) in named() {
        assert_eq!(f.bits(), bits);
        assert!(f.is_single());
    }
    assert_eq!(Format::QR_CODE().bits(), 2048);
}

#[test]
fn native_code_round_trips_for_every_named_format() {
    for (f, bits) in named() {
        let code: i32 = f.into();
        assert_eq!(code, bits as i32);
        assert_eq!(Format::from(code), f);
        assert_eq!(Format::from_native(f.native_code()), f);
    }
}

#[test]
fn from_native_truncates_unknown_bits() {
    assert_eq!(Format::from(0).bits(), 0);
    assert!(Format::from(0).is_empty());
    assert_eq!(Format::from(1 << 17).bits(), 0);
    assert_eq!(Format::from(-1).bits(), 0x1ffff);
    assert!(Format::from(-1).is_all());
    assert_eq!(Format::from(i32::MIN).bits(), 0);
    assert_eq!(Format::from(i32::MAX).bits(), 0x1ffff);
    assert_eq!(Format::from((1 << 20) | (1 << 11)), Format::QR_CODE());
}

#[test]
fn from_bits_rejects_unknown_bits() {
    assert_eq!(Format::from_bits(0x800), Some(Format::QR_CODE()));
    assert_eq!(Format::from_bits(0x20000), None);
    assert_eq!(Format::from_bits_truncate(0x20800), Format::QR_CODE());
}

#[test]
fn set_operations() {
    let qr = Format::QR_CODE();
    let aztec = Format::AZTEC();
    let both = qr.union(aztec);
    assert_eq!(both.bits(), 0x801);
    assert!(both.contains(qr));
    assert!(both.contains(aztec));
    assert!(!qr.contains(both));
    assert!(both.intersects(qr));
    assert!(!qr.intersects(aztec));
    assert_eq!(both.intersection(qr), qr);
    assert_eq!(both.difference(qr), aztec);
    assert!(!both.is_single());
    assert!(!Format::empty().is_single());
    assert!(Format::all().contains(both));
    assert_eq!(Format::all().bits(), 0x1ffff);

    let mut f = Format::empty();
    f.insert(qr);
    f.insert(aztec);
    assert_eq!(f, both);
    f.remove(qr);
    assert_eq!(f, aztec);
}
