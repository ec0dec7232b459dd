use image_sniff::{classify, classify_with, detect_image_format, ByteClass, DetectError, ImageFormat, ScanMode, WINDOW_LEN};
use image_sniff::registry::registry;

fn padded(sig: &[u8], fill: u8) -> Vec<u8> {
    let mut v = sig.to_vec();
    while v.len() < 16 {
        v.push(fill);
    }
    v
}

fn canonical() -> Vec<(ImageFormat, Vec<u8>)> {
    vec![
        (ImageFormat::Jpeg, vec![0xFF, 0xD8]),
        (ImageFormat::JpegXl, vec![0xFF, 0x0A]),
        (ImageFormat::Png, vec![0x89, 0x50, 0x4E, 0x47, 0x0D, 0x0A, 0x1A, 0x0A]),
        (ImageFormat::Webp, b"RIFF\x00\x00\x00\x00WEBP".to_vec()),
        (ImageFormat::Avif, b"\x00\x00\x00\x1Cftypavif".to_vec()),
        (ImageFormat::Heif, b"\x00\x00\x00\x18ftypheic".to_vec()),
        (ImageFormat::Bmp, b"BM".to_vec()),
        (ImageFormat::Dds, b"DDS ".to_vec()),
        (ImageFormat::Exr, vec![0x76, 0x2F, 0x31, 0x01]),
        (ImageFormat::Farbfeld, b"farbfeld".to_vec()),
        (ImageFormat::Gif, b"GIF89a".to_vec()),
        (ImageFormat::Hdr, b"#?RADIANCE".to_vec()),
        (ImageFormat::Ico, vec![0x00, 0x00, 0x01, 0x00]),
        (ImageFormat::Ilbm, b"FORM\x00\x00\x00\x00ILBM".to_vec()),
        (ImageFormat::Ktx2, vec![0xAB, 0x4B, 0x54, 0x58, 0x20, 0x32, 0x30, 0xBB, 0x0D, 0x0A, 0x1A, 0x0A]),
        (ImageFormat::Pnm, b"P6".to_vec()),
        (ImageFormat::Psd, b"8BPS".to_vec()),
        (ImageFormat::Qoi, b"qoif".to_vec()),
        (ImageFormat::Tga, vec![0x00, 0x00, 0x02]),
        (ImageFormat::Tiff, vec![0x49, 0x49, 0x2A, 0x00]),
        (ImageFormat::Vtf, b"VTF".to_vec()),
        (ImageFormat::Aseprite, b"ASEF".to_vec()),
    ]
}

#[test]
fn every_canonical_signature_classifies_as_its_format() {
    for (f, sig) in canonical() {
        for fill in [0x00u8, 0x7F, 0xFF] {
            let b = padded(&sig, fill);
            assert_eq!(classify(&b), f, "unbounded {:?}", f);
            assert_eq!(detect_image_format(&b), Ok(f), "window {:?}", f);
        }
    }
}

#[test]
fn pcx_is_recognized_by_the_window_reader_only() {
    let b = padded(&[0x0A, 0x00, 0x01], 0x00);
    assert_eq!(detect_image_format(&b), Ok(ImageFormat::Pcx));
    assert_eq!(classify(&b), ImageFormat::Unknown);
}

#[test]
fn bmff_brand_outranks_later_short_signatures() {
    let b = b"BM\x00\x00ftypavif";
    assert_eq!(classify(b), ImageFormat::Avif);
}

#[test]
fn classify_is_total_on_short_inputs() {
    assert_eq!(classify(&[]), ImageFormat::Unknown);
    assert_eq!(classify(&[0xFF]), ImageFormat::Unknown);
    assert_eq!(classify(&[0xFF, 0xD8]), ImageFormat::Jpeg);
    assert_eq!(classify(&[0x00, 0x00]), ImageFormat::Unknown);
}

#[test]
fn classification_is_deterministic() {
    let b = b"GIF87a\x01\x02\x03\x04\x05\x06";
    let first = classify(b);
    let second = classify(b);
    assert_eq!(first, second);
    assert_eq!(first, ImageFormat::Gif);
}

#[test]
fn jpeg_xl_codestream_is_not_jpeg() {
    assert_eq!(classify(&[0xFF, 0x0A, 0x00, 0x00, 0, 0, 0, 0, 0, 0, 0, 0]), ImageFormat::JpegXl);
    assert_eq!(classify(&[0xFF, 0xD8, 0xFF, 0xDB, 0, 0, 0, 0, 0, 0, 0, 0]), ImageFormat::Jpeg);
}

#[test]
fn jpeg_xl_container_is_recognized() {
    let b = [0x00, 0x00, 0x00, 0x0C, 0x4A, 0x58, 0x4C, 0x20, 0x0D, 0x0A, 0x87, 0x0A];
    assert_eq!(classify(&b), ImageFormat::JpegXl);
    assert_eq!(detect_image_format(&b), Ok(ImageFormat::JpegXl));
}

#[test]
fn tga_heuristic_alone_classifies_as_tga() {
    assert_eq!(classify(&[0x00, 0x00, 0x02, 0x00]), ImageFormat::Tga);
    assert_eq!(classify(&[0x11, 0x22, 0x0A, 0x33]), ImageFormat::Tga);
}

#[test]
fn stronger_rule_outranks_tga_heuristic() {
    assert_eq!(classify(b"BM\x02\x00"), ImageFormat::Bmp);
    assert_eq!(classify(b"ASEF\x00\x00\x00\x00"), ImageFormat::Aseprite);
    assert_eq!(classify(&[0x4D, 0x4D, 0x00, 0x2A]), ImageFormat::Tiff);
}

#[test]
fn short_source_is_a_short_read() {
    assert_eq!(detect_image_format(&[]), Err(DetectError::ShortRead));
    assert_eq!(detect_image_format(&[0xFF, 0xD8, 0xFF]), Err(DetectError::ShortRead));
    assert_eq!(detect_image_format(&[0u8; 11]), Err(DetectError::ShortRead));
}

#[test]
fn full_window_of_zeros_is_not_recognized() {
    assert_eq!(detect_image_format(&[0u8; 12]), Err(DetectError::NotRecognized));
    assert_eq!(detect_image_format(&[0u8; 40]), Err(DetectError::NotRecognized));
}

#[test]
fn window_reader_ignores_bytes_past_the_window() {
    let mut b = vec![0u8; WINDOW_LEN];
    b.extend_from_slice(b"farbfeld");
    assert_eq!(detect_image_format(&b), Err(DetectError::NotRecognized));
}

#[test]
fn hdr_rules_differ_between_modes() {
    let b = b"#?XYZ\x00\x00\x00\x00\x00\x00\x00";
    assert_eq!(classify(b), ImageFormat::Unknown);
    assert_eq!(detect_image_format(b), Ok(ImageFormat::Hdr));
    assert_eq!(classify(b"#?RGBE\x00"), ImageFormat::Hdr);
}

#[test]
fn exr_forms() {
    assert_eq!(classify(&[0x76, 0x2F, 0x31, 0x01]), ImageFormat::Exr);
    assert_eq!(classify(b"v/10"), ImageFormat::Unknown);
    assert_eq!(classify_with(b"v/10", ScanMode::Window), ImageFormat::Unknown);
}

#[test]
fn secondary_variants_are_recognized() {
    assert_eq!(classify(b"\x00\x00\x00\x18ftypheif"), ImageFormat::Heif);
    assert_eq!(classify(b"GIF87a"), ImageFormat::Gif);
    assert_eq!(classify(b"P1"), ImageFormat::Pnm);
    assert_eq!(classify(b"P7"), ImageFormat::Unknown);
    assert_eq!(classify(b"P0"), ImageFormat::Unknown);
}

#[test]
fn display_names() {
    assert_eq!(ImageFormat::Jpeg.display_name(), "jpg");
    assert_eq!(ImageFormat::JpegXl.display_name(), "jpg");
    assert_eq!(ImageFormat::Farbfeld.display_name(), "ff");
    assert_eq!(ImageFormat::Aseprite.display_name(), "ase");
    assert_eq!(ImageFormat::Ktx2.display_name(), "ktx2");
    for (f, _) in canonical() {
        assert!(!f.display_name().is_empty());
    }
    assert!(!ImageFormat::Pcx.display_name().is_empty());
    assert!(!ImageFormat::Unknown.display_name().is_empty());
}

#[test]
fn rule_primitives() {
    assert!(ByteClass::Wild.accepts(0x42));
    assert!(ByteClass::Byte(7).accepts(7));
    assert!(!ByteClass::Byte(7).accepts(8));
    assert!(ByteClass::InRange(0x31, 0x36).accepts(0x36));
    assert!(!ByteClass::InRange(0x31, 0x36).accepts(0x37));
    let rules = registry();
    assert_eq!(rules.len(), 30);
    assert!(rules[0].matches(&[0xFF, 0xD8]));
    assert!(!rules[0].matches(&[0xFF]));
    assert_eq!(rules.last().map(|r| r.format), Some(ImageFormat::Tga));
}
