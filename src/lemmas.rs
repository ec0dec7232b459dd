use vstd::prelude::*;
use crate::classify::{classification, detection, scan_from, DetectError};
use crate::format::ImageFormat;
use crate::registry::catalogue;
use crate::signature::{ScanMode, WINDOW_LEN};

verus! {

/// A typical leading signature of each format: the bytes that a file of that
/// format starts with, don't-care positions filled with common values.
pub open spec fn canonical_signature(f: ImageFormat) -> Seq<u8> {
    match f {
        ImageFormat::Jpeg => seq![0xFF, 0xD8],
        ImageFormat::JpegXl => seq![0xFF, 0x0A],
        ImageFormat::Png => seq![0x89, 0x50, 0x4E, 0x47, 0x0D, 0x0A, 0x1A, 0x0A],
        ImageFormat::Webp => seq![0x52, 0x49, 0x46, 0x46, 0x00, 0x00, 0x00, 0x00, 0x57, 0x45, 0x42, 0x50],
        ImageFormat::Avif => seq![0x00, 0x00, 0x00, 0x1C, 0x66, 0x74, 0x79, 0x70, 0x61, 0x76, 0x69, 0x66],
        ImageFormat::Heif => seq![0x00, 0x00, 0x00, 0x18, 0x66, 0x74, 0x79, 0x70, 0x68, 0x65, 0x69, 0x63],
        ImageFormat::Bmp => seq![0x42, 0x4D],
        ImageFormat::Dds => seq![0x44, 0x44, 0x53, 0x20],
        ImageFormat::Exr => seq![0x76, 0x2F, 0x31, 0x01],
        ImageFormat::Farbfeld => seq![0x66, 0x61, 0x72, 0x62, 0x66, 0x65, 0x6C, 0x64],
        ImageFormat::Gif => seq![0x47, 0x49, 0x46, 0x38, 0x39, 0x61],
        ImageFormat::Hdr => seq![0x23, 0x3F, 0x52, 0x41, 0x44, 0x49, 0x41, 0x4E, 0x43, 0x45],
        ImageFormat::Ico => seq![0x00, 0x00, 0x01, 0x00],
        ImageFormat::Ilbm => seq![0x46, 0x4F, 0x52, 0x4D, 0x00, 0x00, 0x00, 0x00, 0x49, 0x4C, 0x42, 0x4D],
        ImageFormat::Ktx2 => seq![0xAB, 0x4B, 0x54, 0x58, 0x20, 0x32, 0x30, 0xBB, 0x0D, 0x0A, 0x1A, 0x0A],
        ImageFormat::Pcx => seq![0x0A, 0x00, 0x01],
        ImageFormat::Pnm => seq![0x50, 0x36],
        ImageFormat::Psd => seq![0x38, 0x42, 0x50, 0x53],
        ImageFormat::Qoi => seq![0x71, 0x6F, 0x69, 0x66],
        ImageFormat::Tga => seq![0x00, 0x00, 0x02],
        ImageFormat::Tiff => seq![0x49, 0x49, 0x2A, 0x00],
        ImageFormat::Vtf => seq![0x56, 0x54, 0x46],
        ImageFormat::Aseprite => seq![0x41, 0x53, 0x45, 0x46],
        ImageFormat::Unknown => seq![],
    }
}

/// `f` is a format that the table names in `mode` (PCX only in the window reader).
pub open spec fn recognized_in(f: ImageFormat, mode: ScanMode) -> bool {
    f != ImageFormat::Unknown && (f == ImageFormat::Pcx ==> mode == ScanMode::Window)
}

/// Bytes 4..12 hold an ISO-BMFF `ftyp` box with an AVIF or HEIF brand.
pub open spec fn has_bmff_brand(b: Seq<u8>) -> bool {
    &&& b.len() >= 12
    &&& b[4] == 0x66 && b[5] == 0x74 && b[6] == 0x79 && b[7] == 0x70
    &&& {
        ||| b[8] == 0x61 && b[9] == 0x76 && b[10] == 0x69 && b[11] == 0x66
        ||| b[8] == 0x68 && b[9] == 0x65 && b[10] == 0x69 && (b[11] == 0x63 || b[11] == 0x66)
    }
}

/// The formats whose rules stand before the AVIF and HEIF rules.
pub open spec fn ranks_before_bmff(f: ImageFormat) -> bool {
    f == ImageFormat::Jpeg || f == ImageFormat::JpegXl || f == ImageFormat::Png
        || f == ImageFormat::Webp || f == ImageFormat::Avif || f == ImageFormat::Heif
}

/// A window of at least twelve bytes that starts with the canonical signature of
/// a format classifies as that format, whatever the trailing bytes hold, except
/// where they carry an AVIF or HEIF brand box and the format's rules stand after
/// those (the brand then decides).
pub proof fn lemma_signature_classifies(f: ImageFormat, mode: ScanMode, b: Seq<u8>)
    requires
        recognized_in(f, mode),
        b.len() >= 12,
        b.take(canonical_signature(f).len() as int) == canonical_signature(f),
        !(has_bmff_brand(b) && !ranks_before_bmff(f)),
    ensures
        classification(mode, b) == f,
{
    let sig = canonical_signature(f);
    assert forall|k: int| 0 <= k < sig.len() implies b[k] == sig[k] by {
        assert(b.take(sig.len() as int)[k] == b[k]);
    }
    assert(b.take(12) =~= seq![b[0], b[1], b[2], b[3], b[4], b[5], b[6], b[7], b[8], b[9], b[10], b[11]]);
    match f {
        ImageFormat::Jpeg => lemma_first_firing(mode, b, 0),
        ImageFormat::JpegXl => lemma_first_firing(mode, b, 1),
        ImageFormat::Png => lemma_first_firing(mode, b, 3),
        ImageFormat::Webp => lemma_first_firing(mode, b, 4),
        ImageFormat::Avif => lemma_first_firing(mode, b, 5),
        ImageFormat::Heif => lemma_first_firing(mode, b, 6),
        ImageFormat::Bmp => lemma_first_firing(mode, b, 8),
        ImageFormat::Dds => lemma_first_firing(mode, b, 9),
        ImageFormat::Exr => lemma_first_firing(mode, b, 10),
        ImageFormat::Farbfeld => lemma_first_firing(mode, b, 11),
        ImageFormat::Gif => lemma_first_firing(mode, b, 13),
        ImageFormat::Hdr => lemma_first_firing(mode, b, 14),
        ImageFormat::Ico => lemma_first_firing(mode, b, 17),
        ImageFormat::Ilbm => lemma_first_firing(mode, b, 18),
        ImageFormat::Ktx2 => lemma_first_firing(mode, b, 19),
        ImageFormat::Pcx => lemma_first_firing(mode, b, 20),
        ImageFormat::Pnm => lemma_first_firing(mode, b, 21),
        ImageFormat::Psd => lemma_first_firing(mode, b, 22),
        ImageFormat::Qoi => lemma_first_firing(mode, b, 23),
        ImageFormat::Tiff => lemma_first_firing(mode, b, 24),
        ImageFormat::Vtf => lemma_first_firing(mode, b, 26),
        ImageFormat::Aseprite => lemma_first_firing(mode, b, 27),
        ImageFormat::Tga => lemma_first_firing(mode, b, 28),
        ImageFormat::Unknown => {},
    }
}

/// Classification is a function of the bytes alone: equal inputs classify alike.
pub proof fn lemma_classification_deterministic(mode: ScanMode, b1: Seq<u8>, b2: Seq<u8>)
    requires
        b1 == b2,
    ensures
        classification(mode, b1) == classification(mode, b2),
{
}

/// Bytes that start `FF 0A` classify as JPEG-XL and bytes that start `FF D8` as
/// JPEG, although both rules look at offset 0.
pub proof fn lemma_jpeg_family_priority(mode: ScanMode, b: Seq<u8>)
    requires
        b.len() >= 2,
        b[0] == 0xFF,
    ensures
        b[1] == 0x0A ==> classification(mode, b) == ImageFormat::JpegXl,
        b[1] == 0xD8 ==> classification(mode, b) == ImageFormat::Jpeg,
{
    if b[1] == 0x0A {
        lemma_first_firing(mode, b, 1);
    } else if b[1] == 0xD8 {
        lemma_first_firing(mode, b, 0);
    }
}

/// Bytes on which only the TGA heuristic holds, and no rule of another format
/// fires, classify as TGA.
pub proof fn lemma_tga_heuristic_alone(mode: ScanMode, b: Seq<u8>)
    requires
        b.len() >= 3,
        b[2] == 0x02 || b[2] == 0x0A,
        forall|j: int|
            0 <= j < catalogue().len() && (#[trigger] catalogue()[j]).format != ImageFormat::Tga
                ==> !catalogue()[j].fires(mode, b),
    ensures
        classification(mode, b) == ImageFormat::Tga,
{
    if b[2] == 0x02 {
        lemma_first_firing(mode, b, 28);
    } else {
        lemma_first_firing(mode, b, 29);
    }
}

/// A rule of any other format that fires outranks the TGA heuristic, whatever
/// byte 2 holds.
pub proof fn lemma_stronger_rule_outranks_tga(mode: ScanMode, b: Seq<u8>, j: int)
    requires
        0 <= j < catalogue().len(),
        catalogue()[j].format != ImageFormat::Tga,
        catalogue()[j].fires(mode, b),
    ensures
        classification(mode, b) != ImageFormat::Tga,
{
    lemma_scan_not_tga(mode, b, j, 0);
}

proof fn lemma_scan_not_tga(mode: ScanMode, b: Seq<u8>, j: int, i: int)
    requires
        0 <= i <= j < catalogue().len(),
        catalogue()[j].format != ImageFormat::Tga,
        catalogue()[j].fires(mode, b),
    ensures
        scan_from(mode, b, i) != ImageFormat::Tga,
    decreases j - i,
{
    if i < j && !catalogue()[i].fires(mode, b) {
        lemma_scan_not_tga(mode, b, j, i + 1);
    }
}

/// The window reader fails with `ShortRead` exactly when the source holds fewer
/// than `WINDOW_LEN` bytes, and with `NotRecognized` exactly when a full window
/// matches no signature; it never yields `Unknown` as a success.
pub proof fn lemma_detection_outcomes(source: Seq<u8>)
    ensures
        (detection(source) == Err::<ImageFormat, DetectError>(DetectError::ShortRead))
            <==> source.len() < WINDOW_LEN,
        (detection(source) == Err::<ImageFormat, DetectError>(DetectError::NotRecognized))
            <==> (source.len() >= WINDOW_LEN && classification(
            ScanMode::Window,
            source.take(WINDOW_LEN as int),
        ) == ImageFormat::Unknown),
        detection(source) != Ok::<ImageFormat, DetectError>(ImageFormat::Unknown),
{
}

/// No rule reads past the first `WINDOW_LEN` bytes: a longer input classifies
/// as its first `WINDOW_LEN` bytes do.
pub proof fn lemma_window_suffices(mode: ScanMode, b: Seq<u8>)
    requires
        b.len() >= WINDOW_LEN,
    ensures
        classification(mode, b) == classification(mode, b.take(WINDOW_LEN as int)),
{
    let w = b.take(WINDOW_LEN as int);
    assert forall|j: int| 0 <= j < catalogue().len() implies (#[trigger] catalogue()[j]).fires(mode, b)
        == catalogue()[j].fires(mode, w) by {
        assert(catalogue()[j].pattern.len() <= WINDOW_LEN);
        if catalogue()[j].holds(w) {
            assert forall|k: int| 0 <= k < catalogue()[j].pattern.len() implies catalogue()[j].pattern[k].admits(
                #[trigger] b[k],
            ) by {
                assert(w[k] == b[k]);
            }
        }
        if catalogue()[j].holds(b) {
            assert forall|k: int| 0 <= k < catalogue()[j].pattern.len() implies catalogue()[j].pattern[k].admits(
                #[trigger] w[k],
            ) by {
                assert(w[k] == b[k]);
            }
        }
    }
    lemma_scan_agrees(mode, b, w, 0);
}

proof fn lemma_scan_agrees(mode: ScanMode, b: Seq<u8>, w: Seq<u8>, i: int)
    requires
        0 <= i <= catalogue().len(),
        forall|j: int| 0 <= j < catalogue().len() ==> (#[trigger] catalogue()[j]).fires(mode, b)
            == catalogue()[j].fires(mode, w),
    ensures
        scan_from(mode, b, i) == scan_from(mode, w, i),
    decreases catalogue().len() - i,
{
    if i < catalogue().len() {
        lemma_scan_agrees(mode, b, w, i + 1);
    }
}

/// When the rule at index `t` fires and no earlier one does, it decides.
pub proof fn lemma_first_firing(mode: ScanMode, b: Seq<u8>, t: int)
    requires
        0 <= t < catalogue().len(),
        catalogue()[t].fires(mode, b),
        forall|j: int| 0 <= j < t ==> !(#[trigger] catalogue()[j]).fires(mode, b),
    ensures
        classification(mode, b) == catalogue()[t].format,
{
    lemma_scan_reaches(mode, b, t, 0);
}

proof fn lemma_scan_reaches(mode: ScanMode, b: Seq<u8>, t: int, i: int)
    requires
        0 <= i <= t < catalogue().len(),
        catalogue()[t].fires(mode, b),
        forall|j: int| 0 <= j < t ==> !(#[trigger] catalogue()[j]).fires(mode, b),
    ensures
        scan_from(mode, b, i) == catalogue()[t].format,
    decreases t - i,
{
    if i < t {
        lemma_scan_reaches(mode, b, t, i + 1);
    }
}

} // verus!
