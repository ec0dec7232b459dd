use vstd::prelude::*;
use crate::format::ImageFormat;
use crate::signature::{Rule, SignatureRule};
use crate::signature::ByteClass::{Byte, InRange, Wild};

verus! {

/// The signature table, in priority order: when two rules hold of the same
/// bytes, the earlier one decides. Weak single-byte heuristics stand last.
pub open spec fn catalogue() -> Seq<SignatureRule> {
    seq![
        // JPEG
        SignatureRule { format: ImageFormat::Jpeg, pattern: seq![Byte(0xFF), Byte(0xD8)], window_only: false },
        // JPEG-XL codestream
        SignatureRule { format: ImageFormat::JpegXl, pattern: seq![Byte(0xFF), Byte(0x0A)], window_only: false },
        // JPEG-XL container
        SignatureRule { format: ImageFormat::JpegXl, pattern: seq![Byte(0x00), Byte(0x00), Byte(0x00), Byte(0x0C), Byte(0x4A), Byte(0x58), Byte(0x4C), Byte(0x20), Byte(0x0D), Byte(0x0A), Byte(0x87), Byte(0x0A)], window_only: false },
        // PNG
        SignatureRule { format: ImageFormat::Png, pattern: seq![Byte(0x89), Byte(0x50), Byte(0x4E), Byte(0x47), Byte(0x0D), Byte(0x0A), Byte(0x1A), Byte(0x0A)], window_only: false },
        // "RIFF" .... "WEBP"
        SignatureRule { format: ImageFormat::Webp, pattern: seq![Byte(0x52), Byte(0x49), Byte(0x46), Byte(0x46), Wild, Wild, Wild, Wild, Byte(0x57), Byte(0x45), Byte(0x42), Byte(0x50)], window_only: false },
        // .... "ftyp" "avif"
        SignatureRule { format: ImageFormat::Avif, pattern: seq![Wild, Wild, Wild, Wild, Byte(0x66), Byte(0x74), Byte(0x79), Byte(0x70), Byte(0x61), Byte(0x76), Byte(0x69), Byte(0x66)], window_only: false },
        // .... "ftyp" "heic"
        SignatureRule { format: ImageFormat::Heif, pattern: seq![Wild, Wild, Wild, Wild, Byte(0x66), Byte(0x74), Byte(0x79), Byte(0x70), Byte(0x68), Byte(0x65), Byte(0x69), Byte(0x63)], window_only: false },
        // .... "ftyp" "heif"
        SignatureRule { format: ImageFormat::Heif, pattern: seq![Wild, Wild, Wild, Wild, Byte(0x66), Byte(0x74), Byte(0x79), Byte(0x70), Byte(0x68), Byte(0x65), Byte(0x69), Byte(0x66)], window_only: false },
        // "BM"
        SignatureRule { format: ImageFormat::Bmp, pattern: seq![Byte(0x42), Byte(0x4D)], window_only: false },
        // "DDS "
        SignatureRule { format: ImageFormat::Dds, pattern: seq![Byte(0x44), Byte(0x44), Byte(0x53), Byte(0x20)], window_only: false },
        // OpenEXR
        SignatureRule { format: ImageFormat::Exr, pattern: seq![Byte(0x76), Byte(0x2F), Byte(0x31), Byte(0x01)], window_only: false },
        // "farbfeld"
        SignatureRule { format: ImageFormat::Farbfeld, pattern: seq![Byte(0x66), Byte(0x61), Byte(0x72), Byte(0x62), Byte(0x66), Byte(0x65), Byte(0x6C), Byte(0x64)], window_only: false },
        // "GIF87a"
        SignatureRule { format: ImageFormat::Gif, pattern: seq![Byte(0x47), Byte(0x49), Byte(0x46), Byte(0x38), Byte(0x37), Byte(0x61)], window_only: false },
        // "GIF89a"
        SignatureRule { format: ImageFormat::Gif, pattern: seq![Byte(0x47), Byte(0x49), Byte(0x46), Byte(0x38), Byte(0x39), Byte(0x61)], window_only: false },
        // "#?RADIANCE"
        SignatureRule { format: ImageFormat::Hdr, pattern: seq![Byte(0x23), Byte(0x3F), Byte(0x52), Byte(0x41), Byte(0x44), Byte(0x49), Byte(0x41), Byte(0x4E), Byte(0x43), Byte(0x45)], window_only: false },
        // "#?RGBE"
        SignatureRule { format: ImageFormat::Hdr, pattern: seq![Byte(0x23), Byte(0x3F), Byte(0x52), Byte(0x47), Byte(0x42), Byte(0x45)], window_only: false },
        // "#?", accepted by the window reader
        SignatureRule { format: ImageFormat::Hdr, pattern: seq![Byte(0x23), Byte(0x3F)], window_only: true },
        // ICO
        SignatureRule { format: ImageFormat::Ico, pattern: seq![Byte(0x00), Byte(0x00), Byte(0x01), Byte(0x00)], window_only: false },
        // "FORM" .... "ILBM"
        SignatureRule { format: ImageFormat::Ilbm, pattern: seq![Byte(0x46), Byte(0x4F), Byte(0x52), Byte(0x4D), Wild, Wild, Wild, Wild, Byte(0x49), Byte(0x4C), Byte(0x42), Byte(0x4D)], window_only: false },
        // KTX2
        SignatureRule { format: ImageFormat::Ktx2, pattern: seq![Byte(0xAB), Byte(0x4B), Byte(0x54), Byte(0x58), Byte(0x20), Byte(0x32), Byte(0x30), Byte(0xBB), Byte(0x0D), Byte(0x0A), Byte(0x1A), Byte(0x0A)], window_only: false },
        // PCX, window reader only
        SignatureRule { format: ImageFormat::Pcx, pattern: seq![Byte(0x0A), Byte(0x00), Byte(0x01)], window_only: true },
        // "P1" to "P6"
        SignatureRule { format: ImageFormat::Pnm, pattern: seq![Byte(0x50), InRange(0x31, 0x36)], window_only: false },
        // "8BPS"
        SignatureRule { format: ImageFormat::Psd, pattern: seq![Byte(0x38), Byte(0x42), Byte(0x50), Byte(0x53)], window_only: false },
        // "qoif"
        SignatureRule { format: ImageFormat::Qoi, pattern: seq![Byte(0x71), Byte(0x6F), Byte(0x69), Byte(0x66)], window_only: false },
        // TIFF, little-endian
        SignatureRule { format: ImageFormat::Tiff, pattern: seq![Byte(0x49), Byte(0x49), Byte(0x2A), Byte(0x00)], window_only: false },
        // TIFF, big-endian
        SignatureRule { format: ImageFormat::Tiff, pattern: seq![Byte(0x4D), Byte(0x4D), Byte(0x00), Byte(0x2A)], window_only: false },
        // "VTF"
        SignatureRule { format: ImageFormat::Vtf, pattern: seq![Byte(0x56), Byte(0x54), Byte(0x46)], window_only: false },
        // "ASEF"
        SignatureRule { format: ImageFormat::Aseprite, pattern: seq![Byte(0x41), Byte(0x53), Byte(0x45), Byte(0x46)], window_only: false },
        // TGA, weak: one byte at offset 2
        SignatureRule { format: ImageFormat::Tga, pattern: seq![Wild, Wild, Byte(0x02)], window_only: false },
        // TGA, weak: one byte at offset 2
        SignatureRule { format: ImageFormat::Tga, pattern: seq![Wild, Wild, Byte(0x0A)], window_only: false },
    ]
}

pub open spec fn view_rules(rules: Seq<Rule>) -> Seq<SignatureRule> {
    rules.map_values(|r: Rule| r@)
}

/// Builds the signature table.
pub fn registry() -> (r: Vec<Rule>)
    ensures
        view_rules(r@) == catalogue(),
{
    let r = vec![
        // JPEG
        Rule { format: ImageFormat::Jpeg, pattern: vec![Byte(0xFF), Byte(0xD8)], window_only: false },
        // JPEG-XL codestream
        Rule { format: ImageFormat::JpegXl, pattern: vec![Byte(0xFF), Byte(0x0A)], window_only: false },
        // JPEG-XL container
        Rule { format: ImageFormat::JpegXl, pattern: vec![Byte(0x00), Byte(0x00), Byte(0x00), Byte(0x0C), Byte(0x4A), Byte(0x58), Byte(0x4C), Byte(0x20), Byte(0x0D), Byte(0x0A), Byte(0x87), Byte(0x0A)], window_only: false },
        // PNG
        Rule { format: ImageFormat::Png, pattern: vec![Byte(0x89), Byte(0x50), Byte(0x4E), Byte(0x47), Byte(0x0D), Byte(0x0A), Byte(0x1A), Byte(0x0A)], window_only: false },
        // "RIFF" .... "WEBP"
        Rule { format: ImageFormat::Webp, pattern: vec![Byte(0x52), Byte(0x49), Byte(0x46), Byte(0x46), Wild, Wild, Wild, Wild, Byte(0x57), Byte(0x45), Byte(0x42), Byte(0x50)], window_only: false },
        // .... "ftyp" "avif"
        Rule { format: ImageFormat::Avif, pattern: vec![Wild, Wild, Wild, Wild, Byte(0x66), Byte(0x74), Byte(0x79), Byte(0x70), Byte(0x61), Byte(0x76), Byte(0x69), Byte(0x66)], window_only: false },
        // .... "ftyp" "heic"
        Rule { format: ImageFormat::Heif, pattern: vec![Wild, Wild, Wild, Wild, Byte(0x66), Byte(0x74), Byte(0x79), Byte(0x70), Byte(0x68), Byte(0x65), Byte(0x69), Byte(0x63)], window_only: false },
        // .... "ftyp" "heif"
        Rule { format: ImageFormat::Heif, pattern: vec![Wild, Wild, Wild, Wild, Byte(0x66), Byte(0x74), Byte(0x79), Byte(0x70), Byte(0x68), Byte(0x65), Byte(0x69), Byte(0x66)], window_only: false },
        // "BM"
        Rule { format: ImageFormat::Bmp, pattern: vec![Byte(0x42), Byte(0x4D)], window_only: false },
        // "DDS "
        Rule { format: ImageFormat::Dds, pattern: vec![Byte(0x44), Byte(0x44), Byte(0x53), Byte(0x20)], window_only: false },
        // OpenEXR
        Rule { format: ImageFormat::Exr, pattern: vec![Byte(0x76), Byte(0x2F), Byte(0x31), Byte(0x01)], window_only: false },
        // "farbfeld"
        Rule { format: ImageFormat::Farbfeld, pattern: vec![Byte(0x66), Byte(0x61), Byte(0x72), Byte(0x62), Byte(0x66), Byte(0x65), Byte(0x6C), Byte(0x64)], window_only: false },
        // "GIF87a"
        Rule { format: ImageFormat::Gif, pattern: vec![Byte(0x47), Byte(0x49), Byte(0x46), Byte(0x38), Byte(0x37), Byte(0x61)], window_only: false },
        // "GIF89a"
        Rule { format: ImageFormat::Gif, pattern: vec![Byte(0x47), Byte(0x49), Byte(0x46), Byte(0x38), Byte(0x39), Byte(0x61)], window_only: false },
        // "#?RADIANCE"
        Rule { format: ImageFormat::Hdr, pattern: vec![Byte(0x23), Byte(0x3F), Byte(0x52), Byte(0x41), Byte(0x44), Byte(0x49), Byte(0x41), Byte(0x4E), Byte(0x43), Byte(0x45)], window_only: false },
        // "#?RGBE"
        Rule { format: ImageFormat::Hdr, pattern: vec![Byte(0x23), Byte(0x3F), Byte(0x52), Byte(0x47), Byte(0x42), Byte(0x45)], window_only: false },
        // "#?", accepted by the window reader
        Rule { format: ImageFormat::Hdr, pattern: vec![Byte(0x23), Byte(0x3F)], window_only: true },
        // ICO
        Rule { format: ImageFormat::Ico, pattern: vec![Byte(0x00), Byte(0x00), Byte(0x01), Byte(0x00)], window_only: false },
        // "FORM" .... "ILBM"
        Rule { format: ImageFormat::Ilbm, pattern: vec![Byte(0x46), Byte(0x4F), Byte(0x52), Byte(0x4D), Wild, Wild, Wild, Wild, Byte(0x49), Byte(0x4C), Byte(0x42), Byte(0x4D)], window_only: false },
        // KTX2
        Rule { format: ImageFormat::Ktx2, pattern: vec![Byte(0xAB), Byte(0x4B), Byte(0x54), Byte(0x58), Byte(0x20), Byte(0x32), Byte(0x30), Byte(0xBB), Byte(0x0D), Byte(0x0A), Byte(0x1A), Byte(0x0A)], window_only: false },
        // PCX, window reader only
        Rule { format: ImageFormat::Pcx, pattern: vec![Byte(0x0A), Byte(0x00), Byte(0x01)], window_only: true },
        // "P1" to "P6"
        Rule { format: ImageFormat::Pnm, pattern: vec![Byte(0x50), InRange(0x31, 0x36)], window_only: false },
        // "8BPS"
        Rule { format: ImageFormat::Psd, pattern: vec![Byte(0x38), Byte(0x42), Byte(0x50), Byte(0x53)], window_only: false },
        // "qoif"
        Rule { format: ImageFormat::Qoi, pattern: vec![Byte(0x71), Byte(0x6F), Byte(0x69), Byte(0x66)], window_only: false },
        // TIFF, little-endian
        Rule { format: ImageFormat::Tiff, pattern: vec![Byte(0x49), Byte(0x49), Byte(0x2A), Byte(0x00)], window_only: false },
        // TIFF, big-endian
        Rule { format: ImageFormat::Tiff, pattern: vec![Byte(0x4D), Byte(0x4D), Byte(0x00), Byte(0x2A)], window_only: false },
        // "VTF"
        Rule { format: ImageFormat::Vtf, pattern: vec![Byte(0x56), Byte(0x54), Byte(0x46)], window_only: false },
        // "ASEF"
        Rule { format: ImageFormat::Aseprite, pattern: vec![Byte(0x41), Byte(0x53), Byte(0x45), Byte(0x46)], window_only: false },
        // TGA, weak: one byte at offset 2
        Rule { format: ImageFormat::Tga, pattern: vec![Wild, Wild, Byte(0x02)], window_only: false },
        // TGA, weak: one byte at offset 2
        Rule { format: ImageFormat::Tga, pattern: vec![Wild, Wild, Byte(0x0A)], window_only: false },
    ];
    assert(view_rules(r@) =~~= catalogue());
    r
}

} // verus!
