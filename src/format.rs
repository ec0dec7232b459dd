use vstd::prelude::*;

verus! {

/// The image encodings that the classifier can name, plus `Unknown` for a window
/// that no signature matches.
#[derive(Clone, Copy, Hash, Debug, PartialEq, Eq, Structural)]
pub enum ImageFormat {
    Jpeg,
    JpegXl,
    Png,
    Webp,
    Aseprite,
    Avif,
    Bmp,
    Dds,
    Exr,
    Farbfeld,
    Gif,
    Hdr,
    Heif,
    Ico,
    Ilbm,
    Ktx2,
    Pcx,
    Pnm,
    Psd,
    Qoi,
    Tga,
    Tiff,
    Vtf,
    Unknown,
}

/// The canonical short extension of each tag.
pub open spec fn extension(f: ImageFormat) -> Seq<char> {
    match f {
        ImageFormat::Jpeg => "jpg"@,
        ImageFormat::JpegXl => "jpg"@,
        ImageFormat::Png => "png"@,
        ImageFormat::Webp => "webp"@,
        ImageFormat::Aseprite => "ase"@,
        ImageFormat::Avif => "avif"@,
        ImageFormat::Bmp => "bmp"@,
        ImageFormat::Dds => "dds"@,
        ImageFormat::Exr => "exr"@,
        ImageFormat::Farbfeld => "ff"@,
        ImageFormat::Gif => "gif"@,
        ImageFormat::Hdr => "hdr"@,
        ImageFormat::Heif => "heif"@,
        ImageFormat::Ico => "ico"@,
        ImageFormat::Ilbm => "ilbm"@,
        ImageFormat::Ktx2 => "ktx2"@,
        ImageFormat::Pcx => "pcx"@,
        ImageFormat::Pnm => "pnm"@,
        ImageFormat::Psd => "psd"@,
        ImageFormat::Qoi => "qoi"@,
        ImageFormat::Tga => "tga"@,
        ImageFormat::Tiff => "tiff"@,
        ImageFormat::Vtf => "vtf"@,
        ImageFormat::Unknown => "unknown"@,
    }
}

impl ImageFormat {
    /// The canonical short extension of this tag; JPEG and JPEG-XL share `"jpg"`.
    pub fn display_name(&self) -> (r: &'static str)
        ensures
            r@ == extension(*self),
            r@.len() > 0,
    {
        match *self {
            ImageFormat::Jpeg => {
                proof { reveal_strlit("jpg"); }
                "jpg"
            },
            ImageFormat::JpegXl => {
                proof { reveal_strlit("jpg"); }
                "jpg"
            },
            ImageFormat::Png => {
                proof { reveal_strlit("png"); }
                "png"
            },
            ImageFormat::Webp => {
                proof { reveal_strlit("webp"); }
                "webp"
            },
            ImageFormat::Aseprite => {
                proof { reveal_strlit("ase"); }
                "ase"
            },
            ImageFormat::Avif => {
                proof { reveal_strlit("avif"); }
                "avif"
            },
            ImageFormat::Bmp => {
                proof { reveal_strlit("bmp"); }
                "bmp"
            },
            ImageFormat::Dds => {
                proof { reveal_strlit("dds"); }
                "dds"
            },
            ImageFormat::Exr => {
                proof { reveal_strlit("exr"); }
                "exr"
            },
            ImageFormat::Farbfeld => {
                proof { reveal_strlit("ff"); }
                "ff"
            },
            ImageFormat::Gif => {
                proof { reveal_strlit("gif"); }
                "gif"
            },
            ImageFormat::Hdr => {
                proof { reveal_strlit("hdr"); }
                "hdr"
            },
            ImageFormat::Heif => {
                proof { reveal_strlit("heif"); }
                "heif"
            },
            ImageFormat::Ico => {
                proof { reveal_strlit("ico"); }
                "ico"
            },
            ImageFormat::Ilbm => {
                proof { reveal_strlit("ilbm"); }
                "ilbm"
            },
            ImageFormat::Ktx2 => {
                proof { reveal_strlit("ktx2"); }
                "ktx2"
            },
            ImageFormat::Pcx => {
                proof { reveal_strlit("pcx"); }
                "pcx"
            },
            ImageFormat::Pnm => {
                proof { reveal_strlit("pnm"); }
                "pnm"
            },
            ImageFormat::Psd => {
                proof { reveal_strlit("psd"); }
                "psd"
            },
            ImageFormat::Qoi => {
                proof { reveal_strlit("qoi"); }
                "qoi"
            },
            ImageFormat::Tga => {
                proof { reveal_strlit("tga"); }
                "tga"
            },
            ImageFormat::Tiff => {
                proof { reveal_strlit("tiff"); }
                "tiff"
            },
            ImageFormat::Vtf => {
                proof { reveal_strlit("vtf"); }
                "vtf"
            },
            ImageFormat::Unknown => {
                proof { reveal_strlit("unknown"); }
                "unknown"
            },
        }
    }
}

} // verus!
