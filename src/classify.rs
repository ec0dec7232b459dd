use vstd::prelude::*;
use crate::format::ImageFormat;
use crate::registry::{catalogue, registry, view_rules};
use crate::signature::{ScanMode, WINDOW_LEN};
use vstd::slice::slice_subrange;

verus! {

/// The format of the first rule at index `i` or later that fires on `b`, or
/// `Unknown` when none does.
pub open spec fn scan_from(mode: ScanMode, b: Seq<u8>, i: int) -> ImageFormat
    decreases catalogue().len() - i,
{
    if i < 0 || i >= catalogue().len() {
        ImageFormat::Unknown
    } else if catalogue()[i].fires(mode, b) {
        catalogue()[i].format
    } else {
        scan_from(mode, b, i + 1)
    }
}

/// The format of the first rule of the table that fires on `b`, or `Unknown`.
pub open spec fn classification(mode: ScanMode, b: Seq<u8>) -> ImageFormat {
    scan_from(mode, b, 0)
}

/// Why reading a format from a byte source failed.
#[derive(Clone, Copy, Debug, PartialEq, Eq, Structural)]
pub enum DetectError {
    /// The source held fewer than `WINDOW_LEN` bytes.
    ShortRead,
    /// A full window was read and no signature matched it.
    NotRecognized,
}

/// The outcome of reading a window of `WINDOW_LEN` bytes from `source` and
/// classifying it.
pub open spec fn detection(source: Seq<u8>) -> Result<ImageFormat, DetectError> {
    if source.len() < WINDOW_LEN {
        Err(DetectError::ShortRead)
    } else {
        let f = classification(ScanMode::Window, source.take(WINDOW_LEN as int));
        if f == ImageFormat::Unknown {
            Err(DetectError::NotRecognized)
        } else {
            Ok(f)
        }
    }
}

/// Evaluates the table in priority order against `bytes`, returning the format
/// of the first rule enabled in `mode` whose pattern holds, or `Unknown`.
pub fn classify_with(bytes: &[u8], mode: ScanMode) -> (r: ImageFormat)
    ensures
        r == classification(mode, bytes@),
{
    let rules = registry();
    let mut i: usize = 0;
    while i < rules.len()
        invariant
            i <= rules@.len(),
            view_rules(rules@) == catalogue(),
            scan_from(mode, bytes@, 0) == scan_from(mode, bytes@, i as int),
        decreases rules@.len() - i,
    {
        let rule = &rules[i];
        assert(rule@ == catalogue()[i as int]);
        if rule.applies_in(mode) && rule.matches(bytes) {
            return rule.format;
        }
        i = i + 1;
    }
    ImageFormat::Unknown
}

/// Classifies a byte slice of any length; `Unknown` when no signature matches.
pub fn classify(bytes: &[u8]) -> (r: ImageFormat)
    ensures
        r == classification(ScanMode::Unbounded, bytes@),
{
    classify_with(bytes, ScanMode::Unbounded)
}

/// Classifies the window of `WINDOW_LEN` bytes that a byte source yields,
/// given everything the source held: `ShortRead` when it held fewer,
/// `NotRecognized` when the window matches no signature.
pub fn detect_image_format(source: &[u8]) -> (r: Result<ImageFormat, DetectError>)
    ensures
        r == detection(source@),
{
    if source.len() < WINDOW_LEN {
        return Err(DetectError::ShortRead);
    }
    let window = slice_subrange(source, 0, WINDOW_LEN);
    assert(window@ =~= source@.take(WINDOW_LEN as int));
    let f = classify_with(window, ScanMode::Window);
    if f == ImageFormat::Unknown {
        Err(DetectError::NotRecognized)
    } else {
        Ok(f)
    }
}

} // verus!
