//! Identifies the encoding of an image from its leading bytes, by an ordered
//! table of byte-pattern signatures evaluated first match first.

pub mod classify;
pub mod format;
pub mod lemmas;
pub mod registry;
pub mod signature;

pub use classify::{classify, classify_with, detect_image_format, DetectError};
pub use format::ImageFormat;
pub use signature::{ByteClass, Rule, ScanMode, WINDOW_LEN};
