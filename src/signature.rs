use vstd::prelude::*;
use crate::format::ImageFormat;

verus! {

/// The widest window that any signature reads.
pub const WINDOW_LEN: usize = 12;

/// A constraint on one byte of the window.
#[derive(Clone, Copy, Debug, PartialEq, Eq, Structural)]
pub enum ByteClass {
    /// Any value (a don't-care position).
    Wild,
    /// Exactly this value.
    Byte(u8),
    /// A value in this inclusive range.
    InRange(u8, u8),
}

impl ByteClass {
    pub open spec fn admits(self, b: u8) -> bool {
        match self {
            ByteClass::Wild => true,
            ByteClass::Byte(v) => b == v,
            ByteClass::InRange(lo, hi) => lo <= b && b <= hi,
        }
    }

    pub fn accepts(&self, b: u8) -> (r: bool)
        ensures
            r == self.admits(b),
    {
        match *self {
            ByteClass::Wild => true,
            ByteClass::Byte(v) => b == v,
            ByteClass::InRange(lo, hi) => lo <= b && b <= hi,
        }
    }
}

/// Which entry shape evaluates a table.
#[derive(Clone, Copy, Debug, PartialEq, Eq, Structural)]
pub enum ScanMode {
    /// A byte slice of any length, with a sentinel on no match.
    Unbounded,
    /// A window of exactly `WINDOW_LEN` bytes read from a source.
    Window,
}

/// The mathematical content of a `Rule`.
pub struct SignatureRule {
    pub format: ImageFormat,
    pub pattern: Seq<ByteClass>,
    pub window_only: bool,
}

impl SignatureRule {
    /// Every position of the pattern lies in the window and admits its byte.
    pub open spec fn holds(self, b: Seq<u8>) -> bool {
        &&& self.pattern.len() <= b.len()
        &&& forall|k: int| 0 <= k < self.pattern.len() ==> self.pattern[k].admits(#[trigger] b[k])
    }

    pub open spec fn enabled(self, mode: ScanMode) -> bool {
        !self.window_only || mode == ScanMode::Window
    }

    /// The rule takes part in `mode` and its pattern holds of `b`.
    pub open spec fn fires(self, mode: ScanMode, b: Seq<u8>) -> bool {
        self.enabled(mode) && self.holds(b)
    }
}

/// One entry of the signature table: a pattern anchored at offset 0.
pub struct Rule {
    pub format: ImageFormat,
    pub pattern: Vec<ByteClass>,
    pub window_only: bool,
}

impl View for Rule {
    type V = SignatureRule;

    open spec fn view(&self) -> SignatureRule {
        SignatureRule { format: self.format, pattern: self.pattern@, window_only: self.window_only }
    }
}

impl Rule {
    pub fn applies_in(&self, mode: ScanMode) -> (r: bool)
        ensures
            r == self@.enabled(mode),
    {
        !self.window_only || mode == ScanMode::Window
    }

    /// Whether the pattern holds of `bytes`; a window too short for the pattern fails it.
    pub fn matches(&self, bytes: &[u8]) -> (r: bool)
        ensures
            r == self@.holds(bytes@),
    {
        if self.pattern.len() > bytes.len() {
            return false;
        }
        let mut k: usize = 0;
        while k < self.pattern.len()
            invariant
                self.pattern@.len() <= bytes@.len(),
                k <= self.pattern@.len(),
                forall|j: int| 0 <= j < k ==> self.pattern@[j].admits(#[trigger] bytes@[j]),
            decreases self.pattern@.len() - k,
        {
            if !self.pattern[k].accepts(bytes[k]) {
                return false;
            }
            k = k + 1;
        }
        true
    }
}

} // verus!
