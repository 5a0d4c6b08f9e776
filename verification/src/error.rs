//! Error surface of the EDIGéO decoder.
//!
//! Acquisition, grammar, value and bundle-level failures are kept as
//! distinguishable conditions, never collapsed into one generic failure.

use vstd::prelude::*;

verus! {

/// One failure condition of the decoder.
///
/// Grammar errors carry the offending text so that a caller can report the
/// exact field that was rejected.
#[derive(Debug, Clone, PartialEq, Eq)]
pub enum EdigeoError {
    /// No `:` separator where the record grammar demands one.
    MissingSeparator,
    /// A three-letter mnemonic outside the closed code vocabulary.
    UnknownCode(String),
    /// A nature tag other than `T`, `S` or `C`.
    InvalidNature(String),
    /// A value-format tag outside the closed format vocabulary.
    InvalidFormat(String),
    /// A declared-size field that is not two decimal digits.
    InvalidSize(String),
    /// The declared value size differs from the character count of the raw value.
    SizeMismatch {
        /// Size announced in the record header.
        declared: usize,
        /// Character count of the raw value actually present.
        actual: usize,
    },
    /// A date value that is not eight digits forming a valid calendar date.
    InvalidDate(String),
    /// An integer value that does not parse as a signed 32-bit decimal.
    InvalidInteger(String),
    /// A real value that does not match the decimal floating-point grammar.
    InvalidReal(String),
    /// A coordinate value without the `;` separating its two components.
    MissingCoordinateSeparator(String),
    /// A mandatory member file is absent or empty after acquisition.
    IncompleteBundle,
    /// A compressed archive whose contents could not be unpacked.
    InvalidArchive,
    /// An input path that is neither a directory, an archive nor a manifest file.
    InvalidSource(String),
    /// A reader handed a raw source of the wrong shape for its kind.
    SourceMismatch,
}

/// A per-line failure: which line of a member file was rejected, and why.
#[derive(Debug, Clone, PartialEq, Eq)]
pub struct LineError {
    /// Zero-based index of the offending line in the member file's text.
    pub line: usize,
    /// The grammar or value error that the line produced.
    pub error: EdigeoError,
}

/// Result type used throughout the decoder.
pub type EdigeoResult<T> = Result<T, EdigeoError>;

} // verus!
