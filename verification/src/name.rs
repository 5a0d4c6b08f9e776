//! The building blocks of a record name as the standard spells them: the
//! three-character prefix, the nature and format letters, the length field
//! and the delimiters.

use vstd::prelude::*;

verus! {

/// The three-character mnemonic prefix of a record.
#[derive(Debug, Clone, Copy, PartialEq, Eq)]
pub struct NamePrefix(pub [char; 3]);

/// The nature letter of a record name.
#[derive(Debug, Clone, Copy, PartialEq, Eq, Structural)]
pub enum Nature {
    /// Reserved logical record.
    T,
    /// Simple field.
    S,
    /// Compound field.
    C,
}

/// The format letter of a record name.
#[derive(Debug, Clone, Copy, PartialEq, Eq, Structural)]
pub enum Format {
    /// A string of characters.
    A,
    /// Coordinates.
    C,
    /// A date.
    D,
    /// A real number with exponent.
    E,
    /// A signed integer.
    I,
    /// An integer with no sign.
    N,
    /// The descriptor reference.
    P,
    /// A real number with no exponent.
    R,
    /// Text.
    T,
    /// A space, for a reserved logical record.
    SPACE,
}

/// The two-digit length field of a record name.
#[derive(Debug, Clone, Copy, PartialEq, Eq)]
pub struct Length(pub [usize; 2]);

/// The delimiters a record uses: between header and value, and between the
/// components of a compound value.
#[derive(Debug, Clone, Copy, PartialEq, Eq, Structural)]
pub enum Delimiter {
    /// The `:` separating header from value.
    Colon,
    /// The `;` separating compound components.
    SemiColon,
}

/// The value part of a record name.
#[derive(Debug, Clone, Copy, PartialEq, Eq, Structural)]
pub struct Value;

} // verus!
