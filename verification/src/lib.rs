//! Decoder for the EDIGéO exchange format: a legacy French fixed-grammar
//! text encoding for geographic cadastral data.
//!
//! An exchange is a set of plain-text member files (one mandatory manifest
//! file plus companions for geometry, quality, dictionary, schema and vector
//! content) whose records follow a fixed-column header grammar, a closed
//! vocabulary of three-letter field codes, and a block structure that varies
//! by file kind.

pub mod blocks;
pub mod bundle;
pub mod directory;
pub mod edigeo;
pub mod error;
pub mod format;
pub mod header;
pub mod line;
pub mod name;
pub mod reader;
pub mod text;
