//! The member-file kinds of an exchange, as marker types, and the shape of
//! a whole exchange.

use vstd::prelude::*;

verus! {

/// The manifest file: one batch of general data specific to the
/// transmission.
#[derive(Debug, Clone, Copy, PartialEq, Eq, Structural)]
pub struct THF;

/// The general file: structure and geographical extent of the data, one
/// per set.
#[derive(Debug, Clone, Copy, PartialEq, Eq, Structural)]
pub struct GEN;

/// The geo-reference file: the coordinate reference, one per set.
#[derive(Debug, Clone, Copy, PartialEq, Eq, Structural)]
pub struct GEO;

/// The quality file: quality information, zero or one per set.
#[derive(Debug, Clone, Copy, PartialEq, Eq, Structural)]
pub struct QAL;

/// The dictionary file: nomenclature of objects, attributes and
/// relationships, mandatory when a vector file is present.
#[derive(Debug, Clone, Copy, PartialEq, Eq, Structural)]
pub struct DIC;

/// The schema file: the conceptual data schema, mandatory when a vector
/// file is present.
#[derive(Debug, Clone, Copy, PartialEq, Eq, Structural)]
pub struct SCD;

/// A vector file: vector geographic data, zero or more per set.
#[derive(Debug, Clone, Copy, PartialEq, Eq, Structural)]
pub struct VEC;

/// A raster file: raster geographic data, zero or more per set.
#[derive(Debug, Clone, Copy, PartialEq, Eq, Structural)]
pub struct MAT;

/// The shape of one exchange: its member files by kind.
#[derive(Debug, Clone, PartialEq, Eq)]
pub struct Edigeo {
    thf: THF,
    gen: GEN,
    qal: Option<QAL>,
    dic: Option<DIC>,
    scd: Option<SCD>,
    vec: Option<Vec<VEC>>,
    mat: Option<MAT>,
}

} // verus!
