//! Record parsing: one text line split at its fixed separator into a header
//! and a raw value, with the declared size validated and the value decoded.

use vstd::prelude::*;

use crate::error::EdigeoError;
use crate::format::{decode_ok, decode_value, spec_decoded, FormatResult};
use crate::header::{header_error_matches, spec_parse_header, Header};

verus! {

/// One decoded record: its header, the raw value text, and the typed value,
/// absent for blank-valued structural records.
#[derive(Debug, PartialEq, Eq)]
pub struct Line {
    /// The parsed header of the line.
    pub header: Header,
    /// The raw value text following the separator.
    pub raw_value: String,
    /// The decoded value, or nothing for a blank-format field value.
    pub parsed_value: Option<FormatResult>,
}

/// A well-formed record line: a valid seven-character header prefix, the
/// `:` separator at character index 7, a raw value of exactly the declared
/// character count, and a value that decodes under the header's tags.
pub open spec fn line_ok(s: Seq<char>) -> bool {
    match spec_parse_header(s) {
        Some(h) => s.len() >= 8 && s[7] == ':' && h.value_size == s.len() - 8 && decode_ok(
            h.value_format,
            h.value_type,
            s.subrange(8, s.len() as int),
        ),
        None => false,
    }
}

/// What a record line decodes to: its header, its raw value text, and the
/// decoded value given by the canonical dispatch.
pub open spec fn line_decodes_to(s: Seq<char>, l: Line) -> bool {
    match spec_parse_header(s) {
        Some(h) => line_ok(s) && l.header == h && l.raw_value@ == s.subrange(8, s.len() as int)
            && spec_decoded(
            h.value_format,
            h.value_type,
            s.subrange(8, s.len() as int),
            Ok(l.parsed_value),
        ),
        None => false,
    }
}

/// Which error a malformed record line produces: a missing separator, the
/// first malformed header field, a size mismatch, or a value that fails the
/// canonical dispatch.
pub open spec fn line_fails(s: Seq<char>, e: EdigeoError) -> bool {
    if s.len() < 8 {
        e == EdigeoError::MissingSeparator
    } else {
        match spec_parse_header(s) {
            None => header_error_matches(s, e),
            Some(h) => {
                if s[7] != ':' {
                    e == EdigeoError::MissingSeparator
                } else if h.value_size != s.len() - 8 {
                    e matches EdigeoError::SizeMismatch { declared, actual } && declared
                        == h.value_size && actual == s.len() - 8
                } else {
                    spec_decoded(h.value_format, h.value_type, s.subrange(8, s.len() as int), Err(e))
                }
            },
        }
    }
}

/// Decodes a raw value against its header: the declared size must equal the
/// character count of the raw value, and the value must decode under the
/// header's format and nature tags.
pub fn parse_value(header: &Header, raw_value: &str) -> (r: Result<
    Option<FormatResult>,
    EdigeoError,
>)
    ensures
        header.value_size != raw_value@.len() ==> (r matches Err(
            EdigeoError::SizeMismatch { declared, actual },
        ) && declared == header.value_size && actual == raw_value@.len()),
        header.value_size == raw_value@.len() ==> spec_decoded(
            header.value_format,
            header.value_type,
            raw_value@,
            r,
        ) && (r is Ok <==> decode_ok(header.value_format, header.value_type, raw_value@)),
{
    let n: usize = raw_value.unicode_len();
    if header.value_size != n {
        return Err(EdigeoError::SizeMismatch { declared: header.value_size, actual: n });
    }
    decode_value(header, raw_value)
}

impl Line {
    /// Parses a full record line: the seven-character header prefix, the `:`
    /// separator at character index 7, and the raw value after it, which
    /// must hold exactly the declared number of characters and decode under
    /// the header's tags.
    pub fn parse_line(line: &str) -> (r: Result<Line, EdigeoError>)
        ensures
            r matches Ok(l) ==> line_decodes_to(line@, l),
            r matches Err(e) ==> line_fails(line@, e),
            r is Ok <==> line_ok(line@),
    {
        let n: usize = line.unicode_len();
        if n < 8 {
            return Err(EdigeoError::MissingSeparator);
        }
        let header = Header::parse_header(line)?;
        if line.get_char(7) != ':' {
            return Err(EdigeoError::MissingSeparator);
        }
        let raw: &str = line.substring_char(8, n);
        let raw_owned: String = raw.to_owned();
        match parse_value(&header, raw) {
            Ok(v) => Ok(Line { header, raw_value: raw_owned, parsed_value: v }),
            Err(e) => Err(e),
        }
    }

    /// Whether the record carries an empty raw value.
    pub fn is_empty(&self) -> (r: bool)
        ensures
            r == (self.raw_value@.len() == 0),
    {
        self.raw_value.as_str().is_empty()
    }
}

} // verus!
