//! The fixed-column record header: the closed code vocabulary, the nature
//! and format tags, and the declared value size.
//!
//! A record line starts with a seven-character prefix at fixed offsets:
//! characters `[0,3)` hold a three-letter code mnemonic, `[3,4)` the nature
//! tag, `[4,5)` the value-format tag and `[5,7)` a two-digit declared size.
//! The `:` separator of a well-formed line sits at character index 7, so the
//! prefix is read by offset, never by searching for the separator.

use vstd::prelude::*;

use crate::error::{EdigeoError, EdigeoResult};

verus! {

/// Structural keywords marking file positions: start, character set, end.
#[derive(Debug, Clone, Copy, PartialEq, Eq, Structural)]
pub enum KeyWordCode {
    /// Logical start of a member file.
    BOM,
    /// Declaration of the character set in use.
    CSE,
    /// Logical end of a member file; its value is always empty.
    EOM,
}

/// The single block-type marker code.
#[derive(Debug, Clone, Copy, PartialEq, Eq, Structural)]
pub enum TypeCode {
    /// Announces which block the following records belong to.
    RTY,
}

/// Content-bearing zone codes of the closed vocabulary.
#[derive(Debug, Clone, Copy, PartialEq, Eq, Structural)]
#[allow(missing_docs)]
pub enum ZoneName {
    RID, AUT, ADR, LOC, VOC, SEC, RDI, VER, VDA, TRL, EDN, TDA,
    INF, LON, GNN, GNI, GON, GOI, QAN, QAI, DIN, DII, SCN, SCI,
    GDC, GDN, GDI, CM1, CM2, STR, REG, RET, REN, REL, DIM, ALS,
    UNH, LAB, DEF, ORI, CAT, TYP, UNI, AVC, AVL, AVD, DIP, KND,
    AAC, AAP, QAC, CAN, AV1, AV2, CA1, CA2, SCC, SCP, OCC, ODA,
    UTY, ULO, UDA, RAT, EDA, COC, COP, COR, ATC, PTC, REF, ATP,
    ATV, QAP, FTC, FTP, SNS, TEX,
}

/// A code tagged with its semantic family.
///
/// The family decides control behaviour during block segmentation; the
/// vocabulary is closed, so a mnemonic outside it is a decode failure.
#[derive(Debug, Clone, Copy, PartialEq, Eq, Structural)]
pub enum Code {
    /// Structural file keywords.
    KWCode(KeyWordCode),
    /// Block-type marker.
    TypeCode(TypeCode),
    /// Zone content codes.
    ZoneCode(ZoneName),
}

/// Nature of a record's value: reserved record, simple or compound field.
#[derive(Debug, Clone, Copy, PartialEq, Eq, Structural)]
pub enum ValueType {
    /// Reserved logical record.
    T,
    /// Simple field holding one value.
    S,
    /// Compound field holding several values.
    C,
}

/// Format tag of a record's value.
#[derive(Debug, Clone, Copy, PartialEq, Eq, Structural)]
pub enum ValueFormat {
    /// String of characters.
    A,
    /// Coordinate pair.
    C,
    /// Date written as eight digits, year first.
    D,
    /// Real number with exponent, carried as text.
    E,
    /// Signed integer.
    I,
    /// Unsigned integer.
    N,
    /// Descriptor reference.
    P,
    /// Real number.
    R,
    /// Plain text.
    T,
    /// A space, marking a reserved logical record.
    WhiteSpace,
}

/// The parsed header of one record line.
#[derive(Debug, Clone, Copy, PartialEq, Eq, Structural)]
pub struct Header {
    /// The record's code.
    pub code: Code,
    /// Nature tag of the value.
    pub value_type: ValueType,
    /// Format tag of the value.
    pub value_format: ValueFormat,
    /// Declared character count of the value.
    pub value_size: usize,
}

/// The code, if any, that a three-character mnemonic denotes.
pub open spec fn code_of_chars(a: char, b: char, c: char) -> Option<Code> {
    match (a, b, c) {
        ('B', 'O', 'M') => Some(Code::KWCode(KeyWordCode::BOM)),
        ('C', 'S', 'E') => Some(Code::KWCode(KeyWordCode::CSE)),
        ('E', 'O', 'M') => Some(Code::KWCode(KeyWordCode::EOM)),
        ('R', 'T', 'Y') => Some(Code::TypeCode(TypeCode::RTY)),
        ('R', 'I', 'D') => Some(Code::ZoneCode(ZoneName::RID)),
        ('A', 'U', 'T') => Some(Code::ZoneCode(ZoneName::AUT)),
        ('A', 'D', 'R') => Some(Code::ZoneCode(ZoneName::ADR)),
        ('L', 'O', 'C') => Some(Code::ZoneCode(ZoneName::LOC)),
        ('V', 'O', 'C') => Some(Code::ZoneCode(ZoneName::VOC)),
        ('S', 'E', 'C') => Some(Code::ZoneCode(ZoneName::SEC)),
        ('R', 'D', 'I') => Some(Code::ZoneCode(ZoneName::RDI)),
        ('V', 'E', 'R') => Some(Code::ZoneCode(ZoneName::VER)),
        ('V', 'D', 'A') => Some(Code::ZoneCode(ZoneName::VDA)),
        ('T', 'R', 'L') => Some(Code::ZoneCode(ZoneName::TRL)),
        ('E', 'D', 'N') => Some(Code::ZoneCode(ZoneName::EDN)),
        ('T', 'D', 'A') => Some(Code::ZoneCode(ZoneName::TDA)),
        ('I', 'N', 'F') => Some(Code::ZoneCode(ZoneName::INF)),
        ('L', 'O', 'N') => Some(Code::ZoneCode(ZoneName::LON)),
        ('G', 'N', 'N') => Some(Code::ZoneCode(ZoneName::GNN)),
        ('G', 'N', 'I') => Some(Code::ZoneCode(ZoneName::GNI)),
        ('G', 'O', 'N') => Some(Code::ZoneCode(ZoneName::GON)),
        ('G', 'O', 'I') => Some(Code::ZoneCode(ZoneName::GOI)),
        ('Q', 'A', 'N') => Some(Code::ZoneCode(ZoneName::QAN)),
        ('Q', 'A', 'I') => Some(Code::ZoneCode(ZoneName::QAI)),
        ('D', 'I', 'N') => Some(Code::ZoneCode(ZoneName::DIN)),
        ('D', 'I', 'I') => Some(Code::ZoneCode(ZoneName::DII)),
        ('S', 'C', 'N') => Some(Code::ZoneCode(ZoneName::SCN)),
        ('S', 'C', 'I') => Some(Code::ZoneCode(ZoneName::SCI)),
        ('G', 'D', 'C') => Some(Code::ZoneCode(ZoneName::GDC)),
        ('G', 'D', 'N') => Some(Code::ZoneCode(ZoneName::GDN)),
        ('G', 'D', 'I') => Some(Code::ZoneCode(ZoneName::GDI)),
        ('C', 'M', '1') => Some(Code::ZoneCode(ZoneName::CM1)),
        ('C', 'M', '2') => Some(Code::ZoneCode(ZoneName::CM2)),
        ('S', 'T', 'R') => Some(Code::ZoneCode(ZoneName::STR)),
        ('R', 'E', 'G') => Some(Code::ZoneCode(ZoneName::REG)),
        ('R', 'E', 'T') => Some(Code::ZoneCode(ZoneName::RET)),
        ('R', 'E', 'N') => Some(Code::ZoneCode(ZoneName::REN)),
        ('R', 'E', 'L') => Some(Code::ZoneCode(ZoneName::REL)),
        ('D', 'I', 'M') => Some(Code::ZoneCode(ZoneName::DIM)),
        ('A', 'L', 'S') => Some(Code::ZoneCode(ZoneName::ALS)),
        ('U', 'N', 'H') => Some(Code::ZoneCode(ZoneName::UNH)),
        ('L', 'A', 'B') => Some(Code::ZoneCode(ZoneName::LAB)),
        ('D', 'E', 'F') => Some(Code::ZoneCode(ZoneName::DEF)),
        ('O', 'R', 'I') => Some(Code::ZoneCode(ZoneName::ORI)),
        ('C', 'A', 'T') => Some(Code::ZoneCode(ZoneName::CAT)),
        ('T', 'Y', 'P') => Some(Code::ZoneCode(ZoneName::TYP)),
        ('U', 'N', 'I') => Some(Code::ZoneCode(ZoneName::UNI)),
        ('A', 'V', 'C') => Some(Code::ZoneCode(ZoneName::AVC)),
        ('A', 'V', 'L') => Some(Code::ZoneCode(ZoneName::AVL)),
        ('A', 'V', 'D') => Some(Code::ZoneCode(ZoneName::AVD)),
        ('D', 'I', 'P') => Some(Code::ZoneCode(ZoneName::DIP)),
        ('K', 'N', 'D') => Some(Code::ZoneCode(ZoneName::KND)),
        ('A', 'A', 'C') => Some(Code::ZoneCode(ZoneName::AAC)),
        ('A', 'A', 'P') => Some(Code::ZoneCode(ZoneName::AAP)),
        ('Q', 'A', 'C') => Some(Code::ZoneCode(ZoneName::QAC)),
        ('C', 'A', 'N') => Some(Code::ZoneCode(ZoneName::CAN)),
        ('A', 'V', '1') => Some(Code::ZoneCode(ZoneName::AV1)),
        ('A', 'V', '2') => Some(Code::ZoneCode(ZoneName::AV2)),
        ('C', 'A', '1') => Some(Code::ZoneCode(ZoneName::CA1)),
        ('C', 'A', '2') => Some(Code::ZoneCode(ZoneName::CA2)),
        ('S', 'C', 'C') => Some(Code::ZoneCode(ZoneName::SCC)),
        ('S', 'C', 'P') => Some(Code::ZoneCode(ZoneName::SCP)),
        ('O', 'C', 'C') => Some(Code::ZoneCode(ZoneName::OCC)),
        ('O', 'D', 'A') => Some(Code::ZoneCode(ZoneName::ODA)),
        ('U', 'T', 'Y') => Some(Code::ZoneCode(ZoneName::UTY)),
        ('U', 'L', 'O') => Some(Code::ZoneCode(ZoneName::ULO)),
        ('U', 'D', 'A') => Some(Code::ZoneCode(ZoneName::UDA)),
        ('R', 'A', 'T') => Some(Code::ZoneCode(ZoneName::RAT)),
        ('E', 'D', 'A') => Some(Code::ZoneCode(ZoneName::EDA)),
        ('C', 'O', 'C') => Some(Code::ZoneCode(ZoneName::COC)),
        ('C', 'O', 'P') => Some(Code::ZoneCode(ZoneName::COP)),
        ('C', 'O', 'R') => Some(Code::ZoneCode(ZoneName::COR)),
        ('A', 'T', 'C') => Some(Code::ZoneCode(ZoneName::ATC)),
        ('P', 'T', 'C') => Some(Code::ZoneCode(ZoneName::PTC)),
        ('R', 'E', 'F') => Some(Code::ZoneCode(ZoneName::REF)),
        ('A', 'T', 'P') => Some(Code::ZoneCode(ZoneName::ATP)),
        ('A', 'T', 'V') => Some(Code::ZoneCode(ZoneName::ATV)),
        ('Q', 'A', 'P') => Some(Code::ZoneCode(ZoneName::QAP)),
        ('F', 'T', 'C') => Some(Code::ZoneCode(ZoneName::FTC)),
        ('F', 'T', 'P') => Some(Code::ZoneCode(ZoneName::FTP)),
        ('S', 'N', 'S') => Some(Code::ZoneCode(ZoneName::SNS)),
        ('T', 'E', 'X') => Some(Code::ZoneCode(ZoneName::TEX)),
        _ => None,
    }
}

/// The three-character mnemonic of a code.
pub open spec fn mnemonic(code: Code) -> Seq<char> {
    match code {
        Code::KWCode(KeyWordCode::BOM) => seq!['B', 'O', 'M'],
        Code::KWCode(KeyWordCode::CSE) => seq!['C', 'S', 'E'],
        Code::KWCode(KeyWordCode::EOM) => seq!['E', 'O', 'M'],
        Code::TypeCode(TypeCode::RTY) => seq!['R', 'T', 'Y'],
        Code::ZoneCode(ZoneName::RID) => seq!['R', 'I', 'D'],
        Code::ZoneCode(ZoneName::AUT) => seq!['A', 'U', 'T'],
        Code::ZoneCode(ZoneName::ADR) => seq!['A', 'D', 'R'],
        Code::ZoneCode(ZoneName::LOC) => seq!['L', 'O', 'C'],
        Code::ZoneCode(ZoneName::VOC) => seq!['V', 'O', 'C'],
        Code::ZoneCode(ZoneName::SEC) => seq!['S', 'E', 'C'],
        Code::ZoneCode(ZoneName::RDI) => seq!['R', 'D', 'I'],
        Code::ZoneCode(ZoneName::VER) => seq!['V', 'E', 'R'],
        Code::ZoneCode(ZoneName::VDA) => seq!['V', 'D', 'A'],
        Code::ZoneCode(ZoneName::TRL) => seq!['T', 'R', 'L'],
        Code::ZoneCode(ZoneName::EDN) => seq!['E', 'D', 'N'],
        Code::ZoneCode(ZoneName::TDA) => seq!['T', 'D', 'A'],
        Code::ZoneCode(ZoneName::INF) => seq!['I', 'N', 'F'],
        Code::ZoneCode(ZoneName::LON) => seq!['L', 'O', 'N'],
        Code::ZoneCode(ZoneName::GNN) => seq!['G', 'N', 'N'],
        Code::ZoneCode(ZoneName::GNI) => seq!['G', 'N', 'I'],
        Code::ZoneCode(ZoneName::GON) => seq!['G', 'O', 'N'],
        Code::ZoneCode(ZoneName::GOI) => seq!['G', 'O', 'I'],
        Code::ZoneCode(ZoneName::QAN) => seq!['Q', 'A', 'N'],
        Code::ZoneCode(ZoneName::QAI) => seq!['Q', 'A', 'I'],
        Code::ZoneCode(ZoneName::DIN) => seq!['D', 'I', 'N'],
        Code::ZoneCode(ZoneName::DII) => seq!['D', 'I', 'I'],
        Code::ZoneCode(ZoneName::SCN) => seq!['S', 'C', 'N'],
        Code::ZoneCode(ZoneName::SCI) => seq!['S', 'C', 'I'],
        Code::ZoneCode(ZoneName::GDC) => seq!['G', 'D', 'C'],
        Code::ZoneCode(ZoneName::GDN) => seq!['G', 'D', 'N'],
        Code::ZoneCode(ZoneName::GDI) => seq!['G', 'D', 'I'],
        Code::ZoneCode(ZoneName::CM1) => seq!['C', 'M', '1'],
        Code::ZoneCode(ZoneName::CM2) => seq!['C', 'M', '2'],
        Code::ZoneCode(ZoneName::STR) => seq!['S', 'T', 'R'],
        Code::ZoneCode(ZoneName::REG) => seq!['R', 'E', 'G'],
        Code::ZoneCode(ZoneName::RET) => seq!['R', 'E', 'T'],
        Code::ZoneCode(ZoneName::REN) => seq!['R', 'E', 'N'],
        Code::ZoneCode(ZoneName::REL) => seq!['R', 'E', 'L'],
        Code::ZoneCode(ZoneName::DIM) => seq!['D', 'I', 'M'],
        Code::ZoneCode(ZoneName::ALS) => seq!['A', 'L', 'S'],
        Code::ZoneCode(ZoneName::UNH) => seq!['U', 'N', 'H'],
        Code::ZoneCode(ZoneName::LAB) => seq!['L', 'A', 'B'],
        Code::ZoneCode(ZoneName::DEF) => seq!['D', 'E', 'F'],
        Code::ZoneCode(ZoneName::ORI) => seq!['O', 'R', 'I'],
        Code::ZoneCode(ZoneName::CAT) => seq!['C', 'A', 'T'],
        Code::ZoneCode(ZoneName::TYP) => seq!['T', 'Y', 'P'],
        Code::ZoneCode(ZoneName::UNI) => seq!['U', 'N', 'I'],
        Code::ZoneCode(ZoneName::AVC) => seq!['A', 'V', 'C'],
        Code::ZoneCode(ZoneName::AVL) => seq!['A', 'V', 'L'],
        Code::ZoneCode(ZoneName::AVD) => seq!['A', 'V', 'D'],
        Code::ZoneCode(ZoneName::DIP) => seq!['D', 'I', 'P'],
        Code::ZoneCode(ZoneName::KND) => seq!['K', 'N', 'D'],
        Code::ZoneCode(ZoneName::AAC) => seq!['A', 'A', 'C'],
        Code::ZoneCode(ZoneName::AAP) => seq!['A', 'A', 'P'],
        Code::ZoneCode(ZoneName::QAC) => seq!['Q', 'A', 'C'],
        Code::ZoneCode(ZoneName::CAN) => seq!['C', 'A', 'N'],
        Code::ZoneCode(ZoneName::AV1) => seq!['A', 'V', '1'],
        Code::ZoneCode(ZoneName::AV2) => seq!['A', 'V', '2'],
        Code::ZoneCode(ZoneName::CA1) => seq!['C', 'A', '1'],
        Code::ZoneCode(ZoneName::CA2) => seq!['C', 'A', '2'],
        Code::ZoneCode(ZoneName::SCC) => seq!['S', 'C', 'C'],
        Code::ZoneCode(ZoneName::SCP) => seq!['S', 'C', 'P'],
        Code::ZoneCode(ZoneName::OCC) => seq!['O', 'C', 'C'],
        Code::ZoneCode(ZoneName::ODA) => seq!['O', 'D', 'A'],
        Code::ZoneCode(ZoneName::UTY) => seq!['U', 'T', 'Y'],
        Code::ZoneCode(ZoneName::ULO) => seq!['U', 'L', 'O'],
        Code::ZoneCode(ZoneName::UDA) => seq!['U', 'D', 'A'],
        Code::ZoneCode(ZoneName::RAT) => seq!['R', 'A', 'T'],
        Code::ZoneCode(ZoneName::EDA) => seq!['E', 'D', 'A'],
        Code::ZoneCode(ZoneName::COC) => seq!['C', 'O', 'C'],
        Code::ZoneCode(ZoneName::COP) => seq!['C', 'O', 'P'],
        Code::ZoneCode(ZoneName::COR) => seq!['C', 'O', 'R'],
        Code::ZoneCode(ZoneName::ATC) => seq!['A', 'T', 'C'],
        Code::ZoneCode(ZoneName::PTC) => seq!['P', 'T', 'C'],
        Code::ZoneCode(ZoneName::REF) => seq!['R', 'E', 'F'],
        Code::ZoneCode(ZoneName::ATP) => seq!['A', 'T', 'P'],
        Code::ZoneCode(ZoneName::ATV) => seq!['A', 'T', 'V'],
        Code::ZoneCode(ZoneName::QAP) => seq!['Q', 'A', 'P'],
        Code::ZoneCode(ZoneName::FTC) => seq!['F', 'T', 'C'],
        Code::ZoneCode(ZoneName::FTP) => seq!['F', 'T', 'P'],
        Code::ZoneCode(ZoneName::SNS) => seq!['S', 'N', 'S'],
        Code::ZoneCode(ZoneName::TEX) => seq!['T', 'E', 'X'],
    }
}

/// The nature tag, if any, that a character denotes.
pub open spec fn nature_of(c: char) -> Option<ValueType> {
    match c {
        'T' => Some(ValueType::T),
        'S' => Some(ValueType::S),
        'C' => Some(ValueType::C),
        _ => None,
    }
}

/// The character of a nature tag.
pub open spec fn nature_char(t: ValueType) -> char {
    match t {
        ValueType::T => 'T',
        ValueType::S => 'S',
        ValueType::C => 'C',
    }
}

/// The format tag, if any, that a character denotes.
pub open spec fn format_of(c: char) -> Option<ValueFormat> {
    match c {
        'A' => Some(ValueFormat::A),
        'C' => Some(ValueFormat::C),
        'D' => Some(ValueFormat::D),
        'E' => Some(ValueFormat::E),
        'I' => Some(ValueFormat::I),
        'N' => Some(ValueFormat::N),
        'P' => Some(ValueFormat::P),
        'R' => Some(ValueFormat::R),
        'T' => Some(ValueFormat::T),
        ' ' => Some(ValueFormat::WhiteSpace),
        _ => None,
    }
}

/// The character of a format tag.
pub open spec fn format_char(f: ValueFormat) -> char {
    match f {
        ValueFormat::A => 'A',
        ValueFormat::C => 'C',
        ValueFormat::D => 'D',
        ValueFormat::E => 'E',
        ValueFormat::I => 'I',
        ValueFormat::N => 'N',
        ValueFormat::P => 'P',
        ValueFormat::R => 'R',
        ValueFormat::T => 'T',
        ValueFormat::WhiteSpace => ' ',
    }
}

/// Whether a character is a decimal digit.
pub open spec fn is_dec_digit(c: char) -> bool {
    48 <= c as u32 && c as u32 <= 57
}

/// Numeric value of a decimal digit character.
pub open spec fn dec_digit_val(c: char) -> int {
    c as u32 - 48
}

/// The character of one decimal digit.
pub open spec fn dec_digit_char(d: int) -> char {
    if d == 0 {
        '0'
    } else if d == 1 {
        '1'
    } else if d == 2 {
        '2'
    } else if d == 3 {
        '3'
    } else if d == 4 {
        '4'
    } else if d == 5 {
        '5'
    } else if d == 6 {
        '6'
    } else if d == 7 {
        '7'
    } else if d == 8 {
        '8'
    } else {
        '9'
    }
}

/// The header encoded by the first seven characters of a line, if they are
/// well formed.
pub open spec fn spec_parse_header(s: Seq<char>) -> Option<Header> {
    if s.len() < 7 {
        None
    } else {
        match (code_of_chars(s[0], s[1], s[2]), nature_of(s[3]), format_of(s[4])) {
            (Some(code), Some(t), Some(f)) => {
                if is_dec_digit(s[5]) && is_dec_digit(s[6]) {
                    Some(
                        Header {
                            code,
                            value_type: t,
                            value_format: f,
                            value_size: (dec_digit_val(s[5]) * 10 + dec_digit_val(s[6])) as usize,
                        },
                    )
                } else {
                    None
                }
            },
            _ => None,
        }
    }
}

/// Parses the code mnemonic from the first three characters of a header line.
pub fn parse_code(line: &str) -> (r: EdigeoResult<Code>)
    ensures
        line@.len() < 3 ==> r == EdigeoResult::<Code>::Err(EdigeoError::MissingSeparator),
        line@.len() >= 3 ==> match code_of_chars(line@[0], line@[1], line@[2]) {
            Some(code) => r == EdigeoResult::<Code>::Ok(code),
            None => r matches Err(EdigeoError::UnknownCode(s)) && s@ == line@.subrange(0, 3),
        },
{
    let n: usize = line.unicode_len();
    if n < 3 {
        return Err(EdigeoError::MissingSeparator);
    }
    let a: char = line.get_char(0);
    let b: char = line.get_char(1);
    let c: char = line.get_char(2);
    match (a, b, c) {
        ('B', 'O', 'M') => Ok(Code::KWCode(KeyWordCode::BOM)),
        ('C', 'S', 'E') => Ok(Code::KWCode(KeyWordCode::CSE)),
        ('E', 'O', 'M') => Ok(Code::KWCode(KeyWordCode::EOM)),
        ('R', 'T', 'Y') => Ok(Code::TypeCode(TypeCode::RTY)),
        ('R', 'I', 'D') => Ok(Code::ZoneCode(ZoneName::RID)),
        ('A', 'U', 'T') => Ok(Code::ZoneCode(ZoneName::AUT)),
        ('A', 'D', 'R') => Ok(Code::ZoneCode(ZoneName::ADR)),
        ('L', 'O', 'C') => Ok(Code::ZoneCode(ZoneName::LOC)),
        ('V', 'O', 'C') => Ok(Code::ZoneCode(ZoneName::VOC)),
        ('S', 'E', 'C') => Ok(Code::ZoneCode(ZoneName::SEC)),
        ('R', 'D', 'I') => Ok(Code::ZoneCode(ZoneName::RDI)),
        ('V', 'E', 'R') => Ok(Code::ZoneCode(ZoneName::VER)),
        ('V', 'D', 'A') => Ok(Code::ZoneCode(ZoneName::VDA)),
        ('T', 'R', 'L') => Ok(Code::ZoneCode(ZoneName::TRL)),
        ('E', 'D', 'N') => Ok(Code::ZoneCode(ZoneName::EDN)),
        ('T', 'D', 'A') => Ok(Code::ZoneCode(ZoneName::TDA)),
        ('I', 'N', 'F') => Ok(Code::ZoneCode(ZoneName::INF)),
        ('L', 'O', 'N') => Ok(Code::ZoneCode(ZoneName::LON)),
        ('G', 'N', 'N') => Ok(Code::ZoneCode(ZoneName::GNN)),
        ('G', 'N', 'I') => Ok(Code::ZoneCode(ZoneName::GNI)),
        ('G', 'O', 'N') => Ok(Code::ZoneCode(ZoneName::GON)),
        ('G', 'O', 'I') => Ok(Code::ZoneCode(ZoneName::GOI)),
        ('Q', 'A', 'N') => Ok(Code::ZoneCode(ZoneName::QAN)),
        ('Q', 'A', 'I') => Ok(Code::ZoneCode(ZoneName::QAI)),
        ('D', 'I', 'N') => Ok(Code::ZoneCode(ZoneName::DIN)),
        ('D', 'I', 'I') => Ok(Code::ZoneCode(ZoneName::DII)),
        ('S', 'C', 'N') => Ok(Code::ZoneCode(ZoneName::SCN)),
        ('S', 'C', 'I') => Ok(Code::ZoneCode(ZoneName::SCI)),
        ('G', 'D', 'C') => Ok(Code::ZoneCode(ZoneName::GDC)),
        ('G', 'D', 'N') => Ok(Code::ZoneCode(ZoneName::GDN)),
        ('G', 'D', 'I') => Ok(Code::ZoneCode(ZoneName::GDI)),
        ('C', 'M', '1') => Ok(Code::ZoneCode(ZoneName::CM1)),
        ('C', 'M', '2') => Ok(Code::ZoneCode(ZoneName::CM2)),
        ('S', 'T', 'R') => Ok(Code::ZoneCode(ZoneName::STR)),
        ('R', 'E', 'G') => Ok(Code::ZoneCode(ZoneName::REG)),
        ('R', 'E', 'T') => Ok(Code::ZoneCode(ZoneName::RET)),
        ('R', 'E', 'N') => Ok(Code::ZoneCode(ZoneName::REN)),
        ('R', 'E', 'L') => Ok(Code::ZoneCode(ZoneName::REL)),
        ('D', 'I', 'M') => Ok(Code::ZoneCode(ZoneName::DIM)),
        ('A', 'L', 'S') => Ok(Code::ZoneCode(ZoneName::ALS)),
        ('U', 'N', 'H') => Ok(Code::ZoneCode(ZoneName::UNH)),
        ('L', 'A', 'B') => Ok(Code::ZoneCode(ZoneName::LAB)),
        ('D', 'E', 'F') => Ok(Code::ZoneCode(ZoneName::DEF)),
        ('O', 'R', 'I') => Ok(Code::ZoneCode(ZoneName::ORI)),
        ('C', 'A', 'T') => Ok(Code::ZoneCode(ZoneName::CAT)),
        ('T', 'Y', 'P') => Ok(Code::ZoneCode(ZoneName::TYP)),
        ('U', 'N', 'I') => Ok(Code::ZoneCode(ZoneName::UNI)),
        ('A', 'V', 'C') => Ok(Code::ZoneCode(ZoneName::AVC)),
        ('A', 'V', 'L') => Ok(Code::ZoneCode(ZoneName::AVL)),
        ('A', 'V', 'D') => Ok(Code::ZoneCode(ZoneName::AVD)),
        ('D', 'I', 'P') => Ok(Code::ZoneCode(ZoneName::DIP)),
        ('K', 'N', 'D') => Ok(Code::ZoneCode(ZoneName::KND)),
        ('A', 'A', 'C') => Ok(Code::ZoneCode(ZoneName::AAC)),
        ('A', 'A', 'P') => Ok(Code::ZoneCode(ZoneName::AAP)),
        ('Q', 'A', 'C') => Ok(Code::ZoneCode(ZoneName::QAC)),
        ('C', 'A', 'N') => Ok(Code::ZoneCode(ZoneName::CAN)),
        ('A', 'V', '1') => Ok(Code::ZoneCode(ZoneName::AV1)),
        ('A', 'V', '2') => Ok(Code::ZoneCode(ZoneName::AV2)),
        ('C', 'A', '1') => Ok(Code::ZoneCode(ZoneName::CA1)),
        ('C', 'A', '2') => Ok(Code::ZoneCode(ZoneName::CA2)),
        ('S', 'C', 'C') => Ok(Code::ZoneCode(ZoneName::SCC)),
        ('S', 'C', 'P') => Ok(Code::ZoneCode(ZoneName::SCP)),
        ('O', 'C', 'C') => Ok(Code::ZoneCode(ZoneName::OCC)),
        ('O', 'D', 'A') => Ok(Code::ZoneCode(ZoneName::ODA)),
        ('U', 'T', 'Y') => Ok(Code::ZoneCode(ZoneName::UTY)),
        ('U', 'L', 'O') => Ok(Code::ZoneCode(ZoneName::ULO)),
        ('U', 'D', 'A') => Ok(Code::ZoneCode(ZoneName::UDA)),
        ('R', 'A', 'T') => Ok(Code::ZoneCode(ZoneName::RAT)),
        ('E', 'D', 'A') => Ok(Code::ZoneCode(ZoneName::EDA)),
        ('C', 'O', 'C') => Ok(Code::ZoneCode(ZoneName::COC)),
        ('C', 'O', 'P') => Ok(Code::ZoneCode(ZoneName::COP)),
        ('C', 'O', 'R') => Ok(Code::ZoneCode(ZoneName::COR)),
        ('A', 'T', 'C') => Ok(Code::ZoneCode(ZoneName::ATC)),
        ('P', 'T', 'C') => Ok(Code::ZoneCode(ZoneName::PTC)),
        ('R', 'E', 'F') => Ok(Code::ZoneCode(ZoneName::REF)),
        ('A', 'T', 'P') => Ok(Code::ZoneCode(ZoneName::ATP)),
        ('A', 'T', 'V') => Ok(Code::ZoneCode(ZoneName::ATV)),
        ('Q', 'A', 'P') => Ok(Code::ZoneCode(ZoneName::QAP)),
        ('F', 'T', 'C') => Ok(Code::ZoneCode(ZoneName::FTC)),
        ('F', 'T', 'P') => Ok(Code::ZoneCode(ZoneName::FTP)),
        ('S', 'N', 'S') => Ok(Code::ZoneCode(ZoneName::SNS)),
        ('T', 'E', 'X') => Ok(Code::ZoneCode(ZoneName::TEX)),
        _ => Err(EdigeoError::UnknownCode(line.substring_char(0, 3).to_owned())),
    }
}

/// Parses the nature tag from the fourth character of a header line.
pub fn parse_value_type(line: &str) -> (r: EdigeoResult<ValueType>)
    ensures
        line@.len() < 4 ==> r == EdigeoResult::<ValueType>::Err(EdigeoError::MissingSeparator),
        line@.len() >= 4 ==> match nature_of(line@[3]) {
            Some(t) => r == EdigeoResult::<ValueType>::Ok(t),
            None => r matches Err(EdigeoError::InvalidNature(s)) && s@ == line@.subrange(3, 4),
        },
{
    let n: usize = line.unicode_len();
    if n < 4 {
        return Err(EdigeoError::MissingSeparator);
    }
    match line.get_char(3) {
        'T' => Ok(ValueType::T),
        'S' => Ok(ValueType::S),
        'C' => Ok(ValueType::C),
        _ => Err(EdigeoError::InvalidNature(line.substring_char(3, 4).to_owned())),
    }
}

/// Parses the format tag from the fifth character of a header line.
pub fn parse_value_format(line: &str) -> (r: EdigeoResult<ValueFormat>)
    ensures
        line@.len() < 5 ==> r == EdigeoResult::<ValueFormat>::Err(EdigeoError::MissingSeparator),
        line@.len() >= 5 ==> match format_of(line@[4]) {
            Some(f) => r == EdigeoResult::<ValueFormat>::Ok(f),
            None => r matches Err(EdigeoError::InvalidFormat(s)) && s@ == line@.subrange(4, 5),
        },
{
    let n: usize = line.unicode_len();
    if n < 5 {
        return Err(EdigeoError::MissingSeparator);
    }
    match line.get_char(4) {
        'A' => Ok(ValueFormat::A),
        'C' => Ok(ValueFormat::C),
        'D' => Ok(ValueFormat::D),
        'E' => Ok(ValueFormat::E),
        'I' => Ok(ValueFormat::I),
        'N' => Ok(ValueFormat::N),
        'P' => Ok(ValueFormat::P),
        'R' => Ok(ValueFormat::R),
        'T' => Ok(ValueFormat::T),
        ' ' => Ok(ValueFormat::WhiteSpace),
        _ => Err(EdigeoError::InvalidFormat(line.substring_char(4, 5).to_owned())),
    }
}

/// Parses the two-digit declared size from the sixth and seventh characters
/// of a header line.
pub fn parse_value_size(line: &str) -> (r: EdigeoResult<usize>)
    ensures
        line@.len() < 7 ==> r == EdigeoResult::<usize>::Err(EdigeoError::MissingSeparator),
        line@.len() >= 7 ==> {
            if is_dec_digit(line@[5]) && is_dec_digit(line@[6]) {
                r == EdigeoResult::<usize>::Ok(
                    (dec_digit_val(line@[5]) * 10 + dec_digit_val(line@[6])) as usize,
                )
            } else {
                r matches Err(EdigeoError::InvalidSize(s)) && s@ == line@.subrange(5, 7)
            }
        },
{
    let n: usize = line.unicode_len();
    if n < 7 {
        return Err(EdigeoError::MissingSeparator);
    }
    let hi: u32 = line.get_char(5) as u32;
    let lo: u32 = line.get_char(6) as u32;
    if 48 <= hi && hi <= 57 && 48 <= lo && lo <= 57 {
        Ok((((hi - 48) * 10 + (lo - 48)) as usize))
    } else {
        Err(EdigeoError::InvalidSize(line.substring_char(5, 7).to_owned()))
    }
}

impl Header {
    /// Parses the fixed seven-character prefix of a record line into a
    /// header, reporting the first malformed field.
    pub fn parse_header(line: &str) -> (r: EdigeoResult<Header>)
        ensures
            r matches Ok(h) ==> spec_parse_header(line@) == Some(h),
            r matches Err(e) ==> spec_parse_header(line@) is None && header_error_matches(
                line@,
                e,
            ),
    {
        let n: usize = line.unicode_len();
        if n < 7 {
            return Err(EdigeoError::MissingSeparator);
        }
        let code = parse_code(line)?;
        let value_type = parse_value_type(line)?;
        let value_format = parse_value_format(line)?;
        let value_size = parse_value_size(line)?;
        Ok(Header { code, value_type, value_format, value_size })
    }
}

impl core::str::FromStr for ValueFormat {
    type Err = EdigeoError;

    /// Reads a format tag written as its one-character string.
    fn from_str(input: &str) -> Result<ValueFormat, EdigeoError> {
        if input.unicode_len() == 1 {
            match input.get_char(0) {
                'A' => Ok(ValueFormat::A),
                'C' => Ok(ValueFormat::C),
                'D' => Ok(ValueFormat::D),
                'E' => Ok(ValueFormat::E),
                'I' => Ok(ValueFormat::I),
                'N' => Ok(ValueFormat::N),
                'P' => Ok(ValueFormat::P),
                'R' => Ok(ValueFormat::R),
                'T' => Ok(ValueFormat::T),
                ' ' => Ok(ValueFormat::WhiteSpace),
                _ => Err(EdigeoError::InvalidFormat(input.to_owned())),
            }
        } else {
            Err(EdigeoError::InvalidFormat(input.to_owned()))
        }
    }
}

impl core::str::FromStr for ValueType {
    type Err = EdigeoError;

    /// Reads a nature tag written as its one-character string.
    fn from_str(input: &str) -> Result<ValueType, EdigeoError> {
        if input.unicode_len() == 1 {
            match input.get_char(0) {
                'T' => Ok(ValueType::T),
                'S' => Ok(ValueType::S),
                'C' => Ok(ValueType::C),
                _ => Err(EdigeoError::InvalidNature(input.to_owned())),
            }
        } else {
            Err(EdigeoError::InvalidNature(input.to_owned()))
        }
    }
}

impl core::str::FromStr for Code {
    type Err = EdigeoError;

    /// Reads a code written as its three-character mnemonic.
    fn from_str(input: &str) -> Result<Code, EdigeoError> {
        if input.unicode_len() == 3 {
            parse_code(input)
        } else {
            Err(EdigeoError::UnknownCode(input.to_owned()))
        }
    }
}

/// Which grammar error a malformed header prefix produces: the first field
/// that fails, in reading order, with the offending text.
pub open spec fn header_error_matches(s: Seq<char>, e: EdigeoError) -> bool {
    if s.len() < 7 {
        e == EdigeoError::MissingSeparator
    } else if code_of_chars(s[0], s[1], s[2]) is None {
        e matches EdigeoError::UnknownCode(t) && t@ == s.subrange(0, 3)
    } else if nature_of(s[3]) is None {
        e matches EdigeoError::InvalidNature(t) && t@ == s.subrange(3, 4)
    } else if format_of(s[4]) is None {
        e matches EdigeoError::InvalidFormat(t) && t@ == s.subrange(4, 5)
    } else if !(is_dec_digit(s[5]) && is_dec_digit(s[6])) {
        e matches EdigeoError::InvalidSize(t) && t@ == s.subrange(5, 7)
    } else {
        false
    }
}

/// A header encoded back to text: the seven-character prefix followed by an
/// arbitrary remainder of the line.
pub open spec fn encode_header(h: Header, rest: Seq<char>) -> Seq<char> {
    mnemonic(h.code) + seq![nature_char(h.value_type)] + seq![format_char(h.value_format)]
        + seq![dec_digit_char(h.value_size as int / 10), dec_digit_char(h.value_size as int % 10)]
        + rest
}

/// The mnemonic of every code is three characters long and maps back to
/// that code.
pub proof fn lemma_code_of_mnemonic(code: Code)
    ensures
        mnemonic(code).len() == 3,
        code_of_chars(mnemonic(code)[0], mnemonic(code)[1], mnemonic(code)[2]) == Some(code),
{
}

/// Law: parsing recovers an encoded header exactly.
///
/// For every header whose fields lie in the closed vocabularies and whose
/// declared size fits in two digits, a line that starts with the encoding
/// of that header parses back to exactly the encoded code, nature, format
/// and size, whatever follows the prefix.
pub proof fn lemma_header_roundtrip(h: Header, rest: Seq<char>)
    requires
        h.value_size < 100,
    ensures
        spec_parse_header(encode_header(h, rest)) == Some(h),
{
    let s = encode_header(h, rest);
    lemma_code_of_mnemonic(h.code);
    assert(s[0] == mnemonic(h.code)[0]);
    assert(s[1] == mnemonic(h.code)[1]);
    assert(s[2] == mnemonic(h.code)[2]);
    assert(s[3] == nature_char(h.value_type));
    assert(s[4] == format_char(h.value_format));
    assert(s[5] == dec_digit_char(h.value_size as int / 10));
    assert(s[6] == dec_digit_char(h.value_size as int % 10));
    assert(nature_of(nature_char(h.value_type)) == Some(h.value_type));
    assert(format_of(format_char(h.value_format)) == Some(h.value_format));
    let q = h.value_size as int / 10;
    let m = h.value_size as int % 10;
    assert(0 <= q < 10 && 0 <= m < 10);
    assert(is_dec_digit(dec_digit_char(q)) && dec_digit_val(dec_digit_char(q)) == q);
    assert(is_dec_digit(dec_digit_char(m)) && dec_digit_val(dec_digit_char(m)) == m);
    assert(q * 10 + m == h.value_size);
}

} // verus!
