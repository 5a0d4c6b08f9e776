//! Typed decoding of raw record values, selected by the header's format and
//! nature tags.
//!
//! The dispatch table is canonical and identical for every member-file kind:
//! text-like formats keep the raw characters; dates are eight digits forming
//! a valid calendar date; integers are signed 32-bit decimals; reals are
//! validated against the decimal floating-point grammar and carried as text,
//! numeric conversion being left to the caller; coordinates split once on
//! `;`; descriptor references split on every `;` when the field is compound.

use vstd::prelude::*;

use crate::error::EdigeoError;
use crate::header::{dec_digit_val, is_dec_digit, Header, ValueFormat, ValueType};
use crate::text::{find_char_from, find_idx, lemma_find_idx, split_char, split_on};

verus! {

/// A calendar date in the proleptic Gregorian calendar, as carried by a
/// date-format value: four-digit year, month and day.
#[derive(Debug, Clone, Copy, PartialEq, Eq, Structural)]
pub struct Date {
    /// Year, between 0 and 9999.
    pub year: u16,
    /// Month, between 1 and 12.
    pub month: u8,
    /// Day of the month, between 1 and the month's length.
    pub day: u8,
}

/// One decoded record value.
#[derive(Debug, PartialEq, Eq)]
pub enum FormatResult {
    /// A real number, validated and carried as its raw text.
    Real(String),
    /// A signed integer.
    Int(i32),
    /// A calendar date.
    Date(Date),
    /// Plain text.
    Text(String),
    /// A coordinate pair, in transmission order.
    Coordinate(String, String),
    /// A compound descriptor: the `;`-separated components, each as text.
    Descriptor(Vec<FormatResult>),
}

/// Whether a year is a leap year in the proleptic Gregorian calendar.
pub open spec fn is_leap_year(y: int) -> bool {
    y % 4 == 0 && (y % 100 != 0 || y % 400 == 0)
}

/// Number of days in a month of a year.
pub open spec fn days_in_month(y: int, m: int) -> int {
    if m == 2 {
        if is_leap_year(y) {
            29
        } else {
            28
        }
    } else if m == 4 || m == 6 || m == 9 || m == 11 {
        30
    } else {
        31
    }
}

/// Whether every character of `s` is a decimal digit.
pub open spec fn all_digits(s: Seq<char>) -> bool {
    forall|i: int| 0 <= i < s.len() ==> is_dec_digit(s[i])
}

/// Value of a string of decimal digits, most significant first.
pub open spec fn digits_val(s: Seq<char>) -> int
    decreases s.len(),
{
    if s.len() == 0 {
        0
    } else {
        digits_val(s.drop_last()) * 10 + dec_digit_val(s.last())
    }
}

/// A digit string's value is never negative.
pub proof fn lemma_digits_val_nonneg(s: Seq<char>)
    requires
        all_digits(s),
    ensures
        digits_val(s) >= 0,
    decreases s.len(),
{
    if s.len() > 0 {
        assert(all_digits(s.drop_last()));
        lemma_digits_val_nonneg(s.drop_last());
    }
}

/// Value of one digit character.
pub proof fn lemma_digits_val1(a: char)
    ensures
        digits_val(seq![a]) == dec_digit_val(a),
{
    assert(seq![a].drop_last() =~= Seq::<char>::empty());
    assert(digits_val(Seq::<char>::empty()) == 0);
}

/// Value of two digit characters.
pub proof fn lemma_digits_val2(a: char, b: char)
    ensures
        digits_val(seq![a, b]) == dec_digit_val(a) * 10 + dec_digit_val(b),
{
    assert(seq![a, b].drop_last() =~= seq![a]);
    lemma_digits_val1(a);
}

/// Value of four digit characters.
pub proof fn lemma_digits_val4(a: char, b: char, c: char, d: char)
    ensures
        digits_val(seq![a, b, c, d]) == ((dec_digit_val(a) * 10 + dec_digit_val(b)) * 10
            + dec_digit_val(c)) * 10 + dec_digit_val(d),
{
    assert(seq![a, b, c, d].drop_last() =~= seq![a, b, c]);
    assert(seq![a, b, c].drop_last() =~= seq![a, b]);
    lemma_digits_val2(a, b);
    assert(digits_val(seq![a, b, c]) == digits_val(seq![a, b]) * 10 + dec_digit_val(c));
    assert(digits_val(seq![a, b, c, d]) == digits_val(seq![a, b, c]) * 10 + dec_digit_val(d));
}

/// The date encoded by a raw value, if it is eight digits forming a valid
/// calendar date, year first.
pub open spec fn spec_parse_date(s: Seq<char>) -> Option<Date> {
    if s.len() == 8 && all_digits(s) {
        let y = digits_val(s.subrange(0, 4));
        let m = digits_val(s.subrange(4, 6));
        let d = digits_val(s.subrange(6, 8));
        if 1 <= m && m <= 12 && 1 <= d && d <= days_in_month(y, m) {
            Some(Date { year: y as u16, month: m as u8, day: d as u8 })
        } else {
            None
        }
    } else {
        None
    }
}

/// Decodes a date value: exactly eight digits, sliced as year, month and
/// day, which must form a valid calendar date.
pub fn decode_date(raw: &str) -> (r: Result<Date, EdigeoError>)
    ensures
        match spec_parse_date(raw@) {
            Some(d) => r == Result::<Date, EdigeoError>::Ok(d),
            None => r matches Err(EdigeoError::InvalidDate(t)) && t@ == raw@,
        },
{
    let n: usize = raw.unicode_len();
    if n != 8 {
        return Err(EdigeoError::InvalidDate(raw.to_owned()));
    }
    let c0: char = raw.get_char(0);
    let c1: char = raw.get_char(1);
    let c2: char = raw.get_char(2);
    let c3: char = raw.get_char(3);
    let c4: char = raw.get_char(4);
    let c5: char = raw.get_char(5);
    let c6: char = raw.get_char(6);
    let c7: char = raw.get_char(7);
    let u0: u32 = c0 as u32;
    let u1: u32 = c1 as u32;
    let u2: u32 = c2 as u32;
    let u3: u32 = c3 as u32;
    let u4: u32 = c4 as u32;
    let u5: u32 = c5 as u32;
    let u6: u32 = c6 as u32;
    let u7: u32 = c7 as u32;
    if !(48 <= u0 && u0 <= 57 && 48 <= u1 && u1 <= 57 && 48 <= u2 && u2 <= 57 && 48 <= u3 && u3
        <= 57 && 48 <= u4 && u4 <= 57 && 48 <= u5 && u5 <= 57 && 48 <= u6 && u6 <= 57 && 48 <= u7
        && u7 <= 57) {
        proof {
            assert(!all_digits(raw@));
        }
        return Err(EdigeoError::InvalidDate(raw.to_owned()));
    }
    proof {
        assert(forall|i: int| 0 <= i < 8 ==> is_dec_digit(raw@[i]));
        assert(raw@.subrange(0, 4) =~= seq![c0, c1, c2, c3]);
        assert(raw@.subrange(4, 6) =~= seq![c4, c5]);
        assert(raw@.subrange(6, 8) =~= seq![c6, c7]);
        lemma_digits_val4(c0, c1, c2, c3);
        lemma_digits_val2(c4, c5);
        lemma_digits_val2(c6, c7);
    }
    let y: u32 = (((u0 - 48) * 10 + (u1 - 48)) * 10 + (u2 - 48)) * 10 + (u3 - 48);
    let m: u32 = (u4 - 48) * 10 + (u5 - 48);
    let d: u32 = (u6 - 48) * 10 + (u7 - 48);
    let leap: bool = y % 4 == 0 && (y % 100 != 0 || y % 400 == 0);
    let dim: u32 = if m == 2 {
        if leap {
            29
        } else {
            28
        }
    } else if m == 4 || m == 6 || m == 9 || m == 11 {
        30
    } else {
        31
    };
    if 1 <= m && m <= 12 && 1 <= d && d <= dim {
        Ok(Date { year: y as u16, month: m as u8, day: d as u8 })
    } else {
        Err(EdigeoError::InvalidDate(raw.to_owned()))
    }
}

/// The integer encoded by a raw value, if it is an optional sign followed
/// by digits whose value fits a signed 32-bit integer.
pub open spec fn spec_parse_i32(s: Seq<char>) -> Option<i32> {
    if s.len() == 0 {
        None
    } else {
        let digits = if s[0] == '+' || s[0] == '-' {
            s.subrange(1, s.len() as int)
        } else {
            s
        };
        if digits.len() == 0 || !all_digits(digits) {
            None
        } else {
            let v = digits_val(digits);
            if s[0] == '-' {
                if v <= 2147483648 {
                    Some((-v) as i32)
                } else {
                    None
                }
            } else {
                if v <= 2147483647 {
                    Some(v as i32)
                } else {
                    None
                }
            }
        }
    }
}

/// Decodes a signed or unsigned integer value as base-10.
pub fn decode_int(raw: &str) -> (r: Result<i32, EdigeoError>)
    ensures
        match spec_parse_i32(raw@) {
            Some(v) => r == Result::<i32, EdigeoError>::Ok(v),
            None => r matches Err(EdigeoError::InvalidInteger(t)) && t@ == raw@,
        },
{
    let n: usize = raw.unicode_len();
    if n == 0 {
        return Err(EdigeoError::InvalidInteger(raw.to_owned()));
    }
    let c0: char = raw.get_char(0);
    let neg: bool = c0 == '-';
    let start: usize = if c0 == '-' || c0 == '+' {
        1
    } else {
        0
    };
    let ghost digits = if c0 == '+' || c0 == '-' {
        raw@.subrange(1, n as int)
    } else {
        raw@
    };
    proof {
        if start == 0 {
            assert(raw@.subrange(0, n as int) =~= raw@);
        }
        assert(digits =~= raw@.subrange(start as int, n as int));
    }
    if n == start {
        return Err(EdigeoError::InvalidInteger(raw.to_owned()));
    }
    let mut acc: u64 = 0;
    let mut big: bool = false;
    let mut i: usize = start;
    while i < n
        invariant
            start <= i <= n,
            start < n,
            n == raw@.len(),
            (start == 1) == (raw@[0] == '+' || raw@[0] == '-'),
            neg == (raw@[0] == '-'),
            digits =~= raw@.subrange(start as int, n as int),
            all_digits(raw@.subrange(start as int, i as int)),
            !big ==> acc <= 2147483648 && acc == digits_val(raw@.subrange(start as int, i as int)),
            big ==> digits_val(raw@.subrange(start as int, i as int)) > 2147483648,
        decreases n - i,
    {
        let c: char = raw.get_char(i);
        let u: u32 = c as u32;
        if !(48 <= u && u <= 57) {
            proof {
                assert(digits[i - start] == raw@[i as int]);
                assert(!is_dec_digit(digits[i - start]));
                assert(!all_digits(digits));
            }
            return Err(EdigeoError::InvalidInteger(raw.to_owned()));
        }
        proof {
            let pre = raw@.subrange(start as int, i as int);
            let pre2 = raw@.subrange(start as int, i as int + 1);
            assert(pre2.drop_last() =~= pre);
            assert(pre2.last() == raw@[i as int]);
            assert(digits_val(pre2) == digits_val(pre) * 10 + dec_digit_val(raw@[i as int]));
            assert(forall|t: int| 0 <= t < pre2.len() ==> pre2[t] == raw@[start + t]);
            if big {
                lemma_digits_val_nonneg(pre2);
            }
        }
        if !big {
            acc = acc * 10 + ((u - 48) as u64);
            if acc > 2147483648 {
                big = true;
            }
        }
        i = i + 1;
    }
    proof {
        assert(digits =~= raw@.subrange(start as int, n as int));
        assert(all_digits(digits));
        lemma_digits_val_nonneg(digits);
    }
    if big {
        return Err(EdigeoError::InvalidInteger(raw.to_owned()));
    }
    if neg {
        Ok((-(acc as i64)) as i32)
    } else {
        if acc > 2147483647 {
            return Err(EdigeoError::InvalidInteger(raw.to_owned()));
        }
        Ok(acc as i32)
    }
}

/// Case-insensitive `inf`.
pub open spec fn is_inf_word(s: Seq<char>) -> bool {
    s.len() == 3 && (s[0] == 'i' || s[0] == 'I') && (s[1] == 'n' || s[1] == 'N') && (s[2] == 'f'
        || s[2] == 'F')
}

/// Case-insensitive `infinity`.
pub open spec fn is_infinity_word(s: Seq<char>) -> bool {
    s.len() == 8 && (s[0] == 'i' || s[0] == 'I') && (s[1] == 'n' || s[1] == 'N') && (s[2] == 'f'
        || s[2] == 'F') && (s[3] == 'i' || s[3] == 'I') && (s[4] == 'n' || s[4] == 'N') && (s[5]
        == 'i' || s[5] == 'I') && (s[6] == 't' || s[6] == 'T') && (s[7] == 'y' || s[7] == 'Y')
}

/// Case-insensitive `nan`.
pub open spec fn is_nan_word(s: Seq<char>) -> bool {
    s.len() == 3 && (s[0] == 'n' || s[0] == 'N') && (s[1] == 'a' || s[1] == 'A') && (s[2] == 'n'
        || s[2] == 'N')
}

/// Number of occurrences of `c` in `s`.
pub open spec fn count_char(s: Seq<char>, c: char) -> int
    decreases s.len(),
{
    if s.len() == 0 {
        0
    } else {
        count_char(s.drop_last(), c) + if s.last() == c {
            1int
        } else {
            0int
        }
    }
}

/// A mantissa: digits with at most one decimal point and at least one digit.
pub open spec fn spec_mantissa_ok(s: Seq<char>) -> bool {
    &&& forall|i: int| 0 <= i < s.len() ==> (is_dec_digit(s[i]) || s[i] == '.')
    &&& exists|i: int| 0 <= i < s.len() && is_dec_digit(s[i])
    &&& count_char(s, '.') <= 1
}

/// An exponent part: an optional sign followed by at least one digit.
pub open spec fn spec_exp_ok(s: Seq<char>) -> bool {
    if s.len() == 0 {
        false
    } else if s[0] == '+' || s[0] == '-' {
        s.len() > 1 && all_digits(s.subrange(1, s.len() as int))
    } else {
        all_digits(s)
    }
}

/// Index of the first exponent marker `e` or `E` in `s`, if any.
pub open spec fn find_exp_idx(s: Seq<char>) -> Option<int>
    decreases s.len(),
{
    if s.len() == 0 {
        None
    } else if s[0] == 'e' || s[0] == 'E' {
        Some(0)
    } else {
        match find_exp_idx(s.subrange(1, s.len() as int)) {
            Some(i) => Some(i + 1),
            None => None,
        }
    }
}

/// What `find_exp_idx` returns: the first index holding an exponent marker,
/// or nothing when none occurs.
pub proof fn lemma_find_exp_idx(s: Seq<char>)
    ensures
        match find_exp_idx(s) {
            Some(i) => 0 <= i < s.len() && (s[i] == 'e' || s[i] == 'E') && forall|j: int|
                0 <= j < i ==> (s[j] != 'e' && s[j] != 'E'),
            None => forall|j: int| 0 <= j < s.len() ==> (s[j] != 'e' && s[j] != 'E'),
        },
    decreases s.len(),
{
    if s.len() == 0 {
    } else if s[0] == 'e' || s[0] == 'E' {
    } else {
        let tail = s.subrange(1, s.len() as int);
        lemma_find_exp_idx(tail);
        assert(forall|j: int| 1 <= j < s.len() ==> s[j] == tail[j - 1]);
    }
}

/// A number: a mantissa, optionally followed by an exponent marker and an
/// exponent part.
pub open spec fn spec_number_ok(s: Seq<char>) -> bool {
    match find_exp_idx(s) {
        None => spec_mantissa_ok(s),
        Some(i) => {
            if 0 <= i < s.len() {
                spec_mantissa_ok(s.subrange(0, i)) && spec_exp_ok(
                    s.subrange(i + 1, s.len() as int),
                )
            } else {
                false
            }
        },
    }
}

/// The decimal floating-point grammar: an optional sign, then one of the
/// special words `inf`, `infinity` or `nan` in any letter case, or a number.
pub open spec fn is_real_literal(s: Seq<char>) -> bool {
    s.len() > 0 && {
        let body = if s[0] == '+' || s[0] == '-' {
            s.subrange(1, s.len() as int)
        } else {
            s
        };
        is_inf_word(body) || is_infinity_word(body) || is_nan_word(body) || spec_number_ok(body)
    }
}

/// Checks the suffix of `raw` from `start` against the special words of the
/// floating-point grammar.
fn check_special(raw: &str, start: usize) -> (r: bool)
    requires
        start <= raw@.len(),
    ensures
        ({
            let body = raw@.subrange(start as int, raw@.len() as int);
            r == (is_inf_word(body) || is_infinity_word(body) || is_nan_word(body))
        }),
{
    let n: usize = raw.unicode_len();
    let blen: usize = n - start;
    let ghost body = raw@.subrange(start as int, n as int);
    if blen == 3 {
        let a: char = raw.get_char(start);
        let b: char = raw.get_char(start + 1);
        let c: char = raw.get_char(start + 2);
        proof {
            assert(body[0] == a && body[1] == b && body[2] == c);
        }
        ((a == 'i' || a == 'I') && (b == 'n' || b == 'N') && (c == 'f' || c == 'F')) || ((a == 'n'
            || a == 'N') && (b == 'a' || b == 'A') && (c == 'n' || c == 'N'))
    } else if blen == 8 {
        let b0: char = raw.get_char(start);
        let b1: char = raw.get_char(start + 1);
        let b2: char = raw.get_char(start + 2);
        let b3: char = raw.get_char(start + 3);
        let b4: char = raw.get_char(start + 4);
        let b5: char = raw.get_char(start + 5);
        let b6: char = raw.get_char(start + 6);
        let b7: char = raw.get_char(start + 7);
        proof {
            assert(body[0] == b0 && body[1] == b1 && body[2] == b2 && body[3] == b3 && body[4]
                == b4 && body[5] == b5 && body[6] == b6 && body[7] == b7);
        }
        (b0 == 'i' || b0 == 'I') && (b1 == 'n' || b1 == 'N') && (b2 == 'f' || b2 == 'F') && (b3
            == 'i' || b3 == 'I') && (b4 == 'n' || b4 == 'N') && (b5 == 'i' || b5 == 'I') && (b6
            == 't' || b6 == 'T') && (b7 == 'y' || b7 == 'Y')
    } else {
        false
    }
}

/// Checks the characters of `raw` in `[from, to)` against the mantissa
/// grammar.
fn check_mantissa(raw: &str, from: usize, to: usize) -> (r: bool)
    requires
        from <= to <= raw@.len(),
    ensures
        r == spec_mantissa_ok(raw@.subrange(from as int, to as int)),
{
    let ghost seg = raw@.subrange(from as int, to as int);
    let mut dots: u32 = 0;
    let mut seen: bool = false;
    let mut t: usize = from;
    while t < to
        invariant
            from <= t <= to <= raw@.len(),
            seg =~= raw@.subrange(from as int, to as int),
            forall|k: int| from <= k < t ==> (is_dec_digit(raw@[k]) || raw@[k] == '.'),
            seen == exists|k: int| from <= k < t && is_dec_digit(raw@[k]),
            dots <= 2,
            dots < 2 ==> dots == count_char(raw@.subrange(from as int, t as int), '.'),
            dots == 2 ==> count_char(raw@.subrange(from as int, t as int), '.') >= 2,
        decreases to - t,
    {
        let c: char = raw.get_char(t);
        let u: u32 = c as u32;
        proof {
            let pre = raw@.subrange(from as int, t as int);
            let pre2 = raw@.subrange(from as int, t as int + 1);
            assert(pre2.drop_last() =~= pre);
            assert(pre2.last() == raw@[t as int]);
            assert(count_char(pre2, '.') == count_char(pre, '.') + if raw@[t as int] == '.' {
                1int
            } else {
                0int
            });
        }
        if 48 <= u && u <= 57 {
            seen = true;
        } else if c == '.' {
            if dots < 2 {
                dots = dots + 1;
            }
        } else {
            proof {
                assert(seg[t - from] == raw@[t as int]);
                assert(!spec_mantissa_ok(seg));
            }
            return false;
        }
        t = t + 1;
    }
    proof {
        assert(forall|k: int| 0 <= k < seg.len() ==> seg[k] == raw@[from + k]);
        if seen {
            let k = choose|k: int| from <= k < to && is_dec_digit(raw@[k]);
            assert(is_dec_digit(seg[k - from]));
        }
    }
    seen && dots <= 1
}

/// Checks the suffix of `raw` from `from` against the exponent-part grammar.
fn check_exp(raw: &str, from: usize) -> (r: bool)
    requires
        from <= raw@.len(),
    ensures
        r == spec_exp_ok(raw@.subrange(from as int, raw@.len() as int)),
{
    let n: usize = raw.unicode_len();
    let ghost seg = raw@.subrange(from as int, n as int);
    if from == n {
        return false;
    }
    let c0: char = raw.get_char(from);
    proof {
        assert(seg[0] == raw@[from as int]);
    }
    let dstart: usize = if c0 == '+' || c0 == '-' {
        from + 1
    } else {
        from
    };
    if dstart == n && dstart > from {
        return false;
    }
    let mut t: usize = dstart;
    while t < n
        invariant
            dstart <= t <= n,
            n == raw@.len(),
            from < n,
            from <= dstart <= from + 1,
            (dstart == from + 1) == (raw@[from as int] == '+' || raw@[from as int] == '-'),
            seg =~= raw@.subrange(from as int, n as int),
            forall|k: int| dstart <= k < t ==> is_dec_digit(raw@[k]),
        decreases n - t,
    {
        let c: char = raw.get_char(t);
        let u: u32 = c as u32;
        if !(48 <= u && u <= 57) {
            proof {
                assert(seg[t - from] == raw@[t as int]);
                if dstart > from {
                    assert(seg.subrange(1, seg.len() as int)[t - from - 1] == raw@[t as int]);
                    assert(!all_digits(seg.subrange(1, seg.len() as int)));
                } else {
                    assert(!all_digits(seg));
                }
            }
            return false;
        }
        t = t + 1;
    }
    proof {
        if dstart > from {
            let rest = seg.subrange(1, seg.len() as int);
            assert(forall|k: int| 0 <= k < rest.len() ==> rest[k] == raw@[from + 1 + k]);
            assert(all_digits(rest));
        } else {
            assert(forall|k: int| 0 <= k < seg.len() ==> seg[k] == raw@[from + k]);
            assert(all_digits(seg));
        }
    }
    true
}

/// Finds the first exponent marker `e` or `E` at or after `from`.
fn find_exp_from(raw: &str, from: usize) -> (r: Option<usize>)
    requires
        from <= raw@.len(),
    ensures
        match r {
            Some(j) => from <= j < raw@.len() && (raw@[j as int] == 'e' || raw@[j as int] == 'E')
                && forall|t: int| from <= t < j ==> (raw@[t] != 'e' && raw@[t] != 'E'),
            None => forall|t: int| from <= t < raw@.len() ==> (raw@[t] != 'e' && raw@[t] != 'E'),
        },
{
    let n: usize = raw.unicode_len();
    let mut j: usize = from;
    loop
        invariant
            from <= j <= n,
            n == raw@.len(),
            forall|t: int| from <= t < j ==> (raw@[t] != 'e' && raw@[t] != 'E'),
        decreases n - j,
    {
        if j == n {
            return None;
        }
        let c: char = raw.get_char(j);
        if c == 'e' || c == 'E' {
            return Some(j);
        }
        j = j + 1;
    }
}

/// Checks a raw value against the decimal floating-point grammar.
pub fn check_real(raw: &str) -> (r: bool)
    ensures
        r == is_real_literal(raw@),
{
    let n: usize = raw.unicode_len();
    if n == 0 {
        return false;
    }
    let c0: char = raw.get_char(0);
    let start: usize = if c0 == '+' || c0 == '-' {
        1
    } else {
        0
    };
    let ghost body = if c0 == '+' || c0 == '-' {
        raw@.subrange(1, n as int)
    } else {
        raw@
    };
    proof {
        if start == 0 {
            assert(raw@.subrange(0, n as int) =~= raw@);
        }
        assert(body =~= raw@.subrange(start as int, n as int));
    }
    if check_special(raw, start) {
        return true;
    }
    let hit = find_exp_from(raw, start);
    match hit {
        None => {
            let ok: bool = check_mantissa(raw, start, n);
            proof {
                lemma_find_exp_idx(body);
                assert(forall|k: int| 0 <= k < body.len() ==> body[k] == raw@[start + k]);
                assert(find_exp_idx(body) is None);
            }
            ok
        },
        Some(j) => {
            let m_ok: bool = check_mantissa(raw, start, j);
            let e_ok: bool = check_exp(raw, j + 1);
            proof {
                lemma_find_exp_idx(body);
                assert(forall|k: int| 0 <= k < body.len() ==> body[k] == raw@[start + k]);
                assert(body[j - start] == 'e' || body[j - start] == 'E');
                assert(find_exp_idx(body) == Some(j - start));
                assert(body.subrange(0, j - start) =~= raw@.subrange(start as int, j as int));
                assert(body.subrange(j - start + 1, body.len() as int) =~= raw@.subrange(
                    j as int + 1,
                    n as int,
                ));
            }
            m_ok && e_ok
        },
    }
}

/// Whether the dispatch succeeds on a raw value of the given format and
/// nature.
pub open spec fn decode_ok(fmt: ValueFormat, vt: ValueType, raw: Seq<char>) -> bool {
    match fmt {
        ValueFormat::D => spec_parse_date(raw) is Some,
        ValueFormat::I => spec_parse_i32(raw) is Some,
        ValueFormat::N => spec_parse_i32(raw) is Some,
        ValueFormat::R => is_real_literal(raw),
        ValueFormat::C => find_idx(raw, ';') is Some,
        _ => true,
    }
}

/// A decode outcome that is exactly the text of the raw value.
pub open spec fn text_result(r: Result<Option<FormatResult>, EdigeoError>, raw: Seq<char>) -> bool {
    r matches Ok(v) && v matches Some(fr) && fr matches FormatResult::Text(t) && t@ == raw
}

/// A decode outcome that is exactly the `;`-separated components of the raw
/// value, each as text.
pub open spec fn descriptor_result(
    r: Result<Option<FormatResult>, EdigeoError>,
    raw: Seq<char>,
) -> bool {
    r matches Ok(v) && v matches Some(fr) && fr matches FormatResult::Descriptor(items) && {
        &&& items@.len() == split_on(raw, ';').len()
        &&& forall|k: int|
            0 <= k < items@.len() ==> ((#[trigger] items@[k]) matches FormatResult::Text(t) && t@
                == split_on(raw, ';')[k])
    }
}

/// The canonical dispatch: what decoding a raw value of the given format
/// and nature returns, for success and for every failure.
pub open spec fn spec_decoded(
    fmt: ValueFormat,
    vt: ValueType,
    raw: Seq<char>,
    r: Result<Option<FormatResult>, EdigeoError>,
) -> bool {
    match fmt {
        ValueFormat::A => text_result(r, raw),
        ValueFormat::E => text_result(r, raw),
        ValueFormat::T => text_result(r, raw),
        ValueFormat::P => match vt {
            ValueType::C => descriptor_result(r, raw),
            _ => text_result(r, raw),
        },
        ValueFormat::D => match spec_parse_date(raw) {
            Some(d) => r matches Ok(v) && v matches Some(fr) && fr == FormatResult::Date(d),
            None => r matches Err(e) && e matches EdigeoError::InvalidDate(t) && t@ == raw,
        },
        ValueFormat::I | ValueFormat::N => match spec_parse_i32(raw) {
            Some(x) => r matches Ok(v) && v matches Some(fr) && fr == FormatResult::Int(x),
            None => r matches Err(e) && e matches EdigeoError::InvalidInteger(t) && t@ == raw,
        },
        ValueFormat::R => {
            if is_real_literal(raw) {
                r matches Ok(v) && v matches Some(fr) && fr matches FormatResult::Real(t) && t@
                    == raw
            } else {
                r matches Err(e) && e matches EdigeoError::InvalidReal(t) && t@ == raw
            }
        },
        ValueFormat::C => match find_idx(raw, ';') {
            Some(i) => r matches Ok(v) && v matches Some(fr) && fr matches FormatResult::Coordinate(
                a,
                b,
            ) && a@ == raw.subrange(0, i) && b@ == raw.subrange(i + 1, raw.len() as int),
            None => r matches Err(e) && e matches EdigeoError::MissingCoordinateSeparator(t) && t@
                == raw,
        },
        ValueFormat::WhiteSpace => match vt {
            ValueType::T => text_result(r, raw),
            _ => r matches Ok(v) && v is None,
        },
    }
}

/// Decodes a coordinate value: the raw value split once at its first `;`.
pub fn decode_coordinate(raw: &str) -> (r: Result<(String, String), EdigeoError>)
    ensures
        match find_idx(raw@, ';') {
            Some(i) => r matches Ok(p) && p.0@ == raw@.subrange(0, i) && p.1@ == raw@.subrange(
                i + 1,
                raw@.len() as int,
            ),
            None => r matches Err(e) && e matches EdigeoError::MissingCoordinateSeparator(t) && t@
                == raw@,
        },
{
    let n: usize = raw.unicode_len();
    let hit = find_char_from(raw, 0, ';');
    proof {
        lemma_find_idx(raw@, ';');
    }
    match hit {
        Some(i) => {
            let left: String = raw.substring_char(0, i).to_owned();
            let right: String = raw.substring_char(i + 1, n).to_owned();
            proof {
                assert(find_idx(raw@, ';') == Some(i as int));
            }
            Ok((left, right))
        },
        None => Err(EdigeoError::MissingCoordinateSeparator(raw.to_owned())),
    }
}

/// Decodes a compound descriptor value: the raw value split on every `;`,
/// each component kept as text.
pub fn decode_descriptor(raw: &str) -> (items: Vec<FormatResult>)
    ensures
        items@.len() == split_on(raw@, ';').len(),
        forall|k: int|
            0 <= k < items@.len() ==> ((#[trigger] items@[k]) matches FormatResult::Text(t) && t@
                == split_on(raw@, ';')[k]),
{
    let parts: Vec<String> = split_char(raw, ';');
    let mut items: Vec<FormatResult> = Vec::new();
    let mut k: usize = 0;
    while k < parts.len()
        invariant
            k <= parts@.len(),
            parts@.len() == split_on(raw@, ';').len(),
            forall|t: int| 0 <= t < parts@.len() ==> parts@[t]@ == split_on(raw@, ';')[t],
            items@.len() == k,
            forall|t: int|
                0 <= t < k ==> ((#[trigger] items@[t]) matches FormatResult::Text(s) && s@
                    == split_on(raw@, ';')[t]),
        decreases parts@.len() - k,
    {
        let piece: String = parts[k].clone();
        items.push(FormatResult::Text(piece));
        k = k + 1;
    }
    items
}

/// Decodes a raw value according to the header's format and nature tags,
/// following the canonical dispatch table.
pub fn decode_value(header: &Header, raw: &str) -> (r: Result<Option<FormatResult>, EdigeoError>)
    ensures
        spec_decoded(header.value_format, header.value_type, raw@, r),
        r is Ok <==> decode_ok(header.value_format, header.value_type, raw@),
{
    match header.value_format {
        ValueFormat::A => Ok(Some(FormatResult::Text(raw.to_owned()))),
        ValueFormat::E => Ok(Some(FormatResult::Text(raw.to_owned()))),
        ValueFormat::T => Ok(Some(FormatResult::Text(raw.to_owned()))),
        ValueFormat::P => match header.value_type {
            ValueType::C => Ok(Some(FormatResult::Descriptor(decode_descriptor(raw)))),
            _ => Ok(Some(FormatResult::Text(raw.to_owned()))),
        },
        ValueFormat::D => match decode_date(raw) {
            Ok(d) => Ok(Some(FormatResult::Date(d))),
            Err(e) => Err(e),
        },
        ValueFormat::I => match decode_int(raw) {
            Ok(v) => Ok(Some(FormatResult::Int(v))),
            Err(e) => Err(e),
        },
        ValueFormat::N => match decode_int(raw) {
            Ok(v) => Ok(Some(FormatResult::Int(v))),
            Err(e) => Err(e),
        },
        ValueFormat::R => {
            if check_real(raw) {
                Ok(Some(FormatResult::Real(raw.to_owned())))
            } else {
                Err(EdigeoError::InvalidReal(raw.to_owned()))
            }
        },
        ValueFormat::C => match decode_coordinate(raw) {
            Ok(p) => Ok(Some(FormatResult::Coordinate(p.0, p.1))),
            Err(e) => Err(e),
        },
        ValueFormat::WhiteSpace => match header.value_type {
            ValueType::T => Ok(Some(FormatResult::Text(raw.to_owned()))),
            _ => Ok(None),
        },
    }
}

} // verus!
