//! Character-level text utilities: searching for a separator and splitting
//! on a separator.

use vstd::prelude::*;

verus! {

/// Index of the first occurrence of `c` in `s`, if any.
pub open spec fn find_idx(s: Seq<char>, c: char) -> Option<int>
    decreases s.len(),
{
    if s.len() == 0 {
        None
    } else if s[0] == c {
        Some(0)
    } else {
        match find_idx(s.subrange(1, s.len() as int), c) {
            Some(i) => Some(i + 1),
            None => None,
        }
    }
}

/// What `find_idx` returns: the first index holding `c`, or nothing when
/// `c` does not occur.
pub proof fn lemma_find_idx(s: Seq<char>, c: char)
    ensures
        match find_idx(s, c) {
            Some(i) => 0 <= i < s.len() && s[i] == c && forall|j: int| 0 <= j < i ==> s[j] != c,
            None => forall|j: int| 0 <= j < s.len() ==> s[j] != c,
        },
    decreases s.len(),
{
    if s.len() == 0 {
    } else if s[0] == c {
    } else {
        let tail = s.subrange(1, s.len() as int);
        lemma_find_idx(tail, c);
        assert(forall|j: int| 1 <= j < s.len() ==> s[j] == tail[j - 1]);
    }
}

/// Finds the first occurrence of `c` in `s` at or after position `from`.
pub fn find_char_from(s: &str, from: usize, c: char) -> (r: Option<usize>)
    requires
        from <= s@.len(),
    ensures
        match r {
            Some(j) => from <= j < s@.len() && s@[j as int] == c && forall|t: int|
                from <= t < j ==> s@[t] != c,
            None => forall|t: int| from <= t < s@.len() ==> s@[t] != c,
        },
{
    let n: usize = s.unicode_len();
    let mut j: usize = from;
    loop
        invariant
            from <= j <= n,
            n == s@.len(),
            forall|t: int| from <= t < j ==> s@[t] != c,
        decreases n - j,
    {
        if j == n {
            return None;
        }
        if s.get_char(j) == c {
            return Some(j);
        }
        j = j + 1;
    }
}

/// The segments of `s` between occurrences of `c`, in order; a string
/// without `c` is one segment, and every occurrence of `c` ends a segment,
/// so there is always one segment more than there are occurrences.
pub open spec fn split_on(s: Seq<char>, c: char) -> Seq<Seq<char>>
    decreases s.len(),
{
    match find_idx(s, c) {
        None => seq![s],
        Some(i) => {
            if 0 <= i < s.len() {
                seq![s.subrange(0, i)] + split_on(s.subrange(i + 1, s.len() as int), c)
            } else {
                seq![s]
            }
        },
    }
}

/// Splits `s` into the segments between occurrences of `c`.
pub fn split_char(s: &str, c: char) -> (parts: Vec<String>)
    ensures
        parts@.len() == split_on(s@, c).len(),
        forall|k: int| 0 <= k < parts@.len() ==> parts@[k]@ == split_on(s@, c)[k],
{
    let n: usize = s.unicode_len();
    let mut parts: Vec<String> = Vec::new();
    let mut pos: usize = 0;
    proof {
        assert(s@.subrange(0, n as int) =~= s@);
    }
    loop
        invariant
            pos <= n,
            n == s@.len(),
            split_on(s@, c) =~~= parts@.map_values(|p: String| p@) + split_on(
                s@.subrange(pos as int, n as int),
                c,
            ),
        decreases n - pos,
    {
        let ghost suf = s@.subrange(pos as int, n as int);
        let ghost prev = parts@;
        let hit = find_char_from(s, pos, c);
        match hit {
            None => {
                let last: String = s.substring_char(pos, n).to_owned();
                parts.push(last);
                proof {
                    lemma_find_idx(suf, c);
                    assert(forall|t: int| 0 <= t < suf.len() ==> suf[t] == s@[pos + t]);
                    assert(find_idx(suf, c) is None);
                    assert(parts@.map_values(|p: String| p@) =~~= prev.map_values(|p: String| p@)
                        + seq![suf]);
                    assert(split_on(s@, c) =~~= parts@.map_values(|p: String| p@));
                }
                return parts;
            },
            Some(j) => {
                let piece: String = s.substring_char(pos, j).to_owned();
                parts.push(piece);
                proof {
                    lemma_find_idx(suf, c);
                    assert(forall|t: int| 0 <= t < suf.len() ==> suf[t] == s@[pos + t]);
                    assert(suf[j - pos] == c);
                    assert(find_idx(suf, c) == Some(j - pos));
                    assert(suf.subrange(0, j - pos) =~= s@.subrange(pos as int, j as int));
                    assert(suf.subrange(j - pos + 1, suf.len() as int) =~= s@.subrange(
                        j as int + 1,
                        n as int,
                    ));
                    assert(parts@.map_values(|p: String| p@) =~~= prev.map_values(|p: String| p@)
                        + seq![s@.subrange(pos as int, j as int)]);
                }
                pos = j + 1;
            },
        }
    }
}

/// A line's text with a carriage return stripped when it ends the line.
pub open spec fn strip_cr(t: Seq<char>) -> Seq<char> {
    if t.len() > 0 && t[t.len() - 1] == '\r' {
        t.subrange(0, t.len() - 1)
    } else {
        t
    }
}

/// The lines of a text: split at each newline, a carriage return directly
/// before a newline stripped, and no final empty line for text that ends
/// with a newline.
pub open spec fn spec_lines(s: Seq<char>) -> Seq<Seq<char>>
    decreases s.len(),
{
    if s.len() == 0 {
        Seq::empty()
    } else {
        match find_idx(s, '\n') {
            None => seq![s],
            Some(i) => {
                if 0 <= i < s.len() {
                    seq![strip_cr(s.subrange(0, i))] + spec_lines(s.subrange(i + 1, s.len() as int))
                } else {
                    seq![s]
                }
            },
        }
    }
}

/// Splits a text into its lines.
pub fn split_lines(s: &str) -> (lines: Vec<String>)
    ensures
        lines@.len() == spec_lines(s@).len(),
        forall|k: int| 0 <= k < lines@.len() ==> lines@[k]@ == spec_lines(s@)[k],
{
    let n: usize = s.unicode_len();
    let mut lines: Vec<String> = Vec::new();
    let mut pos: usize = 0;
    proof {
        assert(s@.subrange(0, n as int) =~= s@);
    }
    loop
        invariant
            pos <= n,
            n == s@.len(),
            spec_lines(s@) =~~= lines@.map_values(|p: String| p@) + spec_lines(
                s@.subrange(pos as int, n as int),
            ),
        decreases n - pos,
    {
        let ghost suf = s@.subrange(pos as int, n as int);
        let ghost prev = lines@;
        if pos == n {
            proof {
                assert(spec_lines(suf) =~~= Seq::<Seq<char>>::empty());
                assert(spec_lines(s@) =~~= lines@.map_values(|p: String| p@));
            }
            return lines;
        }
        let hit = find_char_from(s, pos, '\n');
        match hit {
            None => {
                let last: String = s.substring_char(pos, n).to_owned();
                lines.push(last);
                proof {
                    lemma_find_idx(suf, '\n');
                    assert(forall|t: int| 0 <= t < suf.len() ==> suf[t] == s@[pos + t]);
                    assert(find_idx(suf, '\n') is None);
                    assert(spec_lines(suf) =~~= seq![suf]);
                    assert(lines@.map_values(|p: String| p@) =~~= prev.map_values(|p: String| p@)
                        + seq![suf]);
                    assert(spec_lines(s@) =~~= lines@.map_values(|p: String| p@));
                }
                return lines;
            },
            Some(j) => {
                let stop: usize = if j > pos && s.get_char(j - 1) == '\r' {
                    j - 1
                } else {
                    j
                };
                let piece: String = s.substring_char(pos, stop).to_owned();
                lines.push(piece);
                proof {
                    lemma_find_idx(suf, '\n');
                    assert(forall|t: int| 0 <= t < suf.len() ==> suf[t] == s@[pos + t]);
                    assert(suf[j - pos] == '\n');
                    assert(find_idx(suf, '\n') == Some(j - pos));
                    let head = suf.subrange(0, j - pos);
                    assert(head =~= s@.subrange(pos as int, j as int));
                    if j > pos && s@[j - 1] == '\r' {
                        assert(head.len() > 0 && head[head.len() - 1] == '\r');
                        assert(strip_cr(head) =~= s@.subrange(pos as int, stop as int));
                    } else {
                        assert(strip_cr(head) =~= s@.subrange(pos as int, stop as int));
                    }
                    assert(suf.subrange(j - pos + 1, suf.len() as int) =~= s@.subrange(
                        j as int + 1,
                        n as int,
                    ));
                    assert(lines@.map_values(|p: String| p@) =~~= prev.map_values(|p: String| p@)
                        + seq![s@.subrange(pos as int, stop as int)]);
                }
                pos = j + 1;
            },
        }
    }
}

/// Whether `s` ends with the characters of `suffix`.
pub open spec fn ends_with(s: Seq<char>, suffix: Seq<char>) -> bool {
    suffix.len() <= s.len() && s.subrange(s.len() - suffix.len(), s.len() as int) == suffix
}

/// Tests whether `s` ends with `suffix`, character for character.
pub fn str_ends_with(s: &str, suffix: &str) -> (r: bool)
    ensures
        r == ends_with(s@, suffix@),
{
    let n: usize = s.unicode_len();
    let m: usize = suffix.unicode_len();
    if m > n {
        return false;
    }
    let ghost tail = s@.subrange(n as int - m as int, n as int);
    let mut i: usize = 0;
    while i < m
        invariant
            i <= m <= n,
            n == s@.len(),
            m == suffix@.len(),
            tail =~= s@.subrange(n as int - m as int, n as int),
            forall|t: int| 0 <= t < i ==> s@[n - m + t] == suffix@[t],
        decreases m - i,
    {
        if s.get_char(n - m + i) != suffix.get_char(i) {
            proof {
                assert(tail[i as int] != suffix@[i as int]);
            }
            return false;
        }
        i = i + 1;
    }
    proof {
        assert(tail =~= suffix@);
    }
    true
}

/// Index of the last occurrence of `c` in `s`, if any.
pub open spec fn rfind_idx(s: Seq<char>, c: char) -> Option<int>
    decreases s.len(),
{
    if s.len() == 0 {
        None
    } else if s.last() == c {
        Some(s.len() - 1)
    } else {
        rfind_idx(s.drop_last(), c)
    }
}

/// What `rfind_idx` returns: the last index holding `c`, or nothing when
/// `c` does not occur.
pub proof fn lemma_rfind_idx(s: Seq<char>, c: char)
    ensures
        match rfind_idx(s, c) {
            Some(i) => 0 <= i < s.len() && s[i] == c && forall|j: int| i < j < s.len() ==> s[j] != c,
            None => forall|j: int| 0 <= j < s.len() ==> s[j] != c,
        },
    decreases s.len(),
{
    if s.len() == 0 {
    } else if s.last() == c {
    } else {
        lemma_rfind_idx(s.drop_last(), c);
        assert(forall|j: int| 0 <= j < s.len() - 1 ==> s[j] == s.drop_last()[j]);
    }
}

/// Finds the last occurrence of `c` in `s`.
pub fn rfind_char(s: &str, c: char) -> (r: Option<usize>)
    ensures
        match r {
            Some(i) => rfind_idx(s@, c) == Some(i as int),
            None => rfind_idx(s@, c) is None,
        },
{
    let n: usize = s.unicode_len();
    let mut j: usize = n;
    loop
        invariant
            j <= n,
            n == s@.len(),
            forall|t: int| j <= t < n ==> s@[t] != c,
        decreases j,
    {
        if j == 0 {
            proof {
                lemma_rfind_idx(s@, c);
            }
            return None;
        }
        if s.get_char(j - 1) == c {
            proof {
                lemma_rfind_idx(s@, c);
            }
            return Some(j - 1);
        }
        j = j - 1;
    }
}

} // verus!
