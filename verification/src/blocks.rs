//! Block segmentation: grouping a member file's decoded records into named
//! blocks, driven by a per-file-kind table of block-type tokens.
//!
//! The state machine reads records in file order. `BOM` and `CSE` are
//! file-position metadata and cause no transition; `EOM` closes any active
//! block; an `RTY` marker whose decoded text matches a table token opens
//! that token's block, accumulating across discontiguous spans; a marker
//! with an unrecognized token is a counted anomaly; a zone-code record is
//! appended to the active block, or counted as an orphan when no block is
//! open.

use vstd::prelude::*;

use crate::error::LineError;
use crate::format::FormatResult;
use crate::header::{Code, KeyWordCode};
use crate::line::{line_decodes_to, line_fails, Line};
use crate::reader::{decode_file, latin1_of};
use crate::text::{spec_lines, split_lines};

verus! {

/// A named, ordered group of records.
#[derive(Debug, PartialEq, Eq)]
pub struct Block {
    /// The block-type token that opened this block.
    pub id: String,
    /// The zone-code records of the block, in file order.
    pub entries: Vec<Line>,
}

impl Block {
    /// An empty block for a block-type token.
    pub fn new(id: &str) -> (b: Block)
        ensures
            b.id@ == id@,
            b.entries@ == Seq::<Line>::empty(),
    {
        Block { id: id.to_owned(), entries: Vec::new() }
    }

    /// Appends one record to the block.
    pub fn add_line(&mut self, line: Line)
        ensures
            final(self).id == old(self).id,
            final(self).entries@ == old(self).entries@.push(line),
    {
        self.entries.push(line);
    }
}

/// The member-file texts kept by a decode pass: every non-empty line, in
/// order.
pub open spec fn nonempty(ts: Seq<Seq<char>>) -> Seq<Seq<char>>
    decreases ts.len(),
{
    if ts.len() == 0 {
        Seq::empty()
    } else {
        nonempty(ts.drop_last()) + (if ts.last().len() > 0 {
            seq![ts.last()]
        } else {
            Seq::empty()
        })
    }
}

/// What a decode pass over a member file's lines must produce: one decoded
/// record per non-empty line, in order.
pub open spec fn decode_pass(ts: Seq<Seq<char>>, records: Seq<Line>) -> bool {
    let ne = nonempty(ts);
    records.len() == ne.len() && forall|i: int|
        0 <= i < ne.len() ==> line_decodes_to(ne[i], #[trigger] records[i])
}

/// Decodes every non-empty line of a member file's text, in order,
/// reporting the first failing line by its index among the file's lines.
pub fn decode_lines(text: &str) -> (r: Result<Vec<Line>, LineError>)
    ensures
        r matches Ok(records) ==> decode_pass(spec_lines(text@), records@),
        r matches Err(le) ==> le.line < spec_lines(text@).len() && spec_lines(text@)[
            le.line as int
        ].len() > 0 && line_fails(spec_lines(text@)[le.line as int], le.error),
{
    let texts: Vec<String> = split_lines(text);
    let ghost ts = spec_lines(text@);
    let mut records: Vec<Line> = Vec::new();
    let mut k: usize = 0;
    while k < texts.len()
        invariant
            k <= texts@.len(),
            ts =~~= spec_lines(text@),
            texts@.len() == ts.len(),
            forall|t: int| 0 <= t < texts@.len() ==> texts@[t]@ == ts[t],
            records@.len() == nonempty(ts.subrange(0, k as int)).len(),
            forall|i: int|
                0 <= i < records@.len() ==> line_decodes_to(
                    nonempty(ts.subrange(0, k as int))[i],
                    #[trigger] records@[i],
                ),
        decreases texts@.len() - k,
    {
        let ghost pre = ts.subrange(0, k as int);
        let ghost pre2 = ts.subrange(0, k as int + 1);
        proof {
            assert(pre2.drop_last() =~= pre);
            assert(pre2.last() == ts[k as int]);
        }
        let t: &String = &texts[k];
        if !t.as_str().is_empty() {
            match Line::parse_line(t.as_str()) {
                Ok(l) => {
                    records.push(l);
                    proof {
                        assert(nonempty(pre2) =~= nonempty(pre) + seq![ts[k as int]]);
                    }
                },
                Err(e) => {
                    proof {
                        assert(texts@[k as int]@ == ts[k as int]);
                        assert(line_fails(ts[k as int], e));
                    }
                    return Err(LineError { line: k, error: e });
                },
            }
        } else {
            proof {
                assert(nonempty(pre2) =~= nonempty(pre));
            }
        }
        k = k + 1;
    }
    proof {
        assert(ts.subrange(0, ts.len() as int) =~= ts);
    }
    Ok(records)
}

/// The evolving state of one segmentation pass: the active table index, the
/// accumulated entries of each table token's block, and the two anomaly
/// counts.
pub struct SegState {
    /// Index into the token table of the open block, if any.
    pub active: Option<int>,
    /// Accumulated entries of each token's block.
    pub entries: Seq<Seq<Line>>,
    /// Block-type markers whose token was not in the table.
    pub unrecognized: int,
    /// Zone-code records seen while no block was open.
    pub orphans: int,
}

/// The token a block-type marker announces, when its decoded value is text.
pub open spec fn marker_token(l: Line) -> Option<Seq<char>> {
    match l.parsed_value {
        Some(fr) => match fr {
            FormatResult::Text(t) => Some(t@),
            _ => None,
        },
        None => None,
    }
}

/// First table index whose token equals `v`, if any.
pub open spec fn token_idx(tokens: Seq<Seq<char>>, v: Seq<char>) -> Option<int>
    decreases tokens.len(),
{
    if tokens.len() == 0 {
        None
    } else if tokens[0] == v {
        Some(0)
    } else {
        match token_idx(tokens.subrange(1, tokens.len() as int), v) {
            Some(i) => Some(i + 1),
            None => None,
        }
    }
}

/// What `token_idx` returns: the first index whose token is `v`, or nothing
/// when no token matches.
pub proof fn lemma_token_idx(tokens: Seq<Seq<char>>, v: Seq<char>)
    ensures
        match token_idx(tokens, v) {
            Some(i) => 0 <= i < tokens.len() && tokens[i] == v && forall|j: int|
                0 <= j < i ==> tokens[j] != v,
            None => forall|j: int| 0 <= j < tokens.len() ==> tokens[j] != v,
        },
    decreases tokens.len(),
{
    if tokens.len() == 0 {
    } else if tokens[0] == v {
    } else {
        let tail = tokens.subrange(1, tokens.len() as int);
        lemma_token_idx(tail, v);
        assert(forall|j: int| 1 <= j < tokens.len() ==> tokens[j] == tail[j - 1]);
    }
}

/// The initial segmentation state: no active block, one empty entry list
/// per table token, no anomalies.
pub open spec fn seg_init(n_tokens: int) -> SegState {
    SegState {
        active: None,
        entries: Seq::new(n_tokens as nat, |i: int| Seq::empty()),
        unrecognized: 0,
        orphans: 0,
    }
}

/// One transition of the segmentation state machine.
pub open spec fn seg_step(tokens: Seq<Seq<char>>, st: SegState, l: Line) -> SegState {
    match l.header.code {
        Code::KWCode(kw) => match kw {
            KeyWordCode::EOM => SegState {
                active: None,
                entries: st.entries,
                unrecognized: st.unrecognized,
                orphans: st.orphans,
            },
            _ => st,
        },
        Code::TypeCode(_) => match marker_token(l) {
            Some(v) => match token_idx(tokens, v) {
                Some(i) => SegState {
                    active: Some(i),
                    entries: st.entries,
                    unrecognized: st.unrecognized,
                    orphans: st.orphans,
                },
                None => SegState {
                    active: st.active,
                    entries: st.entries,
                    unrecognized: st.unrecognized + 1,
                    orphans: st.orphans,
                },
            },
            None => SegState {
                active: st.active,
                entries: st.entries,
                unrecognized: st.unrecognized + 1,
                orphans: st.orphans,
            },
        },
        Code::ZoneCode(_) => match st.active {
            Some(i) => {
                if 0 <= i < st.entries.len() {
                    SegState {
                        active: st.active,
                        entries: st.entries.update(i, st.entries[i].push(l)),
                        unrecognized: st.unrecognized,
                        orphans: st.orphans,
                    }
                } else {
                    st
                }
            },
            None => SegState {
                active: st.active,
                entries: st.entries,
                unrecognized: st.unrecognized,
                orphans: st.orphans + 1,
            },
        },
    }
}

/// The segmentation state after the first `k` records.
pub open spec fn seg_at(tokens: Seq<Seq<char>>, records: Seq<Line>, k: int) -> SegState
    decreases k,
{
    if k <= 0 {
        seg_init(tokens.len() as int)
    } else {
        seg_step(tokens, seg_at(tokens, records, k - 1), records[k - 1])
    }
}

/// The final state of segmenting a record stream under a token table.
pub open spec fn spec_segment(tokens: Seq<Seq<char>>, records: Seq<Line>) -> SegState {
    seg_at(tokens, records, records.len() as int)
}

/// Segmentation keeps one entry list per table token, its active index in
/// range, and its anomaly counts within the number of records read.
pub proof fn lemma_seg_at_wf(tokens: Seq<Seq<char>>, records: Seq<Line>, k: int)
    requires
        0 <= k,
    ensures
        seg_at(tokens, records, k).entries.len() == tokens.len(),
        0 <= seg_at(tokens, records, k).unrecognized <= k,
        0 <= seg_at(tokens, records, k).orphans <= k,
        seg_at(tokens, records, k).active matches Some(i) ==> 0 <= i < tokens.len(),
    decreases k,
{
    if k > 0 {
        lemma_seg_at_wf(tokens, records, k - 1);
        lemma_token_idx(tokens, match marker_token(records[k - 1]) {
            Some(v) => v,
            None => Seq::empty(),
        });
    }
}

/// Law: segmentation is a function of the record stream and the table
/// alone, so segmenting the same ordered stream twice yields identical
/// block contents and counts.
pub proof fn lemma_segment_deterministic(
    tokens: Seq<Seq<char>>,
    records: Seq<Line>,
    a: SegState,
    b: SegState,
)
    requires
        a == spec_segment(tokens, records),
        b == spec_segment(tokens, records),
    ensures
        a == b,
{
}

/// The outcome of one segmentation pass.
#[derive(Debug, PartialEq, Eq)]
pub struct SegmentResult {
    /// One block per table token, in table order.
    pub blocks: Vec<Block>,
    /// How many block-type markers carried a token outside the table.
    pub unrecognized: usize,
    /// How many zone-code records stood outside any block.
    pub orphans: usize,
}

/// Finds the first table index whose token equals `v`.
fn find_token(tokens: &Vec<String>, v: &String) -> (r: Option<usize>)
    ensures
        match r {
            Some(i) => i < tokens@.len() && token_idx(
                tokens@.map_values(|t: String| t@),
                v@,
            ) == Some(i as int),
            None => token_idx(tokens@.map_values(|t: String| t@), v@) is None,
        },
{
    let ghost toks = tokens@.map_values(|t: String| t@);
    let mut j: usize = 0;
    loop
        invariant
            j <= tokens@.len(),
            toks =~~= tokens@.map_values(|t: String| t@),
            forall|t: int| 0 <= t < j ==> toks[t] != v@,
        decreases tokens@.len() - j,
    {
        if j == tokens.len() {
            proof {
                lemma_token_idx(toks, v@);
            }
            return None;
        }
        if tokens[j] == *v {
            proof {
                lemma_token_idx(toks, v@);
                assert(toks[j as int] == v@);
            }
            return Some(j);
        }
        j = j + 1;
    }
}

/// Segments a stream of decoded records into one block per table token,
/// counting unrecognized block-type markers and orphan zone-code records.
pub fn segment(records: Vec<Line>, tokens: &Vec<String>) -> (r: SegmentResult)
    ensures
        ({
            let out = spec_segment(tokens@.map_values(|t: String| t@), records@);
            &&& r.blocks@.len() == tokens@.len()
            &&& forall|i: int|
                0 <= i < tokens@.len() ==> (#[trigger] r.blocks@[i]).id@ == tokens@[i]@
                    && r.blocks@[i].entries@ == out.entries[i]
            &&& r.unrecognized == out.unrecognized
            &&& r.orphans == out.orphans
        }),
{
    let ghost toks = tokens@.map_values(|t: String| t@);
    let ghost orig = records@;
    let n_tokens: usize = tokens.len();
    let n_records: usize = records.len();
    let mut blocks: Vec<Block> = Vec::new();
    let mut ti: usize = 0;
    while ti < n_tokens
        invariant
            ti <= n_tokens,
            n_tokens == tokens@.len(),
            blocks@.len() == ti,
            forall|i: int|
                0 <= i < ti ==> (#[trigger] blocks@[i]).id@ == tokens@[i]@ && blocks@[i].entries@
                    == Seq::<Line>::empty(),
        decreases n_tokens - ti,
    {
        let b = Block::new(tokens[ti].as_str());
        blocks.push(b);
        ti = ti + 1;
    }
    let mut rest: Vec<Line> = records;
    let mut active: Option<usize> = None;
    let mut unrecognized: usize = 0;
    let mut orphans: usize = 0;
    let mut k: usize = 0;
    while rest.len() > 0
        invariant
            k + rest@.len() == n_records,
            n_records == orig.len(),
            rest@ =~= orig.subrange(k as int, orig.len() as int),
            toks =~~= tokens@.map_values(|t: String| t@),
            n_tokens == tokens@.len(),
            blocks@.len() == n_tokens,
            unrecognized <= k,
            orphans <= k,
            ({
                let st = seg_at(toks, orig, k as int);
                &&& (match active {
                    Some(a) => a < n_tokens && st.active == Some(a as int),
                    None => st.active is None,
                })
                &&& forall|i: int|
                    0 <= i < n_tokens ==> (#[trigger] blocks@[i]).id@ == tokens@[i]@
                        && blocks@[i].entries@ == st.entries[i]
                &&& unrecognized == st.unrecognized
                &&& orphans == st.orphans
            }),
        decreases rest@.len(),
    {
        let ghost st = seg_at(toks, orig, k as int);
        let ghost st2 = seg_at(toks, orig, k as int + 1);
        let l: Line = rest.remove(0);
        proof {
            assert(l == orig[k as int]);
            assert(rest@ =~= orig.subrange(k as int + 1, orig.len() as int));
            lemma_seg_at_wf(toks, orig, k as int);
            assert(st2 == seg_step(toks, st, orig[k as int]));
        }
        match l.header.code {
            Code::KWCode(kw) => match kw {
                KeyWordCode::EOM => {
                    active = None;
                },
                _ => {},
            },
            Code::TypeCode(_) => {
                let mut handled: bool = false;
                match &l.parsed_value {
                    Some(fr) => match fr {
                        FormatResult::Text(t) => {
                            proof {
                                assert(marker_token(l) == Some(t@));
                            }
                            match find_token(tokens, t) {
                                Some(i) => {
                                    active = Some(i);
                                },
                                None => {
                                    unrecognized = unrecognized + 1;
                                },
                            }
                            handled = true;
                        },
                        _ => {},
                    },
                    None => {},
                }
                if !handled {
                    proof {
                        assert(marker_token(l) is None);
                    }
                    unrecognized = unrecognized + 1;
                }
            },
            Code::ZoneCode(_) => match active {
                Some(i) => {
                    let ghost bs0 = blocks@;
                    let mut b: Block = blocks.remove(i);
                    b.add_line(l);
                    blocks.insert(i, b);
                    proof {
                        bs0.remove_ensures(i as int);
                        bs0.remove(i as int).insert_ensures(i as int, b);
                        assert(blocks@.len() == bs0.len());
                        assert(forall|j: int|
                            0 <= j < blocks@.len() && j != i ==> blocks@[j] == bs0[j]);
                        assert(blocks@[i as int] == b);
                        assert(st2.entries =~~= st.entries.update(
                            i as int,
                            st.entries[i as int].push(l),
                        ));
                    }
                },
                None => {
                    orphans = orphans + 1;
                },
            },
        }
        k = k + 1;
    }
    proof {
        assert(k == orig.len());
        assert(seg_at(toks, orig, k as int) == spec_segment(toks, orig));
    }
    SegmentResult { blocks, unrecognized, orphans }
}

/// Parsing of one member-file kind's text into its typed block structure.
pub trait BlockParse: Sized {
    /// What a parse of one member file's text must satisfy.
    spec fn parse_ok(text: Seq<char>, r: Result<Self, LineError>) -> bool;

    /// Parses the text of one member file.
    fn parse(text: &str) -> (r: Result<Self, LineError>)
        ensures
            Self::parse_ok(text@, r),
    ;
}

/// The block-type tokens of a manifest file: the support block and the
/// batch block.
pub open spec fn thf_tokens() -> Seq<Seq<char>> {
    seq![seq!['G', 'T', 'S'], seq!['G', 'T', 'L']]
}

/// A decoded manifest member file: its support block and its batch block.
#[derive(Debug, PartialEq, Eq)]
pub struct THFFile {
    /// The support descriptor block, token `GTS`.
    pub support_block: Block,
    /// The batch descriptor block, token `GTL`.
    pub batch_block: Block,
}

/// What the blocks of a decoded manifest hold: the two blocks that
/// segmenting the records under the manifest's token table yields.
pub open spec fn thf_from_records(records: Seq<Line>, f: THFFile) -> bool {
    let out = spec_segment(thf_tokens(), records);
    &&& f.support_block.id@ == thf_tokens()[0]
    &&& f.support_block.entries@ == out.entries[0]
    &&& f.batch_block.id@ == thf_tokens()[1]
    &&& f.batch_block.entries@ == out.entries[1]
}

impl BlockParse for THFFile {
    open spec fn parse_ok(text: Seq<char>, r: Result<THFFile, LineError>) -> bool {
        match r {
            Ok(f) => exists|records: Seq<Line>|
                #[trigger] decode_pass(spec_lines(text), records) && thf_from_records(records, f),
            Err(le) => le.line < spec_lines(text).len() && spec_lines(text)[le.line as int].len()
                > 0 && line_fails(spec_lines(text)[le.line as int], le.error),
        }
    }

    fn parse(text: &str) -> (r: Result<THFFile, LineError>) {
        let records = match decode_lines(text) {
            Ok(records) => records,
            Err(le) => {
                return Err(le);
            },
        };
        let ghost recs = records@;
        let mut tokens: Vec<String> = Vec::new();
        tokens.push(String::from_str("GTS"));
        tokens.push(String::from_str("GTL"));
        proof {
            reveal_strlit("GTS");
            reveal_strlit("GTL");
            assert(tokens@.map_values(|t: String| t@) =~~= thf_tokens());
        }
        let out = segment(records, &tokens);
        let mut blocks = out.blocks;
        let support = blocks.remove(0);
        let batch = blocks.remove(0);
        let f = THFFile { support_block: support, batch_block: batch };
        proof {
            assert(decode_pass(spec_lines(text@), recs) && thf_from_records(recs, f));
        }
        Ok(f)
    }
}

impl THFFile {
    /// Decodes the raw bytes of a manifest member file and parses its block
    /// structure.
    pub fn new(data: &[u8]) -> (r: Result<THFFile, LineError>)
        ensures
            <THFFile as BlockParse>::parse_ok(latin1_of(data@), r),
    {
        let text = decode_file(data);
        <THFFile as BlockParse>::parse(text.as_str())
    }

    /// Whether both blocks of the manifest are empty.
    pub fn is_empty(&self) -> (r: bool)
        ensures
            r == (self.support_block.entries@.len() == 0 && self.batch_block.entries@.len() == 0),
    {
        self.support_block.entries.is_empty() && self.batch_block.entries.is_empty()
    }
}

} // verus!
