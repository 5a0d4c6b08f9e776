//! The in-memory bundle: raw bytes of every member file of one lot, keyed
//! by the member-filename suffix contract, with the mandatory-completeness
//! invariant checked once after acquisition.

use vstd::prelude::*;

use crate::error::EdigeoError;
use crate::reader::{decode_file, latin1_of};
use crate::text::{ends_with, str_ends_with};

verus! {

/// One member file found in a source: its name and its raw bytes.
#[derive(Debug, PartialEq, Eq)]
pub struct MemberEntry {
    /// The file name, as found in the archive or directory.
    pub name: String,
    /// The file's raw bytes.
    pub data: Vec<u8>,
}

impl View for MemberEntry {
    type V = (Seq<char>, Seq<u8>);

    open spec fn view(&self) -> (Seq<char>, Seq<u8>) {
        (self.name@, self.data@)
    }
}

/// The slot of the bundle that a member file fills.
#[derive(Debug, Clone, Copy, PartialEq, Eq, Structural)]
pub enum MemberKind {
    /// The manifest, suffix `.THF`.
    Thf,
    /// Geographical reference, suffix `.GEO`.
    Geo,
    /// Quality attributes, suffix `.QAL`.
    Qal,
    /// First vector file, suffix `T1.VEC`.
    T1,
    /// Second vector file, suffix `T2.VEC`.
    T2,
    /// Third vector file, suffix `T3.VEC`.
    T3,
    /// Supplementary vector file, suffix `S1.VEC`.
    S1,
    /// Optional dictionary, suffix `.DIC`.
    Dic,
    /// Optional general data, suffix `.GEN`.
    Gen,
    /// Optional schema, suffix `.SCD`.
    Scd,
}

/// The bundle slot that a file name's suffix selects, if any; the match is
/// case-sensitive and unmatched names are ignored.
pub open spec fn spec_classify(name: Seq<char>) -> Option<MemberKind> {
    if ends_with(name, seq!['.', 'T', 'H', 'F']) {
        Some(MemberKind::Thf)
    } else if ends_with(name, seq!['.', 'G', 'E', 'O']) {
        Some(MemberKind::Geo)
    } else if ends_with(name, seq!['T', '1', '.', 'V', 'E', 'C']) {
        Some(MemberKind::T1)
    } else if ends_with(name, seq!['T', '2', '.', 'V', 'E', 'C']) {
        Some(MemberKind::T2)
    } else if ends_with(name, seq!['T', '3', '.', 'V', 'E', 'C']) {
        Some(MemberKind::T3)
    } else if ends_with(name, seq!['S', '1', '.', 'V', 'E', 'C']) {
        Some(MemberKind::S1)
    } else if ends_with(name, seq!['.', 'Q', 'A', 'L']) {
        Some(MemberKind::Qal)
    } else if ends_with(name, seq!['.', 'D', 'I', 'C']) {
        Some(MemberKind::Dic)
    } else if ends_with(name, seq!['.', 'G', 'E', 'N']) {
        Some(MemberKind::Gen)
    } else if ends_with(name, seq!['.', 'S', 'C', 'D']) {
        Some(MemberKind::Scd)
    } else {
        None
    }
}

/// Classifies a member file name by its suffix.
pub fn classify(name: &str) -> (r: Option<MemberKind>)
    ensures
        r == spec_classify(name@),
{
    proof {
        reveal_strlit(".THF");
        reveal_strlit(".GEO");
        reveal_strlit("T1.VEC");
        reveal_strlit("T2.VEC");
        reveal_strlit("T3.VEC");
        reveal_strlit("S1.VEC");
        reveal_strlit(".QAL");
        reveal_strlit(".DIC");
        reveal_strlit(".GEN");
        reveal_strlit(".SCD");
        assert(".THF"@ =~= seq!['.', 'T', 'H', 'F']);
        assert(".GEO"@ =~= seq!['.', 'G', 'E', 'O']);
        assert("T1.VEC"@ =~= seq!['T', '1', '.', 'V', 'E', 'C']);
        assert("T2.VEC"@ =~= seq!['T', '2', '.', 'V', 'E', 'C']);
        assert("T3.VEC"@ =~= seq!['T', '3', '.', 'V', 'E', 'C']);
        assert("S1.VEC"@ =~= seq!['S', '1', '.', 'V', 'E', 'C']);
        assert(".QAL"@ =~= seq!['.', 'Q', 'A', 'L']);
        assert(".DIC"@ =~= seq!['.', 'D', 'I', 'C']);
        assert(".GEN"@ =~= seq!['.', 'G', 'E', 'N']);
        assert(".SCD"@ =~= seq!['.', 'S', 'C', 'D']);
    }
    if str_ends_with(name, ".THF") {
        Some(MemberKind::Thf)
    } else if str_ends_with(name, ".GEO") {
        Some(MemberKind::Geo)
    } else if str_ends_with(name, "T1.VEC") {
        Some(MemberKind::T1)
    } else if str_ends_with(name, "T2.VEC") {
        Some(MemberKind::T2)
    } else if str_ends_with(name, "T3.VEC") {
        Some(MemberKind::T3)
    } else if str_ends_with(name, "S1.VEC") {
        Some(MemberKind::S1)
    } else if str_ends_with(name, ".QAL") {
        Some(MemberKind::Qal)
    } else if str_ends_with(name, ".DIC") {
        Some(MemberKind::Dic)
    } else if str_ends_with(name, ".GEN") {
        Some(MemberKind::Gen)
    } else if str_ends_with(name, ".SCD") {
        Some(MemberKind::Scd)
    } else {
        None
    }
}

/// The bytes that a slot accumulates from a sequence of member entries: the
/// concatenation, in order, of the data of every entry whose name selects
/// that slot.
pub open spec fn slot_bytes(es: Seq<(Seq<char>, Seq<u8>)>, kind: MemberKind) -> Seq<u8>
    decreases es.len(),
{
    if es.len() == 0 {
        Seq::empty()
    } else {
        slot_bytes(es.drop_last(), kind) + (if spec_classify(es.last().0) == Some(kind) {
            es.last().1
        } else {
            Seq::empty()
        })
    }
}

/// Whether any entry's name selects a slot.
pub open spec fn slot_present(es: Seq<(Seq<char>, Seq<u8>)>, kind: MemberKind) -> bool
    decreases es.len(),
{
    if es.len() == 0 {
        false
    } else {
        slot_present(es.drop_last(), kind) || spec_classify(es.last().0) == Some(kind)
    }
}

/// Collects one slot's bytes from a sequence of member entries.
fn collect_slot(entries: &Vec<MemberEntry>, kind: MemberKind) -> (r: (Vec<u8>, bool))
    ensures
        ({
            let es = entries@.map_values(|e: MemberEntry| e@);
            r.0@ == slot_bytes(es, kind) && r.1 == slot_present(es, kind)
        }),
{
    let ghost es = entries@.map_values(|e: MemberEntry| e@);
    let mut out: Vec<u8> = Vec::new();
    let mut present: bool = false;
    let mut k: usize = 0;
    while k < entries.len()
        invariant
            k <= entries@.len(),
            es =~~= entries@.map_values(|e: MemberEntry| e@),
            out@ == slot_bytes(es.subrange(0, k as int), kind),
            present == slot_present(es.subrange(0, k as int), kind),
        decreases entries@.len() - k,
    {
        let ghost pre = es.subrange(0, k as int);
        let ghost pre2 = es.subrange(0, k as int + 1);
        proof {
            assert(pre2.drop_last() =~= pre);
            assert(pre2.last() == es[k as int]);
        }
        let hit = classify(entries[k].name.as_str());
        let mut matched: bool = false;
        match hit {
            Some(k2) => {
                if k2 == kind {
                    matched = true;
                }
            },
            None => {},
        }
        if matched {
            let d: &Vec<u8> = &entries[k].data;
            let mut j: usize = 0;
            let ghost out0 = out@;
            while j < d.len()
                invariant
                    j <= d@.len(),
                    out@ == out0 + d@.subrange(0, j as int),
                decreases d@.len() - j,
            {
                let b: u8 = d[j];
                out.push(b);
                proof {
                    assert(d@.subrange(0, j as int + 1) =~= d@.subrange(0, j as int).push(
                        d@[j as int],
                    ));
                }
                j = j + 1;
            }
            present = true;
            proof {
                assert(d@.subrange(0, d@.len() as int) =~= d@);
                assert(out@ =~= slot_bytes(pre2, kind));
            }
        } else {
            proof {
                assert(slot_bytes(pre2, kind) =~= slot_bytes(pre, kind));
            }
        }
        k = k + 1;
    }
    proof {
        assert(es.subrange(0, es.len() as int) =~= es);
    }
    (out, present)
}

/// The raw bytes of every member file of one lot: seven mandatory slots and
/// three optional ones.
#[derive(Debug, PartialEq, Eq)]
pub struct EdigeoBundle {
    /// The manifest's bytes.
    pub thf: Vec<u8>,
    /// The geographical reference's bytes.
    pub geo: Vec<u8>,
    /// The quality file's bytes.
    pub qal: Vec<u8>,
    /// The first vector file's bytes.
    pub t1: Vec<u8>,
    /// The second vector file's bytes.
    pub t2: Vec<u8>,
    /// The third vector file's bytes.
    pub t3: Vec<u8>,
    /// The supplementary vector file's bytes.
    pub s1: Vec<u8>,
    /// The optional dictionary's bytes.
    pub dic: Option<Vec<u8>>,
    /// The optional general file's bytes.
    pub gen: Option<Vec<u8>>,
    /// The optional schema's bytes.
    pub scd: Option<Vec<u8>>,
}

/// All seven mandatory slots of a bundle hold at least one byte.
pub open spec fn spec_completed(b: EdigeoBundle) -> bool {
    &&& b.thf@.len() > 0
    &&& b.geo@.len() > 0
    &&& b.t1@.len() > 0
    &&& b.t2@.len() > 0
    &&& b.t3@.len() > 0
    &&& b.s1@.len() > 0
    &&& b.qal@.len() > 0
}

/// Every mandatory slot gathered from a sequence of member entries holds at
/// least one byte.
pub open spec fn spec_entries_complete(es: Seq<(Seq<char>, Seq<u8>)>) -> bool {
    &&& slot_bytes(es, MemberKind::Thf).len() > 0
    &&& slot_bytes(es, MemberKind::Geo).len() > 0
    &&& slot_bytes(es, MemberKind::T1).len() > 0
    &&& slot_bytes(es, MemberKind::T2).len() > 0
    &&& slot_bytes(es, MemberKind::T3).len() > 0
    &&& slot_bytes(es, MemberKind::S1).len() > 0
    &&& slot_bytes(es, MemberKind::Qal).len() > 0
}

/// What a bundle assembled from a sequence of member entries holds: each
/// mandatory slot the concatenated bytes of its matching entries, each
/// optional slot present exactly when an entry matched it.
pub open spec fn bundle_matches(es: Seq<(Seq<char>, Seq<u8>)>, b: EdigeoBundle) -> bool {
    &&& b.thf@ == slot_bytes(es, MemberKind::Thf)
    &&& b.geo@ == slot_bytes(es, MemberKind::Geo)
    &&& b.qal@ == slot_bytes(es, MemberKind::Qal)
    &&& b.t1@ == slot_bytes(es, MemberKind::T1)
    &&& b.t2@ == slot_bytes(es, MemberKind::T2)
    &&& b.t3@ == slot_bytes(es, MemberKind::T3)
    &&& b.s1@ == slot_bytes(es, MemberKind::S1)
    &&& (match b.dic {
        Some(v) => slot_present(es, MemberKind::Dic) && v@ == slot_bytes(es, MemberKind::Dic),
        None => !slot_present(es, MemberKind::Dic),
    })
    &&& (match b.gen {
        Some(v) => slot_present(es, MemberKind::Gen) && v@ == slot_bytes(es, MemberKind::Gen),
        None => !slot_present(es, MemberKind::Gen),
    })
    &&& (match b.scd {
        Some(v) => slot_present(es, MemberKind::Scd) && v@ == slot_bytes(es, MemberKind::Scd),
        None => !slot_present(es, MemberKind::Scd),
    })
}

/// What assembling a bundle from member entries returns: the assembled
/// bundle when every mandatory slot is filled, and the completeness error
/// otherwise — no partial bundle is ever returned.
pub open spec fn bundle_from_entries_rel(
    es: Seq<(Seq<char>, Seq<u8>)>,
    r: Result<EdigeoBundle, EdigeoError>,
) -> bool {
    if spec_entries_complete(es) {
        r matches Ok(b) && bundle_matches(es, b) && spec_completed(b)
    } else {
        r matches Err(e) && e == EdigeoError::IncompleteBundle
    }
}

impl EdigeoBundle {
    /// Assembles a bundle from the member entries of one source, checking
    /// the mandatory-completeness invariant once after acquisition.
    pub fn from_entries(entries: &Vec<MemberEntry>) -> (r: Result<EdigeoBundle, EdigeoError>)
        ensures
            bundle_from_entries_rel(entries@.map_values(|e: MemberEntry| e@), r),
    {
        let thf = collect_slot(entries, MemberKind::Thf);
        let geo = collect_slot(entries, MemberKind::Geo);
        let qal = collect_slot(entries, MemberKind::Qal);
        let t1 = collect_slot(entries, MemberKind::T1);
        let t2 = collect_slot(entries, MemberKind::T2);
        let t3 = collect_slot(entries, MemberKind::T3);
        let s1 = collect_slot(entries, MemberKind::S1);
        let dic = collect_slot(entries, MemberKind::Dic);
        let gen = collect_slot(entries, MemberKind::Gen);
        let scd = collect_slot(entries, MemberKind::Scd);
        if thf.0.is_empty() || geo.0.is_empty() || t1.0.is_empty() || t2.0.is_empty()
            || t3.0.is_empty() || s1.0.is_empty() || qal.0.is_empty() {
            return Err(EdigeoError::IncompleteBundle);
        }
        Ok(
            EdigeoBundle {
                thf: thf.0,
                geo: geo.0,
                qal: qal.0,
                t1: t1.0,
                t2: t2.0,
                t3: t3.0,
                s1: s1.0,
                dic: if dic.1 {
                    Some(dic.0)
                } else {
                    None
                },
                gen: if gen.1 {
                    Some(gen.0)
                } else {
                    None
                },
                scd: if scd.1 {
                    Some(scd.0)
                } else {
                    None
                },
            },
        )
    }

    /// Checks the completeness invariant: every mandatory member file of
    /// the exchange is present and non-empty.
    pub fn is_completed(&self) -> (r: bool)
        ensures
            r == spec_completed(*self),
    {
        !self.thf.is_empty() && !self.geo.is_empty() && !self.t1.is_empty() && !self.t2.is_empty()
            && !self.t3.is_empty() && !self.s1.is_empty() && !self.qal.is_empty()
    }

    /// Decodes the manifest's raw bytes from the legacy single-byte
    /// encoding to text.
    pub fn decode_thf(&self) -> (r: String)
        ensures
            r@ == latin1_of(self.thf@),
    {
        decode_file(self.thf.as_slice())
    }
}

impl Default for EdigeoBundle {
    /// The empty bundle: every slot empty, every optional slot absent.
    fn default() -> (b: EdigeoBundle)
        ensures
            b.thf@.len() == 0,
            b.geo@.len() == 0,
            b.qal@.len() == 0,
            b.t1@.len() == 0,
            b.t2@.len() == 0,
            b.t3@.len() == 0,
            b.s1@.len() == 0,
            b.dic is None,
            b.gen is None,
            b.scd is None,
    {
        EdigeoBundle {
            thf: Vec::new(),
            geo: Vec::new(),
            qal: Vec::new(),
            t1: Vec::new(),
            t2: Vec::new(),
            t3: Vec::new(),
            s1: Vec::new(),
            dic: None,
            gen: None,
            scd: None,
        }
    }
}

} // verus!
