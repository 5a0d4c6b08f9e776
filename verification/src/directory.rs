//! Mapping the file names of a directory listing onto the member-file slots
//! of one lot, by the same suffix contract the bundle uses.

use vstd::prelude::*;

use crate::bundle::{classify, spec_classify, MemberKind};

verus! {

/// The file name that a slot ends up holding after a pass over a listing:
/// the last name whose suffix selects the slot, if any.
pub open spec fn opt_slot_name(names: Seq<Seq<char>>, kind: MemberKind) -> Option<Seq<char>>
    decreases names.len(),
{
    if names.len() == 0 {
        None
    } else if spec_classify(names.last()) == Some(kind) {
        Some(names.last())
    } else {
        opt_slot_name(names.drop_last(), kind)
    }
}

/// The file name of a mandatory slot, or the empty string when no name in
/// the listing selects it.
pub open spec fn slot_name_or_empty(names: Seq<Seq<char>>, kind: MemberKind) -> Seq<char> {
    match opt_slot_name(names, kind) {
        Some(nm) => nm,
        None => Seq::empty(),
    }
}

/// Finds the name that a slot ends up holding after a pass over a listing.
fn collect_name(names: &Vec<String>, kind: MemberKind) -> (r: Option<String>)
    ensures
        ({
            let ns = names@.map_values(|n: String| n@);
            match r {
                Some(s) => opt_slot_name(ns, kind) == Some(s@),
                None => opt_slot_name(ns, kind) is None,
            }
        }),
{
    let ghost ns = names@.map_values(|n: String| n@);
    let mut cur: Option<String> = None;
    let mut k: usize = 0;
    while k < names.len()
        invariant
            k <= names@.len(),
            ns =~~= names@.map_values(|n: String| n@),
            match cur {
                Some(s) => opt_slot_name(ns.subrange(0, k as int), kind) == Some(s@),
                None => opt_slot_name(ns.subrange(0, k as int), kind) is None,
            },
        decreases names@.len() - k,
    {
        let ghost pre = ns.subrange(0, k as int);
        let ghost pre2 = ns.subrange(0, k as int + 1);
        proof {
            assert(pre2.drop_last() =~= pre);
            assert(pre2.last() == ns[k as int]);
        }
        let hit = classify(names[k].as_str());
        let mut matched: bool = false;
        match hit {
            Some(k2) => {
                if k2 == kind {
                    matched = true;
                }
            },
            None => {},
        }
        if matched {
            cur = Some(names[k].clone());
        }
        k = k + 1;
    }
    proof {
        assert(ns.subrange(0, ns.len() as int) =~= ns);
    }
    cur
}

/// The member file names of one lot, as found in a directory listing: the
/// mandatory slots as names, empty when absent, and the optional slots as
/// present names.
#[derive(Debug, PartialEq, Eq)]
pub struct EdigeoDir {
    /// Name of the manifest file.
    pub thf: String,
    /// Name of the geographical reference file.
    pub geo: String,
    /// Name of the quality file.
    pub qal: String,
    /// Name of the first vector file.
    pub t1: String,
    /// Name of the second vector file.
    pub t2: String,
    /// Name of the third vector file.
    pub t3: String,
    /// Name of the supplementary vector file.
    pub s1: String,
    /// Name of the optional dictionary file.
    pub dic: Option<String>,
    /// Name of the optional general file.
    pub gen: Option<String>,
    /// Name of the optional schema file.
    pub scd: Option<String>,
}

impl EdigeoDir {
    /// Maps the file names of a directory listing onto the member-file
    /// slots: for each slot, the last listed name whose suffix selects it;
    /// unmatched names are ignored.
    pub fn extract_files(names: &Vec<String>) -> (r: EdigeoDir)
        ensures
            ({
                let ns = names@.map_values(|n: String| n@);
                &&& r.thf@ == slot_name_or_empty(ns, MemberKind::Thf)
                &&& r.geo@ == slot_name_or_empty(ns, MemberKind::Geo)
                &&& r.qal@ == slot_name_or_empty(ns, MemberKind::Qal)
                &&& r.t1@ == slot_name_or_empty(ns, MemberKind::T1)
                &&& r.t2@ == slot_name_or_empty(ns, MemberKind::T2)
                &&& r.t3@ == slot_name_or_empty(ns, MemberKind::T3)
                &&& r.s1@ == slot_name_or_empty(ns, MemberKind::S1)
                &&& (match r.dic {
                    Some(s) => opt_slot_name(ns, MemberKind::Dic) == Some(s@),
                    None => opt_slot_name(ns, MemberKind::Dic) is None,
                })
                &&& (match r.gen {
                    Some(s) => opt_slot_name(ns, MemberKind::Gen) == Some(s@),
                    None => opt_slot_name(ns, MemberKind::Gen) is None,
                })
                &&& (match r.scd {
                    Some(s) => opt_slot_name(ns, MemberKind::Scd) == Some(s@),
                    None => opt_slot_name(ns, MemberKind::Scd) is None,
                })
            }),
    {
        let thf = collect_name(names, MemberKind::Thf);
        let geo = collect_name(names, MemberKind::Geo);
        let qal = collect_name(names, MemberKind::Qal);
        let t1 = collect_name(names, MemberKind::T1);
        let t2 = collect_name(names, MemberKind::T2);
        let t3 = collect_name(names, MemberKind::T3);
        let s1 = collect_name(names, MemberKind::S1);
        let dic = collect_name(names, MemberKind::Dic);
        let gen = collect_name(names, MemberKind::Gen);
        let scd = collect_name(names, MemberKind::Scd);
        EdigeoDir {
            thf: match thf {
                Some(s) => s,
                None => String::new(),
            },
            geo: match geo {
                Some(s) => s,
                None => String::new(),
            },
            qal: match qal {
                Some(s) => s,
                None => String::new(),
            },
            t1: match t1 {
                Some(s) => s,
                None => String::new(),
            },
            t2: match t2 {
                Some(s) => s,
                None => String::new(),
            },
            t3: match t3 {
                Some(s) => s,
                None => String::new(),
            },
            s1: match s1 {
                Some(s) => s,
                None => String::new(),
            },
            dic,
            gen,
            scd,
        }
    }
}

impl Default for EdigeoDir {
    /// The empty listing: every mandatory slot an empty name, every
    /// optional slot absent.
    fn default() -> (r: EdigeoDir)
        ensures
            r.thf@.len() == 0,
            r.geo@.len() == 0,
            r.qal@.len() == 0,
            r.t1@.len() == 0,
            r.t2@.len() == 0,
            r.t3@.len() == 0,
            r.s1@.len() == 0,
            r.dic is None,
            r.gen is None,
            r.scd is None,
    {
        EdigeoDir {
            thf: String::new(),
            geo: String::new(),
            qal: String::new(),
            t1: String::new(),
            t2: String::new(),
            t3: String::new(),
            s1: String::new(),
            dic: None,
            gen: None,
            scd: None,
        }
    }
}

} // verus!
