//! Inference of the strip level of a patch.
use vstd::prelude::*;
use crate::paths::{components_of, join_all, join_components, path_components, texts};

verus! {

/// One probe: stripping `level` leading components of a recorded path gives
/// `path` under the working directory.
pub struct Candidate {
    pub level: usize,
    pub path: String,
}

impl View for Candidate {
    type V = (nat, Seq<char>);

    open spec fn view(&self) -> (nat, Seq<char>) {
        (self.level as nat, self.path@)
    }
}

/// The views of a sequence of candidates.
pub open spec fn views(v: Seq<Candidate>) -> Seq<(nat, Seq<char>)> {
    v.map_values(|c: Candidate| c@)
}

/// The probes for one recorded path: for each level from 0 up to (not
/// including) its number of components, the working directory joined with the
/// components that remain after stripping that many.
pub open spec fn record_candidates(work_dir: Seq<char>, old_path: Seq<char>) -> Seq<(nat, Seq<char>)> {
    let comps = components_of(old_path);
    Seq::new(comps.len(), |k: int| (k as nat, join_all(work_dir, comps.skip(k))))
}

/// The probes for all recorded paths: record by record in their order, levels
/// ascending within each record.
pub open spec fn candidates_of(work_dir: Seq<char>, old_paths: Seq<Seq<char>>) -> Seq<(nat, Seq<char>)>
    decreases old_paths.len(),
{
    if old_paths.len() == 0 {
        Seq::empty()
    } else {
        candidates_of(work_dir, old_paths.drop_last()) + record_candidates(work_dir, old_paths.last())
    }
}

/// The level of the first candidate at or after `i` whose path exists, or 1
/// where none does; `exists[j]` tells whether the path of candidate `j` exists,
/// and a candidate beyond the end of `exists` counts as missing.
pub open spec fn level_from(cands: Seq<(nat, Seq<char>)>, exists: Seq<bool>, i: int) -> nat
    decreases cands.len() - i,
{
    if i < 0 || i >= cands.len() || i >= exists.len() {
        1
    } else if exists[i] {
        cands[i].0
    } else {
        level_from(cands, exists, i + 1)
    }
}

/// The strip level chosen from the probes and what they found.
pub open spec fn chosen_level(cands: Seq<(nat, Seq<char>)>, exists: Seq<bool>) -> nat {
    level_from(cands, exists, 0)
}

/// The probes to make for the recorded old paths of a patch, in the order in
/// which they are tried.
pub fn strip_candidates(old_paths: &Vec<String>, work_dir: &str) -> (r: Vec<Candidate>)
    ensures
        views(r@) == candidates_of(work_dir@, texts(old_paths@)),
{
    let mut r: Vec<Candidate> = Vec::new();
    let mut i: usize = 0;
    while i < old_paths.len()
        invariant
            i <= old_paths.len(),
            views(r@) == candidates_of(work_dir@, texts(old_paths@).take(i as int)),
        decreases old_paths.len() - i,
    {
        let comps = path_components(old_paths[i].as_str());
        let ghost before = views(r@);
        let ghost rec = record_candidates(work_dir@, old_paths@[i as int]@);
        let mut k: usize = 0;
        while k < comps.len()
            invariant
                k <= comps.len(),
                texts(comps@) == components_of(old_paths@[i as int]@),
                rec == record_candidates(work_dir@, old_paths@[i as int]@),
                views(r@) == before + rec.take(k as int),
            decreases comps.len() - k,
        {
            let path = join_components(work_dir, &comps, k);
            let ghost prev = r@;
            r.push(Candidate { level: k, path });
            proof {
                assert(texts(comps@).skip(k as int) =~= components_of(old_paths@[i as int]@).skip(k as int));
                assert(views(r@) =~= views(prev).push(r@[k + before.len()]@));
                assert(rec.take(k + 1) =~= rec.take(k as int).push(rec[k as int]));
            }
            k = k + 1;
        }
        proof {
            let t = texts(old_paths@).take(i + 1);
            assert(t.drop_last() =~= texts(old_paths@).take(i as int));
            assert(t.last() == old_paths@[i as int]@);
            assert(rec.take(k as int) =~= rec);
        }
        i = i + 1;
    }
    assert(texts(old_paths@).take(old_paths.len() as int) =~= texts(old_paths@));
    r
}

/// The strip level for a patch: the level of the first candidate whose path
/// exists, or 1 where none does. `exists[j]` tells whether the path of
/// `candidates[j]` exists.
pub fn guess_strip_level(candidates: &Vec<Candidate>, exists: &Vec<bool>) -> (r: usize)
    ensures
        r == chosen_level(views(candidates@), exists@),
{
    let ghost cs = views(candidates@);
    let mut i: usize = 0;
    while i < candidates.len() && i < exists.len()
        invariant
            i <= candidates.len(),
            cs == views(candidates@),
            level_from(cs, exists@, 0) == level_from(cs, exists@, i as int),
        decreases candidates.len() - i,
    {
        if exists[i] {
            return candidates[i].level;
        }
        i = i + 1;
    }
    1
}

} // verus!
