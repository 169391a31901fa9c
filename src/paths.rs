//! Path arithmetic, delegated to `std::path`.
use vstd::prelude::*;

verus! {

/// The components of a path, each as its text, in the way
/// `std::path::Path::components` splits it.
pub uninterp spec fn components_of(p: Seq<char>) -> Seq<Seq<char>>;

/// The path `p` appended to `base`, in the way `std::path::Path::join` builds it.
pub uninterp spec fn path_join(base: Seq<char>, p: Seq<char>) -> Seq<char>;

/// The texts of a sequence of strings.
pub open spec fn texts(v: Seq<String>) -> Seq<Seq<char>> {
    v.map_values(|s: String| s@)
}

/// `base` with each of `comps` pushed onto it in turn.
pub open spec fn join_all(base: Seq<char>, comps: Seq<Seq<char>>) -> Seq<char>
    decreases comps.len(),
{
    if comps.len() == 0 {
        base
    } else {
        path_join(join_all(base, comps.drop_last()), comps.last())
    }
}

/// Relies on std::path::Path::components: the components of `p`, each given
/// back as its text (a component of a `&str` is valid UTF-8, so the lossy
/// conversion keeps it as it is).
#[verifier::external_body]
pub(crate) fn path_components(p: &str) -> (r: Vec<String>)
    ensures
        texts(r@) == components_of(p@),
{
    std::path::Path::new(p).components().map(|c| c.as_os_str().to_string_lossy().into_owned()).collect()
}

/// Relies on std::path::Path::join: `p` appended to `base` (the join of two
/// `&str` is valid UTF-8, so the lossy conversion keeps it as it is).
#[verifier::external_body]
pub(crate) fn join_path(base: &str, p: &str) -> (r: String)
    ensures
        r@ == path_join(base@, p@),
{
    std::path::Path::new(base).join(p).to_string_lossy().into_owned()
}

/// `base` with the components `comps[from..]` pushed onto it in order.
pub fn join_components(base: &str, comps: &Vec<String>, from: usize) -> (r: String)
    requires
        from <= comps.len(),
    ensures
        r@ == join_all(base@, texts(comps@).skip(from as int)),
{
    let mut acc = base.to_owned();
    let mut i: usize = from;
    while i < comps.len()
        invariant
            from <= i <= comps.len(),
            acc@ == join_all(base@, texts(comps@).subrange(from as int, i as int)),
        decreases comps.len() - i,
    {
        let next = join_path(acc.as_str(), comps[i].as_str());
        proof {
            let s = texts(comps@).subrange(from as int, i + 1);
            assert(s.drop_last() =~= texts(comps@).subrange(from as int, i as int));
            assert(s.last() == comps@[i as int]@);
        }
        acc = next;
        i = i + 1;
    }
    assert(texts(comps@).subrange(from as int, comps.len() as int) =~= texts(comps@).skip(from as int));
    acc
}

} // verus!
