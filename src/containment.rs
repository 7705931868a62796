use vstd::prelude::*;

verus! {

/// The components of a path, each as a sequence of characters.
pub open spec fn components_view(v: &Vec<String>) -> Seq<Seq<char>> {
    v@.map_values(|s: String| s@)
}

/// `path` equals `base` or lies below it: `base` is a whole-component prefix
/// of `path`, so `/home/userX` is not within `/home/user`.
pub open spec fn is_within(path: Seq<Seq<char>>, base: Seq<Seq<char>>) -> bool {
    base.len() <= path.len() && path.subrange(0, base.len() as int) =~= base
}

/// Tests whether `path` is `base` itself or one of its descendants,
/// comparing whole components.
pub fn starts_with_components(path: &Vec<String>, base: &Vec<String>) -> (r: bool)
    ensures
        r == is_within(components_view(path), components_view(base)),
{
    if base.len() > path.len() {
        return false;
    }
    let mut i: usize = 0;
    while i < base.len()
        invariant
            base.len() <= path.len(),
            i <= base.len(),
            forall|j: int| 0 <= j < i ==> path@[j]@ == base@[j]@,
        decreases base.len() - i,
    {
        if path[i] != base[i] {
            assert(components_view(path).subrange(0, base.len() as int)[i as int]
                != components_view(base)[i as int]);
            return false;
        }
        i = i + 1;
    }
    assert(components_view(path).subrange(0, base.len() as int) =~= components_view(base));
    true
}

} // verus!
