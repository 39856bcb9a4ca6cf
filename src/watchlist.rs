//! Decisions on a user's lists of items.

use vstd::prelude::*;

verus! {

/// Whether `id` is among `ids`.
pub fn contains_id(ids: &Vec<i64>, id: i64) -> (r: bool)
    ensures
        r == ids@.contains(id),
{
    let mut i: usize = 0;
    while i < ids.len()
        invariant
            i <= ids@.len(),
            forall|j: int| 0 <= j < i ==> ids@[j] != id,
        decreases ids@.len() - i,
    {
        if ids[i] == id {
            assert(ids@[i as int] == id);
            return true;
        }
        i += 1;
    }
    false
}

/// The items of `candidates` that `watched` does not hold.
pub open spec fn not_watched(candidates: Seq<i64>, watched: Seq<i64>) -> Seq<i64> {
    candidates.filter(|x: i64| !watched.contains(x))
}

/// What to suggest from `candidates`: the ones not yet watched, in their order.
pub fn unwatched_suggestions(candidates: &Vec<i64>, watched: &Vec<i64>) -> (r: Vec<i64>)
    ensures
        r@ == not_watched(candidates@, watched@),
{
    let mut out: Vec<i64> = Vec::new();
    let mut i: usize = 0;
    while i < candidates.len()
        invariant
            i <= candidates@.len(),
            out@ == not_watched(candidates@.subrange(0, i as int), watched@),
        decreases candidates@.len() - i,
    {
        let c = candidates[i];
        let ghost prefix = candidates@.subrange(0, i + 1);
        assert(prefix.drop_last() =~= candidates@.subrange(0, i as int));
        assert(prefix.last() == c);
        proof {
            reveal(Seq::filter);
        }
        if !contains_id(watched, c) {
            out.push(c);
        }
        i += 1;
    }
    assert(candidates@.subrange(0, i as int) =~= candidates@);
    out
}

} // verus!
