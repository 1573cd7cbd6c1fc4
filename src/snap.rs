//! Nearest-candidate search over a quantization lattice, and the small
//! vocabulary of slider moves.
use vstd::prelude::*;

verus! {

/// A requested change of a slider's value.
#[derive(Debug, Clone, Copy, PartialEq, Eq, Structural)]
pub enum SliderMove {
    /// Go back to the parameter's default.
    Default,
    /// Move by a signed delta, in normal units; a positive delta moves left.
    Relative(i128),
}

/// Whether an attempted move changed the committed value.
#[derive(Debug, Clone, Copy, PartialEq, Eq, Structural)]
pub enum SliderStatus {
    Moved,
    Unchanged,
}

impl Default for SliderStatus {
    fn default() -> (r: SliderStatus)
        ensures
            r == SliderStatus::Unchanged,
    {
        SliderStatus::Unchanged
    }
}

/// `|a - b|`.
pub open spec fn distance(a: int, b: int) -> int {
    if a >= b {
        a - b
    } else {
        b - a
    }
}

/// `i` is the index of a candidate nearest to `value`, and no candidate
/// before it is as near.
pub open spec fn is_closest(value: int, candidates: Seq<u32>, i: int) -> bool {
    &&& 0 <= i < candidates.len()
    &&& forall|j: int|
        0 <= j < candidates.len() ==> distance(value, candidates[i] as int) <= distance(
            value,
            candidates[j] as int,
        )
    &&& forall|j: int|
        0 <= j < i ==> distance(value, candidates[i] as int) < distance(
            value,
            candidates[j] as int,
        )
}

/// At most one index is the closest one.
pub proof fn lemma_closest_unique(value: int, candidates: Seq<u32>, i: int, k: int)
    requires
        is_closest(value, candidates, i),
        is_closest(value, candidates, k),
    ensures
        i == k,
{
    if i < k {
        assert(distance(value, candidates[k] as int) < distance(value, candidates[i] as int));
    } else if k < i {
        assert(distance(value, candidates[i] as int) < distance(value, candidates[k] as int));
    }
}

fn abs_diff(a: u32, b: u32) -> (r: u32)
    ensures
        r as int == distance(a as int, b as int),
{
    if a >= b {
        a - b
    } else {
        b - a
    }
}

/// The candidate nearest to `value` by absolute distance, with its index;
/// ties go to the earliest candidate.
pub fn find_closest(value: u32, candidates: &Vec<u32>) -> (r: (usize, u32))
    requires
        candidates@.len() > 0,
    ensures
        is_closest(value as int, candidates@, r.0 as int),
        r.1 == candidates@[r.0 as int],
{
    let mut best: usize = 0;
    let mut best_distance: u32 = abs_diff(value, candidates[0]);
    let mut i: usize = 1;
    while i < candidates.len()
        invariant
            1 <= i <= candidates@.len(),
            best < i,
            best_distance as int == distance(value as int, candidates@[best as int] as int),
            forall|j: int|
                0 <= j < i ==> best_distance as int <= distance(value as int, candidates@[j] as int),
            forall|j: int|
                0 <= j < best ==> (best_distance as int) < distance(
                    value as int,
                    candidates@[j] as int,
                ),
        decreases candidates@.len() - i,
    {
        let d: u32 = abs_diff(value, candidates[i]);
        if d < best_distance {
            best = i;
            best_distance = d;
        }
        i = i + 1;
    }
    (best, candidates[best])
}

} // verus!
