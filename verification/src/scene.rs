//! Which shape of a scene a ray is taken to hit.

use vstd::prelude::*;

verus! {

/// `index` is the first position of `candidates` that holds something.
pub open spec fn is_first_hit<T>(candidates: Seq<Option<T>>, index: int) -> bool {
    &&& 0 <= index < candidates.len()
    &&& candidates[index] is Some
    &&& forall|j: int| 0 <= j < index ==> candidates[j] is None
}

/// No position of `candidates` holds anything.
pub open spec fn all_miss<T>(candidates: Seq<Option<T>>) -> bool {
    forall|j: int| 0 <= j < candidates.len() ==> candidates[j] is None
}

/// Picks the shape that a ray hits from the results of testing the ray
/// against each shape of the scene, in the scene's order.
///
/// The scene's order decides, not the distance: the first shape with a hit
/// inside the window is taken even if a later shape is hit nearer to the
/// ray's origin.
pub fn first_hit<T>(candidates: &Vec<Option<T>>) -> (found: Option<usize>)
    ensures
        match found {
            Some(index) => is_first_hit(candidates@, index as int),
            None => all_miss(candidates@),
        },
{
    let mut index: usize = 0;
    while index < candidates.len()
        invariant
            index <= candidates.len(),
            forall|j: int| 0 <= j < index ==> candidates@[j] is None,
        decreases candidates.len() - index,
    {
        if candidates[index].is_some() {
            return Some(index);
        }
        index += 1;
    }
    None
}

/// At most one position is the first hit, so the contract of [`first_hit`]
/// leaves no choice; and a scene has a first hit exactly when not every
/// shape is missed.
pub proof fn lemma_first_hit_is_unique<T>(candidates: Seq<Option<T>>, a: int, b: int)
    requires
        is_first_hit(candidates, a),
        is_first_hit(candidates, b),
    ensures
        a == b,
        !all_miss(candidates),
{
}

/// An empty scene is missed by every ray.
pub proof fn lemma_empty_scene_misses<T>(candidates: Seq<Option<T>>)
    requires
        candidates.len() == 0,
    ensures
        all_miss(candidates),
        forall|index: int| !is_first_hit(candidates, index),
{
}

} // verus!
