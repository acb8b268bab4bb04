//! Decisions of a scene trace, made over hit distances given as order keys: integers that
//! compare as the distances do (the bit pattern of a non-negative double is one such key).
use vstd::prelude::*;

verus! {

/// `key` is no farther than any hit in `hits`.
pub open spec fn no_farther(key: u64, hits: Seq<Option<u64>>) -> bool {
    forall|j: int| 0 <= j < hits.len() ==> (#[trigger] hits[j] matches Some(k) ==> key <= k)
}

/// No hit before position `i` of `hits` is as near as `key`.
pub open spec fn strictly_nearer_than_earlier(key: u64, hits: Seq<Option<u64>>, i: int) -> bool {
    forall|j: int| 0 <= j < i ==> (#[trigger] hits[j] matches Some(k) ==> key < k)
}

/// The nearest of the primitives' hits along one ray, by position in the primitive list.
/// `hits[j]` is the distance key of primitive `j`'s hit, `None` where it is missed.
/// Among hits at the same distance the first in the list is chosen.
pub fn nearest_hit(hits: &Vec<Option<u64>>) -> (r: Option<usize>)
    ensures
        r is None <==> forall|j: int| 0 <= j < hits@.len() ==> #[trigger] hits@[j] is None,
        r matches Some(i) ==> {
            &&& i < hits@.len()
            &&& hits@[i as int] matches Some(key)
            &&& no_farther(key, hits@)
            &&& strictly_nearer_than_earlier(key, hits@, i as int)
        },
{
    let mut best: Option<usize> = None;
    let mut best_key: u64 = 0;
    let mut i: usize = 0;
    while i < hits.len()
        invariant
            i <= hits@.len(),
            best is None <==> forall|j: int| 0 <= j < i ==> #[trigger] hits@[j] is None,
            best matches Some(b) ==> {
                &&& b < i
                &&& hits@[b as int] == Some(best_key)
                &&& no_farther(best_key, hits@.take(i as int))
                &&& strictly_nearer_than_earlier(best_key, hits@, b as int)
            },
        decreases hits@.len() - i,
    {
        if let Some(k) = hits[i] {
            let replace = match best {
                None => true,
                Some(_) => k < best_key,
            };
            if replace {
                proof {
                    assert forall|j: int| 0 <= j < i implies (#[trigger] hits@[j] matches Some(
                        kj,
                    ) ==> k < kj) by {
                        if best is Some {
                            assert(hits@.take(i as int)[j] == hits@[j]);
                        }
                    }
                }
                best = Some(i);
                best_key = k;
            }
        }
        proof {
            if let Some(b) = best {
                assert forall|j: int| 0 <= j < i + 1 implies (#[trigger] hits@.take(i + 1)[j] matches Some(
                    kj,
                ) ==> best_key <= kj) by {
                    if j < i {
                        assert(hits@.take(i + 1)[j] == hits@.take(i as int)[j]);
                    }
                }
            }
        }
        i = i + 1;
    }
    proof {
        assert(hits@.take(hits@.len() as int) =~= hits@);
    }
    best
}

/// Whether a light reaches a surface point, from what the shadow ray toward it found.
/// `shadow_hit` is the distance key of the nearest hit along the shadow ray, if any;
/// `light_distance` that of the light itself, `None` for a light at infinity (directional).
/// A hit blocks the light only where it lies strictly nearer than the light.
pub fn lit(shadow_hit: Option<u64>, light_distance: Option<u64>) -> (r: bool)
    ensures
        r == match shadow_hit {
            None => true,
            Some(d) => match light_distance {
                Some(l) => d >= l,
                None => false,
            },
        },
{
    match shadow_hit {
        None => true,
        Some(d) => match light_distance {
            Some(l) => d >= l,
            None => false,
        },
    }
}

} // verus!
