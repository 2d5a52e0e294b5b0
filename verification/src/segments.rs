//! Where a chain keeps its elements: segments of write-once slots, segment `k` holding the
//! `2^k` positions from `2^k - 1` on, so that 64 segments cover every position below
//! `usize::MAX`. A segment is allocated the first time one of its positions is written, and
//! never moves; reading a slot takes no lock.
use std::sync::{Arc, OnceLock};
use vstd::arithmetic::power2::{
    lemma2_to64, lemma_pow2_strictly_increases, lemma_pow2_unfold, pow2,
};
use vstd::prelude::*;

verus! {

/// Number of segments of a chain.
pub const SEGMENTS: usize = 64;

/// Position `position` lies in segment `segment`, at `offset` from the segment's start.
pub open spec fn located(position: nat, segment: nat, offset: nat) -> bool {
    &&& pow2(segment) <= position + 1 < pow2(segment + 1)
    &&& offset == position + 1 - pow2(segment)
}

/// The segment of `position`, the offset of the position in it, and the segment's length.
pub fn locate(position: usize) -> (place: (usize, usize, usize))
    requires
        position < usize::MAX,
    ensures
        place.0 < SEGMENTS,
        located(position as nat, place.0 as nat, place.1 as nat),
        place.2 == pow2(place.0 as nat),
        place.1 < place.2,
{
    let target = position + 1;
    let mut segment: usize = 0;
    let mut start: usize = 1;
    proof {
        lemma2_to64();
    }
    while start <= target / 2
        invariant
            1 <= target,
            start == pow2(segment as nat),
            1 <= start <= target,
            segment < 64,
        decreases target - start,
    {
        proof {
            lemma_pow2_unfold(segment as nat + 1);
            lemma2_to64();
            if segment + 1 >= 64 {
                if segment + 1 > 64 {
                    lemma_pow2_strictly_increases(64, segment as nat + 1);
                }
                assert(false);
            }
        }
        start = start * 2;
        segment = segment + 1;
    }
    proof {
        lemma_pow2_unfold(segment as nat + 1);
    }
    (segment, target - start, start)
}

/// A segment of `length` empty slots.
pub fn new_segment<T>(length: usize) -> (segment: Box<Vec<OnceLock<Arc<T>>>>)
    ensures
        segment@.len() == length,
{
    let mut slots: Vec<OnceLock<Arc<T>>> = Vec::new();
    let mut filled: usize = 0;
    while filled < length
        invariant
            filled <= length,
            slots@.len() == filled,
        decreases length - filled,
    {
        slots.push(crate::cells::once_empty());
        filled = filled + 1;
    }
    Box::new(slots)
}


/// A position has one place only: its segment and offset are determined by it, and the offset
/// lies inside the segment.
pub proof fn lemma_place_is_unique(
    position: nat,
    first: nat,
    first_offset: nat,
    second: nat,
    second_offset: nat,
)
    requires
        located(position, first, first_offset),
        located(position, second, second_offset),
    ensures
        first == second,
        first_offset == second_offset,
        first_offset < pow2(first),
{
    lemma_pow2_unfold(first + 1);
    if first < second {
        if first + 1 < second {
            lemma_pow2_strictly_increases(first + 1, second);
        }
    }
    if second < first {
        if second + 1 < first {
            lemma_pow2_strictly_increases(second + 1, first);
        }
    }
}

/// Distinct positions have distinct places: no two elements of a chain share a slot.
pub proof fn lemma_places_are_distinct(
    first: nat,
    first_segment: nat,
    first_offset: nat,
    second: nat,
    second_segment: nat,
    second_offset: nat,
)
    requires
        located(first, first_segment, first_offset),
        located(second, second_segment, second_offset),
        first != second,
    ensures
        first_segment != second_segment || first_offset != second_offset,
{
}

} // verus!
