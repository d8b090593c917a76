//! Bucketing of measured values.

use vstd::prelude::*;

verus! {

/// The bucket that `size` falls into, searching from index `from`: the first
/// bucket that is at least `size`; the last bucket if there is none; zero if
/// there are no buckets at all.
pub open spec fn bucket_from(size: usize, buckets: Seq<usize>, from: int) -> usize
    decreases buckets.len() - from,
{
    if from < 0 || from >= buckets.len() {
        if buckets.len() == 0 {
            0
        } else {
            buckets.last()
        }
    } else if size <= buckets[from] {
        buckets[from]
    } else {
        bucket_from(size, buckets, from + 1)
    }
}

/// The first bucket that holds `size`, the last one if `size` exceeds them
/// all, zero for an empty list of buckets.
pub fn value_bucket<const NUM_BUCKETS: usize>(size: usize, buckets: &[usize; NUM_BUCKETS]) -> (bucket:
    usize)
    ensures
        bucket == bucket_from(size, buckets@, 0),
        NUM_BUCKETS > 0 ==> buckets@.contains(bucket),
        (exists|i: int| 0 <= i < NUM_BUCKETS && size <= buckets@[i]) ==> size <= bucket,
{
    let mut i: usize = 0;
    while i < NUM_BUCKETS
        invariant
            i <= NUM_BUCKETS,
            buckets@.len() == NUM_BUCKETS,
            bucket_from(size, buckets@, 0) == bucket_from(size, buckets@, i as int),
            forall|j: int| 0 <= j < i ==> size > buckets@[j],
        decreases NUM_BUCKETS - i,
    {
        if size <= buckets[i] {
            assert(buckets@.contains(buckets@[i as int]));
            return buckets[i];
        }
        i = i + 1;
    }
    if NUM_BUCKETS == 0 {
        0
    } else {
        assert(buckets@.contains(buckets@[NUM_BUCKETS - 1]));
        buckets[NUM_BUCKETS - 1]
    }
}

} // verus!
