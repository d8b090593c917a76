//! Memory housekeeping for hash maps.

use vstd::prelude::*;
use std::collections::HashMap;
use std::hash::{BuildHasher, Hash};

verus! {

/// Calls `HashMap::capacity`: the number of entries the map can hold without
/// reallocating. The number depends on the allocator's choices, so nothing is
/// claimed of it.
#[verifier::external_body]
fn capacity<K, V, H>(map: &HashMap<K, V, H>) -> usize {
    map.capacity()
}

/// Calls `HashMap::shrink_to_fit`, which gives back spare capacity and keeps
/// every entry.
#[verifier::external_body]
fn shrink_to_fit<K: Eq + Hash, V, H: BuildHasher>(map: &mut HashMap<K, V, H>)
    ensures
        final(map)@ == old(map)@,
{
    map.shrink_to_fit()
}

/// Whether a map with `len` entries and room for `capacity` is worth
/// shrinking: when it uses less than a third of its capacity.
pub fn is_sparse(len: usize, capacity: usize) -> (r: bool)
    ensures
        r == (len * 3 < capacity),
{
    match len.checked_mul(3) {
        Some(tripled) => tripled < capacity,
        None => false,
    }
}

/// Memory optimization for hash maps.
pub trait HashMapExt {
    /// Attempts to optimize the map's memory consumption by shrinking it if
    /// the number of entries is a lot less than its capacity.
    fn optimize(&mut self);
}

impl<K: Eq + Hash, V, H: BuildHasher> HashMapExt for HashMap<K, V, H> {
    fn optimize(&mut self)
        ensures
            final(self)@ == old(self)@,
    {
        if is_sparse(self.len(), capacity(self)) {
            shrink_to_fit(self);
        }
    }
}

} // verus!
