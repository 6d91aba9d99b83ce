//! Pairings of successive points.
//!
//! The synthesis turns `N + 1` raw samples into `N` profile points, one per
//! pair of successive samples; the mesh writers walk a closed polyline as
//! the pairs (previous vertex, vertex), the first vertex paired with the
//! last.
use vstd::prelude::*;

verus! {

/// Index of the vertex before `i` on a closed polyline of `n` vertices.
pub open spec fn prev_index(i: int, n: int) -> int {
    if i == 0 {
        n - 1
    } else {
        i - 1
    }
}

/// Each element paired with the one after it: `raw.len() - 1` pairs for a
/// non-empty `raw`, none for an empty one.
pub fn consecutive_pairs<T: Copy>(raw: &Vec<T>) -> (r: Vec<(T, T)>)
    ensures
        r@.len() == if raw@.len() == 0 { 0 } else { raw@.len() - 1 },
        forall|i: int| 0 <= i < r@.len() ==> #[trigger] r@[i] == (raw@[i], raw@[i + 1]),
{
    let mut r: Vec<(T, T)> = Vec::new();
    if raw.len() == 0 {
        return r;
    }
    let mut i: usize = 1;
    while i < raw.len()
        invariant
            1 <= i <= raw@.len(),
            r@.len() == i - 1,
            forall|j: int| 0 <= j < r@.len() ==> #[trigger] r@[j] == (raw@[j], raw@[j + 1]),
        decreases raw@.len() - i,
    {
        r.push((raw[i - 1], raw[i]));
        i += 1;
    }
    r
}

/// The edges of the closed polyline `path`, as (previous vertex, vertex):
/// one per vertex, the first vertex's previous one being the last.
pub fn cyclic_pairs<T: Copy>(path: &Vec<T>) -> (r: Vec<(T, T)>)
    ensures
        r@.len() == path@.len(),
        forall|i: int|
            0 <= i < r@.len() ==> #[trigger] r@[i] == (path@[prev_index(i, path@.len() as int)], path@[i]),
{
    let mut r: Vec<(T, T)> = Vec::new();
    let n = path.len();
    if n == 0 {
        return r;
    }
    let mut prev: T = path[n - 1];
    let mut i: usize = 0;
    while i < n
        invariant
            n == path@.len(),
            0 < n,
            i <= n,
            r@.len() == i,
            prev == path@[prev_index(i as int, n as int)],
            forall|j: int|
                0 <= j < r@.len() ==> #[trigger] r@[j] == (path@[prev_index(j, n as int)], path@[j]),
        decreases n - i,
    {
        r.push((prev, path[i]));
        prev = path[i];
        i += 1;
    }
    r
}

} // verus!
