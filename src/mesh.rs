//! Face layout of the mesh-brick output.
//!
//! The profile is extruded into a wall between two heights: for each edge
//! (previous vertex, vertex) of the closed profile, four quadrilaterals
//! close the section between the profile and its projection onto the inner
//! radius. Points are kept abstract: the caller scales and projects them.
use crate::pairs::{cyclic_pairs, prev_index};
use vstd::prelude::*;

verus! {

/// The two heights between which the wall stands.
#[derive(Clone, Copy, Debug, PartialEq, Eq, Structural)]
pub enum Level {
    Lower,
    Upper,
}

/// Face `k` (0 to 3) of the section from `prev` to `p`, whose inner points
/// are `prev_c` and `c`: the outer wall, the upper cap, the lower cap, the
/// inner wall.
pub open spec fn section_face<T>(prev: T, p: T, prev_c: T, c: T, k: int) -> Seq<(T, Level)> {
    if k == 0 {
        seq![(prev, Level::Upper), (p, Level::Upper), (p, Level::Lower), (prev, Level::Lower)]
    } else if k == 1 {
        seq![(prev, Level::Upper), (prev_c, Level::Upper), (c, Level::Upper), (p, Level::Upper)]
    } else if k == 2 {
        seq![(prev, Level::Lower), (prev_c, Level::Lower), (c, Level::Lower), (p, Level::Lower)]
    } else {
        seq![(prev_c, Level::Upper), (prev_c, Level::Lower), (c, Level::Lower), (c, Level::Upper)]
    }
}

/// Face `j` of the whole wall: face `j % 4` of the section that ends at
/// vertex `j / 4`.
pub open spec fn wall_face<T>(outer: Seq<T>, inner: Seq<T>, j: int) -> Seq<(T, Level)> {
    let i = j / 4;
    let h = prev_index(i, outer.len() as int);
    section_face(outer[h], outer[i], inner[h], inner[i], j % 4)
}

/// The four faces of one section, in the order of `section_face`.
fn section_faces<T: Copy>(prev: T, p: T, prev_c: T, c: T) -> (r: [[(T, Level); 4]; 4])
    ensures
        forall|k: int| 0 <= k < 4 ==> #[trigger] r@[k]@ == section_face(prev, p, prev_c, c, k),
{
    let r = [
        [(prev, Level::Upper), (p, Level::Upper), (p, Level::Lower), (prev, Level::Lower)],
        [(prev, Level::Upper), (prev_c, Level::Upper), (c, Level::Upper), (p, Level::Upper)],
        [(prev, Level::Lower), (prev_c, Level::Lower), (c, Level::Lower), (p, Level::Lower)],
        [(prev_c, Level::Upper), (prev_c, Level::Lower), (c, Level::Lower), (c, Level::Upper)],
    ];
    assert(r@[0]@ =~= section_face(prev, p, prev_c, c, 0));
    assert(r@[1]@ =~= section_face(prev, p, prev_c, c, 1));
    assert(r@[2]@ =~= section_face(prev, p, prev_c, c, 2));
    assert(r@[3]@ =~= section_face(prev, p, prev_c, c, 3));
    r
}

/// All faces of the wall whose outer outline is the closed polyline
/// `outer` and whose inner outline is `inner` (vertex for vertex): four per
/// vertex, in vertex order.
pub fn ldraw_faces<T: Copy>(outer: &Vec<T>, inner: &Vec<T>) -> (r: Vec<[(T, Level); 4]>)
    requires
        outer@.len() == inner@.len(),
        4 * outer@.len() <= usize::MAX,
    ensures
        r@.len() == 4 * outer@.len(),
        forall|j: int| 0 <= j < r@.len() ==> #[trigger] r@[j]@ == wall_face(outer@, inner@, j),
{
    let edges = cyclic_pairs(outer);
    let inner_edges = cyclic_pairs(inner);
    let n = outer.len();
    let mut r: Vec<[(T, Level); 4]> = Vec::new();
    let mut i: usize = 0;
    while i < n
        invariant
            n == outer@.len(),
            n == inner@.len(),
            4 * n <= usize::MAX,
            edges@.len() == n,
            inner_edges@.len() == n,
            forall|m: int|
                0 <= m < n ==> #[trigger] edges@[m] == (
                    outer@[prev_index(m, n as int)],
                    outer@[m],
                ),
            forall|m: int|
                0 <= m < n ==> #[trigger] inner_edges@[m] == (
                    inner@[prev_index(m, n as int)],
                    inner@[m],
                ),
            i <= n,
            r@.len() == 4 * i,
            forall|j: int| 0 <= j < r@.len() ==> #[trigger] r@[j]@ == wall_face(outer@, inner@, j),
        decreases n - i,
    {
        let (prev, p) = edges[i];
        let (prev_c, c) = inner_edges[i];
        let faces = section_faces(prev, p, prev_c, c);
        let ghost start = r@.len() as int;
        r.push(faces[0]);
        r.push(faces[1]);
        r.push(faces[2]);
        r.push(faces[3]);
        assert forall|j: int| 0 <= j < r@.len() implies #[trigger] r@[j]@ == wall_face(
            outer@,
            inner@,
            j,
        ) by {
            if j >= start {
                let k = j - start;
                assert(j / 4 == i as int && j % 4 == k) by (nonlinear_arith)
                    requires
                        start == 4 * i,
                        0 <= k < 4,
                        j == start + k,
                ;
                assert(r@[j] == faces@[k]);
            }
        }
        i += 1;
    }
    r
}

} // verus!
