//! Byte layout of the binary triangle-mesh output.
//!
//! Coordinates arrive as the bit patterns of single-precision floats (what
//! `f32::to_bits` gives); every number is stored least significant byte
//! first.
use byteorder::{ByteOrder, LittleEndian};
use crate::pairs::{cyclic_pairs, prev_index};
use vstd::prelude::*;

verus! {

/// Length of the blank header that opens the file.
pub const STL_HEADER_LEN: usize = 80;

/// A 3D point or normal, as single-precision bit patterns.
#[derive(Clone, Copy, Debug, PartialEq, Eq, Structural)]
pub struct Vertex32 {
    pub x: u32,
    pub y: u32,
    pub z: u32,
}

/// `n` in four bytes, least significant first.
pub open spec fn le_u32(n: u32) -> Seq<u8> {
    seq![
        (n % 256) as u8,
        ((n / 256) % 256) as u8,
        ((n / 65536) % 256) as u8,
        (n / 16777216) as u8,
    ]
}

/// `n` in two bytes, least significant first.
pub open spec fn le_u16(n: u16) -> Seq<u8> {
    seq![(n % 256) as u8, (n / 256) as u8]
}

pub open spec fn vertex_bytes(v: Vertex32) -> Seq<u8> {
    le_u32(v.x) + le_u32(v.y) + le_u32(v.z)
}

/// One facet record: the normal, three corners, and a zero attribute word.
pub open spec fn triangle_bytes(normal: Vertex32, a: Vertex32, b: Vertex32, c: Vertex32) -> Seq<
    u8,
> {
    vertex_bytes(normal) + vertex_bytes(a) + vertex_bytes(b) + vertex_bytes(c) + le_u16(0)
}

/// A quadrilateral `v[0] v[1] v[2] v[3]` as the two facets `v[0] v[1] v[2]`
/// and `v[2] v[3] v[0]`.
pub open spec fn quad_bytes(normal: Vertex32, v: Seq<Vertex32>) -> Seq<u8> {
    triangle_bytes(normal, v[0], v[1], v[2]) + triangle_bytes(normal, v[2], v[3], v[0])
}

/// The facet count that the header declares for a profile of
/// `vertex_count` vertices: two quadrilaterals of two facets each per
/// vertex, kept to 32 bits.
pub open spec fn facet_count(vertex_count: nat) -> u32 {
    ((4 * vertex_count) % 0x1_0000_0000) as u32
}

/// Relies on byteorder's `LittleEndian::write_u32`, which copies
/// `n.to_le_bytes()` into the first four bytes of the buffer.
#[verifier::external_body]
fn u32_to_le(n: u32) -> (r: [u8; 4])
    ensures
        r@ == le_u32(n),
{
    let mut buf = [0u8; 4];
    LittleEndian::write_u32(&mut buf, n);
    buf
}

/// Relies on byteorder's `LittleEndian::write_u16`, which copies
/// `n.to_le_bytes()` into the first two bytes of the buffer.
#[verifier::external_body]
fn u16_to_le(n: u16) -> (r: [u8; 2])
    ensures
        r@ == le_u16(n),
{
    let mut buf = [0u8; 2];
    LittleEndian::write_u16(&mut buf, n);
    buf
}

fn push_u32(out: &mut Vec<u8>, n: u32)
    ensures
        final(out)@ == old(out)@ + le_u32(n),
{
    let b = u32_to_le(n);
    out.push(b[0]);
    out.push(b[1]);
    out.push(b[2]);
    out.push(b[3]);
    assert(out@ =~= old(out)@ + le_u32(n));
}

fn push_u16(out: &mut Vec<u8>, n: u16)
    ensures
        final(out)@ == old(out)@ + le_u16(n),
{
    let b = u16_to_le(n);
    out.push(b[0]);
    out.push(b[1]);
    assert(out@ =~= old(out)@ + le_u16(n));
}

/// Appends the three coordinates of `v`.
pub fn write_stl_xy_z(out: &mut Vec<u8>, v: Vertex32)
    ensures
        final(out)@ == old(out)@ + vertex_bytes(v),
{
    push_u32(out, v.x);
    push_u32(out, v.y);
    push_u32(out, v.z);
    assert(out@ =~= old(out)@ + vertex_bytes(v));
}

/// Appends one facet record (50 bytes).
pub fn write_stl_triangle(out: &mut Vec<u8>, normal: Vertex32, vertices: [Vertex32; 3])
    ensures
        final(out)@ == old(out)@ + triangle_bytes(
            normal,
            vertices@[0],
            vertices@[1],
            vertices@[2],
        ),
{
    write_stl_xy_z(out, normal);
    write_stl_xy_z(out, vertices[0]);
    write_stl_xy_z(out, vertices[1]);
    write_stl_xy_z(out, vertices[2]);
    push_u16(out, 0);
    assert(out@ =~= old(out)@ + triangle_bytes(normal, vertices@[0], vertices@[1], vertices@[2]));
}

/// Appends a quadrilateral as two facet records.
pub fn write_stl_quad(out: &mut Vec<u8>, normal: Vertex32, vertices: [Vertex32; 4])
    ensures
        final(out)@ == old(out)@ + quad_bytes(normal, vertices@),
{
    write_stl_triangle(out, normal, [vertices[0], vertices[1], vertices[2]]);
    write_stl_triangle(out, normal, [vertices[2], vertices[3], vertices[0]]);
    assert(out@ =~= old(out)@ + quad_bytes(normal, vertices@));
}

/// The file's opening for a profile of `vertex_count` vertices: the blank
/// header, then the facet count.
pub open spec fn header_bytes(vertex_count: nat) -> Seq<u8> {
    Seq::new(STL_HEADER_LEN as nat, |i: int| 0u8) + le_u32(facet_count(vertex_count))
}

/// The 2D point `v` (as bit patterns) placed at height `z`.
pub open spec fn at(v: (u32, u32), z: u32) -> Vertex32 {
    Vertex32 { x: v.0, y: v.1, z }
}

/// The section of the mesh from `prev` to `p`: the outer wall, whose
/// normal is horizontal (its z is +0.0, bit pattern 0), then the upper cap
/// towards the inner points `prev_c`, `c`, with normal `up`.
pub open spec fn section_bytes(
    prev: (u32, u32),
    p: (u32, u32),
    prev_c: (u32, u32),
    c: (u32, u32),
    lower: u32,
    upper: u32,
    up: Vertex32,
) -> Seq<u8> {
    quad_bytes(at(p, 0), seq![at(prev, lower), at(p, lower), at(p, upper), at(prev, upper)])
        + quad_bytes(up, seq![at(p, upper), at(c, upper), at(prev_c, upper), at(prev, upper)])
}

/// The sections that end at the first `k` vertices of the closed profile
/// `outer`, whose inner outline is `inner`.
pub open spec fn sections_bytes(
    outer: Seq<(u32, u32)>,
    inner: Seq<(u32, u32)>,
    lower: u32,
    upper: u32,
    up: Vertex32,
    k: nat,
) -> Seq<u8>
    decreases k,
{
    if k == 0 {
        Seq::empty()
    } else {
        let i = k - 1;
        let h = prev_index(i, outer.len() as int);
        sections_bytes(outer, inner, lower, upper, up, (k - 1) as nat) + section_bytes(
            outer[h],
            outer[i],
            inner[h],
            inner[i],
            lower,
            upper,
            up,
        )
    }
}

/// The file's opening for a profile of `vertex_count` vertices.
pub fn stl_header(vertex_count: usize) -> (r: Vec<u8>)
    ensures
        r@ == header_bytes(vertex_count as nat),
{
    let mut r: Vec<u8> = Vec::new();
    let mut i: usize = 0;
    while i < STL_HEADER_LEN
        invariant
            i <= STL_HEADER_LEN,
            r@ == Seq::new(i as nat, |j: int| 0u8),
        decreases STL_HEADER_LEN - i,
    {
        r.push(0u8);
        i += 1;
        assert(r@ =~= Seq::new(i as nat, |j: int| 0u8));
    }
    let count: u32 = ((vertex_count as u64 % 0x4000_0000) * 4) as u32;
    assert(count == facet_count(vertex_count as nat));
    push_u32(&mut r, count);
    r
}

/// Appends the whole mesh of the wall between the closed profile `outer`
/// and its inner outline `inner` (vertex for vertex), standing from
/// `lower` to `upper`, with `up` as the normal of the upper cap.
pub fn write_stl_file(
    out: &mut Vec<u8>,
    outer: &Vec<(u32, u32)>,
    inner: &Vec<(u32, u32)>,
    lower: u32,
    upper: u32,
    up: Vertex32,
)
    requires
        outer@.len() == inner@.len(),
    ensures
        final(out)@ == old(out)@ + header_bytes(outer@.len()) + sections_bytes(
            outer@,
            inner@,
            lower,
            upper,
            up,
            outer@.len(),
        ),
{
    let header = stl_header(outer.len());
    let mut h: usize = 0;
    while h < header.len()
        invariant
            h <= header@.len(),
            out@ == old(out)@ + header@.subrange(0, h as int),
        decreases header@.len() - h,
    {
        out.push(header[h]);
        h += 1;
        assert(header@.subrange(0, h as int) == header@.subrange(0, h - 1) + seq![header@[h - 1]]);
    }
    assert(header@.subrange(0, h as int) == header@);
    let ghost opened = out@;
    let edges = cyclic_pairs(outer);
    let inner_edges = cyclic_pairs(inner);
    let n = outer.len();
    let mut i: usize = 0;
    while i < n
        invariant
            n == outer@.len(),
            n == inner@.len(),
            edges@.len() == n,
            inner_edges@.len() == n,
            forall|m: int|
                0 <= m < n ==> #[trigger] edges@[m] == (
                    outer@[prev_index(m, n as int)],
                    outer@[m],
                ),
            forall|m: int|
                0 <= m < n ==> #[trigger] inner_edges@[m] == (
                    inner@[prev_index(m, n as int)],
                    inner@[m],
                ),
            i <= n,
            opened == old(out)@ + header_bytes(n as nat),
            out@ == opened + sections_bytes(outer@, inner@, lower, upper, up, i as nat),
        decreases n - i,
    {
        let (prev, p) = edges[i];
        let (prev_c, c) = inner_edges[i];
        write_stl_quad(
            out,
            Vertex32 { x: p.0, y: p.1, z: 0 },
            [
                Vertex32 { x: prev.0, y: prev.1, z: lower },
                Vertex32 { x: p.0, y: p.1, z: lower },
                Vertex32 { x: p.0, y: p.1, z: upper },
                Vertex32 { x: prev.0, y: prev.1, z: upper },
            ],
        );
        write_stl_quad(
            out,
            up,
            [
                Vertex32 { x: p.0, y: p.1, z: upper },
                Vertex32 { x: c.0, y: c.1, z: upper },
                Vertex32 { x: prev_c.0, y: prev_c.1, z: upper },
                Vertex32 { x: prev.0, y: prev.1, z: upper },
            ],
        );
        proof {
            let k = (i + 1) as nat;
            assert(sections_bytes(outer@, inner@, lower, upper, up, k) == sections_bytes(
                outer@,
                inner@,
                lower,
                upper,
                up,
                i as nat,
            ) + section_bytes(prev, p, prev_c, c, lower, upper, up));
            assert(seq![at(prev, lower), at(p, lower), at(p, upper), at(prev, upper)] =~= [
                Vertex32 { x: prev.0, y: prev.1, z: lower },
                Vertex32 { x: p.0, y: p.1, z: lower },
                Vertex32 { x: p.0, y: p.1, z: upper },
                Vertex32 { x: prev.0, y: prev.1, z: upper },
            ]@);
        }
        i += 1;
    }
}

} // verus!
