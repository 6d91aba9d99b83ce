use cam_profile::mesh::ldraw_faces;
use cam_profile::mesh::Level::{Lower as L, Upper as U};
use cam_profile::pairs::{consecutive_pairs, cyclic_pairs};
use cam_profile::segments::{
    plan_segments, segment_step, ConversionError, Primitive, SegmentKind, SegmentStep,
};
use cam_profile::stl::{
    stl_header, write_stl_file, write_stl_quad, write_stl_triangle, write_stl_xy_z, Vertex32,
    STL_HEADER_LEN,
};
use cam_profile::svg_doc::{svg_epilogue, svg_prologue, SVG_EPILOGUE, SVG_PROLOGUE};

const PROLOGUE_TEXT: &str = "<?xml version=\"1.0\" encoding=\"UTF-8\" standalone=\"yes\"?>
<svg xmlns=\"http://www.w3.org/2000/svg\"
     width=\"100mm\" height=\"100mm\" viewBox=\"-50 -50 100 100\">
";

fn appended(steps: &[SegmentStep]) -> Vec<Primitive> {
    steps
        .iter()
        .filter_map(|s| match s {
            SegmentStep::Append(p) => Some(*p),
            _ => None,
        })
        .collect()
}

fn v(x: f32, y: f32, z: f32) -> Vertex32 {
    Vertex32 { x: x.to_bits(), y: y.to_bits(), z: z.to_bits() }
}

#[test]
fn prologue_is_the_fixed_viewport_header() {
    let mut out = Vec::new();
    let n = svg_prologue(&mut out);
    assert_eq!(String::from_utf8(out.clone()).unwrap(), PROLOGUE_TEXT);
    assert_eq!(n, out.len());
    assert_eq!(SVG_PROLOGUE, PROLOGUE_TEXT);
}

#[test]
fn prologue_appends_after_existing_bytes() {
    let mut out = b"abc".to_vec();
    let n = svg_prologue(&mut out);
    assert_eq!(n, PROLOGUE_TEXT.len());
    assert_eq!(&out[..3], b"abc");
    assert_eq!(&out[3..], PROLOGUE_TEXT.as_bytes());
}

#[test]
fn epilogue_closes_the_document() {
    let mut out = Vec::new();
    let n = svg_epilogue(&mut out);
    assert_eq!(out, b"</svg>\n".to_vec());
    assert_eq!(n, 7);
    assert_eq!(SVG_EPILOGUE, "</svg>\n");
}

#[test]
fn template_document_is_prologue_then_epilogue() {
    let mut out = Vec::new();
    svg_prologue(&mut out);
    svg_epilogue(&mut out);
    let text = String::from_utf8(out).unwrap();
    assert!(text.starts_with("<?xml"));
    assert!(text.ends_with("</svg>\n"));
    assert!(!text.contains("<path"));
    assert_eq!(text.len(), PROLOGUE_TEXT.len() + 7);
}

#[test]
fn each_segment_kind_has_its_step() {
    assert_eq!(segment_step(SegmentKind::MoveTo), Some(SegmentStep::Restart));
    assert_eq!(segment_step(SegmentKind::LineTo), Some(SegmentStep::Append(Primitive::Line)));
    assert_eq!(
        segment_step(SegmentKind::CloseTo { near_cursor: false }),
        Some(SegmentStep::Append(Primitive::Line))
    );
    assert_eq!(segment_step(SegmentKind::CloseTo { near_cursor: true }), Some(SegmentStep::Skip));
    assert_eq!(segment_step(SegmentKind::CurveTo), Some(SegmentStep::Append(Primitive::Bezier)));
    assert_eq!(
        segment_step(SegmentKind::Arc { circular: true }),
        Some(SegmentStep::Append(Primitive::CircleArc))
    );
    assert_eq!(segment_step(SegmentKind::Arc { circular: false }), None);
    assert_eq!(segment_step(SegmentKind::Other), None);
}

#[test]
fn square_path_becomes_four_lines() {
    // M 0,0 L 8,0 L 8,8 L 0,8 Z: the closing segment runs from (0,8) to (0,0).
    let kinds = vec![
        SegmentKind::MoveTo,
        SegmentKind::LineTo,
        SegmentKind::LineTo,
        SegmentKind::LineTo,
        SegmentKind::CloseTo { near_cursor: false },
    ];
    let steps = plan_segments(&kinds).unwrap();
    assert_eq!(steps.len(), 5);
    assert_eq!(steps[0], SegmentStep::Restart);
    assert_eq!(appended(&steps), vec![Primitive::Line; 4]);
}

#[test]
fn semicircle_path_becomes_one_circle_arc() {
    // M 6,0 A 6,6 0 0 1 -6,0
    let kinds = vec![SegmentKind::MoveTo, SegmentKind::Arc { circular: true }];
    let steps = plan_segments(&kinds).unwrap();
    assert_eq!(steps, vec![SegmentStep::Restart, SegmentStep::Append(Primitive::CircleArc)]);
}

#[test]
fn mixed_path_keeps_primitive_order() {
    let kinds = vec![
        SegmentKind::MoveTo,
        SegmentKind::CurveTo,
        SegmentKind::Arc { circular: true },
        SegmentKind::LineTo,
        SegmentKind::MoveTo,
        SegmentKind::CurveTo,
    ];
    let steps = plan_segments(&kinds).unwrap();
    assert_eq!(
        appended(&steps),
        vec![Primitive::Bezier, Primitive::CircleArc, Primitive::Line, Primitive::Bezier]
    );
    assert_eq!(steps[4], SegmentStep::Restart);
}

#[test]
fn closing_at_the_cursor_adds_no_primitive() {
    let closed = vec![
        SegmentKind::MoveTo,
        SegmentKind::LineTo,
        SegmentKind::LineTo,
        SegmentKind::LineTo,
        SegmentKind::LineTo,
    ];
    let mut with_close = closed.clone();
    with_close.push(SegmentKind::CloseTo { near_cursor: true });
    let a = plan_segments(&closed).unwrap();
    let b = plan_segments(&with_close).unwrap();
    assert_eq!(b.len(), a.len() + 1);
    assert_eq!(b[5], SegmentStep::Skip);
    assert_eq!(appended(&a), appended(&b));
    assert_eq!(appended(&b).len(), 4);
}

#[test]
fn elliptical_arc_is_unsupported() {
    let kinds = vec![
        SegmentKind::MoveTo,
        SegmentKind::LineTo,
        SegmentKind::Arc { circular: false },
        SegmentKind::Other,
    ];
    assert_eq!(
        plan_segments(&kinds),
        Err(ConversionError::UnsupportedGeometry { index: 2 })
    );
}

#[test]
fn other_shape_is_unsupported() {
    let kinds = vec![SegmentKind::Other, SegmentKind::LineTo];
    assert_eq!(
        plan_segments(&kinds),
        Err(ConversionError::UnsupportedGeometry { index: 0 })
    );
}

#[test]
fn empty_path_plans_nothing() {
    assert_eq!(plan_segments(&Vec::new()), Ok(Vec::new()));
}

#[test]
fn five_samples_give_four_profile_pairs() {
    let raw = vec![(0.0f64, 1.0f64), (1.0, 2.0), (2.0, 3.0), (3.0, 4.0), (4.0, 5.0)];
    let pairs = consecutive_pairs(&raw);
    assert_eq!(pairs.len(), 4);
    for (i, (a, b)) in pairs.iter().enumerate() {
        assert_eq!(*a, raw[i]);
        assert_eq!(*b, raw[i + 1]);
    }
}

#[test]
fn consecutive_pairs_of_short_inputs() {
    assert!(consecutive_pairs::<u8>(&Vec::new()).is_empty());
    assert!(consecutive_pairs(&vec![7u8]).is_empty());
    assert_eq!(consecutive_pairs(&vec![7u8, 9u8]), vec![(7u8, 9u8)]);
}

#[test]
fn cyclic_pairs_start_from_the_last_vertex() {
    assert_eq!(cyclic_pairs(&vec![1, 2, 3]), vec![(3, 1), (1, 2), (2, 3)]);
    assert_eq!(cyclic_pairs(&vec![5]), vec![(5, 5)]);
    assert!(cyclic_pairs::<i32>(&Vec::new()).is_empty());
}

#[test]
fn ldraw_faces_of_two_vertices() {
    let outer = vec!['a', 'b'];
    let inner = vec!['x', 'y'];
    let faces = ldraw_faces(&outer, &inner);
    assert_eq!(faces.len(), 8);
    // section ending at 'a' comes from 'b'
    assert_eq!(faces[0], [('b', U), ('a', U), ('a', L), ('b', L)]);
    assert_eq!(faces[1], [('b', U), ('y', U), ('x', U), ('a', U)]);
    assert_eq!(faces[2], [('b', L), ('y', L), ('x', L), ('a', L)]);
    assert_eq!(faces[3], [('y', U), ('y', L), ('x', L), ('x', U)]);
    assert_eq!(faces[4], [('a', U), ('b', U), ('b', L), ('a', L)]);
    assert_eq!(faces[7], [('x', U), ('x', L), ('y', L), ('y', U)]);
}

#[test]
fn ldraw_faces_of_empty_profile() {
    assert!(ldraw_faces::<u8>(&Vec::new(), &Vec::new()).is_empty());
}

#[test]
fn stl_header_declares_four_facets_per_vertex() {
    let h = stl_header(4);
    assert_eq!(h.len(), STL_HEADER_LEN + 4);
    assert!(h[..80].iter().all(|b| *b == 0));
    assert_eq!(&h[80..], &[16, 0, 0, 0]);
    let h = stl_header(0x0100_8080);
    assert_eq!(&h[80..], &[0x00, 0x02, 0x02, 0x04]);
}

#[test]
fn stl_header_count_wraps_to_32_bits() {
    let h = stl_header(0x4000_0001);
    assert_eq!(&h[80..], &[4, 0, 0, 0]);
    let h = stl_header(0);
    assert_eq!(&h[80..], &[0, 0, 0, 0]);
}

#[test]
fn stl_vertex_is_three_little_endian_floats() {
    let mut out = Vec::new();
    write_stl_xy_z(&mut out, v(1.0, -2.0, 0.5));
    let mut expected = Vec::new();
    expected.extend_from_slice(&1.0f32.to_le_bytes());
    expected.extend_from_slice(&(-2.0f32).to_le_bytes());
    expected.extend_from_slice(&0.5f32.to_le_bytes());
    assert_eq!(out, expected);
    assert_eq!(&out[..4], &[0, 0, 0x80, 0x3f]);
}

#[test]
fn stl_triangle_is_fifty_bytes_with_zero_attribute() {
    let mut out = vec![9u8];
    write_stl_triangle(&mut out, v(0.0, 0.0, 1.0), [v(1.0, 0.0, 0.0), v(0.0, 1.0, 0.0), v(0.0, 0.0, 2.0)]);
    assert_eq!(out.len(), 51);
    assert_eq!(out[0], 9);
    assert_eq!(&out[9..13], &1.0f32.to_le_bytes());
    assert_eq!(&out[13..17], &1.0f32.to_le_bytes());
    assert_eq!(&out[45..49], &2.0f32.to_le_bytes());
    assert_eq!(&out[49..], &[0, 0]);
}

#[test]
fn stl_quad_splits_into_two_triangles() {
    let n = v(0.0, 0.0, 1.0);
    let q = [v(1.0, 0.0, 0.0), v(2.0, 0.0, 0.0), v(3.0, 0.0, 0.0), v(4.0, 0.0, 0.0)];
    let mut out = Vec::new();
    write_stl_quad(&mut out, n, q);
    let mut expected = Vec::new();
    write_stl_triangle(&mut expected, n, [q[0], q[1], q[2]]);
    write_stl_triangle(&mut expected, n, [q[2], q[3], q[0]]);
    assert_eq!(out.len(), 100);
    assert_eq!(out, expected);
    // first corner of the second facet is the third corner of the quad
    assert_eq!(&out[62..66], &3.0f32.to_le_bytes());
}

#[test]
fn stl_file_of_square_profile() {
    let outer: Vec<(u32, u32)> = [(8.0f32, 0.0f32), (0.0, 8.0), (-8.0, 0.0), (0.0, -8.0)]
        .iter()
        .map(|(x, y)| (x.to_bits(), y.to_bits()))
        .collect();
    let inner: Vec<(u32, u32)> = [(6.0f32, 0.0f32), (0.0, 6.0), (-6.0, 0.0), (0.0, -6.0)]
        .iter()
        .map(|(x, y)| (x.to_bits(), y.to_bits()))
        .collect();
    let up = v(0.0, 0.0, 1.0);
    let mut out = Vec::new();
    write_stl_file(&mut out, &outer, &inner, 0.0f32.to_bits(), 8.0f32.to_bits(), up);
    assert_eq!(out.len(), 84 + 4 * 4 * 50);
    assert_eq!(&out[80..84], &[16, 0, 0, 0]);
    // first section: from the last vertex (0,-8) to (8,0); wall normal is (8,0,0)
    let mut expected = stl_header(4);
    let at = |p: (u32, u32), z: f32| Vertex32 { x: p.0, y: p.1, z: z.to_bits() };
    write_stl_quad(
        &mut expected,
        at(outer[0], 0.0),
        [at(outer[3], 0.0), at(outer[0], 0.0), at(outer[0], 8.0), at(outer[3], 8.0)],
    );
    write_stl_quad(
        &mut expected,
        up,
        [at(outer[0], 8.0), at(inner[0], 8.0), at(inner[3], 8.0), at(outer[3], 8.0)],
    );
    assert_eq!(&out[..expected.len()], &expected[..]);
}

#[test]
fn stl_file_is_deterministic() {
    let outer = vec![(1u32, 2u32), (3, 4), (5, 6)];
    let inner = vec![(7u32, 8u32), (9, 10), (11, 12)];
    let mut a = Vec::new();
    let mut b = Vec::new();
    write_stl_file(&mut a, &outer, &inner, 0, 13, v(0.0, 0.0, 1.0));
    write_stl_file(&mut b, &outer, &inner, 0, 13, v(0.0, 0.0, 1.0));
    assert_eq!(a, b);
}
