//! How path segments become curve primitives.
//!
//! A segment is described here by its kind alone, with the two geometric
//! tests that the conversion depends on already answered: whether a closing
//! segment ends at the cursor (so that it would be a zero-length line), and
//! whether an arc is circular (equal radii). From that, the conversion of a
//! whole path is decided: which segments restart a subpath, which are
//! skipped, which primitive each of the others becomes, or that the path
//! holds a shape that no primitive can represent.
use vstd::prelude::*;

verus! {

/// A path segment, by kind.
#[derive(Clone, Copy, Debug, PartialEq, Eq, Structural)]
pub enum SegmentKind {
    /// Starts a new subpath; draws nothing.
    MoveTo,
    /// A straight line to a point.
    LineTo,
    /// A straight line back to the subpath's start; `near_cursor` holds
    /// when that start lies within the closing tolerance of the cursor.
    CloseTo { near_cursor: bool },
    /// A cubic Bezier segment.
    CurveTo,
    /// An arc in centre form; `circular` holds when its two radii agree.
    Arc { circular: bool },
    /// Any other shape.
    Other,
}

/// The curve primitives that a composite curve is built from.
#[derive(Clone, Copy, Debug, PartialEq, Eq, Structural)]
pub enum Primitive {
    Line,
    Bezier,
    CircleArc,
}

/// What the conversion does with one segment.
#[derive(Clone, Copy, Debug, PartialEq, Eq, Structural)]
pub enum SegmentStep {
    /// Move the cursor and the subpath start to the segment's point.
    Restart,
    /// Move the cursor to the segment's point and add no primitive.
    Skip,
    /// Add a primitive from the cursor to the segment's end.
    Append(Primitive),
}

/// Why a path cannot be converted.
#[derive(Clone, Copy, Debug, PartialEq, Eq, Structural)]
pub enum ConversionError {
    /// The segment at `index` has a shape that no primitive represents.
    UnsupportedGeometry { index: usize },
}

/// The step for one segment, or `None` where its shape is unsupported.
pub open spec fn step_of(k: SegmentKind) -> Option<SegmentStep> {
    match k {
        SegmentKind::MoveTo => Some(SegmentStep::Restart),
        SegmentKind::LineTo => Some(SegmentStep::Append(Primitive::Line)),
        SegmentKind::CloseTo { near_cursor } => if near_cursor {
            Some(SegmentStep::Skip)
        } else {
            Some(SegmentStep::Append(Primitive::Line))
        },
        SegmentKind::CurveTo => Some(SegmentStep::Append(Primitive::Bezier)),
        SegmentKind::Arc { circular } => if circular {
            Some(SegmentStep::Append(Primitive::CircleArc))
        } else {
            None
        },
        SegmentKind::Other => None,
    }
}

pub open spec fn supported(k: SegmentKind) -> bool {
    step_of(k) is Some
}

pub open spec fn all_supported(ks: Seq<SegmentKind>) -> bool {
    forall|i: int| 0 <= i < ks.len() ==> supported(#[trigger] ks[i])
}

/// The steps for a path all of whose segments are supported.
pub open spec fn steps_of(ks: Seq<SegmentKind>) -> Seq<SegmentStep> {
    ks.map_values(|k: SegmentKind| step_of(k).unwrap())
}

/// The primitives that a sequence of steps adds, in order.
pub open spec fn primitives_of(steps: Seq<SegmentStep>) -> Seq<Primitive>
    decreases steps.len(),
{
    if steps.len() == 0 {
        Seq::empty()
    } else {
        let rest = primitives_of(steps.subrange(1, steps.len() as int));
        match steps[0] {
            SegmentStep::Append(p) => seq![p] + rest,
            _ => rest,
        }
    }
}

/// The step for one segment, or `None` where its shape is unsupported.
pub fn segment_step(kind: SegmentKind) -> (r: Option<SegmentStep>)
    ensures
        r == step_of(kind),
{
    match kind {
        SegmentKind::MoveTo => Some(SegmentStep::Restart),
        SegmentKind::LineTo => Some(SegmentStep::Append(Primitive::Line)),
        SegmentKind::CloseTo { near_cursor } => if near_cursor {
            Some(SegmentStep::Skip)
        } else {
            Some(SegmentStep::Append(Primitive::Line))
        },
        SegmentKind::CurveTo => Some(SegmentStep::Append(Primitive::Bezier)),
        SegmentKind::Arc { circular } => if circular {
            Some(SegmentStep::Append(Primitive::CircleArc))
        } else {
            None
        },
        SegmentKind::Other => None,
    }
}

/// Decides the conversion of a whole path. It succeeds exactly when every
/// segment is supported, with one step per segment; otherwise it names the
/// first unsupported segment, and nothing of the path is to be built.
pub fn plan_segments(kinds: &Vec<SegmentKind>) -> (r: Result<Vec<SegmentStep>, ConversionError>)
    ensures
        r is Ok <==> all_supported(kinds@),
        r matches Ok(steps) ==> steps@ == steps_of(kinds@),
        r matches Err(ConversionError::UnsupportedGeometry { index }) ==> index < kinds@.len()
            && !supported(kinds@[index as int]) && all_supported(
            kinds@.subrange(0, index as int),
        ),
{
    let mut steps: Vec<SegmentStep> = Vec::new();
    let mut i: usize = 0;
    while i < kinds.len()
        invariant
            i <= kinds@.len(),
            all_supported(kinds@.subrange(0, i as int)),
            steps@ == steps_of(kinds@.subrange(0, i as int)),
        decreases kinds@.len() - i,
    {
        match segment_step(kinds[i]) {
            Some(step) => {
                steps.push(step);
                proof {
                    let done = kinds@.subrange(0, i + 1);
                    assert(done == kinds@.subrange(0, i as int).push(kinds@[i as int]));
                    assert(steps@ =~= steps_of(done));
                    assert(all_supported(done)) by {
                        assert forall|j: int| 0 <= j < done.len() implies supported(
                            #[trigger] done[j],
                        ) by {
                            if j < i {
                                assert(done[j] == kinds@.subrange(0, i as int)[j]);
                            }
                        }
                    }
                }
                i += 1;
            },
            None => {
                proof {
                    assert(!all_supported(kinds@)) by {
                        assert(!supported(kinds@[i as int]));
                    }
                }
                return Err(ConversionError::UnsupportedGeometry { index: i });
            },
        }
    }
    assert(kinds@.subrange(0, i as int) == kinds@);
    Ok(steps)
}

/// A closing segment that ends at the cursor adds no primitive: inserting
/// one anywhere into a path leaves it supported exactly when it was, and
/// leaves the primitives that its conversion adds unchanged.
pub proof fn lemma_near_close_adds_nothing(kinds: Seq<SegmentKind>, i: int)
    requires
        0 <= i <= kinds.len(),
    ensures
        all_supported(kinds.insert(i, SegmentKind::CloseTo { near_cursor: true })) <==> all_supported(
            kinds,
        ),
        all_supported(kinds) ==> primitives_of(
            steps_of(kinds.insert(i, SegmentKind::CloseTo { near_cursor: true })),
        ) == primitives_of(steps_of(kinds)),
    decreases kinds.len(),
{
    let close = SegmentKind::CloseTo { near_cursor: true };
    let longer = kinds.insert(i, close);
    if all_supported(kinds) {
        assert forall|j: int| 0 <= j < longer.len() implies supported(#[trigger] longer[j]) by {
            if j > i {
                assert(longer[j] == kinds[j - 1]);
            }
        }
    }
    if all_supported(longer) {
        assert forall|j: int| 0 <= j < kinds.len() implies supported(#[trigger] kinds[j]) by {
            if j < i {
                assert(longer[j] == kinds[j]);
            } else {
                assert(longer[j + 1] == kinds[j]);
            }
        }
    }
    if all_supported(kinds) {
        let s = steps_of(kinds);
        let t = steps_of(longer);
        if i == 0 {
            assert(t.subrange(1, t.len() as int) =~= s);
        } else {
            let tail = kinds.subrange(1, kinds.len() as int);
            assert(all_supported(tail)) by {
                assert forall|j: int| 0 <= j < tail.len() implies supported(#[trigger] tail[j]) by {
                    assert(tail[j] == kinds[j + 1]);
                }
            }
            lemma_near_close_adds_nothing(tail, i - 1);
            assert(s.subrange(1, s.len() as int) =~= steps_of(tail));
            assert(t.subrange(1, t.len() as int) =~= steps_of(tail.insert(i - 1, close)));
            assert(t[0] == s[0]);
        }
    }
}

} // verus!
