//! Cam-follower profile synthesis: the exact, integer and byte-level parts.
//!
//! The floating-point geometry (curve sampling, the four-bar construction)
//! lives with the program around this library; what is here decides how
//! path segments become curve primitives, how raw samples pair up into
//! profile points, and how the output documents are framed byte for byte.
use vstd::prelude::*;

pub mod mesh;
pub mod pairs;
pub mod segments;
pub mod stl;
pub mod svg_doc;

verus! {

} // verus!
