//! Edge panning: how far the pointer has entered the margins along a screen
//! axis, in whole pixels.
use vstd::prelude::*;

verus! {

/// Depth of the pointer into the low edge's margin, as a pan towards that
/// edge: `-(margin - pos)` within `margin` of the edge, zero elsewhere.
pub open spec fn low_depth_spec(pos: int, margin: int) -> int {
    if pos < margin {
        -(margin - pos)
    } else {
        0
    }
}

/// Depth of the pointer into the high edge's margin, as a pan towards that
/// edge: `margin - (extent - pos)` within `margin` of the edge, zero elsewhere.
pub open spec fn high_depth_spec(pos: int, extent: int, margin: int) -> int {
    if extent - pos < margin {
        margin - (extent - pos)
    } else {
        0
    }
}

/// Signed depth of the pointer into the edge margins along one screen axis:
/// the pans of every edge whose margin holds the pointer, added together.
pub open spec fn edge_depth_spec(pos: int, extent: int, margin: int) -> int {
    low_depth_spec(pos, margin) + high_depth_spec(pos, extent, margin)
}

/// The signed depth of the pointer into the edge margins on one axis: its
/// sign gives the pan direction, its size over `margin` the share of the
/// maximum pan speed.
pub fn edge_depth(pos: u32, extent: u32, margin: u32) -> (r: i64)
    requires
        pos <= extent,
    ensures
        r as int == edge_depth_spec(pos as int, extent as int, margin as int),
{
    let low: i64 = if pos < margin {
        pos as i64 - margin as i64
    } else {
        0
    };
    let high: i64 = if extent - pos < margin {
        margin as i64 - (extent - pos) as i64
    } else {
        0
    };
    low + high
}

/// Each edge's pan is zero at its margin's boundary and beyond, never larger
/// than the margin, and grows as the pointer moves towards that edge; the
/// depth is zero wherever the pointer is outside both margins, and never
/// falls as the pointer moves towards the high edge.
pub proof fn lemma_edge_depth_shape(extent: int, margin: int, p: int, q: int)
    requires
        0 <= margin,
        0 <= p <= q <= extent,
    ensures
        low_depth_spec(margin, margin) == 0,
        high_depth_spec(extent - margin, extent, margin) == 0,
        -margin <= low_depth_spec(p, margin) <= low_depth_spec(q, margin) <= 0,
        0 <= high_depth_spec(p, extent, margin) <= high_depth_spec(q, extent, margin) <= margin,
        margin <= p && extent - p >= margin ==> edge_depth_spec(p, extent, margin) == 0,
        edge_depth_spec(p, extent, margin) <= edge_depth_spec(q, extent, margin),
{
}

} // verus!
