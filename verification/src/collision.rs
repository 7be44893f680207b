//! The decisions of the post-layout collision pass: which element of an
//! overlapping pair moves, along which axis a callout label may move, and which
//! pairs the resolver leaves alone.

use vstd::prelude::*;
use crate::types::{Side, side_is_horizontal};

verus! {

/// Movement priority for collision resolution. A lower level is less willing
/// to move; `Immovable` never moves. Variants are declared in increasing level.
#[derive(Debug, Clone, Copy, PartialEq, Eq, PartialOrd, Ord, Structural)]
pub enum FlexPriority {
    /// Fixed elements that never move (arrow stubs, frame edges)
    Immovable,
    /// Corner detail inset: can shift but prefers not to
    CornerDetail,
    /// Callout labels: shift along their side's normal
    Callout,
    /// Proportional thumbnail: the most flexible
    Thumbnail,
}

/// The numeric level of a movement priority.
pub open spec fn flex_level(p: FlexPriority) -> u8 {
    match p {
        FlexPriority::Immovable => 0,
        FlexPriority::CornerDetail => 2,
        FlexPriority::Callout => 3,
        FlexPriority::Thumbnail => 4,
    }
}

impl FlexPriority {
    /// The numeric level (0, 2, 3, 4 in declaration order).
    pub fn level(&self) -> (l: u8)
        ensures
            l == flex_level(*self),
    {
        match self {
            FlexPriority::Immovable => 0,
            FlexPriority::CornerDetail => 2,
            FlexPriority::Callout => 3,
            FlexPriority::Thumbnail => 4,
        }
    }
}

/// The movement levels rise in the order arrow stubs and frame edges, corner
/// detail inset, callout labels, thumbnail: of two elements the later in that
/// order is the one that moves.
pub proof fn lemma_flex_levels_ordered()
    ensures
        flex_level(FlexPriority::Immovable) < flex_level(FlexPriority::CornerDetail),
        flex_level(FlexPriority::CornerDetail) < flex_level(FlexPriority::Callout),
        flex_level(FlexPriority::Callout) < flex_level(FlexPriority::Thumbnail),
        forall|p: FlexPriority| flex_level(FlexPriority::Immovable) <= #[trigger] flex_level(p),
{
}

/// Identifies which visual element takes part in collision resolution.
#[derive(Debug, Clone, Copy, PartialEq, Eq, Structural)]
pub enum ElementId {
    /// A positioned callout label (index into the positioned callouts)
    Callout(usize),
    /// The corner detail inset box
    CornerDetail,
    /// The proportional thumbnail silhouette
    Thumbnail,
    /// An outward-pointing arrow stub at one end of a callout's extent
    ArrowStub { callout: usize, side: Side },
}

/// Axis along which an element can be shifted.
#[derive(Debug, Clone, Copy, PartialEq, Eq, Structural)]
pub enum Axis {
    X,
    Y,
}

/// Of two overlapping elements `i` and `j`, the one that moves is the more
/// flexible (higher level); on a tie the first, `i`, moves. Returns
/// `(fixed, flexible)`.
pub fn split_fixed_flexible(i: usize, pi: FlexPriority, j: usize, pj: FlexPriority) -> (r: (
    usize,
    usize,
))
    ensures
        r == (if flex_level(pi) >= flex_level(pj) {
            (j, i)
        } else {
            (i, j)
        }),
        r.1 == i && i != j ==> flex_level(pi) >= flex_level(pj),
        r.1 == j && i != j ==> flex_level(pj) > flex_level(pi),
{
    if pi.level() >= pj.level() {
        (j, i)
    } else {
        (i, j)
    }
}

/// The side recorded for callout `i`; a missing entry counts as the top.
pub open spec fn recorded_side(sides: Seq<Side>, i: usize) -> Side {
    if i < sides.len() {
        sides[i as int]
    } else {
        Side::Top
    }
}

/// A pair whose single-axis shifts cannot clear an overlap: a callout label
/// against the thumbnail, or two callout labels on perpendicular sides.
pub open spec fn pair_unresolvable(a: ElementId, b: ElementId, sides: Seq<Side>) -> bool {
    match (a, b) {
        (ElementId::Callout(_), ElementId::Thumbnail) => true,
        (ElementId::Thumbnail, ElementId::Callout(_)) => true,
        (ElementId::Callout(i), ElementId::Callout(j)) => side_is_horizontal(
            recorded_side(sides, i),
        ) != side_is_horizontal(recorded_side(sides, j)),
        _ => false,
    }
}

fn side_of(sides: &Vec<Side>, i: usize) -> (s: Side)
    ensures
        s == recorded_side(sides@, i),
{
    if i < sides.len() {
        sides[i]
    } else {
        Side::Top
    }
}

/// Whether an element is a callout label.
pub open spec fn is_callout(e: ElementId) -> bool {
    e is Callout
}

/// The laws of the skipped pairs.
///
/// Only two kinds of pair are skipped: a callout label against the thumbnail,
/// and two callout labels on perpendicular sides. Any pair that holds an arrow
/// stub or the corner detail inset, and any pair of which neither element is a
/// callout label, is resolved. Two callout labels on the same side, or on
/// opposite sides, are resolved; a label on a horizontal side against one on a
/// vertical side is skipped.
pub proof fn lemma_skipped_pairs(a: ElementId, b: ElementId, sides: Seq<Side>)
    ensures
        a is ArrowStub || b is ArrowStub ==> !pair_unresolvable(a, b, sides),
        a is CornerDetail || b is CornerDetail ==> !pair_unresolvable(a, b, sides),
        !is_callout(a) && !is_callout(b) ==> !pair_unresolvable(a, b, sides),
        pair_unresolvable(a, b, sides) ==> is_callout(a) || is_callout(b),
        is_callout(a) && b is Thumbnail ==> pair_unresolvable(a, b, sides),
        a is Thumbnail && is_callout(b) ==> pair_unresolvable(a, b, sides),
        forall|i: usize, j: usize|
            a == ElementId::Callout(i) && b == ElementId::Callout(j) ==> (pair_unresolvable(
                a,
                b,
                sides,
            ) <==> ((recorded_side(sides, i) == Side::Top || recorded_side(sides, i)
                == Side::Bottom) != (recorded_side(sides, j) == Side::Top || recorded_side(sides, j)
                == Side::Bottom))),
        forall|i: usize, j: usize|
            a == ElementId::Callout(i) && b == ElementId::Callout(j) && recorded_side(sides, i)
                == recorded_side(sides, j) ==> !pair_unresolvable(a, b, sides),
{
}

/// Whether the resolver skips the pair `(a, b)`; `callout_sides[i]` is the side
/// that callout `i` was placed on.
pub fn skip_unresolvable_pair(a: ElementId, b: ElementId, callout_sides: &Vec<Side>) -> (r: bool)
    ensures
        r == pair_unresolvable(a, b, callout_sides@),
        r ==> is_callout(a) || is_callout(b),
        a is ArrowStub || b is ArrowStub || a is CornerDetail || b is CornerDetail ==> !r,
        (is_callout(a) && b is Thumbnail) || (a is Thumbnail && is_callout(b)) ==> r,
        forall|i: usize, j: usize|
            a == ElementId::Callout(i) && b == ElementId::Callout(j) ==> (r <==> ((recorded_side(
                callout_sides@,
                i,
            ) == Side::Top || recorded_side(callout_sides@, i) == Side::Bottom) != (recorded_side(
                callout_sides@,
                j,
            ) == Side::Top || recorded_side(callout_sides@, j) == Side::Bottom))),
{
    proof {
        lemma_skipped_pairs(a, b, callout_sides@);
    }
    match (a, b) {
        (ElementId::Callout(_), ElementId::Thumbnail) => true,
        (ElementId::Thumbnail, ElementId::Callout(_)) => true,
        (ElementId::Callout(i), ElementId::Callout(j)) => {
            side_of(callout_sides, i).is_horizontal() != side_of(callout_sides, j).is_horizontal()
        },
        _ => false,
    }
}

/// Whether a pair is skipped does not depend on the order of the pair.
pub proof fn lemma_skip_symmetric(a: ElementId, b: ElementId, sides: Seq<Side>)
    ensures
        pair_unresolvable(a, b, sides) == pair_unresolvable(b, a, sides),
{
}

/// The axis along which a callout label on `side` may move, and whether it
/// moves toward smaller coordinates (outward from the top and left sides).
pub open spec fn callout_shift(side: Side) -> (Axis, bool) {
    match side {
        Side::Top => (Axis::Y, true),
        Side::Bottom => (Axis::Y, false),
        Side::Left => (Axis::X, true),
        Side::Right => (Axis::X, false),
    }
}

/// How a callout label on `side` may move to clear an overlap: along its
/// side's normal, outward only. Returns the axis and whether the shift is
/// toward smaller coordinates.
pub fn callout_shift_axis(side: Side) -> (r: (Axis, bool))
    ensures
        r == callout_shift(side),
        (r.0 == Axis::Y) == side_is_horizontal(side),
        (r.0 == Axis::Y) <==> (side == Side::Top || side == Side::Bottom),
        r.1 <==> (side == Side::Top || side == Side::Left),
{
    match side {
        Side::Top => (Axis::Y, true),
        Side::Bottom => (Axis::Y, false),
        Side::Left => (Axis::X, true),
        Side::Right => (Axis::X, false),
    }
}

} // verus!
