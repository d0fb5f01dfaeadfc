//! Where a popup goes relative to its parent.

use vstd::prelude::*;

use crate::geometry::Rect;

verus! {

/// A point of the anchor rectangle, or a direction from it.
#[derive(Clone, Copy, Debug, PartialEq, Eq, Structural)]
pub enum Edge {
    Top,
    Bottom,
    TopRight,
}

/// The ways in which the compositor may move a popup that does not fit: sliding and flipping along
/// both axes.
pub const SLIDE_AND_FLIP: u32 = 0xF;

/// The rules for placing a popup.
#[derive(Clone, Copy, Debug, PartialEq, Eq, Structural)]
pub struct Positioner {
    pub width: i32,
    pub height: i32,
    pub anchor_rect: Rect,
    pub anchor: Edge,
    pub gravity: Edge,
    pub constraint_adjustment: u32,
}

/// The rules for a popup of this size that grows from a single point in one direction.
pub open spec fn placed_at(width: i32, height: i32, x: i32, y: i32, edge: Edge) -> Positioner {
    Positioner {
        width,
        height,
        anchor_rect: Rect { x, y, width: 1, height: 1 },
        anchor: edge,
        gravity: edge,
        constraint_adjustment: SLIDE_AND_FLIP,
    }
}

impl Positioner {
    /// The executable form of [`placed_at`].
    pub fn at_point(width: i32, height: i32, x: i32, y: i32, edge: Edge) -> (positioner: Positioner)
        ensures
            positioner == placed_at(width, height, x, y, edge),
    {
        Positioner {
            width,
            height,
            anchor_rect: Rect { x, y, width: 1, height: 1 },
            anchor: edge,
            gravity: edge,
            constraint_adjustment: SLIDE_AND_FLIP,
        }
    }
}

/// A popup that grows from a point has its own size, is anchored at that one pixel, and grows away
/// from the edge it is anchored to; the compositor may slide and flip it along both axes.
pub proof fn law_popups_grow_from_their_point(
    width: i32,
    height: i32,
    x: i32,
    y: i32,
    edge: Edge,
    px: int,
    py: int,
)
    ensures
        ({
            let placed = placed_at(width, height, x, y, edge);
            &&& placed.width == width
            &&& placed.height == height
            &&& placed.anchor_rect.has_point(px, py) <==> px == x && py == y
            &&& placed.anchor == edge
            &&& placed.gravity == edge
            &&& placed.constraint_adjustment == 0xF
        }),
{
}

} // verus!
