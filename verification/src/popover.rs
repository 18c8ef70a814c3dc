//! Placement of popovers around their anchor, and when they are dismissed.

use vstd::prelude::*;

verus! {

/// Where a popover opens relative to its anchor: the side, then the edge of
/// that side it is aligned with.
#[derive(Clone, Copy, Debug, PartialEq, Eq, Structural)]
pub enum PopoverPlacement {
    TopStart,
    Top,
    TopEnd,
    RightStart,
    Right,
    RightEnd,
    BottomStart,
    Bottom,
    BottomEnd,
    LeftStart,
    Left,
    LeftEnd,
}

impl Default for PopoverPlacement {
    fn default() -> (p: Self)
        ensures
            p == PopoverPlacement::BottomStart,
    {
        PopoverPlacement::BottomStart
    }
}

/// The placement on the opposite side of the anchor, with the same
/// alignment.
pub open spec fn flip_spec(p: PopoverPlacement) -> PopoverPlacement {
    match p {
        PopoverPlacement::TopStart => PopoverPlacement::BottomStart,
        PopoverPlacement::Top => PopoverPlacement::Bottom,
        PopoverPlacement::TopEnd => PopoverPlacement::BottomEnd,
        PopoverPlacement::RightStart => PopoverPlacement::LeftStart,
        PopoverPlacement::Right => PopoverPlacement::Left,
        PopoverPlacement::RightEnd => PopoverPlacement::LeftEnd,
        PopoverPlacement::BottomStart => PopoverPlacement::TopStart,
        PopoverPlacement::Bottom => PopoverPlacement::Top,
        PopoverPlacement::BottomEnd => PopoverPlacement::TopEnd,
        PopoverPlacement::LeftStart => PopoverPlacement::RightStart,
        PopoverPlacement::Left => PopoverPlacement::Right,
        PopoverPlacement::LeftEnd => PopoverPlacement::RightEnd,
    }
}

impl PopoverPlacement {
    /// The placement on the opposite side of the anchor, tried when the
    /// popover does not fit in the window where it was asked for.
    pub fn flip(&self) -> (p: Self)
        ensures
            p == flip_spec(*self),
    {
        match self {
            PopoverPlacement::TopStart => PopoverPlacement::BottomStart,
            PopoverPlacement::Top => PopoverPlacement::Bottom,
            PopoverPlacement::TopEnd => PopoverPlacement::BottomEnd,
            PopoverPlacement::RightStart => PopoverPlacement::LeftStart,
            PopoverPlacement::Right => PopoverPlacement::Left,
            PopoverPlacement::RightEnd => PopoverPlacement::LeftEnd,
            PopoverPlacement::BottomStart => PopoverPlacement::TopStart,
            PopoverPlacement::Bottom => PopoverPlacement::Top,
            PopoverPlacement::BottomEnd => PopoverPlacement::TopEnd,
            PopoverPlacement::LeftStart => PopoverPlacement::RightStart,
            PopoverPlacement::Left => PopoverPlacement::Right,
            PopoverPlacement::LeftEnd => PopoverPlacement::RightEnd,
        }
    }
}

/// The side of the anchor a placement opens on: 0 top, 1 right, 2 bottom,
/// 3 left, in clockwise order.
pub open spec fn placement_side(p: PopoverPlacement) -> int {
    match p {
        PopoverPlacement::TopStart | PopoverPlacement::Top | PopoverPlacement::TopEnd => 0,
        PopoverPlacement::RightStart | PopoverPlacement::Right | PopoverPlacement::RightEnd => 1,
        PopoverPlacement::BottomStart | PopoverPlacement::Bottom | PopoverPlacement::BottomEnd => 2,
        PopoverPlacement::LeftStart | PopoverPlacement::Left | PopoverPlacement::LeftEnd => 3,
    }
}

/// The edge of its side a placement is aligned with: -1 start, 0 center,
/// 1 end.
pub open spec fn placement_alignment(p: PopoverPlacement) -> int {
    match p {
        PopoverPlacement::TopStart | PopoverPlacement::RightStart | PopoverPlacement::BottomStart
        | PopoverPlacement::LeftStart => -1,
        PopoverPlacement::Top | PopoverPlacement::Right | PopoverPlacement::Bottom
        | PopoverPlacement::Left => 0,
        PopoverPlacement::TopEnd | PopoverPlacement::RightEnd | PopoverPlacement::BottomEnd
        | PopoverPlacement::LeftEnd => 1,
    }
}

/// A flip moves the popover to the opposite side of its anchor and keeps
/// its alignment; a placement is fixed by its side and its alignment.
pub proof fn lemma_flip_opposite_side(p: PopoverPlacement, q: PopoverPlacement)
    ensures
        placement_side(flip_spec(p)) == (placement_side(p) + 2) % 4,
        placement_alignment(flip_spec(p)) == placement_alignment(p),
        placement_side(p) == placement_side(q) && placement_alignment(p) == placement_alignment(q)
            ==> p == q,
{
}

/// Flipping twice gives back the placement asked for, and a flip always
/// moves the popover to another placement.
pub proof fn lemma_flip_involution(p: PopoverPlacement)
    ensures
        flip_spec(flip_spec(p)) == p,
        flip_spec(p) != p,
{
}

/// An open popover is dismissed on Escape, or on a click outside it.
pub fn should_dismiss(esc_pressed: bool, clicked: bool, hovered: bool) -> (r: bool)
    ensures
        r == (esc_pressed || (clicked && !hovered)),
{
    esc_pressed || (clicked && !hovered)
}

} // verus!
