use vstd::prelude::*;
use crate::rect::Rect;
use crate::scale::Scale;
use crate::Axises;

verus! {

/// The scale policy of each border edge, along the edge, and of the center on
/// each axis. Corners, and each edge across its width, always stretch.
#[derive(Clone, Copy, Debug, PartialEq, Eq, Hash)]
pub struct Style {
    pub border: Rect<Scale>,
    pub center: Axises<Scale>,
}

impl Style {
    /// Whether every policy of the style is `Stretch`.
    pub open spec fn is_stretch(self) -> bool {
        &&& self.border.left == Scale::Stretch
        &&& self.border.right == Scale::Stretch
        &&& self.border.top == Scale::Stretch
        &&& self.border.bottom == Scale::Stretch
        &&& self.center.horizontal == Scale::Stretch
        &&& self.center.vertical == Scale::Stretch
    }

    /// `scale` everywhere.
    pub fn new(scale: Scale) -> (r: Self)
        ensures
            r.border.left == scale,
            r.border.right == scale,
            r.border.top == scale,
            r.border.bottom == scale,
            r.center.horizontal == scale,
            r.center.vertical == scale,
    {
        Self::new_horizontal_vertical(scale, scale)
    }

    /// `horizontal` along each horizontal strip (the top and bottom edges and
    /// the center), `vertical` along each vertical one (the left and right
    /// edges and the center).
    pub fn new_horizontal_vertical(horizontal: Scale, vertical: Scale) -> (r: Self)
        ensures
            r.border.left == vertical,
            r.border.right == vertical,
            r.border.top == horizontal,
            r.border.bottom == horizontal,
            r.center.horizontal == horizontal,
            r.center.vertical == vertical,
    {
        Self {
            border: Rect { left: vertical, right: vertical, top: horizontal, bottom: horizontal },
            center: Axises { horizontal, vertical },
        }
    }
}

impl Default for Style {
    /// Stretch everywhere.
    fn default() -> (r: Style)
        ensures
            r.is_stretch(),
    {
        Style::new(Scale::Stretch)
    }
}

} // verus!
