//! Terminal rectangles, computed by `ratatui`.

use vstd::prelude::*;

use crate::paint::Area;

verus! {

/// The area `Rect::new(x, y, width, height)` makes: the width and height are
/// clamped so that the area stays within the `u16` coordinate range.
pub open spec fn rect_spec(x: u16, y: u16, width: u16, height: u16) -> Area {
    Area {
        x,
        y,
        width: if width > u16::MAX - x {
            (u16::MAX - x) as u16
        } else {
            width
        },
        height: if height > u16::MAX - y {
            (u16::MAX - y) as u16
        } else {
            height
        },
    }
}

/// `ratatui::layout::Rect::new`. Claims what its source does: the width is
/// clamped to `u16::MAX - x` and the height to `u16::MAX - y`.
#[verifier::external_body]
pub(crate) fn rect(x: u16, y: u16, width: u16, height: u16) -> (a: Area)
    ensures
        a == rect_spec(x, y, width, height),
{
    let r = ratatui::layout::Rect::new(x, y, width, height);
    Area { x: r.x, y: r.y, width: r.width, height: r.height }
}

/// `ratatui::layout::Rect::bottom`. Claims what its source does: the row below
/// the area, `y + height` saturated at `u16::MAX`.
#[verifier::external_body]
pub(crate) fn bottom(a: Area) -> (b: u16)
    ensures
        b == a.bottom_spec(),
{
    ratatui::layout::Rect { x: a.x, y: a.y, width: a.width, height: a.height }.bottom()
}

/// The area inside a border on all four sides.
pub open spec fn inner_spec(a: Area) -> Area {
    let x1 = if a.x + 1 <= u16::MAX {
        (a.x + 1) as u16
    } else {
        u16::MAX
    };
    let right = if a.x + a.width <= u16::MAX {
        (a.x + a.width) as u16
    } else {
        u16::MAX
    };
    let y1 = if a.y + 1 <= u16::MAX {
        (a.y + 1) as u16
    } else {
        u16::MAX
    };
    Area {
        x: if x1 <= right {
            x1
        } else {
            right
        },
        y: if y1 <= a.bottom_spec() {
            y1
        } else {
            a.bottom_spec()
        },
        width: if a.width >= 2 {
            (a.width - 2) as u16
        } else {
            0
        },
        height: if a.height >= 2 {
            (a.height - 2) as u16
        } else {
            0
        },
    }
}

/// `ratatui::widgets::Block::inner` for a block with borders on all sides and
/// no padding. Claims what its source does: each border takes one cell from
/// its side (saturating), and the corner moves right and down by one, but not
/// past the area's far edge.
#[verifier::external_body]
pub(crate) fn block_inner(a: Area) -> (inner: Area)
    ensures
        inner == inner_spec(a),
{
    let block = ratatui::widgets::Block::default().borders(ratatui::widgets::Borders::ALL);
    let r = block.inner(ratatui::layout::Rect { x: a.x, y: a.y, width: a.width, height: a.height });
    Area { x: r.x, y: r.y, width: r.width, height: r.height }
}

} // verus!
