//! The extent of a figure: the upright box around every place the pen has been.

use vstd::prelude::*;
use crate::state::{Pos, Size, in_reach};

verus! {

/// An upright box, given by two corners. The second axis points up: the top
/// left corner has the least `x` and the greatest `y`.
#[derive(Clone, Copy, Debug, PartialEq, Eq, Structural)]
pub struct Square {
    /// Top left corner
    pub top_left: Pos,
    /// Bottom right corner
    pub bottom_right: Pos,
}

/// The least box around the places of `path`, which is not empty.
pub open spec fn hull(path: Seq<Pos>) -> Square
    decreases path.len(),
{
    if path.len() <= 1 {
        Square::point(path[0])
    } else {
        hull(path.drop_last()).stretched(path.last())
    }
}

impl Square {
    /// The corners are within reach and in order.
    pub open spec fn wf(self) -> bool {
        &&& self.top_left.in_reach()
        &&& self.bottom_right.in_reach()
        &&& self.top_left.x <= self.bottom_right.x
        &&& self.bottom_right.y <= self.top_left.y
    }

    /// The box that holds `p` alone.
    pub open spec fn point(p: Pos) -> Square {
        Square { top_left: p, bottom_right: p }
    }

    /// Whether `p` lies in the box, its border included.
    pub open spec fn holds(self, p: Pos) -> bool {
        &&& self.top_left.x <= p.x <= self.bottom_right.x
        &&& self.bottom_right.y <= p.y <= self.top_left.y
    }

    /// Whether every place of `other` lies in this box.
    pub open spec fn covers(self, other: Square) -> bool {
        self.holds(other.top_left) && self.holds(other.bottom_right)
    }

    /// The least box that holds this one and `p`.
    pub open spec fn stretched(self, p: Pos) -> Square {
        Square {
            top_left: Pos {
                x: if p.x < self.top_left.x { p.x } else { self.top_left.x },
                y: if p.y > self.top_left.y { p.y } else { self.top_left.y },
            },
            bottom_right: Pos {
                x: if p.x > self.bottom_right.x { p.x } else { self.bottom_right.x },
                y: if p.y < self.bottom_right.y { p.y } else { self.bottom_right.y },
            },
        }
    }

    pub open spec fn spec_width(self) -> int {
        self.bottom_right.x - self.top_left.x
    }

    pub open spec fn spec_height(self) -> int {
        self.top_left.y - self.bottom_right.y
    }

    /// The box of the same size whose top left corner is `p`.
    pub open spec fn moved_to(self, p: Pos) -> Square {
        Square {
            top_left: p,
            bottom_right: Pos {
                x: (p.x + self.spec_width()) as i64,
                y: (p.y - self.spec_height()) as i64,
            },
        }
    }

    /// A box whose two corners are `p`.
    pub fn at(p: Pos) -> (s: Square)
        ensures
            s == Square::point(p),
    {
        Square { top_left: p, bottom_right: p }
    }

    /// Square width
    pub fn width(&self) -> (w: i64)
        requires
            self.wf(),
        ensures
            w == self.spec_width(),
            0 <= w <= 2 * crate::state::LIMIT,
    {
        self.bottom_right.x - self.top_left.x
    }

    /// Square height
    pub fn height(&self) -> (h: i64)
        requires
            self.wf(),
        ensures
            h == self.spec_height(),
            0 <= h <= 2 * crate::state::LIMIT,
    {
        self.top_left.y - self.bottom_right.y
    }

    /// Square size
    pub fn size(&self) -> (s: Size)
        requires
            self.wf(),
        ensures
            s.w == self.spec_width(),
            s.h == self.spec_height(),
    {
        Size { w: self.width(), h: self.height() }
    }

    /// Moves the box so that its top left corner is `point`; width and
    /// height stay. The moved box must stay within reach.
    pub fn set_position(&mut self, point: Pos)
        requires
            old(self).wf(),
            point.in_reach(),
            in_reach(point.x + old(self).spec_width()),
            in_reach(point.y - old(self).spec_height()),
        ensures
            *final(self) == old(self).moved_to(point),
            final(self).wf(),
            final(self).spec_width() == old(self).spec_width(),
            final(self).spec_height() == old(self).spec_height(),
    {
        let size = self.size();
        self.top_left = point;
        self.bottom_right.x = self.top_left.x + size.w;
        self.bottom_right.y = self.top_left.y - size.h;
    }

    /// Update the size if `point` is out of the square area
    pub fn update_max_area(&mut self, point: Pos)
        ensures
            *final(self) == old(self).stretched(point),
    {
        if point.x < self.top_left.x {
            self.top_left.x = point.x;
        }
        if point.y > self.top_left.y {
            self.top_left.y = point.y;
        }
        if point.x > self.bottom_right.x {
            self.bottom_right.x = point.x;
        }
        if point.y < self.bottom_right.y {
            self.bottom_right.y = point.y;
        }
    }
}

/// Stretching a box keeps it in order, keeps what it held, takes the new
/// place in, and yields the least such box.
pub proof fn lemma_stretched(s: Square, p: Pos)
    requires
        s.wf(),
        p.in_reach(),
    ensures
        s.stretched(p).wf(),
        s.stretched(p).holds(p),
        s.stretched(p).covers(s),
        forall|q: Pos| s.holds(q) ==> #[trigger] s.stretched(p).holds(q),
        forall|b: Square| b.covers(s) && b.holds(p) ==> #[trigger] b.covers(s.stretched(p)),
        s.holds(p) ==> s.stretched(p) == s,
{
}

/// The extent of a path is the bounding box of its places: it holds each of
/// them, and each of its four sides passes through one of them, so no
/// smaller box holds them all.
pub proof fn lemma_hull_is_bounding_box(path: Seq<Pos>)
    requires
        path.len() > 0,
        forall|i: int| 0 <= i < path.len() ==> (#[trigger] path[i]).in_reach(),
    ensures
        hull(path).wf(),
        forall|i: int| 0 <= i < path.len() ==> hull(path).holds(#[trigger] path[i]),
        exists|i: int| 0 <= i < path.len() && (#[trigger] path[i]).x == hull(path).top_left.x,
        exists|i: int| 0 <= i < path.len() && (#[trigger] path[i]).x == hull(path).bottom_right.x,
        exists|i: int| 0 <= i < path.len() && (#[trigger] path[i]).y == hull(path).top_left.y,
        exists|i: int| 0 <= i < path.len() && (#[trigger] path[i]).y == hull(path).bottom_right.y,
    decreases path.len(),
{
    if path.len() > 1 {
        let rest = path.drop_last();
        let last = path.len() - 1;
        lemma_hull_is_bounding_box(rest);
        lemma_stretched(hull(rest), path.last());
        assert forall|i: int| 0 <= i < path.len() implies hull(path).holds(#[trigger] path[i]) by {
            if i < last {
                assert(rest[i] == path[i]);
            }
        }
        let a = choose|i: int| 0 <= i < rest.len() && (#[trigger] rest[i]).x == hull(rest).top_left.x;
        let b = choose|i: int| 0 <= i < rest.len() && (#[trigger] rest[i]).x == hull(rest).bottom_right.x;
        let c = choose|i: int| 0 <= i < rest.len() && (#[trigger] rest[i]).y == hull(rest).top_left.y;
        let d = choose|i: int| 0 <= i < rest.len() && (#[trigger] rest[i]).y == hull(rest).bottom_right.y;
        assert(rest[a] == path[a] && rest[b] == path[b] && rest[c] == path[c] && rest[d] == path[d]);
        let h = hull(path);
        assert(path[a].x == h.top_left.x || path[last].x == h.top_left.x);
        assert(path[b].x == h.bottom_right.x || path[last].x == h.bottom_right.x);
        assert(path[c].y == h.top_left.y || path[last].y == h.top_left.y);
        assert(path[d].y == h.bottom_right.y || path[last].y == h.bottom_right.y);
    } else {
        assert(path[0].x == hull(path).top_left.x);
    }
}

} // verus!
