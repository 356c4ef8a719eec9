//! Places, sizes, angles and the placement options of a figure.

use vstd::prelude::*;

verus! {

/// Thousandths in one drawing unit and in one degree.
pub const SCALE: i64 = 1000;

/// One full turn, in thousandths of a degree.
pub const FULL_TURN: i64 = 360_000;

/// The largest magnitude of a coordinate, a length or a canvas side.
pub const LIMIT: i64 = 1_000_000_000_000_000_000;

/// Whether `v` is a coordinate or a signed length that the library accepts.
pub open spec fn in_reach(v: int) -> bool {
    -LIMIT <= v <= LIMIT
}

/// Whether `v` is a side of a canvas.
pub open spec fn is_extent(v: int) -> bool {
    0 <= v <= LIMIT
}

/// Location on the plane.
#[derive(Clone, Copy, Debug, PartialEq, Eq, Structural)]
pub struct Pos {
    pub x: i64,
    pub y: i64,
}

impl Pos {
    /// Both coordinates are within `LIMIT` of the origin.
    pub open spec fn in_reach(self) -> bool {
        in_reach(self.x as int) && in_reach(self.y as int)
    }

    /// The origin.
    pub open spec fn origin() -> Pos {
        Pos { x: 0, y: 0 }
    }
}

impl Default for Pos {
    fn default() -> (p: Self)
        ensures
            p == Pos::origin(),
    {
        Pos { x: 0, y: 0 }
    }
}

/// Width and height.
#[derive(Clone, Copy, Debug, PartialEq, Eq, Structural)]
pub struct Size {
    pub w: i64,
    pub h: i64,
}

impl Default for Size {
    fn default() -> (s: Self)
        ensures
            s == (Size { w: 0, h: 0 }),
    {
        Size { w: 0, h: 0 }
    }
}

/// Where the pen stands and where it points.
#[derive(Clone, Copy, Debug, PartialEq, Eq, Structural)]
pub struct State {
    pub position: Pos,
    pub angle: i64,
}

impl State {
    /// The position is within reach; the heading is any number the pen reports.
    pub open spec fn in_reach(self) -> bool {
        self.position.in_reach()
    }

    /// The pen as it is made: at the origin, heading along the first axis.
    pub open spec fn initial() -> State {
        State { position: Pos::origin(), angle: 0 }
    }
}

#[derive(Clone, Copy, Debug, PartialEq, Eq, Structural)]
pub enum Side {
    Left,
    Right,
}

/// A turn: its side and its magnitude.
#[derive(Clone, Copy, Debug, PartialEq, Eq, Structural)]
pub struct Angle {
    pub side: Side,
    pub value: i64,
}

impl From<(Side, i64)> for Angle {
    fn from(angle: (Side, i64)) -> (a: Self) {
        Angle { side: angle.0, value: angle.1 }
    }
}

impl vstd::std_specs::convert::FromSpecImpl<(Side, i64)> for Angle {
    open spec fn obeys_from_spec() -> bool {
        true
    }

    open spec fn from_spec(angle: (Side, i64)) -> Self {
        Angle { side: angle.0, value: angle.1 }
    }
}

impl Default for Angle {
    fn default() -> (a: Self)
        ensures
            a == (Angle { side: Side::Left, value: 0 }),
    {
        Angle { side: Side::Left, value: 0 }
    }
}

/// Where the figure goes on its canvas.
#[derive(Clone, Copy, Debug, PartialEq, Eq, Structural)]
pub enum ScreenPosition {
    Coord(i64, i64),
    Center,
    TopLeft,
    TopRight,
    BottomLeft,
    BottomRight,
}

impl ScreenPosition {
    pub open spec fn in_reach(self) -> bool {
        match self {
            ScreenPosition::Coord(x, y) => in_reach(x as int) && in_reach(y as int),
            _ => true,
        }
    }
}

impl Default for ScreenPosition {
    fn default() -> (p: Self)
        ensures
            p == ScreenPosition::Center,
    {
        ScreenPosition::Center
    }
}

/// The size of the canvas: given, or taken from the figure.
#[derive(Clone, Copy, Debug, PartialEq, Eq, Structural)]
pub enum SizeType {
    Custom(i64, i64),
    Auto,
}

impl SizeType {
    pub open spec fn in_reach(self) -> bool {
        match self {
            SizeType::Custom(w, h) => is_extent(w as int) && is_extent(h as int),
            SizeType::Auto => true,
        }
    }
}

} // verus!
