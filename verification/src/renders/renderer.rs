//! The kinds of pen.

use vstd::prelude::*;
use crate::renders::turtle_headless::{CursorView, TurtleHeadless};
use crate::state::SizeType;

verus! {

/// The pen that the caller draws with, and the size of its canvas.
#[derive(Clone, Copy, Debug, PartialEq, Eq, Structural)]
pub enum Renderer {
    /// A pen on a window.
    TurtleNormal(SizeType),
    /// A pen that only writes an image.
    TurtleHeadless(SizeType),
}

impl Renderer {
    /// The size of the canvas.
    pub open spec fn size(self) -> SizeType {
        match self {
            Renderer::TurtleNormal(size) => size,
            Renderer::TurtleHeadless(size) => size,
        }
    }

    /// A turtle, as it is made, for a canvas of the renderer's size.
    pub fn get_render_obj(self) -> (turtle: TurtleHeadless)
        requires
            self.size().in_reach(),
        ensures
            turtle@ == CursorView::initial(self.size()),
            turtle@.wf(),
    {
        match self {
            Renderer::TurtleNormal(size) => TurtleHeadless::new(size),
            Renderer::TurtleHeadless(size) => TurtleHeadless::new(size),
        }
    }
}

} // verus!
