//! The turtle's bookkeeping and the choice of a pen.

pub mod renderer;
pub mod turtle_headless;
