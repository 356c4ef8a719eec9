//! L-systems drawn by a turtle: a string-rewriting engine with weighted
//! random alternatives, a table that binds symbols to drawing actions, and
//! the bookkeeping of a turtle cursor (state stack, figure extent, placement
//! of the finished figure on its canvas).
//!
//! Every measure is a fixed-point integer: lengths and coordinates count
//! thousandths of a drawing unit, angles thousandths of a degree. The
//! library never paints. It decides which commands the pen receives and
//! takes the pen's position readings back.

/// Available actions, and the commands for the pen
pub mod action;
/// The source of chance
pub mod chance;
/// Configuration errors
pub mod error;
/// Lindenmayer system
pub mod lindenmayer;
/// Public traits
pub mod models;
/// The turtle and the kinds of pen
pub mod renders;
/// The rewriting pass and its laws
pub mod rewrite;
/// Production rules
pub mod rule;
/// Locate, angle, size, etc.
pub mod state;
/// Square: the extent of a figure
pub mod square;
/// Lists and tables of symbols
pub mod symbols;
/// The plain system with its trace
pub mod system;
