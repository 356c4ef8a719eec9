//! What a symbol can make the turtle do, and what the pen is then told.

use vstd::prelude::*;
use crate::state::{Angle, Pos, Side, Size, State, FULL_TURN, LIMIT, in_reach};

verus! {

/// The actions that a symbol can be bound to.
#[derive(Clone, Copy, Debug, PartialEq, Eq, Structural)]
pub enum Do {
    Forward(i64),
    Backward(i64),
    Left(i64),
    Right(i64),
    PenUp,
    PenDown,
    TurnRandom,
    ColorRandom,
    Save,
    Restore,
    SaveAndTurn(Angle),
    RestoreAndTurn(Angle),
    LineSize(i64),
    PenColor(u8, u8, u8),
}

impl Do {
    /// Whether the action's numbers are in their ranges: a pen size is
    /// within reach, since it enters the placement of the figure. Lengths,
    /// angles and colours are handed to the pen as they are, so each of
    /// them may be any number.
    pub open spec fn in_range(self) -> bool {
        match self {
            Do::LineSize(size) => in_reach(size as int),
            _ => true,
        }
    }

    /// Tells whether the action's numbers are in their ranges.
    pub fn check(&self) -> (ok: bool)
        ensures
            ok == self.in_range(),
    {
        match self {
            Do::LineSize(size) => -LIMIT <= *size && *size <= LIMIT,
            _ => true,
        }
    }
}

/// What the pen is told to do. The pen belongs to the caller: it moves,
/// paints and writes the image, and reports where it stands.
#[derive(Clone, Copy, Debug, PartialEq, Eq, Structural)]
pub enum Command {
    Forward(i64),
    Backward(i64),
    Left(i64),
    Right(i64),
    PenUp,
    PenDown,
    PenSize(i64),
    PenColor(u8, u8, u8),
    /// Jump to a place without a stroke.
    GoTo(Pos),
    /// Point in a direction.
    Heading(i64),
    Background(u8, u8, u8),
    /// Forget the drawing and go back to the start.
    Reset,
    /// Write the image on a canvas of this size, with this point of the
    /// plane in the canvas centre.
    Export(Size, Pos),
}

/// The numbers that chance contributes to an action.
#[derive(Clone, Copy, Debug, PartialEq, Eq, Structural)]
pub struct Chance {
    /// An angle, in thousandths of a degree, below a full turn.
    pub angle: u32,
    /// Even for a turn to the left, odd for a turn to the right.
    pub coin: u8,
    pub red: u8,
    pub green: u8,
    pub blue: u8,
}

impl Chance {
    /// The angle is less than a full turn.
    pub open spec fn in_range(self) -> bool {
        self.angle < FULL_TURN
    }
}

/// The command that makes the turn `angle`.
pub open spec fn turn_command(angle: Angle) -> Command {
    match angle.side {
        Side::Left => Command::Left(angle.value),
        Side::Right => Command::Right(angle.value),
    }
}

/// The turn that chance makes: by the angle drawn, to the left where the
/// coin is even and to the right where it is odd.
pub open spec fn random_turn(chance: Chance) -> Angle {
    Angle {
        side: if chance.coin % 2 == 0 {
            Side::Left
        } else {
            Side::Right
        },
        value: chance.angle as i64,
    }
}

/// The commands that take the pen to `target` without a stroke and leave it
/// down.
pub open spec fn jump_commands(target: State) -> Seq<Command> {
    seq![
        Command::PenUp,
        Command::GoTo(target.position),
        Command::Heading(target.angle),
        Command::PenDown,
    ]
}

} // verus!
