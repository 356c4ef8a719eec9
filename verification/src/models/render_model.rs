//! A turtle: it turns each request into the commands for the pen and keeps
//! the books.

use vstd::prelude::*;
use crate::action::{Chance, Command, random_turn, turn_command};
use crate::state::{Angle, ScreenPosition, in_reach};

verus! {

pub trait Render {
    /// Whether the value is well formed.
    spec fn render_wf(&self) -> bool;

    fn step_forward(&mut self, distance: i64) -> (command: Command)
        ensures
            command == Command::Forward(distance),
    ;

    fn step_backward(&mut self, distance: i64) -> (command: Command)
        ensures
            command == Command::Backward(distance),
    ;

    fn turn_left(&mut self, angle: i64) -> (command: Command)
        ensures
            command == Command::Left(angle),
    ;

    fn turn_right(&mut self, angle: i64) -> (command: Command)
        ensures
            command == Command::Right(angle),
    ;

    /// Turns by the angle and to the side that chance has drawn.
    fn turn_random(&mut self, chance: Chance) -> (command: Command)
        ensures
            command == turn_command(random_turn(chance)),
    ;

    fn pen_up(&mut self) -> (command: Command)
        ensures
            command == Command::PenUp,
    ;

    fn pen_down(&mut self) -> (command: Command)
        ensures
            command == Command::PenDown,
    ;

    /// Takes the colour that chance has drawn.
    fn color_random(&mut self, chance: Chance) -> (command: Command)
        ensures
            command == Command::PenColor(chance.red, chance.green, chance.blue),
    ;

    fn save_state(&mut self)
        requires
            old(self).render_wf(),
        ensures
            final(self).render_wf(),
    ;

    fn restore_state(&mut self) -> (commands: Vec<Command>)
        requires
            old(self).render_wf(),
        ensures
            final(self).render_wf(),
    ;

    fn save_state_and_turn(&mut self, angle: Angle) -> (command: Command)
        requires
            old(self).render_wf(),
        ensures
            final(self).render_wf(),
            command == turn_command(angle),
    ;

    fn restore_state_and_turn(&mut self, angle: Angle) -> (commands: Vec<Command>)
        requires
            old(self).render_wf(),
        ensures
            final(self).render_wf(),
    ;

    fn set_pen_size(&mut self, size: i64) -> (command: Command)
        requires
            old(self).render_wf(),
            in_reach(size as int),
        ensures
            final(self).render_wf(),
            command == Command::PenSize(size),
    ;

    fn set_pen_color(&mut self, r: u8, g: u8, b: u8) -> (command: Command)
        ensures
            command == Command::PenColor(r, g, b),
    ;

    fn set_bg(&mut self, r: u8, g: u8, b: u8) -> (command: Command)
        ensures
            command == Command::Background(r, g, b),
    ;

    /// The command that writes the image.
    fn save_svg(&self) -> (command: Command)
        requires
            self.render_wf(),
        ensures
            command is Export,
    ;

    fn set_figure_pos(&mut self, pos: ScreenPosition)
        requires
            old(self).render_wf(),
            pos.in_reach(),
        ensures
            final(self).render_wf(),
    ;

    fn reset(&mut self) -> (command: Command)
        requires
            old(self).render_wf(),
        ensures
            final(self).render_wf(),
            command == Command::Reset,
    ;
}

} // verus!
