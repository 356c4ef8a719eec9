//! The turtle: what the library knows of the pen (where it stands, where it
//! points, whether it is down), the stack of saved states, the extent of the
//! figure, and where the figure goes on its canvas.
//!
//! The turtle never moves the pen. Each action yields the commands for the
//! pen; the caller carries them out and reports the pen's new state with
//! `observe`.

use vstd::prelude::*;
use crate::action::{Chance, Command, Do, jump_commands, random_turn, turn_command};
use crate::models::render_model::Render;
use crate::square::{Square, hull, lemma_hull_is_bounding_box, lemma_stretched};
use crate::state::{Angle, Pos, ScreenPosition, Side, Size, SizeType, State, SCALE, in_reach};

verus! {

/// Half of `v`, rounded towards zero.
pub open spec fn half(v: int) -> int {
    if v >= 0 {
        v / 2
    } else {
        -((-v) / 2)
    }
}

/// What the turtle is.
pub ghost struct CursorView {
    /// Where the pen stands and points, as last reported or set.
    pub state: State,
    pub pen_down: bool,
    pub pen_size: i64,
    /// The saved states, the latest last.
    pub stack: Seq<State>,
    /// The extent of the figure.
    pub figure: Square,
    /// Every place the pen has been reported at, the starting place first.
    pub path: Seq<Pos>,
    pub size: SizeType,
    pub position: ScreenPosition,
}

impl CursorView {
    /// The turtle as it is made: pen down at the origin, nothing saved, a
    /// pen one unit wide, the figure in the centre of the canvas.
    pub open spec fn initial(size: SizeType) -> CursorView {
        CursorView {
            state: State::initial(),
            pen_down: true,
            pen_size: SCALE,
            stack: Seq::empty(),
            figure: Square::point(Pos::origin()),
            path: seq![Pos::origin()],
            size,
            position: ScreenPosition::Center,
        }
    }

    /// The extent is the bounding box of the path, which starts at the
    /// origin; the pen and every saved state stand within it; the numbers
    /// are in their ranges.
    pub open spec fn wf(self) -> bool {
        &&& self.state.in_reach()
        &&& in_reach(self.pen_size as int)
        &&& self.size.in_reach()
        &&& self.position.in_reach()
        &&& self.path.len() > 0
        &&& self.path[0] == Pos::origin()
        &&& forall|i: int| 0 <= i < self.path.len() ==> (#[trigger] self.path[i]).in_reach()
        &&& self.figure == hull(self.path)
        &&& self.figure.wf()
        &&& self.figure.holds(self.state.position)
        &&& forall|i: int|
            0 <= i < self.stack.len() ==> self.figure.holds((#[trigger] self.stack[i]).position)
    }

    /// The pen was seen at `now`: the turtle takes that for its state, and
    /// the extent grows to hold the place.
    pub open spec fn observed(self, now: State) -> CursorView {
        CursorView {
            state: now,
            figure: self.figure.stretched(now.position),
            path: self.path.push(now.position),
            ..self
        }
    }

    /// The state is saved on the stack.
    pub open spec fn saved(self) -> CursorView {
        CursorView { stack: self.stack.push(self.state), ..self }
    }

    /// The latest saved state is taken back, with the pen down; with
    /// nothing saved, nothing changes.
    pub open spec fn restored(self) -> CursorView {
        if self.stack.len() == 0 {
            self
        } else {
            CursorView {
                state: self.stack.last(),
                pen_down: true,
                stack: self.stack.drop_last(),
                ..self
            }
        }
    }

    /// What the pen is told when the state is restored.
    pub open spec fn restore_commands(self) -> Seq<Command> {
        if self.stack.len() == 0 {
            Seq::empty()
        } else {
            jump_commands(self.stack.last())
        }
    }

    /// The turtle as it is made, for the same canvas and the same anchor.
    pub open spec fn cleared(self) -> CursorView {
        CursorView { position: self.position, ..CursorView::initial(self.size) }
    }

    /// The turtle after `action`, with what `chance` contributes.
    pub open spec fn after(self, action: Do, chance: Chance) -> CursorView {
        match action {
            Do::PenUp => CursorView { pen_down: false, ..self },
            Do::PenDown => CursorView { pen_down: true, ..self },
            Do::Save => self.saved(),
            Do::SaveAndTurn(_) => self.saved(),
            Do::Restore => self.restored(),
            Do::RestoreAndTurn(_) => self.restored(),
            Do::LineSize(size) => CursorView { pen_size: size, ..self },
            _ => self,
        }
    }

    /// What the pen is told for `action`, with what `chance` contributes.
    pub open spec fn commands(self, action: Do, chance: Chance) -> Seq<Command> {
        match action {
            Do::Forward(length) => seq![Command::Forward(length)],
            Do::Backward(length) => seq![Command::Backward(length)],
            Do::Left(angle) => seq![Command::Left(angle)],
            Do::Right(angle) => seq![Command::Right(angle)],
            Do::PenUp => seq![Command::PenUp],
            Do::PenDown => seq![Command::PenDown],
            Do::TurnRandom => seq![turn_command(random_turn(chance))],
            Do::ColorRandom => seq![Command::PenColor(chance.red, chance.green, chance.blue)],
            Do::Save => Seq::empty(),
            Do::Restore => self.restore_commands(),
            Do::SaveAndTurn(angle) => seq![turn_command(angle)],
            Do::RestoreAndTurn(angle) => self.restore_commands().push(turn_command(angle)),
            Do::LineSize(size) => seq![Command::PenSize(size)],
            Do::PenColor(r, g, b) => seq![Command::PenColor(r, g, b)],
        }
    }

    pub open spec fn figure_width(self) -> int {
        self.figure.spec_width()
    }

    pub open spec fn figure_height(self) -> int {
        self.figure.spec_height()
    }

    /// The width of the canvas: as given, or that of the figure.
    pub open spec fn canvas_width(self) -> int {
        match self.size {
            SizeType::Custom(w, _) => w as int,
            SizeType::Auto => self.figure_width(),
        }
    }

    /// The height of the canvas: as given, or that of the figure.
    pub open spec fn canvas_height(self) -> int {
        match self.size {
            SizeType::Custom(_, h) => h as int,
            SizeType::Auto => self.figure_height(),
        }
    }

    /// Half of the canvas width that the figure and the pen's stroke leave free.
    pub open spec fn x_offset(self) -> int {
        half(self.canvas_width() - self.figure_width() - self.pen_size)
    }

    /// Half of the canvas height that the figure and the pen's stroke leave free.
    pub open spec fn y_offset(self) -> int {
        half(self.canvas_height() - self.figure_height() - self.pen_size)
    }

    /// The first coordinate of the figure's top left corner, shifted
    /// towards the side of the canvas that the anchor names.
    pub open spec fn corner_x(self) -> int {
        match self.position {
            ScreenPosition::Coord(x, _) => x as int,
            ScreenPosition::Center => self.figure.top_left.x as int,
            ScreenPosition::TopLeft => self.figure.top_left.x - self.x_offset(),
            ScreenPosition::TopRight => self.figure.top_left.x + self.x_offset(),
            ScreenPosition::BottomLeft => self.figure.top_left.x - self.x_offset(),
            ScreenPosition::BottomRight => self.figure.top_left.x + self.x_offset(),
        }
    }

    /// The second coordinate of the figure's top left corner, shifted
    /// towards the side of the canvas that the anchor names.
    pub open spec fn corner_y(self) -> int {
        match self.position {
            ScreenPosition::Coord(_, y) => y as int,
            ScreenPosition::Center => self.figure.top_left.y as int,
            ScreenPosition::TopLeft => self.figure.top_left.y + self.y_offset(),
            ScreenPosition::TopRight => self.figure.top_left.y + self.y_offset(),
            ScreenPosition::BottomLeft => self.figure.top_left.y - self.y_offset(),
            ScreenPosition::BottomRight => self.figure.top_left.y - self.y_offset(),
        }
    }

    /// The first coordinate of the point that goes to the canvas centre:
    /// the given one, or half a figure to the right of the shifted corner.
    pub open spec fn centre_x(self) -> int {
        match self.position {
            ScreenPosition::Coord(x, _) => x as int,
            _ => self.corner_x() + self.figure_width() / 2,
        }
    }

    /// The second coordinate of the point that goes to the canvas centre:
    /// the given one, or half a figure below the shifted corner.
    pub open spec fn centre_y(self) -> int {
        match self.position {
            ScreenPosition::Coord(_, y) => y as int,
            _ => self.corner_y() - self.figure_height() / 2,
        }
    }
}

/// The turtle.
pub struct TurtleHeadless {
    state: State,
    pen_down: bool,
    pen_size: i64,
    stack: Vec<State>,
    /// SVG size type
    pub size: SizeType,
    figure: Square,
    position: ScreenPosition,
    path: Ghost<Seq<Pos>>,
}

impl View for TurtleHeadless {
    type V = CursorView;

    closed spec fn view(&self) -> CursorView {
        CursorView {
            state: self.state,
            pen_down: self.pen_down,
            pen_size: self.pen_size,
            stack: self.stack@,
            figure: self.figure,
            path: self.path@,
            size: self.size,
            position: self.position,
        }
    }
}

impl TurtleHeadless {
    pub fn new(size_type: SizeType) -> (turtle: Self)
        requires
            size_type.in_reach(),
        ensures
            turtle@ == CursorView::initial(size_type),
            turtle@.wf(),
    {
        let point = Pos { x: 0, y: 0 };
        let ghost start = seq![Pos::origin()];
        let turtle = TurtleHeadless {
            state: State { position: point, angle: 0 },
            pen_down: true,
            pen_size: SCALE,
            stack: Vec::new(),
            size: size_type,
            figure: Square { top_left: point, bottom_right: point },
            position: ScreenPosition::Center,
            path: Ghost(start),
        };
        assert(turtle@.stack =~= Seq::<State>::empty());
        turtle
    }

    /// Where the pen stands, as last reported or set.
    pub fn position(&self) -> (p: Pos)
        ensures
            p == self@.state.position,
    {
        self.state.position
    }

    /// Where the pen points, as last reported or set.
    pub fn heading(&self) -> (angle: i64)
        ensures
            angle == self@.state.angle,
    {
        self.state.angle
    }

    pub fn is_pen_down(&self) -> (down: bool)
        ensures
            down == self@.pen_down,
    {
        self.pen_down
    }

    pub fn pen_size(&self) -> (size: i64)
        ensures
            size == self@.pen_size,
    {
        self.pen_size
    }

    /// The extent of the figure.
    pub fn figure(&self) -> (figure: Square)
        ensures
            figure == self@.figure,
    {
        self.figure
    }

    /// The number of saved states.
    pub fn depth(&self) -> (n: usize)
        ensures
            n == self@.stack.len(),
    {
        self.stack.len()
    }

    /// Takes the pen's report: it stands and points as `now` says, and the
    /// extent grows to hold that place.
    pub fn observe(&mut self, now: State)
        requires
            old(self)@.wf(),
            now.in_reach(),
        ensures
            final(self)@ == old(self)@.observed(now),
            final(self)@.wf(),
    {
        proof {
            lemma_stretched(self.figure, now.position);
            assert(self@.path.push(now.position).drop_last() =~= self@.path);
        }
        self.state = now;
        self.figure.update_max_area(now.position);
        self.path = Ghost(self.path@.push(now.position));
    }

    fn turn(&mut self, angle: Angle) -> (command: Command)
        ensures
            final(self)@ == old(self)@,
            command == turn_command(angle),
    {
        match angle.side {
            Side::Left => self.turn_left(angle.value),
            Side::Right => self.turn_right(angle.value),
        }
    }

    /// Return the SVG size
    pub fn get_size(&self) -> (size: Size)
        requires
            self@.wf(),
        ensures
            size.w == self@.canvas_width(),
            size.h == self@.canvas_height(),
    {
        match self.size {
            SizeType::Custom(w, h) => Size { w, h },
            SizeType::Auto => {
                let figure_size = self.figure.size();
                Size { w: figure_size.w, h: figure_size.h }
            },
        }
    }

    /// Return the final figure position (top left angle)
    pub fn get_position(&self) -> (corner: Pos)
        requires
            self@.wf(),
        ensures
            corner.x == self@.corner_x(),
            corner.y == self@.corner_y(),
    {
        let svg_size = self.get_size();
        let figure_size = self.figure.size();
        let x_offset: i64 = (svg_size.w - figure_size.w - self.pen_size) / 2;
        let y_offset: i64 = (svg_size.h - figure_size.h - self.pen_size) / 2;
        let top_left = self.figure.top_left;
        match self.position {
            ScreenPosition::Coord(x, y) => Pos { x, y },
            ScreenPosition::Center => Pos { x: top_left.x, y: top_left.y },
            ScreenPosition::TopLeft => Pos { x: top_left.x - x_offset, y: top_left.y + y_offset },
            ScreenPosition::TopRight => Pos { x: top_left.x + x_offset, y: top_left.y + y_offset },
            ScreenPosition::BottomLeft => Pos {
                x: top_left.x - x_offset,
                y: top_left.y - y_offset,
            },
            ScreenPosition::BottomRight => Pos {
                x: top_left.x + x_offset,
                y: top_left.y - y_offset,
            },
        }
    }

    /// Gives the canvas another size.
    pub fn set_size(&mut self, size_type: SizeType)
        requires
            old(self)@.wf(),
            size_type.in_reach(),
        ensures
            final(self)@ == (CursorView { size: size_type, ..old(self)@ }),
            final(self)@.wf(),
    {
        self.size = size_type;
    }

    /// Carries out `action`, with what `chance` contributes, and returns
    /// what the pen is to be told.
    pub fn call(&mut self, action: Do, chance: Chance) -> (commands: Vec<Command>)
        requires
            old(self)@.wf(),
            action.in_range(),
        ensures
            final(self)@ == old(self)@.after(action, chance),
            commands@ == old(self)@.commands(action, chance),
            final(self)@.wf(),
    {
        let commands = match action {
            Do::Forward(length) => vec![self.step_forward(length)],
            Do::Backward(length) => vec![self.step_backward(length)],
            Do::Left(angle) => vec![self.turn_left(angle)],
            Do::Right(angle) => vec![self.turn_right(angle)],
            Do::PenUp => vec![self.pen_up()],
            Do::PenDown => vec![self.pen_down()],
            Do::TurnRandom => vec![self.turn_random(chance)],
            Do::ColorRandom => vec![self.color_random(chance)],
            Do::Save => {
                self.save_state();
                Vec::new()
            },
            Do::Restore => self.restore_state(),
            Do::LineSize(size) => vec![self.set_pen_size(size)],
            Do::SaveAndTurn(angle) => vec![self.save_state_and_turn(angle)],
            Do::RestoreAndTurn(angle) => self.restore_state_and_turn(angle),
            Do::PenColor(r, g, b) => vec![self.set_pen_color(r, g, b)],
        };
        assert(commands@ =~= old(self)@.commands(action, chance));
        commands
    }
}

impl Render for TurtleHeadless {
    open spec fn render_wf(&self) -> bool {
        self@.wf()
    }

    fn step_forward(&mut self, distance: i64) -> (command: Command)
        ensures
            final(self)@ == old(self)@,
            command == Command::Forward(distance),
    {
        Command::Forward(distance)
    }

    fn step_backward(&mut self, distance: i64) -> (command: Command)
        ensures
            final(self)@ == old(self)@,
            command == Command::Backward(distance),
    {
        Command::Backward(distance)
    }

    fn turn_left(&mut self, angle: i64) -> (command: Command)
        ensures
            final(self)@ == old(self)@,
            command == Command::Left(angle),
    {
        Command::Left(angle)
    }

    fn turn_right(&mut self, angle: i64) -> (command: Command)
        ensures
            final(self)@ == old(self)@,
            command == Command::Right(angle),
    {
        Command::Right(angle)
    }

    /// Turns by the angle and to the side that chance has drawn.
    fn turn_random(&mut self, chance: Chance) -> (command: Command)
        ensures
            final(self)@ == old(self)@,
            command == turn_command(random_turn(chance)),
    {
        let angle: i64 = chance.angle as i64;
        match chance.coin % 2 {
            0 => self.turn_left(angle),
            _ => self.turn_right(angle),
        }
    }

    fn pen_up(&mut self) -> (command: Command)
        ensures
            final(self)@ == (CursorView { pen_down: false, ..old(self)@ }),
            command == Command::PenUp,
    {
        self.pen_down = false;
        Command::PenUp
    }

    fn pen_down(&mut self) -> (command: Command)
        ensures
            final(self)@ == (CursorView { pen_down: true, ..old(self)@ }),
            command == Command::PenDown,
    {
        self.pen_down = true;
        Command::PenDown
    }

    /// Takes the colour that chance has drawn.
    fn color_random(&mut self, chance: Chance) -> (command: Command)
        ensures
            final(self)@ == old(self)@,
            command == Command::PenColor(chance.red, chance.green, chance.blue),
    {
        Command::PenColor(chance.red, chance.green, chance.blue)
    }

    fn save_state(&mut self)
        ensures
            final(self)@ == old(self)@.saved(),
    {
        self.stack.push(self.state);
    }

    fn restore_state(&mut self) -> (commands: Vec<Command>)
        ensures
            final(self)@ == old(self)@.restored(),
            commands@ == old(self)@.restore_commands(),
    {
        match self.stack.pop() {
            Some(value) => {
                self.state = value;
                self.pen_down = true;
                let commands = vec![
                    Command::PenUp,
                    Command::GoTo(value.position),
                    Command::Heading(value.angle),
                    Command::PenDown,
                ];
                assert(commands@ =~= jump_commands(value));
                commands
            },
            None => Vec::new(),
        }
    }

    fn save_state_and_turn(&mut self, angle: Angle) -> (command: Command)
        ensures
            final(self)@ == old(self)@.saved(),
            command == turn_command(angle),
    {
        self.save_state();
        self.turn(angle)
    }

    fn restore_state_and_turn(&mut self, angle: Angle) -> (commands: Vec<Command>)
        ensures
            final(self)@ == old(self)@.restored(),
            commands@ == old(self)@.restore_commands().push(turn_command(angle)),
    {
        let mut commands = self.restore_state();
        let turn = self.turn(angle);
        commands.push(turn);
        commands
    }

    fn set_pen_size(&mut self, size: i64) -> (command: Command)
        ensures
            final(self)@ == (CursorView { pen_size: size, ..old(self)@ }),
            command == Command::PenSize(size),
    {
        self.pen_size = size;
        Command::PenSize(size)
    }

    fn set_pen_color(&mut self, r: u8, g: u8, b: u8) -> (command: Command)
        ensures
            final(self)@ == old(self)@,
            command == Command::PenColor(r, g, b),
    {
        Command::PenColor(r, g, b)
    }

    fn set_bg(&mut self, r: u8, g: u8, b: u8) -> (command: Command)
        ensures
            final(self)@ == old(self)@,
            command == Command::Background(r, g, b),
    {
        Command::Background(r, g, b)
    }

    /// The command that writes the image: the canvas has the size given or
    /// that of the figure, and the point that goes to its centre places the
    /// figure where the anchor says.
    fn save_svg(&self) -> (command: Command)
        ensures
            command matches Command::Export(size, centre) && {
                &&& size.w == self@.canvas_width()
                &&& size.h == self@.canvas_height()
                &&& centre.x == self@.centre_x()
                &&& centre.y == self@.centre_y()
            },
    {
        let size = self.get_size();
        let mut fig_pos = self.get_position();
        let fig_size = self.figure.size();
        match self.position {
            ScreenPosition::Coord(_, _) => {},
            _ => {
                fig_pos.x = fig_pos.x + fig_size.w / 2;
                fig_pos.y = fig_pos.y - fig_size.h / 2;
            },
        }
        Command::Export(size, fig_pos)
    }

    fn set_figure_pos(&mut self, pos: ScreenPosition)
        ensures
            final(self)@ == (CursorView { position: pos, ..old(self)@ }),
    {
        self.position = pos;
    }

    /// The turtle goes back to what it was when made; the canvas size and
    /// the anchor stay.
    fn reset(&mut self) -> (command: Command)
        ensures
            final(self)@ == old(self)@.cleared(),
            command == Command::Reset,
    {
        let point = Pos { x: 0, y: 0 };
        self.state = State { position: point, angle: 0 };
        self.pen_down = true;
        self.pen_size = SCALE;
        self.stack = Vec::new();
        self.figure = Square { top_left: point, bottom_right: point };
        let ghost start = seq![Pos::origin()];
        self.path = Ghost(start);
        assert(self@.stack =~= Seq::<State>::empty());
        Command::Reset
    }
}

/// The positions of `readings`, in their order.
pub open spec fn places(readings: Seq<State>) -> Seq<Pos> {
    readings.map(|i: int, s: State| s.position)
}

/// The turtle after the pen was seen at each of `readings` in turn.
pub open spec fn observed_all(turtle: CursorView, readings: Seq<State>) -> CursorView
    decreases readings.len(),
{
    if readings.len() == 0 {
        turtle
    } else {
        observed_all(turtle, readings.drop_last()).observed(readings.last())
    }
}

/// Saving and at once restoring leaves the pen where it stands and points
/// as before, with the same extent, the same path and the same stack: the
/// jump that the pen is told to make ends where it starts.
pub proof fn lemma_save_then_restore(turtle: CursorView)
    ensures
        turtle.saved().restored().state == turtle.state,
        turtle.saved().restored().figure == turtle.figure,
        turtle.saved().restored().path == turtle.path,
        turtle.saved().restored().stack == turtle.stack,
        turtle.saved().restore_commands() == jump_commands(turtle.state),
        turtle.pen_down ==> turtle.saved().restored() == turtle,
{
    assert(turtle.stack.push(turtle.state).drop_last() =~= turtle.stack);
}

/// Restoring with nothing saved changes nothing and tells the pen nothing.
pub proof fn lemma_restore_nothing(turtle: CursorView)
    requires
        turtle.stack.len() == 0,
    ensures
        turtle.restored() == turtle,
        turtle.restore_commands() == Seq::<Command>::empty(),
{
}

/// A report from a place within the extent leaves the extent as it is. So
/// does the report that follows a turn, a change of the pen or the jump of
/// a restore: the pen then stands where it stood or at a saved place, and
/// both lie within the extent.
pub proof fn lemma_report_within_extent(turtle: CursorView, now: State)
    requires
        turtle.wf(),
        turtle.figure.holds(now.position),
    ensures
        turtle.observed(now).figure == turtle.figure,
        turtle.figure.holds(turtle.state.position),
        turtle.figure.holds(turtle.restored().state.position),
{
    if turtle.stack.len() > 0 {
        assert(turtle.figure.holds(turtle.stack[turtle.stack.len() - 1].position));
    }
}

/// Only a report of the pen changes the extent: no action does.
pub proof fn lemma_actions_keep_extent(turtle: CursorView, action: Do, chance: Chance)
    ensures
        turtle.after(action, chance).figure == turtle.figure,
        turtle.after(action, chance).path == turtle.path,
{
}

/// After any run of reports, the extent is the bounding box of the places
/// the pen was seen at and the ones before: it holds each of them, and each
/// of its four sides passes through one of them.
pub proof fn lemma_extent_is_bounding_box(turtle: CursorView, readings: Seq<State>)
    requires
        turtle.wf(),
        forall|i: int| 0 <= i < readings.len() ==> (#[trigger] readings[i]).in_reach(),
    ensures
        ({
            let end = observed_all(turtle, readings);
            let path = turtle.path + places(readings);
            &&& end.wf()
            &&& end.path == path
            &&& end.figure == hull(path)
            &&& forall|i: int| 0 <= i < path.len() ==> end.figure.holds(#[trigger] path[i])
            &&& exists|i: int| 0 <= i < path.len() && (#[trigger] path[i]).x == end.figure.top_left.x
            &&& exists|i: int|
                0 <= i < path.len() && (#[trigger] path[i]).x == end.figure.bottom_right.x
            &&& exists|i: int| 0 <= i < path.len() && (#[trigger] path[i]).y == end.figure.top_left.y
            &&& exists|i: int|
                0 <= i < path.len() && (#[trigger] path[i]).y == end.figure.bottom_right.y
        }),
    decreases readings.len(),
{
    let path = turtle.path + places(readings);
    if readings.len() == 0 {
        assert(path =~= turtle.path);
    } else {
        let before = observed_all(turtle, readings.drop_last());
        lemma_extent_is_bounding_box(turtle, readings.drop_last());
        lemma_stretched(before.figure, readings.last().position);
        assert(path =~= (turtle.path + places(readings.drop_last())).push(
            readings.last().position,
        ));
        assert(path.drop_last() =~= before.path);
        let end = observed_all(turtle, readings);
        assert(end.path =~= path);
        assert(end.figure == hull(path));
        assert forall|i: int| 0 <= i < end.path.len() implies (#[trigger] end.path[i]).in_reach() by {
            if i < before.path.len() {
                assert(end.path[i] == before.path[i]);
            }
        }
    }
    lemma_hull_is_bounding_box(path);
}

} // verus!
