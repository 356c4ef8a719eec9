use lindenmayer::action::{Chance, Command, Do};
use lindenmayer::error::ConfigError;
use lindenmayer::lindenmayer::Lindenmayer;
use lindenmayer::models::action_model::Action;
use lindenmayer::models::render_model::Render;
use lindenmayer::models::rules_model::Rules;
use lindenmayer::renders::renderer::Renderer;
use lindenmayer::renders::turtle_headless::TurtleHeadless;
use lindenmayer::square::Square;
use lindenmayer::state::{Angle, Pos, ScreenPosition, Side, Size, SizeType, State};

/// A pen on the integer grid that turns by quarter turns only.
struct GridPen {
    at: Pos,
    heading: i64,
    log: Vec<Command>,
}

impl GridPen {
    fn new() -> Self {
        GridPen { at: Pos { x: 0, y: 0 }, heading: 0, log: Vec::new() }
    }

    fn go(&mut self, distance: i64) {
        match self.heading {
            0 => self.at.x += distance,
            90_000 => self.at.y += distance,
            180_000 => self.at.x -= distance,
            270_000 => self.at.y -= distance,
            other => panic!("not a quarter turn: {}", other),
        }
    }

    fn perform(&mut self, command: Command) {
        self.log.push(command);
        match command {
            Command::Forward(d) => self.go(d),
            Command::Backward(d) => self.go(-d),
            Command::Left(a) => self.heading = (self.heading + a).rem_euclid(360_000),
            Command::Right(a) => self.heading = (self.heading - a).rem_euclid(360_000),
            Command::GoTo(p) => self.at = p,
            Command::Heading(h) => self.heading = h,
            _ => {}
        }
    }

    fn reading(&self) -> State {
        State { position: self.at, angle: self.heading }
    }
}

fn run(system: &mut Lindenmayer, pen: &mut GridPen) {
    for action in system.draw() {
        for command in system.call(action).unwrap() {
            pen.perform(command);
        }
        system.observe(pen.reading());
    }
}

fn koch() -> Lindenmayer {
    let mut s = Lindenmayer::with_seed(Renderer::TurtleHeadless(SizeType::Auto), 3);
    s.set_vars("F").unwrap();
    s.set_consts("+-").unwrap();
    s.set_axiom("F");
    s.set_rule('F', "F+F-F-F+F".into()).unwrap();
    s.set_action('F', Do::Forward(10_000)).unwrap();
    s.set_action('+', Do::Left(90_000)).unwrap();
    s.set_action('-', Do::Right(90_000)).unwrap();
    s
}

fn turtle() -> TurtleHeadless {
    TurtleHeadless::new(SizeType::Auto)
}

fn none() -> Chance {
    Chance { angle: 0, coin: 0, red: 0, green: 0, blue: 0 }
}

fn at(x: i64, y: i64) -> State {
    State { position: Pos { x, y }, angle: 0 }
}

#[test]
fn koch_draws_five_moves_and_four_turns() {
    let mut s = koch();
    s.iterate(1);
    assert_eq!(s.state().value, "F+F-F-F+F");
    let actions = s.draw();
    assert_eq!(
        actions,
        vec![
            Do::Forward(10_000),
            Do::Left(90_000),
            Do::Forward(10_000),
            Do::Right(90_000),
            Do::Forward(10_000),
            Do::Right(90_000),
            Do::Forward(10_000),
            Do::Left(90_000),
            Do::Forward(10_000),
        ]
    );
    let mut pen = GridPen::new();
    run(&mut s, &mut pen);
    assert_eq!(
        pen.log,
        vec![
            Command::Forward(10_000),
            Command::Left(90_000),
            Command::Forward(10_000),
            Command::Right(90_000),
            Command::Forward(10_000),
            Command::Right(90_000),
            Command::Forward(10_000),
            Command::Left(90_000),
            Command::Forward(10_000),
        ]
    );
    assert_eq!(s.cursor().position(), Pos { x: 30_000, y: 0 });
    assert_eq!(s.cursor().heading(), 0);
}

#[test]
fn koch_extent_at_depth_two() {
    let mut s = koch();
    s.iterate(2);
    let mut pen = GridPen::new();
    run(&mut s, &mut pen);
    let figure = s.cursor().figure();
    assert_eq!(figure.top_left, Pos { x: 0, y: 40_000 });
    assert_eq!(figure.bottom_right, Pos { x: 90_000, y: 0 });
    assert_eq!(figure.width(), 90_000);
    assert_eq!(figure.height(), 40_000);
    assert_eq!(s.cursor().position(), Pos { x: 90_000, y: 0 });
}

#[test]
fn extent_grows_on_all_four_sides() {
    let mut t = turtle();
    assert_eq!(t.figure(), Square::at(Pos { x: 0, y: 0 }));
    t.observe(at(5, 0));
    t.observe(at(5, 7));
    t.observe(at(-3, 7));
    t.observe(at(-3, -11));
    t.observe(at(1, 1));
    let figure = t.figure();
    assert_eq!(figure.top_left, Pos { x: -3, y: 7 });
    assert_eq!(figure.bottom_right, Pos { x: 5, y: -11 });
    assert_eq!(t.position(), Pos { x: 1, y: 1 });
}

#[test]
fn extent_holds_the_origin() {
    let mut t = turtle();
    t.observe(at(10, 10));
    t.observe(at(20, 30));
    assert_eq!(t.figure().top_left, Pos { x: 0, y: 30 });
    assert_eq!(t.figure().bottom_right, Pos { x: 20, y: 0 });
}

#[test]
fn draw_skips_unbound_symbols() {
    let mut s = koch();
    s.set_axiom("FxF+y");
    assert_eq!(s.draw(), vec![Do::Forward(10_000), Do::Forward(10_000), Do::Left(90_000)]);
}

#[test]
fn draw_does_not_rewrite() {
    let mut s = koch();
    s.iterate(1);
    let first = s.draw();
    let second = s.draw();
    assert_eq!(first, second);
    assert_eq!(s.state().value, "F+F-F-F+F");
}

#[test]
fn binding_is_overwritten() {
    let mut s = koch();
    assert_eq!(s.get_action('F'), Some(Do::Forward(10_000)));
    s.set_action('F', Do::Backward(5)).unwrap();
    assert_eq!(s.get_action('F'), Some(Do::Backward(5)));
    assert_eq!(s.get_action('x'), None);
    assert_eq!(s.draw(), vec![Do::Backward(5)]);
}

#[test]
fn any_angle_and_length_is_bound_and_called() {
    let mut s = koch();
    assert_eq!(s.set_action('F', Do::Left(360_001)), Ok(()));
    assert_eq!(s.get_action('F'), Some(Do::Left(360_001)));
    assert_eq!(s.set_action('F', Do::Right(-1)), Ok(()));
    assert_eq!(s.get_action('F'), Some(Do::Right(-1)));
    assert_eq!(s.set_action('F', Do::Left(i64::MAX)), Ok(()));
    assert_eq!(s.set_action('F', Do::Forward(i64::MIN)), Ok(()));
    let wide = Angle { side: Side::Left, value: 400_000 };
    assert_eq!(s.set_action('G', Do::SaveAndTurn(wide)), Ok(()));
    assert_eq!(s.set_action('H', Do::RestoreAndTurn(wide)), Ok(()));
    assert_eq!(s.call(Do::Left(360_001)), Ok(vec![Command::Left(360_001)]));
    assert_eq!(s.call(Do::Right(-90_000)), Ok(vec![Command::Right(-90_000)]));
    assert_eq!(s.call(Do::Left(720_000)), Ok(vec![Command::Left(720_000)]));
    assert_eq!(s.call(Do::Forward(i64::MAX)), Ok(vec![Command::Forward(i64::MAX)]));
    assert_eq!(s.call(Do::Backward(i64::MIN)), Ok(vec![Command::Backward(i64::MIN)]));
    assert_eq!(s.call(Do::SaveAndTurn(wide)), Ok(vec![Command::Left(400_000)]));
    assert_eq!(s.call(Do::RestoreAndTurn(wide)).unwrap().len(), 5);
    s.set_axiom("GH");
    assert_eq!(s.draw(), vec![Do::SaveAndTurn(wide), Do::RestoreAndTurn(wide)]);
}

#[test]
fn pen_size_beyond_reach_is_refused() {
    let mut s = koch();
    let limit = 1_000_000_000_000_000_000;
    assert_eq!(s.set_action('F', Do::LineSize(limit + 1)), Err(ConfigError::OutOfRange));
    assert_eq!(s.set_action('F', Do::LineSize(-limit - 1)), Err(ConfigError::OutOfRange));
    assert_eq!(s.get_action('F'), Some(Do::Forward(10_000)));
    assert_eq!(s.call(Do::LineSize(limit + 1)), Err(ConfigError::OutOfRange));
    assert_eq!(s.cursor().pen_size(), 1000);
    assert_eq!(s.set_action('F', Do::LineSize(limit)), Ok(()));
    assert_eq!(s.set_action('F', Do::LineSize(-limit)), Ok(()));
    assert_eq!(s.set_action('F', Do::LineSize(0)), Ok(()));
    assert_eq!(s.call(Do::LineSize(-5)), Ok(vec![Command::PenSize(-5)]));
    assert_eq!(s.cursor().pen_size(), -5);
}

#[test]
fn ranges_of_actions() {
    assert!(Do::Forward(i64::MIN).check());
    assert!(Do::Backward(i64::MAX).check());
    assert!(Do::Left(-1).check());
    assert!(Do::Right(360_001).check());
    assert!(Do::LineSize(0).check());
    assert!(Do::LineSize(1_000_000_000_000_000_000).check());
    assert!(Do::LineSize(-1_000_000_000_000_000_000).check());
    assert!(!Do::LineSize(1_000_000_000_000_000_001).check());
    assert!(!Do::LineSize(-1_000_000_000_000_000_001).check());
    assert!(Do::SaveAndTurn(Angle { side: Side::Right, value: 360_001 }).check());
    assert!(Do::RestoreAndTurn(Angle { side: Side::Right, value: -5 }).check());
    assert!(Do::PenColor(255, 0, 9).check());
    assert!(Do::TurnRandom.check());
}

#[test]
fn save_then_restore_changes_nothing() {
    let mut t = turtle();
    t.observe(State { position: Pos { x: 4, y: -2 }, angle: 30_000 });
    let figure = t.figure();
    t.save_state();
    assert_eq!(t.depth(), 1);
    let commands = t.restore_state();
    assert_eq!(
        commands,
        vec![
            Command::PenUp,
            Command::GoTo(Pos { x: 4, y: -2 }),
            Command::Heading(30_000),
            Command::PenDown,
        ]
    );
    assert_eq!(t.position(), Pos { x: 4, y: -2 });
    assert_eq!(t.heading(), 30_000);
    assert_eq!(t.figure(), figure);
    assert_eq!(t.depth(), 0);
    assert!(t.is_pen_down());
}

#[test]
fn restore_on_empty_stack_is_nothing() {
    let mut t = turtle();
    t.observe(State { position: Pos { x: 4, y: -2 }, angle: 30_000 });
    t.pen_up();
    let figure = t.figure();
    assert!(t.restore_state().is_empty());
    assert_eq!(t.position(), Pos { x: 4, y: -2 });
    assert_eq!(t.heading(), 30_000);
    assert!(!t.is_pen_down());
    assert_eq!(t.figure(), figure);
    assert_eq!(t.depth(), 0);
    assert_eq!(
        t.restore_state_and_turn(Angle { side: Side::Right, value: 5 }),
        vec![Command::Right(5)]
    );
    assert!(!t.is_pen_down());
}

#[test]
fn restore_is_last_in_first_out() {
    let mut t = turtle();
    t.save_state();
    t.observe(State { position: Pos { x: 10, y: 0 }, angle: 90_000 });
    t.save_state();
    t.observe(State { position: Pos { x: 10, y: 10 }, angle: 180_000 });
    assert_eq!(t.depth(), 2);
    let first = t.restore_state();
    assert_eq!(first[1], Command::GoTo(Pos { x: 10, y: 0 }));
    assert_eq!(first[2], Command::Heading(90_000));
    assert_eq!(t.position(), Pos { x: 10, y: 0 });
    let second = t.restore_state();
    assert_eq!(second[1], Command::GoTo(Pos { x: 0, y: 0 }));
    assert_eq!(second[2], Command::Heading(0));
    assert_eq!(t.position(), Pos { x: 0, y: 0 });
    assert!(t.restore_state().is_empty());
}

#[test]
fn restore_jump_keeps_the_extent() {
    let mut t = turtle();
    t.save_state();
    t.observe(at(10, 0));
    t.observe(at(10, 10));
    let figure = t.figure();
    let commands = t.restore_state();
    assert_eq!(commands.len(), 4);
    t.observe(at(0, 0));
    assert_eq!(t.figure(), figure);
}

#[test]
fn restore_sets_the_pen_down() {
    let mut t = turtle();
    t.save_state();
    t.pen_up();
    assert!(!t.is_pen_down());
    t.restore_state();
    assert!(t.is_pen_down());
}

#[test]
fn save_and_turn_then_restore_and_turn() {
    let mut t = turtle();
    t.observe(State { position: Pos { x: 1, y: 2 }, angle: 45_000 });
    let left = Angle { side: Side::Left, value: 25_000 };
    let right = Angle { side: Side::Right, value: 25_000 };
    assert_eq!(t.save_state_and_turn(left), Command::Left(25_000));
    assert_eq!(t.depth(), 1);
    t.observe(State { position: Pos { x: 1, y: 2 }, angle: 70_000 });
    t.observe(State { position: Pos { x: 5, y: 9 }, angle: 70_000 });
    assert_eq!(
        t.restore_state_and_turn(right),
        vec![
            Command::PenUp,
            Command::GoTo(Pos { x: 1, y: 2 }),
            Command::Heading(45_000),
            Command::PenDown,
            Command::Right(25_000),
        ]
    );
    assert_eq!(t.depth(), 0);
    assert_eq!(t.heading(), 45_000);
}

#[test]
fn branching_word_is_drawn_with_the_stack() {
    let mut s = Lindenmayer::with_seed(Renderer::TurtleHeadless(SizeType::Auto), 3);
    s.set_action('F', Do::Forward(10)).unwrap();
    s.set_action('[', Do::SaveAndTurn(Angle { side: Side::Left, value: 90_000 })).unwrap();
    s.set_action(']', Do::RestoreAndTurn(Angle { side: Side::Right, value: 90_000 })).unwrap();
    s.set_axiom("F[F]F]");
    let mut pen = GridPen::new();
    run(&mut s, &mut pen);
    assert_eq!(
        pen.log,
        vec![
            Command::Forward(10),
            Command::Left(90_000),
            Command::Forward(10),
            Command::PenUp,
            Command::GoTo(Pos { x: 10, y: 0 }),
            Command::Heading(0),
            Command::PenDown,
            Command::Right(90_000),
            Command::Forward(10),
            Command::Right(90_000),
        ]
    );
    assert_eq!(s.cursor().figure().top_left, Pos { x: 0, y: 10 });
    assert_eq!(s.cursor().figure().bottom_right, Pos { x: 10, y: -10 });
}

#[test]
fn every_action_has_its_commands() {
    let mut t = turtle();
    let c = none();
    assert_eq!(t.call(Do::Forward(3), c), vec![Command::Forward(3)]);
    assert_eq!(t.call(Do::Backward(4), c), vec![Command::Backward(4)]);
    assert_eq!(t.call(Do::Left(5), c), vec![Command::Left(5)]);
    assert_eq!(t.call(Do::Right(6), c), vec![Command::Right(6)]);
    assert_eq!(t.call(Do::PenUp, c), vec![Command::PenUp]);
    assert!(!t.is_pen_down());
    assert_eq!(t.call(Do::PenDown, c), vec![Command::PenDown]);
    assert!(t.is_pen_down());
    assert_eq!(t.call(Do::Save, c), vec![]);
    assert_eq!(t.depth(), 1);
    assert_eq!(t.call(Do::Restore, c).len(), 4);
    assert_eq!(t.depth(), 0);
    assert_eq!(t.call(Do::LineSize(2500), c), vec![Command::PenSize(2500)]);
    assert_eq!(t.pen_size(), 2500);
    assert_eq!(t.call(Do::PenColor(1, 2, 3), c), vec![Command::PenColor(1, 2, 3)]);
    let turn = Angle { side: Side::Right, value: 7 };
    assert_eq!(t.call(Do::SaveAndTurn(turn), c), vec![Command::Right(7)]);
    assert_eq!(t.call(Do::RestoreAndTurn(turn), c).len(), 5);
}

#[test]
fn chance_decides_random_actions() {
    let mut t = turtle();
    let even = Chance { angle: 123_456, coin: 4, red: 9, green: 8, blue: 7 };
    let odd = Chance { angle: 359_999, coin: 255, red: 0, green: 255, blue: 1 };
    assert_eq!(t.call(Do::TurnRandom, even), vec![Command::Left(123_456)]);
    assert_eq!(t.call(Do::TurnRandom, odd), vec![Command::Right(359_999)]);
    assert_eq!(t.call(Do::ColorRandom, even), vec![Command::PenColor(9, 8, 7)]);
    assert_eq!(t.call(Do::ColorRandom, odd), vec![Command::PenColor(0, 255, 1)]);
    assert_eq!(t.turn_random(even), Command::Left(123_456));
    assert_eq!(t.color_random(odd), Command::PenColor(0, 255, 1));
}

#[test]
fn random_turn_is_below_a_full_turn() {
    let mut s = Lindenmayer::new(Renderer::TurtleHeadless(SizeType::Auto)).unwrap();
    let mut lefts = 0;
    let mut rights = 0;
    let mut angles = Vec::new();
    for _ in 0..400 {
        let commands = s.call(Do::TurnRandom).unwrap();
        assert_eq!(commands.len(), 1);
        match commands[0] {
            Command::Left(a) => {
                assert!((0..360_000).contains(&a));
                angles.push(a);
                lefts += 1;
            }
            Command::Right(a) => {
                assert!((0..360_000).contains(&a));
                angles.push(a);
                rights += 1;
            }
            other => panic!("not a turn: {:?}", other),
        }
    }
    assert!(lefts > 100 && rights > 100);
    angles.sort();
    angles.dedup();
    assert!(angles.len() > 300);
}

#[test]
fn random_color_is_one_command() {
    let mut s = Lindenmayer::new(Renderer::TurtleHeadless(SizeType::Auto)).unwrap();
    let mut colors = Vec::new();
    for _ in 0..50 {
        let commands = s.call(Do::ColorRandom).unwrap();
        assert_eq!(commands.len(), 1);
        match commands[0] {
            Command::PenColor(r, g, b) => colors.push((r, g, b)),
            other => panic!("not a color: {:?}", other),
        }
    }
    colors.sort();
    colors.dedup();
    assert!(colors.len() > 40);
}

#[test]
fn turtle_starts_at_the_origin() {
    let t = TurtleHeadless::new(SizeType::Custom(800_000, 600_000));
    assert_eq!(t.position(), Pos { x: 0, y: 0 });
    assert_eq!(t.heading(), 0);
    assert!(t.is_pen_down());
    assert_eq!(t.pen_size(), 1000);
    assert_eq!(t.depth(), 0);
    assert_eq!(t.size, SizeType::Custom(800_000, 600_000));
    assert_eq!(t.get_size(), Size { w: 800_000, h: 600_000 });
    let r = Renderer::TurtleNormal(SizeType::Auto).get_render_obj();
    assert_eq!(r.size, SizeType::Auto);
    assert_eq!(r.get_size(), Size { w: 0, h: 0 });
}

fn placed(size: SizeType, anchor: ScreenPosition) -> TurtleHeadless {
    let mut t = TurtleHeadless::new(size);
    t.observe(at(-20_000, 30_000));
    t.observe(at(60_000, -10_000));
    t.set_pen_size(2_000);
    t.set_figure_pos(anchor);
    t
}

#[test]
fn auto_canvas_has_the_size_of_the_figure() {
    let t = placed(SizeType::Auto, ScreenPosition::Center);
    assert_eq!(t.get_size(), Size { w: 80_000, h: 40_000 });
    assert_eq!(t.get_position(), Pos { x: -20_000, y: 30_000 });
    assert_eq!(
        t.save_svg(),
        Command::Export(Size { w: 80_000, h: 40_000 }, Pos { x: 20_000, y: 10_000 })
    );
}

#[test]
fn custom_canvas_and_centre() {
    let t = placed(SizeType::Custom(200_000, 100_000), ScreenPosition::Center);
    assert_eq!(
        t.save_svg(),
        Command::Export(Size { w: 200_000, h: 100_000 }, Pos { x: 20_000, y: 10_000 })
    );
}

#[test]
fn corners_shift_by_half_the_free_room() {
    let size = SizeType::Custom(200_000, 100_000);
    // free room: (200 - 80 - 2) / 2 = 59 wide, (100 - 40 - 2) / 2 = 29 high
    let t = placed(size, ScreenPosition::TopLeft);
    assert_eq!(t.get_position(), Pos { x: -79_000, y: 59_000 });
    assert_eq!(t.save_svg(), Command::Export(Size { w: 200_000, h: 100_000 }, Pos { x: -39_000, y: 39_000 }));
    let t = placed(size, ScreenPosition::TopRight);
    assert_eq!(t.get_position(), Pos { x: 39_000, y: 59_000 });
    assert_eq!(t.save_svg(), Command::Export(Size { w: 200_000, h: 100_000 }, Pos { x: 79_000, y: 39_000 }));
    let t = placed(size, ScreenPosition::BottomLeft);
    assert_eq!(t.get_position(), Pos { x: -79_000, y: 1_000 });
    assert_eq!(t.save_svg(), Command::Export(Size { w: 200_000, h: 100_000 }, Pos { x: -39_000, y: -19_000 }));
    let t = placed(size, ScreenPosition::BottomRight);
    assert_eq!(t.get_position(), Pos { x: 39_000, y: 1_000 });
    assert_eq!(t.save_svg(), Command::Export(Size { w: 200_000, h: 100_000 }, Pos { x: 79_000, y: -19_000 }));
}

#[test]
fn coordinate_is_the_canvas_centre() {
    let t = placed(SizeType::Custom(200_000, 100_000), ScreenPosition::Coord(7, -9));
    assert_eq!(t.get_position(), Pos { x: 7, y: -9 });
    assert_eq!(
        t.save_svg(),
        Command::Export(Size { w: 200_000, h: 100_000 }, Pos { x: 7, y: -9 })
    );
}

#[test]
fn small_canvas_rounds_towards_zero() {
    let mut t = TurtleHeadless::new(SizeType::Custom(10, 10));
    t.observe(at(15, 0));
    t.observe(at(15, 14));
    t.set_pen_size(0);
    t.set_figure_pos(ScreenPosition::TopLeft);
    // free room: (10 - 15) / 2 = -2 wide, (10 - 14) / 2 = -2 high
    assert_eq!(t.get_position(), Pos { x: 2, y: 12 });
    assert_eq!(t.save_svg(), Command::Export(Size { w: 10, h: 10 }, Pos { x: 9, y: 5 }));
}

#[test]
fn system_exports_through_its_turtle() {
    let mut s = koch();
    s.iterate(1);
    let mut pen = GridPen::new();
    run(&mut s, &mut pen);
    assert_eq!(
        s.save_svg(),
        Command::Export(Size { w: 30_000, h: 10_000 }, Pos { x: 15_000, y: 5_000 })
    );
    s.set_figure_pos(ScreenPosition::Coord(1, 2));
    assert_eq!(s.save_svg(), Command::Export(Size { w: 30_000, h: 10_000 }, Pos { x: 1, y: 2 }));
    assert_eq!(s.set_background(1, 2, 3), Command::Background(1, 2, 3));
}

#[test]
fn reset_keeps_rules_and_bindings() {
    let mut s = koch();
    s.iterate(1);
    let mut pen = GridPen::new();
    run(&mut s, &mut pen);
    s.call(Do::Save).unwrap();
    s.call(Do::PenUp).unwrap();
    s.set_figure_pos(ScreenPosition::TopLeft);
    assert_eq!(s.reset(), Command::Reset);
    assert_eq!(s.state().value, "");
    assert_eq!(s.cursor().position(), Pos { x: 0, y: 0 });
    assert_eq!(s.cursor().heading(), 0);
    assert_eq!(s.cursor().depth(), 0);
    assert!(s.cursor().is_pen_down());
    assert_eq!(s.cursor().figure(), Square::at(Pos { x: 0, y: 0 }));
    assert!(s.has_rule('F'));
    assert_eq!(s.get_action('F'), Some(Do::Forward(10_000)));
    assert!(s.is_var('F'));
    assert!(s.is_const('+'));
    s.set_axiom("F");
    s.iterate(1);
    assert_eq!(s.state().value, "F+F-F-F+F");
}

#[test]
fn set_render_gives_a_new_turtle() {
    let mut s = koch();
    s.observe(at(5, 5));
    assert_eq!(s.renderer(), Renderer::TurtleHeadless(SizeType::Auto));
    s.set_render(Renderer::TurtleNormal(SizeType::Custom(10, 20)));
    assert_eq!(s.renderer(), Renderer::TurtleNormal(SizeType::Custom(10, 20)));
    assert_eq!(s.cursor().position(), Pos { x: 0, y: 0 });
    assert_eq!(s.cursor().get_size(), Size { w: 10, h: 20 });
    assert_eq!(s.state().value, "F");
}

#[test]
fn square_measures() {
    let mut q = Square { top_left: Pos { x: -2, y: 9 }, bottom_right: Pos { x: 5, y: 1 } };
    assert_eq!(q.width(), 7);
    assert_eq!(q.height(), 8);
    assert_eq!(q.size(), Size { w: 7, h: 8 });
    q.update_max_area(Pos { x: 0, y: 5 });
    assert_eq!(q, Square { top_left: Pos { x: -2, y: 9 }, bottom_right: Pos { x: 5, y: 1 } });
    q.update_max_area(Pos { x: -4, y: 0 });
    assert_eq!(q, Square { top_left: Pos { x: -4, y: 9 }, bottom_right: Pos { x: 5, y: 0 } });
    q.update_max_area(Pos { x: 6, y: 10 });
    assert_eq!(q, Square { top_left: Pos { x: -4, y: 10 }, bottom_right: Pos { x: 6, y: 0 } });
    q.set_position(Pos { x: 100, y: 100 });
    assert_eq!(q, Square { top_left: Pos { x: 100, y: 100 }, bottom_right: Pos { x: 110, y: 90 } });
    assert_eq!(q.size(), Size { w: 10, h: 10 });
}

#[test]
fn defaults_of_the_value_types() {
    assert_eq!(Pos::default(), Pos { x: 0, y: 0 });
    assert_eq!(Size::default(), Size { w: 0, h: 0 });
    assert_eq!(Angle::default(), Angle { side: Side::Left, value: 0 });
    assert_eq!(ScreenPosition::default(), ScreenPosition::Center);
    assert_eq!(Angle::from((Side::Right, 45_000)), Angle { side: Side::Right, value: 45_000 });
}
