//! The system: its alphabet, its rules, the actions bound to its symbols,
//! the word of the current generation, and the turtle that draws it.

use vstd::prelude::*;
use vstd::std_specs::iter::IteratorSpec;
use vstd::string::StringExecFns;
use rand::rngs::StdRng;
use crate::action::{Chance, Command, Do};
use crate::chance::{draw_below, draw_byte, source_from_os, source_from_seed};
use crate::error::ConfigError;
use crate::models::action_model::Action;
use crate::models::render_model::Render;
use crate::models::rules_model::Rules;
use crate::renders::renderer::Renderer;
use crate::renders::turtle_headless::{CursorView, TurtleHeadless};
use crate::rewrite::{
    deterministic, drawn, expansion, iterated, iterated_plain, lemma_iterated_concat, picks_ok,
    picks_weighted, rewrite, rewrite_with, rewritten, rounds_ok, rounds_weighted, table_ok,
};
use crate::rule::{Rule, RulesWrap, alternatives_ok, check_alternatives, drawable};
use crate::state::{ScreenPosition, SizeType, State, FULL_TURN};
use crate::symbols::{
    SymbolMap, append_symbols, apart, first_of, holds, is_first_of, lemma_contains_concat,
};

verus! {

/// The word of one generation.
#[derive(Debug)]
pub struct LState {
    /// Current line value
    pub value: String,
}

impl Clone for LState {
    fn clone(&self) -> (state: Self)
        ensures
            state == *self,
    {
        LState { value: self.value.clone() }
    }
}

impl Default for LState {
    fn default() -> (state: Self)
        ensures
            state.value@ == Seq::<char>::empty(),
    {
        LState { value: String::new() }
    }
}

/// The alphabet.
pub struct LData {
    /// Containing variables
    pub vars: Vec<char>,
    /// Containing constants
    pub consts: Vec<char>,
}

impl Default for LData {
    fn default() -> (data: Self)
        ensures
            data.vars@ == Seq::<char>::empty(),
            data.consts@ == Seq::<char>::empty(),
    {
        LData { vars: Vec::new(), consts: Vec::new() }
    }
}

impl LData {
    pub fn new() -> (data: Self)
        ensures
            data.vars@ == Seq::<char>::empty(),
            data.consts@ == Seq::<char>::empty(),
    {
        LData { vars: Vec::new(), consts: Vec::new() }
    }
}

/// The actions bound to the symbols of `word`, in the order of the
/// symbols; a symbol without an action contributes nothing.
pub open spec fn bound_actions(word: Seq<char>, actions: Map<char, Do>) -> Seq<Do>
    decreases word.len(),
{
    if word.len() == 0 {
        Seq::empty()
    } else if actions.contains_key(word.last()) {
        bound_actions(word.drop_last(), actions).push(actions[word.last()])
    } else {
        bound_actions(word.drop_last(), actions)
    }
}

/// What a call of the turtle with `action` comes to when `chance` holds
/// the numbers drawn: `after` is the turtle and `commands` what the pen is
/// told.
pub open spec fn call_outcome(
    before: CursorView,
    action: Do,
    chance: Chance,
    after: CursorView,
    commands: Seq<Command>,
) -> bool {
    &&& chance.in_range()
    &&& after == before.after(action, chance)
    &&& commands == before.commands(action, chance)
}

/// What a call of the turtle with `action` may come to: `after` and
/// `commands` are the outcome for some numbers that chance can draw.
pub open spec fn may_call(
    before: CursorView,
    action: Do,
    after: CursorView,
    commands: Seq<Command>,
) -> bool {
    exists|chance: Chance| #[trigger] call_outcome(before, action, chance, after, commands)
}

/// The system after one pass in which `picks` makes the choices.
pub open spec fn stepped(before: SystemView, picks: Seq<usize>, after: SystemView) -> bool {
    &&& picks_ok(before.rules, before.word, picks)
    &&& after == (SystemView { word: rewritten(before.rules, before.word, picks), ..before })
}

/// What one pass may come to: `after` is the system for some choices that
/// a draw by weight can make, with its source of chance drawn from.
pub open spec fn may_step(before: SystemView, after: SystemView) -> bool {
    exists|picks: Seq<usize>|
        #[trigger] stepped(before.drawn_from(after), picks, after) && picks_weighted(
            before.rules,
            before.word,
            picks,
        )
}

/// The system after as many passes as `rounds` has entries, the choices of
/// each pass made by its entry.
pub open spec fn ran(before: SystemView, rounds: Seq<Seq<usize>>, after: SystemView) -> bool {
    &&& rounds_ok(before.rules, before.word, rounds)
    &&& after == (SystemView { word: iterated(before.rules, before.word, rounds), ..before })
}

/// What `n` passes may come to: `after` is the system for some choices
/// that draws by weight can make, with its source of chance drawn from.
pub open spec fn may_run(before: SystemView, n: nat, after: SystemView) -> bool {
    exists|rounds: Seq<Seq<usize>>|
        rounds.len() == n && #[trigger] ran(before.drawn_from(after), rounds, after)
            && rounds_weighted(before.rules, before.word, rounds)
}

/// What the system is.
pub ghost struct SystemView {
    /// The variables, in the order in which they were declared.
    pub vars: Seq<char>,
    /// The constants, in the order in which they were declared.
    pub consts: Seq<char>,
    /// The word of the current generation.
    pub word: Seq<char>,
    /// The alternatives of each symbol that has a rule.
    pub rules: Map<char, Vec<Rule>>,
    /// The action of each symbol that has one.
    pub actions: Map<char, Do>,
    /// The turtle.
    pub cursor: CursorView,
    /// The pen that was chosen.
    pub render: Renderer,
    /// The source of chance. Nothing is known of what it will yield; a
    /// contract can only say where it is left untouched.
    pub source: StdRng,
}

impl SystemView {
    /// The system as it is made: nothing declared, an empty word, the
    /// turtle of `render`, and `source` to draw from.
    pub open spec fn initial(render: Renderer, source: StdRng) -> SystemView {
        SystemView {
            vars: Seq::empty(),
            consts: Seq::empty(),
            word: Seq::empty(),
            rules: Map::empty(),
            actions: Map::empty(),
            cursor: CursorView::initial(render.size()),
            render,
            source,
        }
    }

    /// This system after draws from its source of chance that left the
    /// source as it is in `later`.
    pub open spec fn drawn_from(self, later: SystemView) -> SystemView {
        SystemView { source: later.source, ..self }
    }

    /// No symbol is both a variable and a constant; only variables have
    /// rules, and each rule has alternatives to choose from; every bound
    /// action has its numbers in their ranges; the turtle is well formed.
    pub open spec fn wf(self) -> bool {
        &&& forall|c: char| !(self.vars.contains(c) && self.consts.contains(c))
        &&& forall|c: char| self.rules.contains_key(c) ==> self.vars.contains(c)
        &&& table_ok(self.rules)
        &&& forall|c: char| self.actions.contains_key(c) ==> (#[trigger] self.actions[c]).in_range()
        &&& self.cursor.wf()
    }

    /// The variables after `symbol` was made one, if it was none.
    pub open spec fn vars_with(self, symbol: char) -> Seq<char> {
        if self.vars.contains(symbol) {
            self.vars
        } else {
            self.vars.push(symbol)
        }
    }

    /// Why `alternatives` cannot become the rule of `src`, if they cannot.
    pub open spec fn rule_refusal(self, src: char, alternatives: Seq<Rule>) -> Option<ConfigError> {
        if self.consts.contains(src) {
            Some(ConfigError::AlsoConstant(src))
        } else if alternatives.len() == 0 {
            Some(ConfigError::NoAlternative)
        } else if alternatives.len() >= 2 && !drawable(alternatives) {
            Some(ConfigError::WeightOverflow)
        } else {
            None
        }
    }
}

/// No pass leaves the system as it is, and two runs in a row are one run:
/// the passes of the first, then the passes of the second, made on what
/// the first run left.
pub proof fn lemma_runs_compose(
    start: SystemView,
    end: SystemView,
    first: Seq<Seq<usize>>,
    second: Seq<Seq<usize>>,
)
    ensures
        ran(start, Seq::empty(), end) <==> end == start,
        ran(start, first + second, end) <==> {
            let between = SystemView { word: iterated(start.rules, start.word, first), ..start };
            ran(start, first, between) && ran(between, second, end)
        },
{
    lemma_iterated_concat(start.rules, start.word, first, second);
    assert(start == (SystemView { word: start.word, ..start }));
}

/// A constant has no rule, so every pass leaves it as it is.
pub proof fn lemma_constants_stay(system: SystemView, c: char, pick: usize)
    requires
        system.wf(),
        system.consts.contains(c),
    ensures
        !system.rules.contains_key(c),
        expansion(system.rules, c, pick) == seq![c],
{
}

/// The Lindenmayer system.
pub struct Lindenmayer {
    /// Constant data
    data: LData,
    /// Current state
    current_state: LState,
    /// Rules table
    rules: SymbolMap<Vec<Rule>>,
    /// Actions for vars / consts
    actions: SymbolMap<Do>,
    /// Graphics cursor
    cursor: TurtleHeadless,
    /// The pen that was chosen
    render: Renderer,
    /// The one source of chance
    source: StdRng,
}

impl View for Lindenmayer {
    type V = SystemView;

    closed spec fn view(&self) -> SystemView {
        SystemView {
            vars: self.data.vars@,
            consts: self.data.consts@,
            word: self.current_state.value@,
            rules: self.rules@,
            actions: self.actions@,
            cursor: self.cursor@,
            render: self.render,
            source: self.source,
        }
    }
}

impl Lindenmayer {
    /// A system whose choices nobody can foresee: its source of chance is
    /// seeded by the operating system. Where that gives no seed, no system
    /// is made.
    pub fn new(render: Renderer) -> (result: Result<Self, ConfigError>)
        requires
            render.size().in_reach(),
        ensures
            match result {
                Ok(system) => system@ == SystemView::initial(render, system@.source)
                    && system@.wf(),
                Err(e) => e == ConfigError::NoEntropy,
            },
    {
        Lindenmayer::with_source(render, source_from_os())
    }

    /// A system that draws from `source`, if there is one.
    pub fn with_source(render: Renderer, source: Option<StdRng>) -> (result: Result<
        Self,
        ConfigError,
    >)
        requires
            render.size().in_reach(),
        ensures
            match result {
                Ok(system) => source is Some && system@ == SystemView::initial(render, source->0)
                    && system@.wf(),
                Err(e) => source is None && e == ConfigError::NoEntropy,
            },
    {
        match source {
            Some(source) => Ok(
                Lindenmayer {
                    data: LData::new(),
                    current_state: LState::default(),
                    rules: SymbolMap::new(),
                    actions: SymbolMap::new(),
                    cursor: render.get_render_obj(),
                    render,
                    source,
                },
            ),
            None => Err(ConfigError::NoEntropy),
        }
    }

    /// A system whose choices follow from `seed`.
    pub fn with_seed(render: Renderer, seed: u64) -> (system: Self)
        requires
            render.size().in_reach(),
        ensures
            system@ == SystemView::initial(render, system@.source),
            system@.wf(),
    {
        Lindenmayer {
            data: LData::new(),
            current_state: LState::default(),
            rules: SymbolMap::new(),
            actions: SymbolMap::new(),
            cursor: render.get_render_obj(),
            render,
            source: source_from_seed(seed),
        }
    }

    /// Return a clone of the current system state
    pub fn state(&self) -> (state: LState)
        ensures
            state.value@ == self@.word,
    {
        self.current_state.clone()
    }

    pub fn is_var(&self, var: char) -> (found: bool)
        ensures
            found == self@.vars.contains(var),
    {
        holds(&self.data.vars, var)
    }

    pub fn is_const(&self, c: char) -> (found: bool)
        ensures
            found == self@.consts.contains(c),
    {
        holds(&self.data.consts, c)
    }

    /// Add a variable to the system: each symbol of `vars` becomes one,
    /// unless one of them is a constant. Then nothing changes, and the
    /// error names the first such symbol.
    pub fn set_vars(&mut self, vars: &str) -> (result: Result<(), ConfigError>)
        requires
            old(self)@.wf(),
        ensures
            final(self)@.wf(),
            match result {
                Ok(_) => {
                    &&& apart(vars@, old(self)@.consts)
                    &&& final(self)@ == (SystemView {
                        vars: old(self)@.vars + vars@,
                        ..old(self)@
                    })
                },
                Err(e) => {
                    &&& final(self)@ == old(self)@
                    &&& e matches ConfigError::AlsoConstant(c) && is_first_of(
                        vars@,
                        old(self)@.consts,
                        c,
                    )
                },
            },
    {
        match first_of(vars, &self.data.consts) {
            Some(c) => Err(ConfigError::AlsoConstant(c)),
            None => {
                append_symbols(&mut self.data.vars, vars);
                proof {
                    assert forall|c: char|
                        !(self@.vars.contains(c) && self@.consts.contains(c)) by {
                        lemma_contains_concat(old(self)@.vars, vars@, c);
                    }
                    assert forall|c: char| self@.rules.contains_key(c) implies self@.vars.contains(
                        c,
                    ) by {
                        lemma_contains_concat(old(self)@.vars, vars@, c);
                    }
                }
                Ok(())
            },
        }
    }

    /// Add a constant to the system: each symbol of `consts` becomes one,
    /// unless one of them is a variable. Then nothing changes, and the
    /// error names the first such symbol.
    pub fn set_consts(&mut self, consts: &str) -> (result: Result<(), ConfigError>)
        requires
            old(self)@.wf(),
        ensures
            final(self)@.wf(),
            match result {
                Ok(_) => {
                    &&& apart(consts@, old(self)@.vars)
                    &&& final(self)@ == (SystemView {
                        consts: old(self)@.consts + consts@,
                        ..old(self)@
                    })
                },
                Err(e) => {
                    &&& final(self)@ == old(self)@
                    &&& e matches ConfigError::AlsoVariable(c) && is_first_of(
                        consts@,
                        old(self)@.vars,
                        c,
                    )
                },
            },
    {
        match first_of(consts, &self.data.vars) {
            Some(c) => Err(ConfigError::AlsoVariable(c)),
            None => {
                append_symbols(&mut self.data.consts, consts);
                proof {
                    assert forall|c: char|
                        !(self@.vars.contains(c) && self@.consts.contains(c)) by {
                        lemma_contains_concat(old(self)@.consts, consts@, c);
                    }
                }
                Ok(())
            },
        }
    }

    /// Set the beginning value for the system
    pub fn set_axiom(&mut self, value: &str)
        ensures
            final(self)@ == (SystemView { word: value@, ..old(self)@ }),
    {
        self.current_state.value = String::from_str(value);
    }

    /// One pass over the current generation, with the choices that `picks`
    /// makes. Where `picks` does not hold a choice for each symbol, nothing
    /// changes and the answer is `false`.
    pub fn step_with(&mut self, picks: &Vec<usize>) -> (done: bool)
        requires
            old(self)@.wf(),
        ensures
            final(self)@.wf(),
            done == picks_ok(old(self)@.rules, old(self)@.word, picks@),
            done ==> stepped(old(self)@, picks@, final(self)@),
            !done ==> final(self)@ == old(self)@,
    {
        let rewritten = rewrite_with(&self.rules, self.current_state.value.as_str(), picks);
        match rewritten {
            Some(next) => {
                self.current_state = LState { value: next };
                assert(stepped(old(self)@, picks@, self@));
                true
            },
            None => false,
        }
    }

    /// One pass over the current generation: each symbol with a rule is
    /// replaced by one of its alternatives, drawn by weight where there
    /// are several, and the other symbols stay.
    pub fn step(&mut self)
        requires
            old(self)@.wf(),
        ensures
            final(self)@.wf(),
            may_step(old(self)@, final(self)@),
            deterministic(old(self)@.rules) ==> final(self)@.word == iterated_plain(
                old(self)@.rules,
                old(self)@.word,
                1,
            ),
    {
        self.overwrite_state_value();
    }

    /// Overwrites the current generation with the next one, built from the
    /// rules table.
    fn overwrite_state_value(&mut self)
        requires
            old(self)@.wf(),
        ensures
            final(self)@.wf(),
            may_step(old(self)@, final(self)@),
            deterministic(old(self)@.rules) ==> final(self)@.word == iterated_plain(
                old(self)@.rules,
                old(self)@.word,
                1,
            ),
    {
        let next = rewrite(&self.rules, self.current_state.value.as_str(), &mut self.source);
        self.current_state = LState { value: next };
        proof {
            let before = old(self)@;
            let picks = choose|picks: Seq<usize>| #[trigger]
                drawn(before.rules, before.word, picks, next@);
            assert(stepped(before.drawn_from(self@), picks, self@));
            assert(iterated_plain(before.rules, before.word, 0) == before.word);
        }
    }

    /// Executes `n` step(s)
    pub fn iterate(&mut self, n: usize)
        requires
            old(self)@.wf(),
        ensures
            final(self)@.wf(),
            may_run(old(self)@, n as nat, final(self)@),
            n == 0 ==> final(self)@ == old(self)@,
            deterministic(old(self)@.rules) ==> final(self)@.word == iterated_plain(
                old(self)@.rules,
                old(self)@.word,
                n as nat,
            ),
    {
        let ghost start = self@;
        let ghost mut rounds: Seq<Seq<usize>> = Seq::empty();
        let mut i: usize = 0;
        while i < n
            invariant
                i <= n,
                rounds.len() == i,
                self@.wf(),
                ran(start.drawn_from(self@), rounds, self@),
                rounds_weighted(start.rules, start.word, rounds),
                i == 0 ==> self@ == start,
                deterministic(start.rules) ==> self@.word == iterated_plain(
                    start.rules,
                    start.word,
                    i as nat,
                ),
            decreases n - i,
        {
            let ghost before = self@;
            self.step();
            proof {
                let picks = choose|picks: Seq<usize>|
                    #[trigger] stepped(before.drawn_from(self@), picks, self@) && picks_weighted(
                        before.rules,
                        before.word,
                        picks,
                    );
                let longer = rounds.push(picks);
                assert(longer.drop_last() =~= rounds);
                assert(longer.last() == picks);
                rounds = longer;
                assert(iterated_plain(before.rules, before.word, 0) == before.word);
            }
            i = i + 1;
        }
    }

    /// Takes the pen's report of where it stands and points.
    pub fn observe(&mut self, now: State)
        requires
            old(self)@.wf(),
            now.in_reach(),
        ensures
            final(self)@.wf(),
            final(self)@ == (SystemView {
                cursor: old(self)@.cursor.observed(now),
                ..old(self)@
            }),
    {
        self.cursor.observe(now);
    }

    /// Set the renderer: the system gets the turtle of `cursor`, as it is made.
    pub fn set_render(&mut self, cursor: Renderer)
        requires
            old(self)@.wf(),
            cursor.size().in_reach(),
        ensures
            final(self)@.wf(),
            final(self)@ == (SystemView {
                cursor: CursorView::initial(cursor.size()),
                render: cursor,
                ..old(self)@
            }),
    {
        self.cursor = cursor.get_render_obj();
        self.render = cursor;
    }

    /// The pen that was chosen.
    pub fn renderer(&self) -> (render: Renderer)
        ensures
            render == self@.render,
    {
        self.render
    }

    /// The turtle.
    pub fn cursor(&self) -> (cursor: &TurtleHeadless)
        ensures
            cursor@ == self@.cursor,
    {
        &self.cursor
    }

    /// Save the drawing as SVG: the command that writes the image, with
    /// the size of the canvas and the point that goes to its centre.
    pub fn save_svg(&self) -> (command: Command)
        requires
            self@.wf(),
        ensures
            command matches Command::Export(size, centre) && {
                &&& size.w == self@.cursor.canvas_width()
                &&& size.h == self@.cursor.canvas_height()
                &&& centre.x == self@.cursor.centre_x()
                &&& centre.y == self@.cursor.centre_y()
            },
    {
        self.cursor.save_svg()
    }

    /// Gives the canvas another size: a given one, or that of the figure.
    pub fn set_canvas_size(&mut self, size: SizeType)
        requires
            old(self)@.wf(),
            size.in_reach(),
        ensures
            final(self)@.wf(),
            final(self)@ == (SystemView {
                cursor: CursorView { size, ..old(self)@.cursor },
                ..old(self)@
            }),
    {
        self.cursor.set_size(size);
    }

    /// Set the graphic figure position on the drawing
    pub fn set_figure_pos(&mut self, pos: ScreenPosition)
        requires
            old(self)@.wf(),
            pos.in_reach(),
        ensures
            final(self)@.wf(),
            final(self)@ == (SystemView {
                cursor: CursorView { position: pos, ..old(self)@.cursor },
                ..old(self)@
            }),
    {
        self.cursor.set_figure_pos(pos);
    }

    /// Set the drawing background color
    pub fn set_background(&mut self, r: u8, g: u8, b: u8) -> (command: Command)
        ensures
            final(self)@ == old(self)@,
            command == Command::Background(r, g, b),
    {
        self.cursor.set_bg(r, g, b)
    }

    /// Resets the system: the turtle is as when it was made, and the
    /// current generation is empty. The alphabet, the rules, the bound
    /// actions, the canvas size and the anchor stay.
    pub fn reset(&mut self) -> (command: Command)
        requires
            old(self)@.wf(),
        ensures
            final(self)@.wf(),
            final(self)@ == (SystemView {
                cursor: old(self)@.cursor.cleared(),
                word: Seq::empty(),
                ..old(self)@
            }),
            command == Command::Reset,
    {
        let command = self.cursor.reset();
        self.current_state = LState::default();
        command
    }

    /// Draw / compose the graphic figure: the actions bound to the symbols
    /// of the current generation, in the order of the symbols. Symbols
    /// without an action are passed over. Nothing is rewritten.
    pub fn draw(&self) -> (actions: Vec<Do>)
        ensures
            actions@ == bound_actions(self@.word, self@.actions),
    {
        let mut actions: Vec<Do> = Vec::new();
        let word = self.current_state.value.as_str();
        let chars = word.chars();
        for c in it: chars
            invariant
                it.seq() == self@.word,
                actions@ == bound_actions(self@.word.take(it.index() as int), self@.actions),
        {
            proof {
                let n = it.index() as int;
                assert(self@.word.take(n + 1).drop_last() =~= self@.word.take(n));
                assert(self@.word.take(n + 1).last() == c);
            }
            match self.get_action(c) {
                Some(action) => {
                    actions.push(action);
                },
                None => {},
            }
        }
        assert(self@.word.take(self@.word.len() as int) =~= self@.word);
        actions
    }
}

impl Action for Lindenmayer {
    type Name = char;

    type Do = Do;

    open spec fn actions_wf(&self) -> bool {
        self@.wf()
    }

    open spec fn action_of(&self, name: char) -> Option<Do> {
        if self@.actions.contains_key(name) {
            Some(self@.actions[name])
        } else {
            None
        }
    }

    /// Binds `name` to `action`, in place of the action it had, whatever
    /// its length, its angle or its colour. Only an action that sets a pen
    /// size beyond reach is refused, and then nothing changes.
    fn set_action(&mut self, name: char, action: Do) -> (result: Result<(), ConfigError>)
        ensures
            action.in_range() ==> result is Ok && final(self)@ == (SystemView {
                actions: old(self)@.actions.insert(name, action),
                ..old(self)@
            }),
            !action.in_range() ==> result == Err::<(), ConfigError>(ConfigError::OutOfRange)
                && final(self)@ == old(self)@,
    {
        if !action.check() {
            return Err(ConfigError::OutOfRange);
        }
        self.actions.insert(name, action);
        Ok(())
    }

    /// The action bound to `name`, if it has one.
    fn get_action(&self, name: char) -> (action: Option<Do>)
        ensures
            self@.actions.contains_key(name) ==> action == Some(self@.actions[name]),
            !self@.actions.contains_key(name) ==> action is None,
    {
        match self.actions.get(name) {
            Some(v) => Some(*v),
            None => None,
        }
    }

    /// Carries out `action` on the turtle and returns what the pen is to be
    /// told. A random turn and a random colour take their numbers from the
    /// system's source of chance. Only an action that sets a pen size
    /// beyond reach is refused, and then nothing changes.
    fn call(&mut self, action: Do) -> (result: Result<Vec<Command>, ConfigError>)
        ensures
            final(self)@ == (SystemView {
                cursor: final(self)@.cursor,
                source: final(self)@.source,
                ..old(self)@
            }),
            !(action is TurnRandom || action is ColorRandom) ==> final(self)@.source == old(
                self,
            )@.source,
            result is Ok <==> action.in_range(),
            result is Ok ==> may_call(
                old(self)@.cursor,
                action,
                final(self)@.cursor,
                result->Ok_0@,
            ),
            result is Err ==> result->Err_0 == ConfigError::OutOfRange && final(self)@ == old(
                self,
            )@,
    {
        if !action.check() {
            return Err(ConfigError::OutOfRange);
        }
        let mut chance = Chance { angle: 0, coin: 0, red: 0, green: 0, blue: 0 };
        match action {
            Do::TurnRandom => {
                chance.angle = draw_below(&mut self.source, FULL_TURN as u32);
                chance.coin = draw_byte(&mut self.source);
            },
            Do::ColorRandom => {
                chance.red = draw_byte(&mut self.source);
                chance.green = draw_byte(&mut self.source);
                chance.blue = draw_byte(&mut self.source);
            },
            _ => {},
        }
        let commands = self.cursor.call(action, chance);
        assert(call_outcome(old(self)@.cursor, action, chance, self@.cursor, commands@));
        Ok(commands)
    }
}

impl Rules for Lindenmayer {
    type Source = char;

    type Destination = Rule;

    type Table = SymbolMap<Vec<Rule>>;

    open spec fn rules_wf(&self) -> bool {
        self@.wf()
    }

    open spec fn rule_of(&self, src: char) -> Option<Vec<Rule>> {
        if self@.rules.contains_key(src) {
            Some(self@.rules[src])
        } else {
            None
        }
    }

    /// Gives `src` the alternatives `dest` for its rule, in place of those
    /// it had, and makes `src` a variable if it was none. The rule is
    /// refused, and nothing changes, where `src` is a constant, where
    /// `dest` is empty, and where one cannot draw from its weights.
    fn set_rule(&mut self, src: char, dest: RulesWrap) -> (result: Result<(), ConfigError>)
        ensures
            match old(self)@.rule_refusal(src, dest@) {
                Some(e) => result == Err::<(), ConfigError>(e) && final(self)@ == old(self)@,
                None => result is Ok && final(self)@ == (SystemView {
                    vars: old(self)@.vars_with(src),
                    rules: old(self)@.rules.insert(src, dest.list()),
                    ..old(self)@
                }),
            },
    {
        if self.is_const(src) {
            return Err(ConfigError::AlsoConstant(src));
        }
        let alternatives = dest.into_vec();
        match check_alternatives(&alternatives) {
            Err(e) => {
                return Err(e);
            },
            Ok(_) => {},
        }
        if !self.is_var(src) {
            self.data.vars.push(src);
        }
        self.rules.insert(src, alternatives);
        proof {
            let before = old(self)@;
            assert(self@.vars == before.vars_with(src));
            assert(self@.vars.contains(src)) by {
                if !before.vars.contains(src) {
                    assert(self@.vars[before.vars.len() as int] == src);
                }
            }
            assert forall|c: char| before.vars.contains(c) implies self@.vars.contains(c) by {
                let i = choose|i: int| 0 <= i < before.vars.len() && before.vars[i] == c;
                assert(self@.vars[i] == c);
            }
            assert forall|c: char| self@.vars.contains(c) && self@.consts.contains(c) implies false by {
                let i = choose|i: int| 0 <= i < self@.vars.len() && self@.vars[i] == c;
                if i < before.vars.len() {
                    assert(before.vars[i] == c);
                }
            }
            assert forall|c: char| self@.rules.contains_key(c) implies self@.vars.contains(c) by {
                if c != src {
                    assert(before.rules.contains_key(c));
                    assert(before.vars.contains(c));
                }
            }
            assert forall|c: char| self@.rules.contains_key(c) implies alternatives_ok(
                #[trigger] self@.rules[c]@,
            ) by {
                if c != src {
                    assert(before.rules.contains_key(c));
                }
            }
        }
        Ok(())
    }

    /// The alternatives of `src`, if it has a rule.
    fn get_rule(&self, src: char) -> (rule: Option<&Vec<Rule>>)
        ensures
            self@.rules.contains_key(src) ==> rule == Some(&self@.rules[src]),
            !self@.rules.contains_key(src) ==> rule is None,
    {
        self.rules.get(src)
    }

    /// A copy of the rules table.
    fn get_rules(&mut self) -> (table: SymbolMap<Vec<Rule>>)
        ensures
            table@ == old(self)@.rules,
            final(self)@ == old(self)@,
    {
        self.rules.clone()
    }
}

} // verus!
