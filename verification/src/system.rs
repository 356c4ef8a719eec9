//! The plain system: an alphabet, a turning angle, rules with one
//! replacement for each symbol, and the trace of the generations that were
//! recorded, with a mark that steps through it.

use vstd::prelude::*;
use vstd::string::StringExecFns;
use crate::error::ConfigError;
use crate::models::trace_model::Trace;
use crate::symbols::{SymbolMap, holds, lemma_pushed};

verus! {

/// The largest turning angle, in degrees.
pub const MAX_ANGLE: usize = 360;

/// One recorded generation.
#[derive(Debug)]
pub struct LSystemState {
    pub current: String,
}

impl Clone for LSystemState {
    fn clone(&self) -> (state: Self)
        ensures
            state == *self,
    {
        LSystemState { current: self.current.clone() }
    }
}

/// The alphabet and the turning angle.
pub struct LData {
    pub vars: Vec<char>,
    pub consts: Vec<char>,
    pub angle: usize,
}

/// What the plain system is.
pub ghost struct LSystemView {
    pub vars: Seq<char>,
    pub consts: Seq<char>,
    /// The turning angle, in degrees.
    pub angle: nat,
    /// The recorded generations, the first first.
    pub states: Seq<LSystemState>,
    /// The place of the mark in the trace.
    pub index: nat,
    /// The replacement of each symbol that has a rule.
    pub rules: Map<char, String>,
}

impl LSystemView {
    /// No symbol is both a variable and a constant, only variables have
    /// rules, the angle is at most a full turn, and the mark stands on a
    /// recorded generation or at the start.
    pub open spec fn wf(self) -> bool {
        &&& forall|c: char| !(self.vars.contains(c) && self.consts.contains(c))
        &&& forall|c: char| self.rules.contains_key(c) ==> self.vars.contains(c)
        &&& self.angle <= MAX_ANGLE
        &&& (self.index == 0 || self.index < self.states.len())
    }

    /// The system without anything.
    pub open spec fn initial() -> LSystemView {
        LSystemView {
            vars: Seq::empty(),
            consts: Seq::empty(),
            angle: 0,
            states: Seq::empty(),
            index: 0,
            rules: Map::empty(),
        }
    }

    /// The variables after `symbol` was made one, if it was none.
    pub open spec fn vars_with(self, symbol: char) -> Seq<char> {
        if self.vars.contains(symbol) {
            self.vars
        } else {
            self.vars.push(symbol)
        }
    }
}

/// Whether `after` is `before` with `dest` as the replacement of `src`, and
/// with `src` among the variables.
pub open spec fn ruled(before: LSystemView, src: char, dest: Seq<char>, after: LSystemView) -> bool {
    &&& after.vars == before.vars_with(src)
    &&& after.consts == before.consts
    &&& after.angle == before.angle
    &&& after.states == before.states
    &&& after.index == before.index
    &&& after.rules.dom() == before.rules.dom().insert(src)
    &&& after.rules[src]@ == dest
    &&& forall|c: char|
        c != src && before.rules.contains_key(c) ==> #[trigger] after.rules[c] == before.rules[c]
}

/// The plain system.
pub struct LSystem {
    data: LData,
    states: Vec<LSystemState>,
    state_index: usize,
    rules: SymbolMap<String>,
}

impl View for LSystem {
    type V = LSystemView;

    closed spec fn view(&self) -> LSystemView {
        LSystemView {
            vars: self.data.vars@,
            consts: self.data.consts@,
            angle: self.data.angle as nat,
            states: self.states@,
            index: self.state_index as nat,
            rules: self.rules@,
        }
    }
}

impl LSystem {
    pub fn new() -> (system: Self)
        ensures
            system@ == LSystemView::initial(),
            system@.wf(),
    {
        LSystem {
            data: LData { vars: Vec::new(), consts: Vec::new(), angle: 0 },
            states: Vec::new(),
            state_index: 0,
            rules: SymbolMap::new(),
        }
    }

    /// The generation that was recorded last.
    pub fn state(&self) -> (state: Option<LSystemState>)
        ensures
            self@.states.len() == 0 ==> state is None,
            self@.states.len() > 0 ==> state == Some(self@.states.last()),
    {
        let len = self.states.len();
        if len == 0 {
            return None;
        }
        Some(self.states[len - 1].clone())
    }

    /// Sets the turning angle, which is at most a full turn. A greater one
    /// is refused, and nothing changes.
    pub fn set_angle(&mut self, angle: usize) -> (result: Result<(), ConfigError>)
        requires
            old(self)@.wf(),
        ensures
            final(self)@.wf(),
            angle <= MAX_ANGLE ==> result is Ok && final(self)@ == (LSystemView {
                angle: angle as nat,
                ..old(self)@
            }),
            angle > MAX_ANGLE ==> result == Err::<(), ConfigError>(ConfigError::OutOfRange)
                && final(self)@ == old(self)@,
    {
        if angle > MAX_ANGLE {
            return Err(ConfigError::OutOfRange);
        }
        self.data.angle = angle;
        Ok(())
    }

    pub fn is_var(&self, var: char) -> (found: bool)
        ensures
            found == self@.vars.contains(var),
    {
        holds(&self.data.vars, var)
    }

    pub fn is_const(&self, c: char) -> (found: bool)
        ensures
            found == self@.consts.contains(c),
    {
        holds(&self.data.consts, c)
    }

    /// Makes `var` a variable, unless it is a constant.
    pub fn add_var(&mut self, var: char) -> (result: Result<(), ConfigError>)
        requires
            old(self)@.wf(),
        ensures
            final(self)@.wf(),
            !old(self)@.consts.contains(var) ==> result is Ok && final(self)@ == (LSystemView {
                vars: old(self)@.vars.push(var),
                ..old(self)@
            }),
            old(self)@.consts.contains(var) ==> result == Err::<(), ConfigError>(
                ConfigError::AlsoConstant(var),
            ) && final(self)@ == old(self)@,
    {
        if self.is_const(var) {
            return Err(ConfigError::AlsoConstant(var));
        }
        self.data.vars.push(var);
        proof {
            lemma_pushed(old(self)@.vars, var);
            assert(self@.vars == old(self)@.vars.push(var));
            assert forall|c: char| self@.rules.contains_key(c) implies self@.vars.contains(c) by {
                assert(old(self)@.vars.contains(c));
            }
        }
        Ok(())
    }

    /// Makes `c` a constant, unless it is a variable.
    pub fn add_const(&mut self, c: char) -> (result: Result<(), ConfigError>)
        requires
            old(self)@.wf(),
        ensures
            final(self)@.wf(),
            !old(self)@.vars.contains(c) ==> result is Ok && final(self)@ == (LSystemView {
                consts: old(self)@.consts.push(c),
                ..old(self)@
            }),
            old(self)@.vars.contains(c) ==> result == Err::<(), ConfigError>(
                ConfigError::AlsoVariable(c),
            ) && final(self)@ == old(self)@,
    {
        if self.is_var(c) {
            return Err(ConfigError::AlsoVariable(c));
        }
        self.data.consts.push(c);
        proof {
            lemma_pushed(old(self)@.consts, c);
            assert(self@.consts == old(self)@.consts.push(c));
        }
        Ok(())
    }

    /// Gives `src` the replacement `dest`, in place of the one it had, and
    /// makes `src` a variable if it was none. Where `src` is a constant the
    /// rule is refused, and nothing changes.
    pub fn set_rule(&mut self, src: char, dest: &str) -> (result: Result<(), ConfigError>)
        requires
            old(self)@.wf(),
        ensures
            final(self)@.wf(),
            old(self)@.consts.contains(src) ==> result == Err::<(), ConfigError>(
                ConfigError::AlsoConstant(src),
            ) && final(self)@ == old(self)@,
            !old(self)@.consts.contains(src) ==> result is Ok && ruled(
                old(self)@,
                src,
                dest@,
                final(self)@,
            ),
    {
        if !self.is_var(src) {
            match self.add_var(src) {
                Err(e) => {
                    return Err(e);
                },
                Ok(_) => {},
            }
        } else {
            assert(!self@.consts.contains(src));
        }
        let ghost before = self@;
        let replacement = String::from_str(dest);
        self.rules.insert(src, replacement);
        proof {
            assert(self@.rules == before.rules.insert(src, replacement));
            assert(self@.rules.dom() =~= old(self)@.rules.dom().insert(src));
            assert(self@.vars.contains(src)) by {
                if !old(self)@.vars.contains(src) {
                    lemma_pushed(old(self)@.vars, src);
                }
            }
            assert forall|c: char| self@.rules.contains_key(c) implies self@.vars.contains(c) by {
                if c != src {
                    assert(old(self)@.rules.contains_key(c));
                    assert(old(self)@.vars.contains(c));
                    if !old(self)@.vars.contains(src) {
                        lemma_pushed(old(self)@.vars, src);
                    }
                }
            }
        }
        Ok(())
    }

    /// The replacement of `src`, if it has a rule.
    pub fn get_dest(&self, src: char) -> (dest: Option<&String>)
        ensures
            self@.rules.contains_key(src) ==> dest == Some(&self@.rules[src]),
            !self@.rules.contains_key(src) ==> dest is None,
    {
        self.rules.get(src)
    }
}

impl Trace for LSystem {
    type State = LSystemState;

    type States = Vec<LSystemState>;

    open spec fn trace_wf(&self) -> bool {
        self@.wf()
    }

    open spec fn trace(&self) -> Seq<LSystemState> {
        self@.states
    }

    open spec fn mark(&self) -> nat {
        self@.index
    }

    /// Whether no generation was recorded.
    fn is_empty(&self) -> (empty: bool)
        ensures
            empty == (self@.states.len() == 0),
    {
        self.states.len() == 0
    }

    /// Records `trace` as the latest generation.
    fn add_trace(&mut self, trace: LSystemState)
        ensures
            final(self)@ == (LSystemView { states: old(self)@.states.push(trace), ..old(self)@ }),
    {
        self.states.push(trace);
    }

    /// The generation at place `n` of the trace.
    fn get_step(&self, n: usize) -> (state: Option<LSystemState>)
        ensures
            n < self@.states.len() ==> state == Some(self@.states[n as int]),
            n >= self@.states.len() ==> state is None,
    {
        if n >= self.states.len() {
            return None;
        }
        Some(self.states[n].clone())
    }

    /// Moves the mark on by one generation and returns that generation;
    /// at the end of the trace the mark stays.
    fn next_trace(&mut self) -> (state: Option<LSystemState>)
        ensures
            old(self)@.index + 1 < old(self)@.states.len() ==> state == Some(
                old(self)@.states[old(self)@.index as int + 1],
            ) && final(self)@ == (LSystemView {
                index: old(self)@.index + 1nat,
                ..old(self)@
            }),
            old(self)@.index + 1 >= old(self)@.states.len() ==> state is None && final(self)@
                == old(self)@,
    {
        if self.is_empty() {
            return None;
        }
        let len = self.states.len();
        assert(self.state_index < len);
        let index = self.state_index + 1;
        if index >= len {
            return None;
        }
        self.state_index = index;
        Some(self.states[index].clone())
    }

    /// Moves the mark back by one generation and returns that generation;
    /// at the start of the trace the mark stays.
    fn previous_trace(&mut self) -> (state: Option<LSystemState>)
        ensures
            old(self)@.index > 0 ==> state == Some(old(self)@.states[old(self)@.index - 1])
                && final(self)@ == (LSystemView {
                index: (old(self)@.index - 1) as nat,
                ..old(self)@
            }),
            old(self)@.index == 0 ==> state is None && final(self)@ == old(self)@,
    {
        if self.is_empty() || self.state_index == 0 {
            return None;
        }
        self.state_index = self.state_index - 1;
        Some(self.states[self.state_index].clone())
    }

    /// The recorded generations, the first first.
    fn all_traces(&self) -> (states: Vec<LSystemState>)
        ensures
            states@ == self@.states,
    {
        let mut states: Vec<LSystemState> = Vec::new();
        let mut i: usize = 0;
        while i < self.states.len()
            invariant
                i <= self.states.len(),
                states@ == self.states@.take(i as int),
            decreases self.states.len() - i,
        {
            states.push(self.states[i].clone());
            assert(self.states@.take(i + 1) =~= self.states@.take(i as int).push(self.states@[i as int]));
            i = i + 1;
        }
        assert(self.states@.take(i as int) =~= self.states@);
        states
    }
}

} // verus!
