//! A trace: the states that were recorded, and a mark that steps through
//! them.

use vstd::prelude::*;

verus! {

pub trait Trace {
    type State;

    type States;

    /// Whether the value is well formed.
    spec fn trace_wf(&self) -> bool;

    /// The recorded states, the first first.
    spec fn trace(&self) -> Seq<Self::State>;

    /// The place of the mark.
    spec fn mark(&self) -> nat;

    /// Whether no state was recorded.
    fn is_empty(&self) -> (empty: bool)
        ensures
            empty == (self.trace().len() == 0),
    ;

    /// Records `trace` as the latest state.
    fn add_trace(&mut self, trace: Self::State)
        requires
            old(self).trace_wf(),
        ensures
            final(self).trace_wf(),
            final(self).trace() == old(self).trace().push(trace),
            final(self).mark() == old(self).mark(),
    ;

    /// The state at place `n`.
    fn get_step(&self, n: usize) -> (state: Option<Self::State>)
        ensures
            n < self.trace().len() ==> state == Some(self.trace()[n as int]),
            n >= self.trace().len() ==> state is None,
    ;

    /// Moves the mark on by one state and returns that state; at the end
    /// of the trace the mark stays.
    fn next_trace(&mut self) -> (state: Option<Self::State>)
        requires
            old(self).trace_wf(),
        ensures
            final(self).trace_wf(),
            final(self).trace() == old(self).trace(),
            old(self).mark() + 1 < old(self).trace().len() ==> state == Some(
                old(self).trace()[old(self).mark() as int + 1],
            ) && final(self).mark() == old(self).mark() + 1,
            old(self).mark() + 1 >= old(self).trace().len() ==> state is None && final(self).mark()
                == old(self).mark(),
    ;

    /// Moves the mark back by one state and returns that state; at the
    /// start of the trace the mark stays.
    fn previous_trace(&mut self) -> (state: Option<Self::State>)
        requires
            old(self).trace_wf(),
        ensures
            final(self).trace_wf(),
            final(self).trace() == old(self).trace(),
            old(self).mark() > 0 ==> state == Some(old(self).trace()[old(self).mark() - 1])
                && final(self).mark() == old(self).mark() - 1,
            old(self).mark() == 0 ==> state is None && final(self).mark() == 0,
    ;

    /// The recorded states, the first first.
    fn all_traces(&self) -> (states: Self::States);
}

} // verus!
