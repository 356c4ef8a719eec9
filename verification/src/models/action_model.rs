//! A table of actions: each name has the action bound to it.

use vstd::prelude::*;
use crate::action::Command;
use crate::error::ConfigError;

verus! {

pub trait Action {
    type Name;

    type Do;

    /// Whether the value is well formed.
    spec fn actions_wf(&self) -> bool;

    /// The action bound to `name`, if it has one.
    spec fn action_of(&self, name: Self::Name) -> Option<Self::Do>;

    /// Binds `name` to `action`, or says why it does not.
    fn set_action(&mut self, name: Self::Name, action: Self::Do) -> (result: Result<
        (),
        ConfigError,
    >)
        requires
            old(self).actions_wf(),
        ensures
            final(self).actions_wf(),
    ;

    /// The action bound to `name`, if it has one.
    fn get_action(&self, name: Self::Name) -> (action: Option<Self::Do>)
        ensures
            action == self.action_of(name),
    ;

    /// Carries out `action` and returns what the pen is to be told, or
    /// says why it does not.
    fn call(&mut self, action: Self::Do) -> (result: Result<Vec<Command>, ConfigError>)
        requires
            old(self).actions_wf(),
        ensures
            final(self).actions_wf(),
    ;
}

} // verus!
