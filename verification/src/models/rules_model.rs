//! A table of rules: each source has its alternatives.

use vstd::prelude::*;
use crate::error::ConfigError;
use crate::rule::RulesWrap;

verus! {

pub trait Rules {
    type Source;

    type Destination;

    type Table;

    /// Whether the value is well formed.
    spec fn rules_wf(&self) -> bool;

    /// The alternatives of `src`, if it has a rule.
    spec fn rule_of(&self, src: Self::Source) -> Option<Vec<Self::Destination>>;

    /// Gives `src` the alternatives `dest`, or says why it does not.
    fn set_rule(&mut self, src: Self::Source, dest: RulesWrap) -> (result: Result<(), ConfigError>)
        requires
            old(self).rules_wf(),
        ensures
            final(self).rules_wf(),
    ;

    /// The alternatives of `src`, if it has a rule.
    fn get_rule(&self, src: Self::Source) -> (rule: Option<&Vec<Self::Destination>>)
        ensures
            rule is Some <==> self.rule_of(src) is Some,
            rule is Some ==> *rule->0 == self.rule_of(src)->0,
    ;

    /// Whether `src` has a rule.
    fn has_rule(&self, src: Self::Source) -> (found: bool)
        ensures
            found == self.rule_of(src) is Some,
    {
        let dest = self.get_rule(src);
        match dest {
            Some(_) => true,
            None => false,
        }
    }

    /// A copy of the table.
    fn get_rules(&mut self) -> (table: Self::Table);
}

} // verus!
