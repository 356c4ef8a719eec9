//! Production rules: a replacement and the weight with which it is chosen
//! among the alternatives of one symbol.

use vstd::prelude::*;
use vstd::string::StringExecFns;
use crate::error::ConfigError;

verus! {

/// `String::push` appends one symbol to a string.
pub assume_specification[ String::push ](text: &mut String, ch: char)
    ensures
        final(text)@ == old(text)@.push(ch),
;

/// The weight of a rule that is given by its replacement alone.
pub const DEFAULT_WEIGHT: usize = 100;

/// Representing a lindenmayer rule
pub struct Rule {
    /// Rule value as str
    pub value: String,
    /// Weight for stochastic alternative
    weight: usize,
}

/// What a rule says: the symbols that replace the source symbol, and the
/// weight of this replacement among its alternatives.
pub ghost struct RuleView {
    pub value: Seq<char>,
    pub weight: nat,
}

impl View for Rule {
    type V = RuleView;

    closed spec fn view(&self) -> RuleView {
        RuleView { value: self.value@, weight: self.weight as nat }
    }
}

impl Rule {
    pub fn new(value: &str, weight: usize) -> (rule: Rule)
        ensures
            rule@ == (RuleView { value: value@, weight: weight as nat }),
    {
        Rule { value: String::from_str(value), weight }
    }

    /// Returns the rule weight
    pub fn weight(&self) -> (w: usize)
        ensures
            w == self@.weight,
    {
        self.weight
    }

    /// The replacement.
    pub fn value(&self) -> (text: &str)
        ensures
            text@ == self@.value,
    {
        self.value.as_str()
    }
}

impl Clone for Rule {
    fn clone(&self) -> (rule: Self)
        ensures
            rule == *self,
    {
        Rule { value: self.value.clone(), weight: self.weight }
    }
}

impl From<&str> for Rule {
    fn from(value: &str) -> (rule: Self)
        ensures
            rule@ == (RuleView { value: value@, weight: DEFAULT_WEIGHT as nat }),
    {
        Rule { value: String::from_str(value), weight: DEFAULT_WEIGHT }
    }
}

impl vstd::std_specs::convert::FromSpecImpl<&str> for Rule {
    open spec fn obeys_from_spec() -> bool {
        false
    }

    open spec fn from_spec(value: &str) -> Self {
        arbitrary()
    }
}

impl From<char> for Rule {
    fn from(value: char) -> (rule: Self)
        ensures
            rule@ == (RuleView { value: seq![value], weight: DEFAULT_WEIGHT as nat }),
    {
        let mut text = String::new();
        text.push(value);
        assert(text@ =~= seq![value]);
        Rule { value: text, weight: DEFAULT_WEIGHT }
    }
}

impl vstd::std_specs::convert::FromSpecImpl<char> for Rule {
    open spec fn obeys_from_spec() -> bool {
        false
    }

    open spec fn from_spec(value: char) -> Self {
        arbitrary()
    }
}

impl From<(&str, usize)> for Rule {
    fn from(rule: (&str, usize)) -> (made: Self)
        ensures
            made@ == (RuleView { value: rule.0@, weight: rule.1 as nat }),
    {
        Rule { value: String::from_str(rule.0), weight: rule.1 }
    }
}

impl vstd::std_specs::convert::FromSpecImpl<(&str, usize)> for Rule {
    open spec fn obeys_from_spec() -> bool {
        false
    }

    open spec fn from_spec(rule: (&str, usize)) -> Self {
        arbitrary()
    }
}

/// The sum of the weights of `rules`.
pub open spec fn total_weight(rules: Seq<Rule>) -> nat
    decreases rules.len(),
{
    if rules.len() == 0 {
        0
    } else {
        total_weight(rules.drop_last()) + rules.last()@.weight
    }
}

/// Whether an alternative can be drawn from `rules` by weight: the sum of the
/// weights, times their number, is a 32-bit number.
pub open spec fn drawable(rules: Seq<Rule>) -> bool {
    rules.len() * total_weight(rules) <= u32::MAX
}

/// Whether `rules` can be the alternatives of one symbol: there is one at
/// least, and where there are several, one can be drawn by weight.
pub open spec fn alternatives_ok(rules: Seq<Rule>) -> bool {
    rules.len() >= 1 && (rules.len() >= 2 ==> drawable(rules))
}

/// Every weight is at most the sum of all.
pub proof fn lemma_weight_below_total(rules: Seq<Rule>, i: int)
    requires
        0 <= i < rules.len(),
    ensures
        rules[i]@.weight <= total_weight(rules),
    decreases rules.len(),
{
    if i < rules.len() - 1 {
        lemma_weight_below_total(rules.drop_last(), i);
    }
}

/// The sum of the weights of a prefix is at most the sum of all.
pub proof fn lemma_total_weight_grows(rules: Seq<Rule>, n: int)
    requires
        0 <= n <= rules.len(),
    ensures
        total_weight(rules.take(n)) <= total_weight(rules),
    decreases rules.len() - n,
{
    if n < rules.len() {
        lemma_total_weight_grows(rules, n + 1);
        assert(rules.take(n + 1).drop_last() =~= rules.take(n));
    } else {
        assert(rules.take(n) =~= rules);
    }
}

/// The sum of the weights of `rules`, or nothing where it is no 32-bit number.
pub fn sum_weights(rules: &Vec<Rule>) -> (sum: Option<u32>)
    ensures
        match sum {
            Some(total) => total == total_weight(rules@),
            None => total_weight(rules@) > u32::MAX,
        },
{
    let mut total: u32 = 0;
    let mut i: usize = 0;
    while i < rules.len()
        invariant
            i <= rules.len(),
            total == total_weight(rules@.take(i as int)),
        decreases rules.len() - i,
    {
        let w: usize = rules[i].weight();
        proof {
            assert(rules@.take(i + 1).drop_last() =~= rules@.take(i as int));
            lemma_total_weight_grows(rules@, i + 1);
        }
        if w > (u32::MAX - total) as usize {
            return None;
        }
        total = total + w as u32;
        i = i + 1;
    }
    proof {
        assert(rules@.take(i as int) =~= rules@);
    }
    Some(total)
}

/// Tells whether `rules` can be the alternatives of one symbol.
pub fn check_alternatives(rules: &Vec<Rule>) -> (checked: Result<(), ConfigError>)
    ensures
        checked is Ok <==> alternatives_ok(rules@),
        checked is Err ==> (checked == Err::<(), ConfigError>(ConfigError::NoAlternative)
            <==> rules@.len() == 0),
        checked is Err ==> (checked == Err::<(), ConfigError>(ConfigError::WeightOverflow)
            <==> rules@.len() >= 2),
{
    let n: usize = rules.len();
    if n == 0 {
        return Err(ConfigError::NoAlternative);
    }
    if n == 1 {
        return Ok(());
    }
    match sum_weights(rules) {
        None => {
            assert(!drawable(rules@)) by (nonlinear_arith)
                requires
                    rules@.len() >= 2,
                    total_weight(rules@) > u32::MAX,
                    drawable(rules@) == (rules@.len() * total_weight(rules@) <= u32::MAX),
            ;
            Err(ConfigError::WeightOverflow)
        },
        Some(total) => {
            if total == 0 {
                assert(rules@.len() * total_weight(rules@) == 0) by (nonlinear_arith)
                    requires
                        total_weight(rules@) == 0,
                ;
                return Ok(());
            }
            if n > u32::MAX as usize {
                assert(!drawable(rules@)) by (nonlinear_arith)
                    requires
                        rules@.len() > u32::MAX,
                        total_weight(rules@) >= 1,
                        drawable(rules@) == (rules@.len() * total_weight(rules@) <= u32::MAX),
                ;
                return Err(ConfigError::WeightOverflow);
            }
            assert(n * total <= 0xffff_ffff * 0xffff_ffff) by (nonlinear_arith)
                requires
                    n <= 0xffff_ffff,
                    total <= 0xffff_ffff,
            ;
            let product: u64 = (n as u64) * (total as u64);
            if product <= u32::MAX as u64 {
                Ok(())
            } else {
                Err(ConfigError::WeightOverflow)
            }
        },
    }
}

/// The weights of `rules`, in their order.
pub fn weights_of(rules: &Vec<Rule>) -> (weights: Vec<u32>)
    requires
        total_weight(rules@) <= u32::MAX,
    ensures
        weights@.len() == rules@.len(),
        forall|i: int| 0 <= i < rules@.len() ==> weights@[i] == (#[trigger] rules@[i])@.weight,
{
    let mut weights: Vec<u32> = Vec::new();
    let mut i: usize = 0;
    while i < rules.len()
        invariant
            i <= rules.len(),
            weights@.len() == i,
            total_weight(rules@) <= u32::MAX,
            forall|j: int| 0 <= j < i ==> weights@[j] == (#[trigger] rules@[j])@.weight,
        decreases rules.len() - i,
    {
        proof {
            lemma_weight_below_total(rules@, i as int);
        }
        weights.push(rules[i].weight() as u32);
        i = i + 1;
    }
    weights
}

/// One or several alternatives, as a rule is given to the system.
pub struct RulesWrap(Vec<Rule>);

impl View for RulesWrap {
    type V = Seq<Rule>;

    open spec fn view(&self) -> Seq<Rule> {
        self.list()@
    }
}

impl RulesWrap {
    /// The alternatives, as the list that holds them.
    pub closed spec fn list(&self) -> Vec<Rule> {
        self.0
    }

    /// The alternatives, in their order.
    pub fn into_vec(self) -> (rules: Vec<Rule>)
        ensures
            rules == self.list(),
    {
        self.0
    }
}

impl From<&str> for RulesWrap {
    /// The one alternative `value`, of weight 1.
    fn from(value: &str) -> (wrap: Self)
        ensures
            wrap@.len() == 1,
            wrap@[0]@ == (RuleView { value: value@, weight: 1 }),
    {
        RulesWrap(vec![Rule::new(value, 1)])
    }
}

impl vstd::std_specs::convert::FromSpecImpl<&str> for RulesWrap {
    open spec fn obeys_from_spec() -> bool {
        false
    }

    open spec fn from_spec(value: &str) -> Self {
        arbitrary()
    }
}

impl From<Vec<Rule>> for RulesWrap {
    fn from(value: Vec<Rule>) -> (wrap: Self)
        ensures
            wrap.list() == value,
    {
        RulesWrap(value)
    }
}

impl vstd::std_specs::convert::FromSpecImpl<Vec<Rule>> for RulesWrap {
    open spec fn obeys_from_spec() -> bool {
        false
    }

    open spec fn from_spec(value: Vec<Rule>) -> Self {
        arbitrary()
    }
}

impl From<RulesWrap> for Vec<Rule> {
    fn from(wrap: RulesWrap) -> (rules: Self)
        ensures
            rules == wrap.list(),
    {
        wrap.0
    }
}

impl vstd::std_specs::convert::FromSpecImpl<RulesWrap> for Vec<Rule> {
    open spec fn obeys_from_spec() -> bool {
        false
    }

    open spec fn from_spec(wrap: RulesWrap) -> Self {
        arbitrary()
    }
}

} // verus!
