//! One rewriting pass: every symbol of a word is replaced, from left to
//! right, by one alternative of its rule, or stays where it has no rule.

use vstd::prelude::*;
use vstd::std_specs::iter::IteratorSpec;
use vstd::string::StringExecFns;
use rand::rngs::StdRng;
use crate::chance::{draw_weighted, weight_sum};
use crate::rule::{Rule, alternatives_ok, total_weight, weights_of};
use crate::symbols::SymbolMap;

verus! {

/// Every symbol with a rule has alternatives that one can choose from.
pub open spec fn table_ok(table: Map<char, Vec<Rule>>) -> bool {
    forall|c: char| table.contains_key(c) ==> alternatives_ok(#[trigger] table[c]@)
}

/// Whether the pass has a choice to make at `c`: it has a rule with more
/// than one alternative.
pub open spec fn has_choice(table: Map<char, Vec<Rule>>, c: char) -> bool {
    table.contains_key(c) && table[c]@.len() != 1
}

/// Whether `pick` chooses an alternative of `c`, where there is a choice.
pub open spec fn pick_ok(table: Map<char, Vec<Rule>>, c: char, pick: usize) -> bool {
    has_choice(table, c) ==> pick < table[c]@.len()
}

/// Whether `picks` holds one choice for each symbol of `word`.
pub open spec fn picks_ok(table: Map<char, Vec<Rule>>, word: Seq<char>, picks: Seq<usize>) -> bool {
    &&& picks.len() == word.len()
    &&& forall|i: int| 0 <= i < word.len() ==> pick_ok(table, #[trigger] word[i], picks[i])
}

/// Whether `pick` is a choice that the weights allow at `c`: where there is
/// a choice and some alternative has a weight, the alternative chosen has
/// a weight. An alternative of weight zero is then never chosen.
pub open spec fn pick_weighted(table: Map<char, Vec<Rule>>, c: char, pick: usize) -> bool {
    has_choice(table, c) && total_weight(table[c]@) > 0 ==> pick < table[c]@.len()
        && table[c]@[pick as int]@.weight > 0
}

/// Whether `picks` holds, for each symbol of `word`, a choice that the
/// weights allow.
pub open spec fn picks_weighted(
    table: Map<char, Vec<Rule>>,
    word: Seq<char>,
    picks: Seq<usize>,
) -> bool {
    &&& picks.len() == word.len()
    &&& forall|i: int| 0 <= i < word.len() ==> pick_weighted(table, #[trigger] word[i], picks[i])
}

/// Whether `next` is `word` after one pass whose choices `picks` are
/// choices that a draw by weight can make.
pub open spec fn drawn(
    table: Map<char, Vec<Rule>>,
    word: Seq<char>,
    picks: Seq<usize>,
    next: Seq<char>,
) -> bool {
    &&& picks_ok(table, word, picks)
    &&& picks_weighted(table, word, picks)
    &&& next == rewritten(table, word, picks)
}

/// What replaces `c`: itself where it has no rule, the one alternative
/// where it has one, and the alternative that `pick` chooses otherwise.
pub open spec fn expansion(table: Map<char, Vec<Rule>>, c: char, pick: usize) -> Seq<char> {
    if !table.contains_key(c) {
        seq![c]
    } else if table[c]@.len() == 1 {
        table[c]@[0]@.value
    } else {
        table[c]@[pick as int]@.value
    }
}

/// The word after one pass in which `picks` makes the choices: the
/// expansions of the symbols of `word`, in their order.
pub open spec fn rewritten(table: Map<char, Vec<Rule>>, word: Seq<char>, picks: Seq<usize>) -> Seq<
    char,
>
    decreases word.len(),
{
    if word.len() == 0 {
        Seq::empty()
    } else {
        rewritten(table, word.drop_last(), picks.drop_last()) + expansion(
            table,
            word.last(),
            picks.last(),
        )
    }
}

/// No symbol has more than one alternative, so a pass has no choice to make.
pub open spec fn deterministic(table: Map<char, Vec<Rule>>) -> bool {
    forall|c: char| table.contains_key(c) ==> (#[trigger] table[c])@.len() == 1
}

/// The choices that choose nothing: a zero for each of `n` symbols.
pub open spec fn no_picks(n: nat) -> Seq<usize> {
    Seq::new(n, |i: int| 0usize)
}

/// The word after as many passes as `rounds` has entries, the choices of
/// each pass made by its entry.
pub open spec fn iterated(table: Map<char, Vec<Rule>>, word: Seq<char>, rounds: Seq<Seq<usize>>) -> Seq<
    char,
>
    decreases rounds.len(),
{
    if rounds.len() == 0 {
        word
    } else {
        rewritten(table, iterated(table, word, rounds.drop_last()), rounds.last())
    }
}

/// Whether each entry of `rounds` holds one choice for each symbol of the
/// word that its pass rewrites.
pub open spec fn rounds_ok(table: Map<char, Vec<Rule>>, word: Seq<char>, rounds: Seq<Seq<usize>>) -> bool
    decreases rounds.len(),
{
    rounds.len() == 0 || {
        &&& rounds_ok(table, word, rounds.drop_last())
        &&& picks_ok(table, iterated(table, word, rounds.drop_last()), rounds.last())
    }
}

/// Whether each entry of `rounds` holds, for each symbol of the word that
/// its pass rewrites, a choice that the weights allow.
pub open spec fn rounds_weighted(
    table: Map<char, Vec<Rule>>,
    word: Seq<char>,
    rounds: Seq<Seq<usize>>,
) -> bool
    decreases rounds.len(),
{
    rounds.len() == 0 || {
        &&& rounds_weighted(table, word, rounds.drop_last())
        &&& picks_weighted(table, iterated(table, word, rounds.drop_last()), rounds.last())
    }
}

/// The word after `n` passes that have no choice to make.
pub open spec fn iterated_plain(table: Map<char, Vec<Rule>>, word: Seq<char>, n: nat) -> Seq<char>
    decreases n,
{
    if n == 0 {
        word
    } else {
        let before = iterated_plain(table, word, (n - 1) as nat);
        rewritten(table, before, no_picks(before.len()))
    }
}

/// A pass rewrites each part of a word for itself: the pass over two words
/// in a row is the pass over the first, then the pass over the second.
pub proof fn lemma_rewritten_concat(
    table: Map<char, Vec<Rule>>,
    a: Seq<char>,
    b: Seq<char>,
    picks_a: Seq<usize>,
    picks_b: Seq<usize>,
)
    requires
        picks_a.len() == a.len(),
        picks_b.len() == b.len(),
    ensures
        rewritten(table, a + b, picks_a + picks_b) == rewritten(table, a, picks_a) + rewritten(
            table,
            b,
            picks_b,
        ),
    decreases b.len(),
{
    if b.len() == 0 {
        assert(a + b =~= a);
        assert(picks_a + picks_b =~= picks_a);
        assert(rewritten(table, a, picks_a) + rewritten(table, b, picks_b) =~= rewritten(
            table,
            a,
            picks_a,
        ));
    } else {
        lemma_rewritten_concat(table, a, b.drop_last(), picks_a, picks_b.drop_last());
        assert((a + b).drop_last() =~= a + b.drop_last());
        assert((picks_a + picks_b).drop_last() =~= picks_a + picks_b.drop_last());
        assert((a + b).last() == b.last());
        assert((picks_a + picks_b).last() == picks_b.last());
        assert(rewritten(table, a + b, picks_a + picks_b) =~= rewritten(table, a, picks_a)
            + rewritten(table, b, picks_b));
    }
}

/// A symbol without a rule stays: wherever it stands in a word, the pass
/// puts it, unchanged, between what it makes of the symbols before it and
/// what it makes of the symbols after it.
pub proof fn lemma_unbound_symbol_stays(
    table: Map<char, Vec<Rule>>,
    word: Seq<char>,
    picks: Seq<usize>,
    i: int,
)
    requires
        picks.len() == word.len(),
        0 <= i < word.len(),
        !table.contains_key(word[i]),
    ensures
        rewritten(table, word, picks) == rewritten(table, word.take(i), picks.take(i)) + seq![
            word[i],
        ] + rewritten(table, word.skip(i + 1), picks.skip(i + 1)),
{
    let head = word.take(i + 1);
    let head_picks = picks.take(i + 1);
    assert(word =~= head + word.skip(i + 1));
    assert(picks =~= head_picks + picks.skip(i + 1));
    lemma_rewritten_concat(table, head, word.skip(i + 1), head_picks, picks.skip(i + 1));
    assert(head.drop_last() =~= word.take(i));
    assert(head_picks.drop_last() =~= picks.take(i));
    assert(head.last() == word[i]);
}

/// A word in which no symbol has a rule is left as it is.
pub proof fn lemma_unbound_word_stays(table: Map<char, Vec<Rule>>, word: Seq<char>, picks: Seq<usize>)
    requires
        forall|i: int| 0 <= i < word.len() ==> !table.contains_key(#[trigger] word[i]),
    ensures
        rewritten(table, word, picks) == word,
    decreases word.len(),
{
    if word.len() > 0 {
        lemma_unbound_word_stays(table, word.drop_last(), picks.drop_last());
        assert(word.drop_last().push(word.last()) =~= word);
        assert(rewritten(table, word, picks) =~= word.drop_last().push(word.last()));
    }
}

/// Where no symbol of a word has more than one alternative, the pass does
/// not depend on the choices: the same word always gives the same result.
pub proof fn lemma_single_alternatives_decide(
    table: Map<char, Vec<Rule>>,
    word: Seq<char>,
    picks: Seq<usize>,
    others: Seq<usize>,
)
    requires
        forall|i: int| 0 <= i < word.len() ==> !has_choice(table, #[trigger] word[i]),
    ensures
        rewritten(table, word, picks) == rewritten(table, word, others),
    decreases word.len(),
{
    if word.len() > 0 {
        lemma_single_alternatives_decide(
            table,
            word.drop_last(),
            picks.drop_last(),
            others.drop_last(),
        );
        assert(!has_choice(table, word[word.len() - 1]));
    }
}

/// No pass is the identity, and the passes of two runs in a row are the
/// passes of the second run made on the result of the first.
pub proof fn lemma_iterated_concat(
    table: Map<char, Vec<Rule>>,
    word: Seq<char>,
    first: Seq<Seq<usize>>,
    second: Seq<Seq<usize>>,
)
    ensures
        iterated(table, word, Seq::empty()) == word,
        iterated(table, word, first + second) == iterated(
            table,
            iterated(table, word, first),
            second,
        ),
        rounds_ok(table, word, first + second) <==> rounds_ok(table, word, first) && rounds_ok(
            table,
            iterated(table, word, first),
            second,
        ),
        rounds_weighted(table, word, first + second) <==> rounds_weighted(table, word, first)
            && rounds_weighted(table, iterated(table, word, first), second),
    decreases second.len(),
{
    if second.len() == 0 {
        assert(first + second =~= first);
    } else {
        lemma_iterated_concat(table, word, first, second.drop_last());
        assert((first + second).drop_last() =~= first + second.drop_last());
        assert((first + second).last() == second.last());
    }
}

/// With a table that leaves no choice, no pass is the identity, and `n + m`
/// passes are `m` passes made on the result of `n` passes.
pub proof fn lemma_iterated_plain_add(table: Map<char, Vec<Rule>>, word: Seq<char>, n: nat, m: nat)
    ensures
        iterated_plain(table, word, 0) == word,
        iterated_plain(table, word, n + m) == iterated_plain(
            table,
            iterated_plain(table, word, n),
            m,
        ),
    decreases m,
{
    if m > 0 {
        lemma_iterated_plain_add(table, word, n, (m - 1) as nat);
        assert((n + m - 1) as nat == n + (m - 1) as nat);
    }
}

/// The sum of a list of weights is the sum of the weights of the rules
/// they were read from.
pub proof fn lemma_weight_sum(rules: Seq<Rule>, weights: Seq<u32>)
    requires
        weights.len() == rules.len(),
        forall|i: int| 0 <= i < rules.len() ==> weights[i] == (#[trigger] rules[i])@.weight,
    ensures
        weight_sum(weights) == total_weight(rules),
    decreases rules.len(),
{
    if rules.len() > 0 {
        lemma_weight_sum(rules.drop_last(), weights.drop_last());
    }
}

/// Appends to `out` what replaces `c` when `pick` chooses.
pub fn expand(table: &SymbolMap<Vec<Rule>>, c: char, pick: usize, out: &mut String)
    requires
        pick_ok(table@, c, pick),
    ensures
        final(out)@ == old(out)@ + expansion(table@, c, pick),
{
    match table.get(c) {
        None => {
            out.push(c);
            assert(old(out)@.push(c) =~= old(out)@ + seq![c]);
        },
        Some(alternatives) => {
            if alternatives.len() == 1 {
                out.append(alternatives[0].value());
            } else {
                out.append(alternatives[pick].value());
            }
        },
    }
}

/// One pass over `word` in which `picks` makes the choices, if it holds a
/// choice for each symbol of `word`.
pub fn rewrite_with(table: &SymbolMap<Vec<Rule>>, word: &str, picks: &Vec<usize>) -> (next: Option<
    String,
>)
    ensures
        next is Some <==> picks_ok(table@, word@, picks@),
        next is Some ==> next->0@ == rewritten(table@, word@, picks@),
{
    let mut out = String::new();
    let mut i: usize = 0;
    let chars = word.chars();
    for c in it: chars
        invariant
            it.seq() == word@,
            i == it.index(),
            i <= picks@.len(),
            picks_ok(table@, word@.take(i as int), picks@.take(i as int)),
            out@ == rewritten(table@, word@.take(i as int), picks@.take(i as int)),
    {
        if i >= picks.len() {
            return None;
        }
        let pick: usize = picks[i];
        let fits: bool = match table.get(c) {
            None => true,
            Some(alternatives) => alternatives.len() == 1 || pick < alternatives.len(),
        };
        if !fits {
            assert(word@[i as int] == c);
            assert(!pick_ok(table@, word@[i as int], picks@[i as int]));
            return None;
        }
        expand(table, c, pick, &mut out);
        proof {
            let n = i as int;
            assert(word@.take(n + 1).drop_last() =~= word@.take(n));
            assert(picks@.take(n + 1).drop_last() =~= picks@.take(n));
            assert(word@.take(n + 1).last() == c);
            assert(picks@.take(n + 1).last() == pick);
            assert forall|j: int| 0 <= j < n + 1 implies pick_ok(
                table@,
                #[trigger] word@.take(n + 1)[j],
                picks@.take(n + 1)[j],
            ) by {
                if j < n {
                    assert(word@.take(n)[j] == word@[j]);
                }
            }
        }
        i = i + 1;
    }
    proof {
        assert(word@.take(i as int) =~= word@);
    }
    if i != picks.len() {
        return None;
    }
    proof {
        assert(picks@.take(i as int) =~= picks@);
    }
    Some(out)
}

/// Draws one choice for each symbol of `word`: by weight among the
/// alternatives where a symbol has several, and a zero elsewhere.
pub fn draw_picks(table: &SymbolMap<Vec<Rule>>, word: &str, source: &mut StdRng) -> (picks: Vec<
    usize,
>)
    requires
        table_ok(table@),
    ensures
        picks_ok(table@, word@, picks@),
        picks_weighted(table@, word@, picks@),
        forall|i: int| 0 <= i < word@.len() && !has_choice(table@, word@[i]) ==> picks@[i] == 0,
{
    let mut picks: Vec<usize> = Vec::new();
    let chars = word.chars();
    for c in it: chars
        invariant
            it.seq() == word@,
            picks@.len() == it.index(),
            table_ok(table@),
            forall|j: int| 0 <= j < picks@.len() ==> pick_ok(table@, #[trigger] word@[j], picks@[j]),
            forall|j: int|
                0 <= j < picks@.len() ==> pick_weighted(table@, #[trigger] word@[j], picks@[j]),
            forall|j: int| 0 <= j < picks@.len() && !has_choice(table@, word@[j]) ==> picks@[j] == 0,
    {
        let pick: usize = match table.get(c) {
            None => 0,
            Some(alternatives) => {
                if alternatives.len() == 1 {
                    0
                } else {
                    assert(alternatives_ok(table@[c]@));
                    assert(total_weight(alternatives@) <= u32::MAX) by (nonlinear_arith)
                        requires
                            alternatives@.len() >= 2,
                            alternatives@.len() * total_weight(alternatives@) <= u32::MAX,
                    ;
                    let weights = weights_of(alternatives);
                    proof {
                        lemma_weight_sum(alternatives@, weights@);
                    }
                    draw_weighted(source, &weights)
                }
            },
        };
        picks.push(pick);
    }
    picks
}

/// One pass over `word`, with the choices drawn from `source`: by weight
/// where a symbol has several alternatives, so that an alternative of
/// weight zero is chosen only where all weights are zero.
pub fn rewrite(table: &SymbolMap<Vec<Rule>>, word: &str, source: &mut StdRng) -> (next: String)
    requires
        table_ok(table@),
    ensures
        exists|picks: Seq<usize>| #[trigger] drawn(table@, word@, picks, next@),
        deterministic(table@) ==> next@ == rewritten(table@, word@, no_picks(word@.len())),
{
    let picks = draw_picks(table, word, source);
    let next = rewrite_with(table, word, &picks);
    proof {
        if deterministic(table@) {
            assert(picks@ =~= no_picks(word@.len()));
        }
        assert(drawn(table@, word@, picks@, next->0@));
    }
    next.unwrap()
}

} // verus!
