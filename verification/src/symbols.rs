//! Lists of symbols, and a table keyed by symbols.

use vstd::prelude::*;
use vstd::std_specs::iter::IteratorSpec;
use std::collections::HashMap;

verus! {

/// The code point of a symbol.
pub open spec fn code(c: char) -> u32 {
    c as u32
}

/// Two symbols with one code point are one symbol.
pub proof fn lemma_code_injective(a: char, b: char)
    ensures
        code(a) == code(b) ==> a == b,
{
    vstd::utf8::char_u32_cast(a, code(a));
    vstd::utf8::char_u32_cast(b, code(b));
}

/// A finite map from symbols to values, held in a hash map under each
/// symbol's code point.
pub struct SymbolMap<V> {
    cells: HashMap<u32, V>,
}

impl<V> View for SymbolMap<V> {
    type V = Map<char, V>;

    closed spec fn view(&self) -> Map<char, V> {
        Map::new(|c: char| self.cells@.contains_key(code(c)), |c: char| self.cells@[code(c)])
    }
}

impl<V: Clone> Clone for SymbolMap<V> {
    fn clone(&self) -> (table: Self)
        ensures
            table@ == self@,
    {
        SymbolMap { cells: self.cells.clone() }
    }
}

impl<V> SymbolMap<V> {
    /// The table without entries.
    pub fn new() -> (table: Self)
        ensures
            table@ == Map::<char, V>::empty(),
    {
        let table = SymbolMap { cells: HashMap::new() };
        assert(table@ =~= Map::<char, V>::empty());
        table
    }

    /// Binds `symbol` to `value`; an earlier value of `symbol` is dropped.
    pub fn insert(&mut self, symbol: char, value: V)
        ensures
            final(self)@ == old(self)@.insert(symbol, value),
    {
        self.cells.insert(symbol as u32, value);
        proof {
            assert forall|d: char| #[trigger]
                self@.contains_key(d) == old(self)@.insert(symbol, value).contains_key(d) by {
                lemma_code_injective(d, symbol);
            }
            assert forall|d: char| #[trigger] self@.contains_key(d) implies self@[d] == old(
                self,
            )@.insert(symbol, value)[d] by {
                lemma_code_injective(d, symbol);
            }
            assert(self@ =~= old(self)@.insert(symbol, value));
        }
    }

    /// The value of `symbol`, if it has one.
    pub fn get(&self, symbol: char) -> (found: Option<&V>)
        ensures
            self@.contains_key(symbol) ==> found == Some(&self@[symbol]),
            !self@.contains_key(symbol) ==> found is None,
    {
        self.cells.get(&(symbol as u32))
    }

    /// Whether `symbol` has a value.
    pub fn contains(&self, symbol: char) -> (found: bool)
        ensures
            found == self@.contains_key(symbol),
    {
        self.cells.contains_key(&(symbol as u32))
    }
}

/// Tells whether `symbol` is one of `list`.
pub fn holds(list: &Vec<char>, symbol: char) -> (found: bool)
    ensures
        found == list@.contains(symbol),
{
    let mut i: usize = 0;
    while i < list.len()
        invariant
            i <= list.len(),
            forall|j: int| 0 <= j < i ==> list@[j] != symbol,
        decreases list.len() - i,
    {
        if list[i] == symbol {
            return true;
        }
        i = i + 1;
    }
    false
}

/// Whether `symbol` is the first symbol of `text` that is one of `list`.
pub open spec fn is_first_of(text: Seq<char>, list: Seq<char>, symbol: char) -> bool {
    exists|i: int|
        {
            &&& 0 <= i < text.len()
            &&& #[trigger] text[i] == symbol
            &&& list.contains(symbol)
            &&& apart(text.take(i), list)
        }
}

/// Whether no symbol of `text` is one of `list`.
pub open spec fn apart(text: Seq<char>, list: Seq<char>) -> bool {
    forall|j: int| 0 <= j < text.len() ==> !list.contains(#[trigger] text[j])
}

/// The first symbol of `text` that is one of `list`.
pub fn first_of(text: &str, list: &Vec<char>) -> (found: Option<char>)
    ensures
        match found {
            Some(symbol) => is_first_of(text@, list@, symbol),
            None => apart(text@, list@),
        },
{
    let chars = text.chars();
    for c in it: chars
        invariant
            it.seq() == text@,
            forall|j: int| 0 <= j < it.index() ==> !list@.contains(#[trigger] text@[j]),
    {
        if holds(list, c) {
            assert(text@[it.index() as int] == c);
            assert(apart(text@.take(it.index() as int), list@));
            return Some(c);
        }
    }
    None
}

/// Appends the symbols of `text` to `list`.
pub fn append_symbols(list: &mut Vec<char>, text: &str)
    ensures
        final(list)@ == old(list)@ + text@,
{
    let chars = text.chars();
    for c in it: chars
        invariant
            it.seq() == text@,
            list@ == old(list)@ + text@.take(it.index() as int),
    {
        list.push(c);
        assert(text@.take(it.index() + 1) =~= text@.take(it.index() as int).push(c));
    }
    assert(text@.take(text@.len() as int) =~= text@);
}

/// A symbol of two lists in a row is a symbol of one of them.
pub proof fn lemma_contains_concat(a: Seq<char>, b: Seq<char>, c: char)
    ensures
        (a + b).contains(c) <==> a.contains(c) || b.contains(c),
{
    if a.contains(c) {
        let i = choose|i: int| 0 <= i < a.len() && a[i] == c;
        assert((a + b)[i] == c);
    }
    if b.contains(c) {
        let i = choose|i: int| 0 <= i < b.len() && b[i] == c;
        assert((a + b)[a.len() + i] == c);
    }
    if (a + b).contains(c) {
        let i = choose|i: int| 0 <= i < (a + b).len() && (a + b)[i] == c;
        if i < a.len() {
            assert(a[i] == c);
        } else {
            assert(b[i - a.len()] == c);
        }
    }
}

/// The symbols of a list with one more at its end are those of the list
/// and the new one.
pub proof fn lemma_pushed(list: Seq<char>, symbol: char)
    ensures
        forall|c: char| list.push(symbol).contains(c) <==> list.contains(c) || c == symbol,
{
    assert forall|c: char| list.push(symbol).contains(c) <==> list.contains(c) || c == symbol by {
        if list.contains(c) {
            let i = choose|i: int| 0 <= i < list.len() && list[i] == c;
            assert(list.push(symbol)[i] == c);
        }
        if c == symbol {
            assert(list.push(symbol)[list.len() as int] == c);
        }
        if list.push(symbol).contains(c) {
            let i = choose|i: int| 0 <= i < list.push(symbol).len() && list.push(symbol)[i] == c;
            if i < list.len() {
                assert(list[i] == c);
            }
        }
    }
}

} // verus!
