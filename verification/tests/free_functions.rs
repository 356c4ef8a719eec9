use lindenmayer::error::ConfigError;
use lindenmayer::rewrite::{draw_picks, expand, rewrite, rewrite_with};
use rand::rngs::StdRng;
use rand::SeedableRng;
use lindenmayer::rule::{check_alternatives, sum_weights, weights_of, Rule};
use lindenmayer::symbols::{append_symbols, first_of, holds, SymbolMap};

fn table() -> SymbolMap<Vec<Rule>> {
    let mut t = SymbolMap::new();
    t.insert('A', vec![Rule::new("AB", 1)]);
    t.insert('B', vec![Rule::new("x", 1), Rule::new("y", 1)]);
    t
}

#[test]
fn symbol_map_insert_get_contains() {
    let mut t: SymbolMap<u8> = SymbolMap::new();
    assert!(!t.contains('a'));
    assert!(t.get('a').is_none());
    t.insert('a', 1);
    t.insert('é', 2);
    t.insert('a', 3);
    assert_eq!(t.get('a'), Some(&3));
    assert_eq!(t.get('é'), Some(&2));
    assert!(t.contains('é'));
    assert!(!t.contains('e'));
}

#[test]
fn holds_finds_symbols() {
    let list = vec!['a', 'b'];
    assert!(holds(&list, 'a'));
    assert!(holds(&list, 'b'));
    assert!(!holds(&list, 'c'));
    assert!(!holds(&Vec::new(), 'a'));
}

#[test]
fn first_of_names_the_first_hit() {
    let list = vec!['x', 'y'];
    assert_eq!(first_of("abyxc", &list), Some('y'));
    assert_eq!(first_of("abc", &list), None);
    assert_eq!(first_of("", &list), None);
}

#[test]
fn append_symbols_keeps_order() {
    let mut list = vec!['a'];
    append_symbols(&mut list, "bca");
    assert_eq!(list, vec!['a', 'b', 'c', 'a']);
    append_symbols(&mut list, "");
    assert_eq!(list.len(), 4);
}

#[test]
fn expand_appends_the_expansion() {
    let t = table();
    let mut out = String::from(">");
    expand(&t, 'A', 0, &mut out);
    expand(&t, 'z', 0, &mut out);
    expand(&t, 'B', 1, &mut out);
    expand(&t, 'B', 0, &mut out);
    assert_eq!(out, ">ABzyx");
}

#[test]
fn rewrite_with_follows_picks() {
    let t = table();
    assert_eq!(rewrite_with(&t, "ABB", &vec![0, 1, 0]), Some(String::from("AByx")));
    assert_eq!(rewrite_with(&t, "", &vec![]), Some(String::new()));
    assert_eq!(rewrite_with(&t, "ABB", &vec![0, 1]), None);
    assert_eq!(rewrite_with(&t, "ABB", &vec![0, 2, 0]), None);
    assert_eq!(rewrite_with(&t, "A", &vec![0, 0]), None);
}

#[test]
fn weights_are_summed() {
    let rules = vec![Rule::new("a", 1), Rule::new("b", 2), Rule::new("c", 3)];
    assert_eq!(sum_weights(&rules), Some(6));
    assert_eq!(weights_of(&rules), vec![1, 2, 3]);
    assert_eq!(sum_weights(&Vec::new()), Some(0));
    let edge = vec![Rule::new("a", 4_294_967_295), Rule::new("b", 0)];
    assert_eq!(sum_weights(&edge), Some(4_294_967_295));
    let over = vec![Rule::new("a", 4_294_967_295), Rule::new("b", 1)];
    assert_eq!(sum_weights(&over), None);
}

#[test]
fn alternatives_are_checked() {
    assert_eq!(check_alternatives(&Vec::new()), Err(ConfigError::NoAlternative));
    assert_eq!(check_alternatives(&vec![Rule::new("a", usize::MAX)]), Ok(()));
    let fits = vec![Rule::new("a", 1_431_655_765), Rule::new("", 0), Rule::new("", 0)];
    assert_eq!(check_alternatives(&fits), Ok(()));
    let over = vec![Rule::new("a", 1_431_655_765), Rule::new("", 1), Rule::new("", 0)];
    assert_eq!(check_alternatives(&over), Err(ConfigError::WeightOverflow));
}

#[test]
fn picks_are_drawn_for_each_symbol() {
    let t = table();
    let mut source = StdRng::seed_from_u64(11);
    let word = "ABzBBABBBBBBBBBB";
    let picks = draw_picks(&t, word, &mut source);
    assert_eq!(picks.len(), 16);
    for (c, pick) in word.chars().zip(picks.iter()) {
        match c {
            'B' => assert!(*pick < 2),
            _ => assert_eq!(*pick, 0),
        }
    }
    assert!(picks.contains(&1));
    assert!(rewrite_with(&t, word, &picks).is_some());
    assert!(draw_picks(&t, "", &mut source).is_empty());
}

#[test]
fn picks_follow_the_weights() {
    let mut t: SymbolMap<Vec<Rule>> = SymbolMap::new();
    t.insert('C', vec![Rule::new("0", 0), Rule::new("1", 0), Rule::new("2", 3)]);
    let mut source = StdRng::seed_from_u64(13);
    for _ in 0..100 {
        assert_eq!(draw_picks(&t, "CzC", &mut source), vec![2, 0, 2]);
    }
}

#[test]
fn rewrite_draws_and_replaces() {
    let t = table();
    let mut source = StdRng::seed_from_u64(12);
    assert_eq!(rewrite(&t, "AzA", &mut source), "ABzAB");
    assert_eq!(rewrite(&t, "", &mut source), "");
    for _ in 0..50 {
        let next = rewrite(&t, "BAB", &mut source);
        assert!(["xABx", "xABy", "yABx", "yABy"].contains(&next.as_str()));
    }
}
