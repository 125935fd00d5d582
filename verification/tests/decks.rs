use anki_cli::decks::{flatten_and_filter, list_decks, Deck, DeckNode, DeckTreeNodeIter};

fn node(deck_id: i64, name: &str, level: u32, children: Vec<DeckNode>) -> DeckNode {
    DeckNode {
        deck_id,
        name: name.to_string(),
        level,
        collapsed: false,
        review_count: 0,
        learn_count: 0,
        new_count: 0,
        filtered: false,
        children,
    }
}

fn deck(id: i64, name: &str, level: u32) -> Deck {
    Deck {
        id,
        name: name.to_string(),
        level,
        collapsed: false,
        review_count: 0,
        learn_count: 0,
        new_count: 0,
        filtered: false,
    }
}

fn siblings() -> DeckNode {
    node(
        0,
        "",
        0,
        vec![node(1, "A", 1, vec![]), node(2, "B", 1, vec![]), node(3, "C", 1, vec![])],
    )
}

fn strings(items: &[&str]) -> Vec<String> {
    items.iter().map(|s| s.to_string()).collect()
}

#[test]
fn flatten_visits_every_node_in_preorder() {
    let tree = node(
        0,
        "",
        0,
        vec![
            node(1, "a", 1, vec![node(2, "a::x", 2, vec![node(3, "a::x::p", 3, vec![])]), node(4, "a::y", 2, vec![])]),
            node(5, "b", 1, vec![]),
            node(6, "c", 1, vec![node(7, "c::z", 2, vec![])]),
        ],
    );
    let decks = flatten_and_filter(&tree, &vec![], &vec![]);
    let ids: Vec<i64> = decks.iter().map(|d| d.id).collect();
    assert_eq!(ids, vec![1, 2, 3, 4, 5, 6, 7]);
    let levels: Vec<u32> = decks.iter().map(|d| d.level).collect();
    assert_eq!(levels, vec![1, 2, 3, 2, 1, 1, 2]);
}

#[test]
fn flatten_copies_every_field() {
    let tree = DeckNode {
        deck_id: 42,
        name: "Kanji".to_string(),
        level: 1,
        collapsed: true,
        review_count: 7,
        learn_count: 5,
        new_count: 3,
        filtered: true,
        children: vec![],
    };
    let decks = flatten_and_filter(&tree, &vec![], &vec![]);
    assert_eq!(
        decks,
        vec![Deck {
            id: 42,
            name: "Kanji".to_string(),
            level: 1,
            collapsed: true,
            review_count: 7,
            learn_count: 5,
            new_count: 3,
            filtered: true,
        }]
    );
}

#[test]
fn filter_by_id_keeps_that_deck_only() {
    let decks = flatten_and_filter(&siblings(), &vec![2], &vec![]);
    assert_eq!(decks, vec![deck(2, "B", 1)]);
}

#[test]
fn filter_by_name_keeps_original_order() {
    let decks = flatten_and_filter(&siblings(), &vec![], &strings(&["C", "A"]));
    assert_eq!(decks, vec![deck(1, "A", 1), deck(3, "C", 1)]);
}

#[test]
fn both_filters_narrow_to_the_intersection() {
    let decks = flatten_and_filter(&siblings(), &vec![1, 2], &strings(&["A", "C"]));
    assert_eq!(decks, vec![deck(1, "A", 1)]);
    let none = flatten_and_filter(&siblings(), &vec![2], &strings(&["A", "C"]));
    assert_eq!(none, vec![]);
}

#[test]
fn filters_that_match_nothing_give_an_empty_listing() {
    assert_eq!(flatten_and_filter(&siblings(), &vec![99], &vec![]), vec![]);
    assert_eq!(flatten_and_filter(&siblings(), &vec![], &strings(&["Z"])), vec![]);
}

#[test]
fn root_with_identifier_zero_is_never_listed() {
    let lone_root = node(0, "root", 0, vec![]);
    assert_eq!(flatten_and_filter(&lone_root, &vec![], &vec![]), vec![]);
    assert_eq!(flatten_and_filter(&lone_root, &vec![0], &vec![]), vec![]);
    assert_eq!(flatten_and_filter(&lone_root, &vec![], &strings(&["root"])), vec![]);
}

#[test]
fn duplicate_names_stay_distinct_entries() {
    let tree = node(0, "", 0, vec![node(1, "Same", 1, vec![]), node(2, "Same", 1, vec![])]);
    let decks = flatten_and_filter(&tree, &vec![], &strings(&["Same"]));
    assert_eq!(decks, vec![deck(1, "Same", 1), deck(2, "Same", 1)]);
}

#[test]
fn end_to_end_spanish_verbs() {
    let tree = node(0, "", 0, vec![node(10, "Spanish", 1, vec![node(11, "Verbs", 2, vec![])])]);
    let decks = flatten_and_filter(&tree, &vec![], &vec![]);
    assert_eq!(decks, vec![deck(10, "Spanish", 1), deck(11, "Verbs", 2)]);
}

#[test]
fn flatten_leaves_the_tree_as_it_was() {
    let tree = siblings();
    let first = flatten_and_filter(&tree, &vec![], &vec![]);
    let second = flatten_and_filter(&tree, &vec![], &vec![]);
    assert_eq!(first, second);
    assert_eq!(tree.children.len(), 3);
}

#[test]
fn deep_hierarchy_is_walked_without_recursion() {
    let depth: u32 = 20_000;
    let mut tree = node(depth as i64, "leaf", depth, vec![]);
    let mut level = depth;
    while level > 1 {
        level -= 1;
        tree = node(level as i64, "inner", level, vec![tree]);
    }
    let decks = flatten_and_filter(&tree, &vec![], &vec![]);
    assert_eq!(decks.len(), depth as usize);
    assert_eq!(decks[0].id, 1);
    assert_eq!(decks[depth as usize - 1].id, depth as i64);
    // take the chain apart from the top, so that dropping it does not recurse either
    let mut rest = vec![tree];
    while let Some(mut n) = rest.pop() {
        rest.append(&mut n.children);
    }
}

#[test]
fn walk_hands_out_nodes_one_by_one() {
    let tree = node(0, "", 0, vec![node(1, "A", 1, vec![node(2, "A::B", 2, vec![])]), node(3, "C", 1, vec![])]);
    let mut walk = DeckTreeNodeIter::from(&tree);
    let mut seen = Vec::new();
    while let Some(n) = walk.next() {
        seen.push(n.deck_id);
    }
    assert_eq!(seen, vec![0, 1, 2, 3]);
    assert!(walk.next().is_none());
}

#[test]
fn list_decks_reads_identifiers_from_text() {
    let listing = list_decks(&siblings(), &strings(&["3", "1"]), &vec![]);
    assert_eq!(listing, Some(vec![deck(1, "A", 1), deck(3, "C", 1)]));
}

#[test]
fn list_decks_passes_over_text_that_is_no_integer() {
    let listing = list_decks(&siblings(), &strings(&["two", "2", ""]), &vec![]);
    assert_eq!(listing, Some(vec![deck(2, "B", 1)]));
    let unconstrained = list_decks(&siblings(), &strings(&["x", "1.5"]), &vec![]);
    assert_eq!(unconstrained, Some(vec![deck(1, "A", 1), deck(2, "B", 1), deck(3, "C", 1)]));
}

#[test]
fn list_decks_without_arguments_lists_everything() {
    let listing = list_decks(&siblings(), &vec![], &vec![]);
    assert_eq!(listing, Some(vec![deck(1, "A", 1), deck(2, "B", 1), deck(3, "C", 1)]));
}

#[test]
fn deck_from_node_drops_the_children() {
    let n = node(5, "Parent", 1, vec![node(6, "Child", 2, vec![])]);
    assert_eq!(Deck::from(&n), deck(5, "Parent", 1));
}
