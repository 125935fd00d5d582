//! Deck catalogue: a deck hierarchy flattened in pre-order and filtered.

use crate::text::{parse_list, parsed_list};
use vstd::prelude::*;

verus! {

/// One node of the deck hierarchy as the collection hands it out.
#[derive(Debug, PartialEq, Eq)]
pub struct DeckNode {
    pub deck_id: i64,
    pub name: String,
    pub level: u32,
    pub collapsed: bool,
    pub review_count: u32,
    pub learn_count: u32,
    pub new_count: u32,
    pub filtered: bool,
    pub children: Vec<DeckNode>,
}

impl DeckNode {
    /// The node followed by the pre-order listing of its children, left to right.
    pub open spec fn preorder(self) -> Seq<DeckNode>
        decreases self, 1nat,
    {
        seq![self] + Self::preorder_forest(self.children@)
    }

    /// The pre-order listings of the trees of `forest`, one after the other.
    pub open spec fn preorder_forest(forest: Seq<DeckNode>) -> Seq<DeckNode>
        decreases forest, 0nat,
    {
        if forest.len() == 0 {
            Seq::empty()
        } else {
            forest[0].preorder() + Self::preorder_forest(forest.subrange(1, forest.len() as int))
        }
    }
}

/// The flat, user-facing record of one deck.
#[derive(Clone, Debug, Default, PartialEq, Eq, Hash)]
pub struct Deck {
    pub id: i64,
    pub name: String,
    pub level: u32,
    pub collapsed: bool,
    pub review_count: u32,
    pub learn_count: u32,
    pub new_count: u32,
    pub filtered: bool,
}

/// What a `Deck` holds, with its name as a sequence of characters.
pub ghost struct DeckView {
    pub id: i64,
    pub name: Seq<char>,
    pub level: u32,
    pub collapsed: bool,
    pub review_count: u32,
    pub learn_count: u32,
    pub new_count: u32,
    pub filtered: bool,
}

impl View for Deck {
    type V = DeckView;

    open spec fn view(&self) -> DeckView {
        DeckView {
            id: self.id,
            name: self.name@,
            level: self.level,
            collapsed: self.collapsed,
            review_count: self.review_count,
            learn_count: self.learn_count,
            new_count: self.new_count,
            filtered: self.filtered,
        }
    }
}

/// The views of a list of decks, in order.
pub open spec fn deck_views(decks: Seq<Deck>) -> Seq<DeckView> {
    decks.map_values(|d: Deck| d@)
}

/// The names of a name filter, as a set.
pub open spec fn name_set(names: Seq<String>) -> Set<Seq<char>> {
    names.map_values(|s: String| s@).to_set()
}

impl DeckNode {
    /// The record that the catalogue shows for this node: its own fields, without its children.
    pub open spec fn summary(self) -> DeckView {
        DeckView {
            id: self.deck_id,
            name: self.name@,
            level: self.level,
            collapsed: self.collapsed,
            review_count: self.review_count,
            learn_count: self.learn_count,
            new_count: self.new_count,
            filtered: self.filtered,
        }
    }

    /// Whether the catalogue lists this node under the two filters. The node
    /// with identifier zero is the synthetic root and is never listed; an
    /// empty filter sets no condition.
    pub open spec fn listed(self, ids: Set<i64>, names: Set<Seq<char>>) -> bool {
        &&& self.deck_id != 0
        &&& (ids =~= Set::empty() || ids.contains(self.deck_id))
        &&& (names =~= Set::empty() || names.contains(self.name@))
    }
}

/// The catalogue of a hierarchy: the listed nodes in pre-order, each as its record.
pub open spec fn catalogue(root: DeckNode, ids: Set<i64>, names: Set<Seq<char>>) -> Seq<DeckView> {
    selection(root.preorder(), ids, names)
}

/// The records of the listed nodes among `nodes`, in the order of `nodes`.
pub open spec fn selection(nodes: Seq<DeckNode>, ids: Set<i64>, names: Set<Seq<char>>) -> Seq<
    DeckView,
> {
    nodes.filter(|n: DeckNode| n.listed(ids, names)).map_values(|n: DeckNode| n.summary())
}

impl Deck {
    /// The record of `node`.
    pub fn from(node: &DeckNode) -> (deck: Deck)
        ensures
            deck@ == node.summary(),
    {
        Deck {
            id: node.deck_id,
            name: node.name.clone(),
            level: node.level,
            collapsed: node.collapsed,
            review_count: node.review_count,
            learn_count: node.learn_count,
            new_count: node.new_count,
            filtered: node.filtered,
        }
    }
}

/// What a work stack still has to hand out: the top of the stack is its last
/// entry, and each entry stands for its whole subtree.
spec fn pending(stack: Seq<&DeckNode>) -> Seq<DeckNode>
    decreases stack.len(),
{
    if stack.len() == 0 {
        Seq::empty()
    } else {
        stack.last().preorder() + pending(stack.drop_last())
    }
}

/// Walks a deck hierarchy in pre-order with an explicit work stack, so that the
/// depth of the hierarchy never becomes call depth.
pub struct DeckTreeNodeIter<'a> {
    stack: Vec<&'a DeckNode>,
}

impl<'a> DeckTreeNodeIter<'a> {
    /// The nodes that `next` has yet to hand out, in order.
    pub closed spec fn remaining(&self) -> Seq<DeckNode> {
        pending(self.stack@)
    }

    /// Starts a walk at `root`.
    pub fn from(root: &'a DeckNode) -> (it: Self)
        ensures
            it.remaining() == root.preorder(),
    {
        let mut stack: Vec<&'a DeckNode> = Vec::new();
        stack.push(root);
        proof {
            assert(stack@.drop_last() =~= Seq::<&DeckNode>::empty());
            assert(pending(stack@.drop_last()) =~= Seq::<DeckNode>::empty());
            assert(pending(stack@) =~= root.preorder());
        }
        DeckTreeNodeIter { stack }
    }

    /// Hands out the next node of the walk, or `None` once every node was handed out.
    pub fn next(&mut self) -> (r: Option<&'a DeckNode>)
        ensures
            old(self).remaining().len() == 0 ==> r is None && final(self).remaining().len() == 0,
            old(self).remaining().len() > 0 ==> r == Some(&old(self).remaining()[0])
                && final(self).remaining() == old(self).remaining().skip(1),
    {
        match self.stack.pop() {
            None => None,
            Some(node) => {
                let ghost rest = self.stack@;
                let n: usize = node.children.len();
                let mut i: usize = n;
                proof {
                    assert(node.children@.subrange(n as int, n as int) =~= Seq::<DeckNode>::empty());
                }
                while i > 0
                    invariant
                        i <= n,
                        n == node.children.len(),
                        pending(self.stack@) == DeckNode::preorder_forest(
                            node.children@.subrange(i as int, n as int),
                        ) + pending(rest),
                    decreases i,
                {
                    i -= 1;
                    let ghost before = self.stack@;
                    self.stack.push(&node.children[i]);
                    proof {
                        let tail = node.children@.subrange(i as int, n as int);
                        assert(tail[0] == node.children@[i as int]);
                        assert(tail.subrange(1, tail.len() as int) =~= node.children@.subrange(
                            i as int + 1,
                            n as int,
                        ));
                        assert(self.stack@.drop_last() =~= before);
                        assert(self.stack@.last() == node.children@[i as int]);
                    }
                }
                proof {
                    assert(node.children@.subrange(0, n as int) =~= node.children@);
                    assert(old(self).stack@.drop_last() =~= rest);
                    assert(old(self).remaining() =~= seq![*node] + pending(self.stack@));
                    assert(old(self).remaining().skip(1) =~= pending(self.stack@));
                }
                Some(node)
            },
        }
    }
}

/// Whether `id` occurs in `ids`.
fn has_id(ids: &Vec<i64>, id: i64) -> (found: bool)
    ensures
        found == ids@.to_set().contains(id),
{
    let mut i: usize = 0;
    while i < ids.len()
        invariant
            i <= ids.len(),
            forall|j: int| 0 <= j < i ==> ids@[j] != id,
        decreases ids.len() - i,
    {
        if ids[i] == id {
            return true;
        }
        i += 1;
    }
    false
}

/// Whether `name` occurs in `names`.
fn has_name(names: &Vec<String>, name: &String) -> (found: bool)
    ensures
        found == name_set(names@).contains(name@),
{
    let ghost views = names@.map_values(|s: String| s@);
    let mut i: usize = 0;
    while i < names.len()
        invariant
            i <= names.len(),
            views == names@.map_values(|s: String| s@),
            forall|j: int| 0 <= j < i ==> views[j] != name@,
        decreases names.len() - i,
    {
        if names[i] == *name {
            assert(views[i as int] == name@);
            return true;
        }
        i += 1;
    }
    false
}

/// Whether the catalogue lists `node` under the two filters.
fn is_listed(node: &DeckNode, id_filter: &Vec<i64>, name_filter: &Vec<String>) -> (yes: bool)
    ensures
        yes == node.listed(id_filter@.to_set(), name_set(name_filter@)),
{
    proof {
        if id_filter.len() > 0 {
            assert(id_filter@.to_set().contains(id_filter@[0]));
        }
        if name_filter.len() > 0 {
            let views = name_filter@.map_values(|s: String| s@);
            assert(views[0] == name_filter@[0]@);
            assert(name_set(name_filter@).contains(views[0]));
        }
    }
    node.deck_id != 0 && (id_filter.len() == 0 || has_id(id_filter, node.deck_id)) && (
    name_filter.len() == 0 || has_name(name_filter, &node.name))
}

/// Flattens the hierarchy under `root` in pre-order and keeps the nodes that
/// both filters let through. An empty filter lets every node through; the node
/// with identifier zero is left out whatever the filters say.
pub fn flatten_and_filter(root: &DeckNode, id_filter: &Vec<i64>, name_filter: &Vec<String>) -> (decks:
    Vec<Deck>)
    ensures
        deck_views(decks@) == catalogue(*root, id_filter@.to_set(), name_set(name_filter@)),
{
    let ghost all = root.preorder();
    let ghost ids = id_filter@.to_set();
    let ghost names = name_set(name_filter@);
    let ghost mut done: int = 0;
    let mut decks: Vec<Deck> = Vec::new();
    let mut walk = DeckTreeNodeIter::from(root);
    proof {
        reveal(Seq::filter);
        assert(all.skip(0) =~= all);
        assert(deck_views(decks@) =~= selection(all.take(0), ids, names));
    }
    loop
        invariant_except_break
            0 <= done <= all.len(),
            walk.remaining() == all.skip(done),
            deck_views(decks@) == selection(all.take(done), ids, names),
        invariant
            ids == id_filter@.to_set(),
            names == name_set(name_filter@),
        ensures
            deck_views(decks@) == selection(all, ids, names),
        decreases all.len() - done,
    {
        match walk.next() {
            None => {
                proof {
                    assert(all.take(done) =~= all);
                }
                break ;
            },
            Some(node) => {
                let ghost before = decks@;
                if is_listed(node, id_filter, name_filter) {
                    decks.push(Deck::from(node));
                }
                proof {
                    let keep = |n: DeckNode| n.listed(ids, names);
                    let seen = all.take(done);
                    assert(all.skip(done)[0] == all[done]);
                    assert(*node == all[done]);
                    assert(all.take(done + 1) =~= seen.push(*node));
                    seen.lemma_filter_push(*node, keep);
                    assert(all.skip(done).skip(1) =~= all.skip(done + 1));
                    if keep(*node) {
                        assert(deck_views(decks@) =~= deck_views(before).push(node.summary()));
                        assert(seen.filter(keep).push(*node).map_values(|n: DeckNode| n.summary())
                            =~= seen.filter(keep).map_values(|n: DeckNode| n.summary()).push(
                            node.summary(),
                        ));
                    }
                    done = done + 1;
                }
            },
        }
    }
    decks
}

/// Lists the decks of the hierarchy `tree` that the arguments ask for.
/// `deck_ids` holds identifiers as text, and an entry that is no integer is
/// passed over; `deck_names` holds names. Where a list names nothing it sets no
/// condition. The listing is always there, in pre-order.
pub fn list_decks(tree: &DeckNode, deck_ids: &Vec<String>, deck_names: &Vec<String>) -> (listing:
    Option<Vec<Deck>>)
    ensures
        listing is Some,
        deck_views(listing->0@) == catalogue(
            *tree,
            parsed_list(deck_ids@).to_set(),
            name_set(deck_names@),
        ),
{
    let ids = parse_list(deck_ids);
    Some(flatten_and_filter(tree, &ids, deck_names))
}

} // verus!
