//! Laws of the pre-order listing of a deck hierarchy: every node of the
//! hierarchy stands in the listing exactly once, before the nodes below it and
//! after the nodes of its elder siblings, and levels grow by one from parent
//! to child.

use crate::decks::{catalogue, selection, DeckNode};
use vstd::prelude::*;

verus! {

impl DeckNode {
    /// Whether `path` leads from this node down to a node of its hierarchy:
    /// each entry is the index of a child of the node reached so far.
    pub open spec fn has_path(self, path: Seq<int>) -> bool
        decreases path.len(),
    {
        path.len() == 0 || (0 <= path[0] < self.children@.len() && self.children@[path[0]].has_path(
            path.skip(1),
        ))
    }

    /// The node that `path` leads to.
    pub open spec fn node_at(self, path: Seq<int>) -> DeckNode
        decreases path.len(),
    {
        if path.len() == 0 {
            self
        } else {
            self.children@[path[0]].node_at(path.skip(1))
        }
    }

    /// The place in the pre-order listing of this node's hierarchy of the
    /// node that `path` leads to: after this node itself and after the whole
    /// hierarchies of the children before the one that the path enters.
    pub open spec fn position(self, path: Seq<int>) -> int
        decreases path.len(),
    {
        if path.len() == 0 {
            0
        } else {
            1 + Self::preorder_forest(self.children@.take(path[0])).len()
                + self.children@[path[0]].position(path.skip(1))
        }
    }

    /// Whether, all through the hierarchy of this node, the level of a child
    /// is the level of its parent plus one.
    pub open spec fn levels_consistent(self) -> bool
        decreases self,
    {
        forall|i: int|
            0 <= i < self.children@.len() ==> {
                &&& (#[trigger] self.children@[i]).level == self.level + 1
                &&& self.children@[i].levels_consistent()
            }
    }
}

/// The listing of two forests side by side is the listing of the first
/// followed by the listing of the second.
pub proof fn lemma_forest_concat(first: Seq<DeckNode>, second: Seq<DeckNode>)
    ensures
        DeckNode::preorder_forest(first + second) == DeckNode::preorder_forest(first)
            + DeckNode::preorder_forest(second),
    decreases first.len(),
{
    if first.len() == 0 {
        assert(first + second =~= second);
    } else {
        let both = first + second;
        assert(both[0] == first[0]);
        assert(both.subrange(1, both.len() as int) =~= first.subrange(1, first.len() as int) + second);
        lemma_forest_concat(first.subrange(1, first.len() as int), second);
    }
}

/// The listing of a forest is the listing of the trees before the `k`-th,
/// then the listing of the `k`-th tree, then the listing of the trees after it.
pub proof fn lemma_forest_split(forest: Seq<DeckNode>, k: int)
    requires
        0 <= k < forest.len(),
    ensures
        DeckNode::preorder_forest(forest) == DeckNode::preorder_forest(forest.take(k))
            + forest[k].preorder() + DeckNode::preorder_forest(forest.skip(k + 1)),
        DeckNode::preorder_forest(forest.take(k + 1)) == DeckNode::preorder_forest(forest.take(k))
            + forest[k].preorder(),
{
    let one = seq![forest[k]];
    assert(one.subrange(1, 1) =~= Seq::<DeckNode>::empty());
    assert(DeckNode::preorder_forest(one) =~= forest[k].preorder()) by {
        reveal_with_fuel(DeckNode::preorder_forest, 2);
    }
    assert(forest.take(k + 1) =~= forest.take(k) + one);
    assert(forest =~= forest.take(k + 1) + forest.skip(k + 1));
    lemma_forest_concat(forest.take(k), one);
    lemma_forest_concat(forest.take(k + 1), forest.skip(k + 1));
}

/// The more trees of a forest are listed, the longer the listing.
pub proof fn lemma_forest_prefix_grows(forest: Seq<DeckNode>, i: int, j: int)
    requires
        0 <= i <= j <= forest.len(),
    ensures
        DeckNode::preorder_forest(forest.take(i)).len() <= DeckNode::preorder_forest(
            forest.take(j),
        ).len(),
    decreases j - i,
{
    if i < j {
        lemma_forest_split(forest, i);
        lemma_forest_prefix_grows(forest, i + 1, j);
    }
}

/// Every node of the hierarchy stands in the listing, at its position.
pub proof fn lemma_node_is_listed(root: DeckNode, path: Seq<int>)
    requires
        root.has_path(path),
    ensures
        0 <= root.position(path) < root.preorder().len(),
        root.preorder()[root.position(path)] == root.node_at(path),
    decreases path.len(),
{
    if path.len() > 0 {
        let k = path[0];
        let child = root.children@[k];
        lemma_node_is_listed(child, path.skip(1));
        lemma_forest_split(root.children@, k);
    }
}

/// No two nodes of the hierarchy share a position: each stands in the
/// listing once.
pub proof fn lemma_node_is_listed_once(root: DeckNode, path: Seq<int>, other: Seq<int>)
    requires
        root.has_path(path),
        root.has_path(other),
        root.position(path) == root.position(other),
    ensures
        path == other,
    decreases path.len(),
{
    if path.len() == 0 || other.len() == 0 {
        if path.len() > 0 {
            lemma_node_is_listed(root.children@[path[0]], path.skip(1));
        }
        if other.len() > 0 {
            lemma_node_is_listed(root.children@[other[0]], other.skip(1));
        }
        assert(path =~= other);
    } else {
        let k = path[0];
        let j = other[0];
        let forest = root.children@;
        lemma_node_is_listed(forest[k], path.skip(1));
        lemma_node_is_listed(forest[j], other.skip(1));
        lemma_forest_split(forest, k);
        lemma_forest_split(forest, j);
        if k < j {
            lemma_forest_prefix_grows(forest, k + 1, j);
        } else if j < k {
            lemma_forest_prefix_grows(forest, j + 1, k);
        } else {
            lemma_node_is_listed_once(forest[k], path.skip(1), other.skip(1));
            assert(path =~= seq![k] + path.skip(1));
            assert(other =~= seq![j] + other.skip(1));
        }
    }
}

/// Nothing stands in the listing but the nodes of the hierarchy: each place
/// of the listing is the position of a node.
pub proof fn lemma_listed_is_node(root: DeckNode, place: int) -> (path: Seq<int>)
    requires
        0 <= place < root.preorder().len(),
    ensures
        root.has_path(path),
        root.position(path) == place,
    decreases root,
{
    if place == 0 {
        Seq::empty()
    } else {
        let forest = root.children@;
        let k = lemma_forest_locate(forest, place - 1);
        let below = lemma_listed_is_node(
            forest[k],
            place - 1 - DeckNode::preorder_forest(forest.take(k)).len(),
        );
        let path = seq![k] + below;
        assert(path.skip(1) =~= below);
        path
    }
}

/// The tree of a forest in whose listing the place `place` of the forest's
/// listing falls.
pub proof fn lemma_forest_locate(forest: Seq<DeckNode>, place: int) -> (k: int)
    requires
        0 <= place < DeckNode::preorder_forest(forest).len(),
    ensures
        0 <= k < forest.len(),
        DeckNode::preorder_forest(forest.take(k)).len() <= place < DeckNode::preorder_forest(
            forest.take(k),
        ).len() + forest[k].preorder().len(),
    decreases forest.len(),
{
    let last = forest.len() - 1;
    lemma_forest_split(forest, last);
    assert(forest.take(last + 1) =~= forest);
    if place >= DeckNode::preorder_forest(forest.take(last)).len() {
        last
    } else {
        let k = lemma_forest_locate(forest.take(last), place);
        assert(forest.take(last).take(k) =~= forest.take(k));
        k
    }
}

/// A node stands before every node below it.
pub proof fn lemma_parent_before_descendants(root: DeckNode, path: Seq<int>, below: Seq<int>)
    requires
        root.has_path(path + below),
        below.len() > 0,
    ensures
        root.has_path(path),
        root.position(path) < root.position(path + below),
    decreases path.len(),
{
    let whole = path + below;
    if path.len() == 0 {
        assert(whole =~= below);
        lemma_node_is_listed(root.children@[whole[0]], whole.skip(1));
    } else {
        assert(whole[0] == path[0]);
        assert(whole.skip(1) =~= path.skip(1) + below);
        lemma_parent_before_descendants(root.children@[path[0]], path.skip(1), below);
    }
}

/// Siblings stand in their original order, each with all that is below it:
/// whatever is reached through an elder child stands before whatever is
/// reached through a younger child of the same node.
pub proof fn lemma_siblings_in_order(
    root: DeckNode,
    path: Seq<int>,
    elder: int,
    younger: int,
    below_elder: Seq<int>,
    below_younger: Seq<int>,
)
    requires
        root.has_path(path.push(elder) + below_elder),
        root.has_path(path.push(younger) + below_younger),
        elder < younger,
    ensures
        root.position(path.push(elder) + below_elder) < root.position(
            path.push(younger) + below_younger,
        ),
    decreases path.len(),
{
    let first = path.push(elder) + below_elder;
    let second = path.push(younger) + below_younger;
    if path.len() == 0 {
        let forest = root.children@;
        assert(first[0] == elder);
        assert(second[0] == younger);
        assert(first.skip(1) =~= below_elder);
        assert(second.skip(1) =~= below_younger);
        lemma_node_is_listed(forest[elder], below_elder);
        lemma_node_is_listed(forest[younger], below_younger);
        lemma_forest_split(forest, elder);
        lemma_forest_prefix_grows(forest, elder + 1, younger);
    } else {
        assert(first[0] == path[0]);
        assert(second[0] == path[0]);
        assert(first.skip(1) =~= path.skip(1).push(elder) + below_elder);
        assert(second.skip(1) =~= path.skip(1).push(younger) + below_younger);
        lemma_siblings_in_order(
            root.children@[path[0]],
            path.skip(1),
            elder,
            younger,
            below_elder,
            below_younger,
        );
    }
}

/// Where levels are consistent, a node that is reached by a path of `n`
/// steps has the level of the root plus `n`, and its own levels are consistent.
pub proof fn lemma_level_is_depth(root: DeckNode, path: Seq<int>)
    requires
        root.levels_consistent(),
        root.has_path(path),
    ensures
        root.node_at(path).level == root.level + path.len(),
        root.node_at(path).levels_consistent(),
    decreases path.len(),
{
    if path.len() > 0 {
        lemma_level_is_depth(root.children@[path[0]], path.skip(1));
    }
}

/// Where levels are consistent, the level of a child is the level of its
/// parent plus one.
pub proof fn lemma_child_is_one_deeper(root: DeckNode, path: Seq<int>, child: int)
    requires
        root.levels_consistent(),
        root.has_path(path.push(child)),
    ensures
        root.has_path(path),
        root.node_at(path.push(child)).level == root.node_at(path).level + 1,
{
    assert(path.push(child) =~= path + seq![child]);
    lemma_parent_before_descendants(root, path, seq![child]);
    lemma_level_is_depth(root, path);
    lemma_level_is_depth(root, path.push(child));
}

/// How many of the nodes that stand before `place` in the pre-order listing
/// the catalogue lists.
pub open spec fn listed_before(root: DeckNode, ids: Set<i64>, names: Set<Seq<char>>, place: int) -> int {
    selection(root.preorder().take(place), ids, names).len() as int
}

/// Whatever the filters, the catalogue holds the record of every listed
/// node: it stands after the records of the listed nodes that come before
/// the node in pre-order, and of those alone.
pub proof fn lemma_listed_node_in_catalogue(
    root: DeckNode,
    ids: Set<i64>,
    names: Set<Seq<char>>,
    path: Seq<int>,
)
    requires
        root.has_path(path),
        root.node_at(path).listed(ids, names),
    ensures
        0 <= listed_before(root, ids, names, root.position(path)) < catalogue(root, ids, names).len(),
        catalogue(root, ids, names)[listed_before(root, ids, names, root.position(path))]
            == root.node_at(path).summary(),
{
    lemma_node_is_listed(root, path);
    lemma_kept_entry_place(root.preorder(), |n: DeckNode| n.listed(ids, names), root.position(path));
}

/// Whatever the filters, the catalogue keeps the pre-order: of two listed
/// nodes, the record of the one that comes first in pre-order comes first.
pub proof fn lemma_catalogue_keeps_order(
    root: DeckNode,
    ids: Set<i64>,
    names: Set<Seq<char>>,
    first: Seq<int>,
    second: Seq<int>,
)
    requires
        root.has_path(first),
        root.has_path(second),
        root.node_at(first).listed(ids, names),
        root.position(first) < root.position(second),
    ensures
        listed_before(root, ids, names, root.position(first)) < listed_before(
            root,
            ids,
            names,
            root.position(second),
        ),
{
    let all = root.preorder();
    let keep = |n: DeckNode| n.listed(ids, names);
    let i = root.position(first);
    let j = root.position(second);
    lemma_node_is_listed(root, first);
    lemma_node_is_listed(root, second);
    let upto = all.take(j);
    assert(upto[i] == all[i]);
    assert(upto.take(i) =~= all.take(i));
    lemma_kept_entry_place(upto, keep, i);
}

/// Whatever the filters, the catalogue holds nothing but records of listed
/// nodes: each of its entries is the record of a listed node of the
/// hierarchy, at that node's place.
pub proof fn lemma_catalogue_entry_is_listed_node(
    root: DeckNode,
    ids: Set<i64>,
    names: Set<Seq<char>>,
    entry: int,
) -> (path: Seq<int>)
    requires
        0 <= entry < catalogue(root, ids, names).len(),
    ensures
        root.has_path(path),
        root.node_at(path).listed(ids, names),
        listed_before(root, ids, names, root.position(path)) == entry,
        catalogue(root, ids, names)[entry] == root.node_at(path).summary(),
{
    let all = root.preorder();
    let keep = |n: DeckNode| n.listed(ids, names);
    let place = lemma_kept_entry_source(all, keep, entry);
    let path = lemma_listed_is_node(root, place);
    lemma_node_is_listed(root, path);
    lemma_kept_entry_place(all, keep, place);
    path
}

/// An entry that passes a test stands, among the entries that pass, after
/// those that pass before it.
proof fn lemma_kept_entry_place(nodes: Seq<DeckNode>, keep: spec_fn(DeckNode) -> bool, place: int)
    requires
        0 <= place < nodes.len(),
        keep(nodes[place]),
    ensures
        nodes.take(place).filter(keep).len() < nodes.filter(keep).len(),
        nodes.filter(keep)[nodes.take(place).filter(keep).len() as int] == nodes[place],
{
    let before = nodes.take(place);
    let one = seq![nodes[place]];
    let after = nodes.skip(place + 1);
    assert(nodes =~= (before + one) + after);
    Seq::filter_distributes_over_add(before + one, after, keep);
    Seq::filter_distributes_over_add(before, one, keep);
    assert(one.filter(keep) =~= one) by {
        reveal_with_fuel(Seq::filter, 2);
        assert(one.drop_last() =~= Seq::<DeckNode>::empty());
    }
}

/// Each of the entries that pass a test is an entry of the sequence, and
/// stands after those that pass before it.
proof fn lemma_kept_entry_source(nodes: Seq<DeckNode>, keep: spec_fn(DeckNode) -> bool, entry: int) -> (place:
    int)
    requires
        0 <= entry < nodes.filter(keep).len(),
    ensures
        0 <= place < nodes.len(),
        keep(nodes[place]),
        nodes.take(place).filter(keep).len() == entry,
    decreases nodes.len(),
{
    reveal(Seq::filter);
    let front = nodes.drop_last();
    if entry < front.filter(keep).len() {
        let place = lemma_kept_entry_source(front, keep, entry);
        assert(front.take(place) =~= nodes.take(place));
        place
    } else {
        assert(nodes.take(nodes.len() - 1) =~= front);
        nodes.len() - 1
    }
}

/// Two tests that agree on every entry keep the same entries.
pub proof fn lemma_filter_agrees(
    nodes: Seq<DeckNode>,
    keep: spec_fn(DeckNode) -> bool,
    keep_too: spec_fn(DeckNode) -> bool,
)
    requires
        forall|i: int| 0 <= i < nodes.len() ==> keep(#[trigger] nodes[i]) == keep_too(nodes[i]),
    ensures
        nodes.filter(keep) == nodes.filter(keep_too),
    decreases nodes.len(),
{
    reveal(Seq::filter);
    if nodes.len() > 0 {
        lemma_filter_agrees(nodes.drop_last(), keep, keep_too);
    }
}

/// Without filters the catalogue is the whole pre-order listing but for the
/// nodes with identifier zero, each node as its record.
pub proof fn lemma_catalogue_unfiltered(root: DeckNode)
    ensures
        catalogue(root, Set::empty(), Set::empty()) == root.preorder().filter(
            |n: DeckNode| n.deck_id != 0,
        ).map_values(|n: DeckNode| n.summary()),
{
    lemma_filter_agrees(
        root.preorder(),
        |n: DeckNode| n.listed(Set::empty(), Set::empty()),
        |n: DeckNode| n.deck_id != 0,
    );
}

/// Where no node of the hierarchy has identifier zero and there are no
/// filters, the catalogue has one record for each node, at the node's position.
pub proof fn lemma_catalogue_of_plain_tree(root: DeckNode, path: Seq<int>)
    requires
        forall|i: int| 0 <= i < root.preorder().len() ==> (#[trigger] root.preorder()[i]).deck_id != 0,
        root.has_path(path),
    ensures
        catalogue(root, Set::empty(), Set::empty()).len() == root.preorder().len(),
        0 <= root.position(path) < root.preorder().len(),
        catalogue(root, Set::empty(), Set::empty())[root.position(path)] == root.node_at(
            path,
        ).summary(),
{
    let all = root.preorder();
    let keep = |n: DeckNode| n.listed(Set::empty(), Set::empty());
    lemma_keep_all(all, keep);
    lemma_node_is_listed(root, path);
}

/// Under a synthetic root, which has identifier zero, with no other node of
/// that identifier and no filters, the catalogue has one record for each
/// node but the root, one place before the node's position.
pub proof fn lemma_catalogue_under_synthetic_root(root: DeckNode, path: Seq<int>)
    requires
        root.deck_id == 0,
        forall|i: int| 1 <= i < root.preorder().len() ==> (#[trigger] root.preorder()[i]).deck_id != 0,
        root.has_path(path),
        path.len() > 0,
    ensures
        catalogue(root, Set::empty(), Set::empty()).len() == root.preorder().len() - 1,
        1 <= root.position(path) < root.preorder().len(),
        catalogue(root, Set::empty(), Set::empty())[root.position(path) - 1] == root.node_at(
            path,
        ).summary(),
{
    let all = root.preorder();
    let keep = |n: DeckNode| n.listed(Set::empty(), Set::empty());
    assert(all[0] == root);
    assert(all.filter(keep) == all.skip(1)) by {
        lemma_keep_all_but_first(all, keep);
    }
    assert(1 <= root.position(path) < all.len() && all[root.position(path)] == root.node_at(path)) by {
        lemma_node_is_listed(root, path);
        lemma_node_is_listed(root.children@[path[0]], path.skip(1));
    }
}

/// Under a synthetic root and without filters, where levels are consistent,
/// the record of a child shows the level of its parent's record plus one.
pub proof fn lemma_catalogue_levels(root: DeckNode, path: Seq<int>, child: int)
    requires
        root.deck_id == 0,
        forall|i: int| 1 <= i < root.preorder().len() ==> (#[trigger] root.preorder()[i]).deck_id != 0,
        root.levels_consistent(),
        root.has_path(path.push(child)),
        path.len() > 0,
    ensures
        root.has_path(path),
        ({
            let listing = catalogue(root, Set::empty(), Set::empty());
            listing[root.position(path.push(child)) - 1].level == listing[root.position(path) - 1].level
                + 1
        }),
{
    lemma_child_is_one_deeper(root, path, child);
    lemma_catalogue_under_synthetic_root(root, path);
    lemma_catalogue_under_synthetic_root(root, path.push(child));
}

/// A test that every entry passes but the first keeps all but the first.
proof fn lemma_keep_all_but_first(nodes: Seq<DeckNode>, keep: spec_fn(DeckNode) -> bool)
    requires
        nodes.len() > 0,
        !keep(nodes[0]),
        forall|i: int| 1 <= i < nodes.len() ==> keep(#[trigger] nodes[i]),
    ensures
        nodes.filter(keep) == nodes.skip(1),
    decreases nodes.len(),
{
    reveal(Seq::filter);
    let front = nodes.drop_last();
    if nodes.len() == 1 {
        assert(front.filter(keep) =~= Seq::<DeckNode>::empty());
        assert(nodes.skip(1) =~= Seq::<DeckNode>::empty());
    } else {
        assert(front[0] == nodes[0]);
        assert forall|i: int| 1 <= i < front.len() implies keep(#[trigger] front[i]) by {
            assert(front[i] == nodes[i]);
        }
        lemma_keep_all_but_first(front, keep);
        assert(front.skip(1).push(nodes.last()) =~= nodes.skip(1));
    }
}

/// A test that every entry passes keeps the sequence as it is.
proof fn lemma_keep_all(nodes: Seq<DeckNode>, keep: spec_fn(DeckNode) -> bool)
    requires
        forall|i: int| 0 <= i < nodes.len() ==> keep(#[trigger] nodes[i]),
    ensures
        nodes.filter(keep) == nodes,
    decreases nodes.len(),
{
    reveal(Seq::filter);
    if nodes.len() > 0 {
        lemma_keep_all(nodes.drop_last(), keep);
        assert(nodes.drop_last().push(nodes.last()) =~= nodes);
    }
}

} // verus!
