//! A rooted, ordered tree that grows at a cursor.
//!
//! The nodes' values lie in a vector. How the nodes hang together lies in a
//! `petgraph` stable graph, in which the node with index `i` stands for the
//! `i`-th value. Nothing is ever removed, so a node's index is its place in
//! the order of insertion. The graph hands out the neighbors of a node from
//! the last added to the first, and the children of a node are these, turned
//! round.
//!
//! A tree is drawn by `termtree`, from a text for each node.
use core::fmt::Display;
use petgraph::stable_graph::{NodeIndex, StableGraph};
use petgraph::Directed;
use termtree::Tree as TermTree;
use vstd::prelude::*;

verus! {

/// `petgraph::Directed`, the marker of a graph whose edges have a direction.
/// Trusted: the type is opaque.
#[verifier::external_type_specification]
#[verifier::external_body]
pub struct ExDirected(Directed);

/// `petgraph::stable_graph::StableGraph`. Trusted: the type is opaque; what
/// a graph holds is spoken of through [`graph_nodes`], [`graph_edges`] and
/// [`graph_out`].
#[verifier::external_type_specification]
#[verifier::external_body]
#[verifier::reject_recursive_types(N)]
#[verifier::reject_recursive_types(E)]
#[verifier::reject_recursive_types(Ty)]
#[verifier::reject_recursive_types(Ix)]
pub struct ExStableGraph<N, E, Ty, Ix>(StableGraph<N, E, Ty, Ix>);

/// `termtree::Tree`. Trusted: the type is opaque; what a tree holds is
/// spoken of through [`term_rows`].
#[verifier::external_type_specification]
#[verifier::external_body]
#[verifier::reject_recursive_types(D)]
pub struct ExTermTree<D: Display>(TermTree<D>);

/// The node slots of a graph by index: the weight of the node that occupies
/// the slot, or nothing where a removal has left the slot vacant.
pub uninterp spec fn graph_nodes(g: StableGraph<usize, (), Directed, u32>) -> Seq<Option<usize>>;

/// The edge slots of a graph by index: the source and the target of the edge
/// that occupies the slot, or nothing where the slot is vacant.
pub uninterp spec fn graph_edges(g: StableGraph<usize, (), Directed, u32>) -> Seq<
    Option<(usize, usize)>,
>;

/// The edges that leave each node of a graph: for each node slot, by index,
/// the targets of the edges that leave the node in it, in the order in which
/// the graph walks them, which is from the edge added last to the edge added
/// first. A vacant slot has none.
pub uninterp spec fn graph_out(g: StableGraph<usize, (), Directed, u32>) -> Seq<Seq<usize>>;

/// The number of slots that are occupied.
pub open spec fn occupied<A>(slots: Seq<Option<A>>) -> nat
    decreases slots.len(),
{
    if slots.len() == 0 {
        0
    } else {
        occupied(slots.drop_last()) + if slots.last() is Some {
            1nat
        } else {
            0nat
        }
    }
}

/// Whether no slot is vacant.
pub open spec fn full<A>(slots: Seq<Option<A>>) -> bool {
    forall|i: int| 0 <= i < slots.len() ==> (#[trigger] slots[i]) is Some
}

/// Where no slot is vacant, as many are occupied as there are.
pub proof fn lemma_full_occupied<A>(slots: Seq<Option<A>>)
    requires
        full(slots),
    ensures
        occupied(slots) == slots.len(),
    decreases slots.len(),
{
    if slots.len() > 0 {
        assert(slots.last() == slots[slots.len() - 1]);
        assert forall|i: int| 0 <= i < slots.drop_last().len() implies (
        #[trigger] slots.drop_last()[i]) is Some by {
            assert(slots.drop_last()[i] == slots[i]);
        }
        lemma_full_occupied(slots.drop_last());
    }
}

/// Makes an empty graph with `StableGraph::default`.
///
/// Trusted: the new graph has no node slot and no edge slot.
#[verifier::external_body]
fn graph_new() -> (g: StableGraph<usize, (), Directed, u32>)
    ensures
        graph_nodes(g) == Seq::<Option<usize>>::empty(),
        graph_edges(g) == Seq::<Option<(usize, usize)>>::empty(),
        graph_out(g) == Seq::<Seq<usize>>::empty(),
{
    StableGraph::default()
}

/// Adds a node with `StableGraph::add_node` and returns its index.
///
/// Trusted: with no slot vacant the node takes a new slot at the end, with no
/// edge leaving it, the edges stay as they are, and the call panics only when
/// the index type has no index left, which `requires` rules out.
#[verifier::external_body]
fn graph_add_node(g: &mut StableGraph<usize, (), Directed, u32>, weight: usize) -> (index: usize)
    requires
        full(graph_nodes(*old(g))),
        graph_nodes(*old(g)).len() < u32::MAX,
    ensures
        index == graph_nodes(*old(g)).len(),
        graph_nodes(*final(g)) == graph_nodes(*old(g)).push(Some(weight)),
        graph_edges(*final(g)) == graph_edges(*old(g)),
        graph_out(*final(g)) == graph_out(*old(g)).push(Seq::empty()),
{
    g.add_node(weight).index()
}

/// Adds an edge from `a` to `b` with `StableGraph::add_edge`.
///
/// Trusted: with no slot vacant the edge takes a new slot at the end, the
/// nodes stay as they are, and `b` comes first among what leaves `a`. The
/// call panics where an end is no node of the graph or the index type has no
/// index left; `requires` rules both out.
#[verifier::external_body]
fn graph_add_edge(g: &mut StableGraph<usize, (), Directed, u32>, a: usize, b: usize)
    requires
        full(graph_edges(*old(g))),
        graph_edges(*old(g)).len() < u32::MAX,
        a < graph_nodes(*old(g)).len(),
        b < graph_nodes(*old(g)).len(),
        graph_nodes(*old(g))[a as int] is Some,
        graph_nodes(*old(g))[b as int] is Some,
        graph_nodes(*old(g)).len() <= u32::MAX,
        graph_out(*old(g)).len() == graph_nodes(*old(g)).len(),
    ensures
        graph_nodes(*final(g)) == graph_nodes(*old(g)),
        graph_edges(*final(g)) == graph_edges(*old(g)).push(Some((a, b))),
        graph_out(*final(g)) == graph_out(*old(g)).update(
            a as int,
            seq![b] + graph_out(*old(g))[a as int],
        ),
{
    g.add_edge(NodeIndex::new(a), NodeIndex::new(b), ());
}

/// Counts the nodes with `StableGraph::node_count`.
///
/// Trusted: the count is the number of occupied node slots.
#[verifier::external_body]
fn graph_node_count(g: &StableGraph<usize, (), Directed, u32>) -> (n: usize)
    ensures
        n == occupied(graph_nodes(*g)),
{
    g.node_count()
}

/// Counts the edges with `StableGraph::edge_count`.
///
/// Trusted: the count is the number of occupied edge slots.
#[verifier::external_body]
fn graph_edge_count(g: &StableGraph<usize, (), Directed, u32>) -> (n: usize)
    ensures
        n == occupied(graph_edges(*g)),
{
    g.edge_count()
}

/// Lists the neighbors of the node `a` with `StableGraph::neighbors`.
///
/// Trusted: in a directed graph these are the targets of the edges that
/// leave `a`, in the order in which the graph walks them, and none where `a`
/// is no node of the graph. `requires` keeps `a` within the index type, so
/// that it names the node that is meant.
#[verifier::external_body]
fn graph_neighbors(g: &StableGraph<usize, (), Directed, u32>, a: usize) -> (r: Vec<usize>)
    requires
        a <= u32::MAX,
    ensures
        r@ == (if a < graph_out(*g).len() {
            graph_out(*g)[a as int]
        } else {
            Seq::empty()
        }),
{
    g.neighbors(NodeIndex::new(a)).map(|n| n.index()).collect()
}

/// The lines of a drawing by their content: for each node of a `termtree`
/// tree, parent before child and child by child in order, how deep it lies
/// below the root and its text.
pub uninterp spec fn term_rows(t: TermTree<String>) -> Seq<(nat, Seq<char>)>;

/// The drawing that `termtree` makes of a tree.
pub uninterp spec fn term_text(t: TermTree<String>) -> Seq<char>;

/// The same rows, each one level deeper.
pub open spec fn lowered(rows: Seq<(nat, Seq<char>)>) -> Seq<(nat, Seq<char>)> {
    rows.map_values(|r: (nat, Seq<char>)| ((r.0 + 1) as nat, r.1))
}

/// Makes a tree of one node with `termtree::Tree::new`.
///
/// Trusted: the tree has the one row of its root, at depth 0.
#[verifier::external_body]
fn term_new(label: String) -> (t: TermTree<String>)
    ensures
        term_rows(t) == seq![(0nat, label@)],
{
    TermTree::new(label)
}

/// Hangs a tree below the root of another, behind the others that hang
/// there, with `termtree::Tree::push`.
///
/// Trusted: the rows of what was hung follow the rows that were there, each
/// one level deeper.
#[verifier::external_body]
fn term_push(t: &mut TermTree<String>, leaf: TermTree<String>)
    ensures
        term_rows(*final(t)) == term_rows(*old(t)) + lowered(term_rows(leaf)),
{
    t.push(leaf);
}

/// Draws a tree with the `Display` of `termtree::Tree`.
///
/// Trusted: the drawing depends on the tree alone.
#[verifier::external_body]
fn term_draw(t: &TermTree<String>) -> (r: String)
    ensures
        r@ == term_text(*t),
{
    t.to_string()
}

/// A tree as a mathematical value: the nodes' values in order of insertion,
/// each node's parent, and the node at which the tree grows.
///
/// Node 0 is the root, and its parent is written -1. Every other node was
/// added after its parent.
pub struct TreeView<T> {
    pub nodes: Seq<T>,
    pub parents: Seq<int>,
    pub cursor: int,
}

impl<T> TreeView<T> {
    /// Whether this is a tree: a root, each other node under an earlier one,
    /// and the cursor at a node.
    pub open spec fn wf(self) -> bool {
        &&& self.nodes.len() == self.parents.len()
        &&& self.nodes.len() >= 1
        &&& self.parents[0] == -1
        &&& forall|i: int| 1 <= i < self.parents.len() ==> 0 <= #[trigger] self.parents[i] < i
        &&& 0 <= self.cursor < self.nodes.len()
    }

    /// The tree that is a root alone, with the cursor at it.
    pub open spec fn rooted(root: T) -> Self {
        TreeView { nodes: seq![root], parents: seq![-1int], cursor: 0 }
    }

    /// This tree with one more node, as the last child of the node at the
    /// cursor. The cursor stays.
    pub open spec fn add_child(self, child: T) -> Self {
        TreeView {
            nodes: self.nodes.push(child),
            parents: self.parents.push(self.cursor),
            cursor: self.cursor,
        }
    }

    /// This tree with the cursor at `node`.
    pub open spec fn move_to(self, node: int) -> Self {
        TreeView { nodes: self.nodes, parents: self.parents, cursor: node }
    }

    /// The children of `node`, in the order in which they were added.
    pub open spec fn children(self, node: int) -> Seq<int> {
        children_among(self.parents, node)
    }
}

/// The places in `parents` that hold `node`, in rising order.
pub open spec fn children_among(parents: Seq<int>, node: int) -> Seq<int>
    decreases parents.len(),
{
    if parents.len() == 0 {
        Seq::empty()
    } else if parents.last() == node {
        children_among(parents.drop_last(), node).push(parents.len() - 1)
    } else {
        children_among(parents.drop_last(), node)
    }
}

/// The rows of the subtree at `node`, that node at depth 0: the node with
/// its label, and then the rows of each child's subtree, child by child in
/// order, one level deeper.
pub open spec fn rows_of(parents: Seq<int>, labels: Seq<Seq<char>>, node: int) -> Seq<
    (nat, Seq<char>),
>
    decreases parents.len() - node, 1int, 0int,
{
    seq![(0nat, labels[node])] + rows_below(parents, labels, node, 0)
}

/// The rows of the subtrees of the children of `node` from the child at
/// place `from` on, the children at depth 1.
pub open spec fn rows_below(parents: Seq<int>, labels: Seq<Seq<char>>, node: int, from: int) -> Seq<
    (nat, Seq<char>),
>
    decreases parents.len() - node, 0int, children_among(parents, node).len() - from,
{
    let kids = children_among(parents, node);
    if 0 <= from < kids.len() && node < kids[from] < parents.len() {
        lowered(rows_of(parents, labels, kids[from])) + rows_below(parents, labels, node, from + 1)
    } else {
        Seq::empty()
    }
}

/// What is among the children of a node is a place that holds the node.
pub proof fn lemma_children_among(parents: Seq<int>, node: int)
    ensures
        forall|k: int|
            0 <= k < children_among(parents, node).len() ==> 0 <= (#[trigger] children_among(
                parents,
                node,
            )[k]) < parents.len() && parents[children_among(parents, node)[k]] == node,
    decreases parents.len(),
{
    if parents.len() > 0 {
        lemma_children_among(parents.drop_last(), node);
        assert forall|k: int| 0 <= k < children_among(parents, node).len() implies 0 <= (
        #[trigger] children_among(parents, node)[k]) < parents.len() && parents[children_among(
            parents,
            node,
        )[k]] == node by {
            let front = children_among(parents.drop_last(), node);
            if k < front.len() {
                assert(children_among(parents, node)[k] == front[k]);
                assert(parents.drop_last()[front[k]] == parents[front[k]]);
            }
        }
    }
}

/// A node that no place of `parents` holds has no children.
pub proof fn lemma_no_children(parents: Seq<int>, node: int)
    requires
        forall|j: int| 0 <= j < parents.len() ==> parents[j] != node,
    ensures
        children_among(parents, node) == Seq::<int>::empty(),
    decreases parents.len(),
{
    if parents.len() > 0 {
        assert(parents.last() == parents[parents.len() - 1]);
        assert forall|j: int| 0 <= j < parents.drop_last().len() implies parents.drop_last()[j]
            != node by {
            assert(parents.drop_last()[j] == parents[j]);
        }
        lemma_no_children(parents.drop_last(), node);
    }
}

/// Whether the lists hold, for each node, its children in order.
pub open spec fn lists_children(lists: Seq<Vec<usize>>, parents: Seq<int>) -> bool {
    &&& lists.len() == parents.len()
    &&& forall|i: int|
        0 <= i < lists.len() ==> (#[trigger] lists[i])@.map_values(|c: usize| c as int)
            == children_among(parents, i)
}

/// The parent of each node, read off the edges of a graph that has one edge
/// into every node but the first.
pub open spec fn parents_of(edges: Seq<Option<(usize, usize)>>) -> Seq<int> {
    Seq::new(
        edges.len() + 1,
        |i: int|
            if i == 0 {
                -1
            } else {
                match edges[i - 1] {
                    Some(ends) => ends.0 as int,
                    None => -1,
                }
            },
    )
}

/// Whether an edge slot holds the edge into `node` from an earlier node.
pub open spec fn hangs_below(slot: Option<(usize, usize)>, node: int) -> bool {
    match slot {
        Some(ends) => ends.1 == node && ends.0 < node,
        None => false,
    }
}

/// A tree of values of type `T`, with a cursor at which it grows.
#[derive(Debug)]
pub struct Tree<T> {
    weights: Vec<T>,
    graph: StableGraph<usize, (), Directed, u32>,
    current: usize,
    root: usize,
}

impl<T> View for Tree<T> {
    type V = TreeView<T>;

    closed spec fn view(&self) -> TreeView<T> {
        TreeView {
            nodes: self.weights@,
            parents: parents_of(graph_edges(self.graph)),
            cursor: self.current as int,
        }
    }
}

impl<T> Tree<T> {
    /// The invariant of the representation: the graph has a node for each
    /// value and no other, the edge into node `i`, for each `i` but 0, lies in
    /// slot `i - 1` and comes from an earlier node, and what leaves a node is
    /// its children, the last added first.
    pub closed spec fn wf(&self) -> bool {
        let nodes = graph_nodes(self.graph);
        let edges = graph_edges(self.graph);
        &&& nodes.len() == self.weights@.len()
        &&& nodes.len() >= 1
        &&& nodes.len() <= u32::MAX
        &&& edges.len() == nodes.len() - 1
        &&& forall|i: int| 0 <= i < nodes.len() ==> #[trigger] nodes[i] == Some(i as usize)
        &&& forall|j: int| 0 <= j < edges.len() ==> hangs_below(#[trigger] edges[j], j + 1)
        &&& graph_out(self.graph).len() == nodes.len()
        &&& forall|i: int|
            0 <= i < nodes.len() ==> (#[trigger] graph_out(self.graph)[i]).map_values(
                |c: usize| c as int,
            ) == children_among(parents_of(edges), i).reverse()
        &&& self.current < nodes.len()
        &&& self.root == 0
    }

    /// A well-formed tree is a tree.
    pub proof fn lemma_wf(&self)
        requires
            self.wf(),
        ensures
            self@.wf(),
    {
    }

    /// Makes the tree that holds `root` alone, with the cursor at it.
    pub fn with_root(root: T) -> (r: Self)
        ensures
            r.wf(),
            r@ == TreeView::rooted(root),
    {
        let mut graph = graph_new();
        let index = graph_add_node(&mut graph, 0);
        let mut weights: Vec<T> = Vec::new();
        weights.push(root);
        let r = Tree { weights, graph, current: index, root: index };
        proof {
            assert(r@.parents =~= seq![-1int]);
            assert(r@.nodes =~= seq![root]);
            lemma_no_children(r@.parents, 0);
            assert(graph_out(r.graph)[0].map_values(|c: usize| c as int) =~= Seq::<int>::empty());
            assert(Seq::<int>::empty().reverse() =~= Seq::<int>::empty());
        }
        r
    }

    /// The index of the root.
    pub fn root(&self) -> (r: usize)
        requires
            self.wf(),
        ensures
            r == 0,
    {
        self.root
    }

    /// The index of the node at the cursor.
    pub fn current(&self) -> (r: usize)
        requires
            self.wf(),
        ensures
            r == self@.cursor,
    {
        self.current
    }

    /// Adds `child` as the last child of the node at the cursor and returns
    /// its index. The cursor stays where it is.
    pub fn add_child(&mut self, child: T) -> (n: usize)
        requires
            old(self).wf(),
            old(self)@.nodes.len() < u32::MAX,
        ensures
            final(self).wf(),
            final(self)@ == old(self)@.add_child(child),
            n == old(self)@.nodes.len(),
    {
        proof {
            assert(full(graph_nodes(self.graph)));
            assert(full(graph_edges(self.graph)));
        }
        let ghost before = old(self)@.parents;
        let ghost out = graph_out(self.graph);
        let ghost cursor = self.current as int;
        let n = graph_add_node(&mut self.graph, self.weights.len());
        graph_add_edge(&mut self.graph, self.current, n);
        self.weights.push(child);
        proof {
            let after = self@.parents;
            assert(after =~= before.push(cursor));
            assert(after.drop_last() =~= before);
            assert(after.last() == cursor);
            assert forall|i: int| 0 <= i <= n implies (#[trigger] graph_out(
                self.graph,
            )[i]).map_values(|c: usize| c as int) == children_among(after, i).reverse() by {
                let now = graph_out(self.graph)[i].map_values(|c: usize| c as int);
                if i == cursor {
                    let then = out[i].map_values(|c: usize| c as int);
                    assert(now =~= seq![n as int] + then);
                    assert(children_among(after, i) == children_among(before, i).push(n as int));
                    assert(children_among(before, i).push(n as int).reverse() =~= seq![n as int]
                        + children_among(before, i).reverse());
                } else if i < n {
                    assert(graph_out(self.graph)[i] == out[i]);
                } else {
                    assert forall|j: int| 0 <= j < before.len() implies before[j] != n by {
                        if j > 0 {
                            assert(hangs_below(graph_edges(old(self).graph)[j - 1], j));
                        }
                    }
                    lemma_no_children(before, n as int);
                    assert(now =~= Seq::<int>::empty());
                    assert(Seq::<int>::empty().reverse() =~= Seq::<int>::empty());
                }
            }
        }
        n
    }

    /// Moves the cursor to the node `ind`.
    pub fn move_to(&mut self, ind: usize)
        requires
            old(self).wf(),
            ind < old(self)@.nodes.len(),
        ensures
            final(self).wf(),
            final(self)@ == old(self)@.move_to(ind as int),
    {
        self.current = ind;
    }

    /// The number of nodes, the root among them.
    pub fn node_count(&self) -> (n: usize)
        requires
            self.wf(),
        ensures
            n == self@.nodes.len(),
    {
        proof {
            lemma_full_occupied(graph_nodes(self.graph));
        }
        graph_node_count(&self.graph)
    }

    /// The number of edges: one into each node but the root.
    pub fn edge_count(&self) -> (n: usize)
        requires
            self.wf(),
        ensures
            n == self@.nodes.len() - 1,
    {
        proof {
            lemma_full_occupied(graph_edges(self.graph));
        }
        graph_edge_count(&self.graph)
    }

    /// The value of the node `node`.
    pub fn get(&self, node: usize) -> (r: &T)
        requires
            self.wf(),
            node < self@.nodes.len(),
        ensures
            *r == self@.nodes[node as int],
    {
        &self.weights[node]
    }

    /// The children of `node`, in the order in which they were added. An
    /// index that is no node has none.
    pub fn children(&self, node: usize) -> (r: Vec<usize>)
        requires
            self.wf(),
        ensures
            r@.map_values(|c: usize| c as int) == self@.children(node as int),
    {
        if node >= self.weights.len() {
            proof {
                let parents = self@.parents;
                assert forall|j: int| 0 <= j < parents.len() implies parents[j] != node by {
                    if j > 0 {
                        assert(hangs_below(graph_edges(self.graph)[j - 1], j));
                    }
                }
                lemma_no_children(parents, node as int);
            }
            let none: Vec<usize> = Vec::new();
            assert(none@.map_values(|c: usize| c as int) =~= Seq::<int>::empty());
            return none;
        }
        let newest_first = graph_neighbors(&self.graph, node);
        let mut out: Vec<usize> = Vec::new();
        let mut i: usize = newest_first.len();
        while i > 0
            invariant
                i <= newest_first@.len(),
                out@.len() == newest_first@.len() - i,
                forall|k: int|
                    0 <= k < out@.len() ==> out@[k] == newest_first@[newest_first@.len() - 1 - k],
            decreases i,
        {
            i = i - 1;
            out.push(newest_first[i]);
        }
        proof {
            let among = self@.children(node as int);
            let walked = newest_first@.map_values(|c: usize| c as int);
            assert(walked == among.reverse());
            assert(out@.map_values(|c: usize| c as int) =~= walked.reverse());
            assert(among.reverse().reverse() =~= among);
        }
        out
    }

    /// The children of every node: for each node, by index, its children in
    /// the order in which they were added.
    pub fn child_lists(&self) -> (r: Vec<Vec<usize>>)
        requires
            self.wf(),
        ensures
            lists_children(r@, self@.parents),
    {
        let n = self.weights.len();
        let mut lists: Vec<Vec<usize>> = Vec::new();
        let mut i: usize = 0;
        while i < n
            invariant
                self.wf(),
                n == self@.parents.len(),
                i <= n,
                lists@.len() == i,
                forall|j: int|
                    0 <= j < i ==> (#[trigger] lists@[j])@.map_values(|c: usize| c as int)
                        == children_among(self@.parents, j),
            decreases n - i,
        {
            lists.push(self.children(i));
            i = i + 1;
        }
        lists
    }

    /// Builds the `termtree` tree of the subtree at `node`.
    fn create_view(&self, lists: &Vec<Vec<usize>>, labels: &Vec<String>, node: usize) -> (t:
        TermTree<String>)
        requires
            self.wf(),
            lists_children(lists@, self@.parents),
            labels@.len() == self@.nodes.len(),
            node < self@.nodes.len(),
        ensures
            term_rows(t) == rows_of(self@.parents, labels@.map_values(|s: String| s@), node as int),
        decreases self@.nodes.len() - node,
    {
        let ghost parents = self@.parents;
        let ghost texts = labels@.map_values(|s: String| s@);
        let mut t = term_new(labels[node].clone());
        let kids = &lists[node];
        let mut k: usize = 0;
        proof {
            self.lemma_wf();
            lemma_children_among(parents, node as int);
        }
        while k < kids.len()
            invariant
                self.wf(),
                self@.wf(),
                parents == self@.parents,
                texts == labels@.map_values(|s: String| s@),
                lists_children(lists@, parents),
                labels@.len() == parents.len(),
                node < parents.len(),
                *kids == lists@[node as int],
                k <= kids@.len(),
                forall|c: int|
                    0 <= c < children_among(parents, node as int).len() ==> 0 <= (
                    #[trigger] children_among(parents, node as int)[c]) < parents.len()
                        && parents[children_among(parents, node as int)[c]] == node,
                term_rows(t) + rows_below(parents, texts, node as int, k as int) == rows_of(
                    parents,
                    texts,
                    node as int,
                ),
            decreases kids@.len() - k,
        {
            let kid = kids[k];
            proof {
                let among = children_among(parents, node as int);
                assert(kids@.map_values(|c: usize| c as int) == among);
                assert(kids@.map_values(|c: usize| c as int)[k as int] == kid);
                assert(among[k as int] == kid);
                assert(parents[kid as int] == node);
                assert(node < kid);
            }
            let ghost so_far = term_rows(t);
            let below = self.create_view(lists, labels, kid);
            term_push(&mut t, below);
            proof {
                let rest = rows_below(parents, texts, node as int, k + 1);
                let hung = lowered(rows_of(parents, texts, kid as int));
                assert(rows_below(parents, texts, node as int, k as int) == hung + rest);
                assert(term_rows(t) + rest =~= so_far + (hung + rest));
            }
            k = k + 1;
        }
        proof {
            assert(kids@.map_values(|c: usize| c as int) == children_among(parents, node as int));
            assert(rows_below(parents, texts, node as int, k as int) =~= Seq::<
                (nat, Seq<char>),
            >::empty());
            assert(term_rows(t) + Seq::<(nat, Seq<char>)>::empty() =~= term_rows(t));
        }
        t
    }

    /// Draws the tree, with `labels` holding the text of each node, by
    /// index.
    ///
    /// The drawing is that which `termtree` makes of a tree with a node for
    /// each node of this one: parent before child, child by child in the
    /// order in which the children were added, each with its text.
    pub fn draw(&self, labels: &Vec<String>) -> (r: String)
        requires
            self.wf(),
            labels@.len() == self@.nodes.len(),
        ensures
            exists|t: TermTree<String>|
                #[trigger] term_rows(t) == rows_of(
                    self@.parents,
                    labels@.map_values(|s: String| s@),
                    0,
                ) && r@ == term_text(t),
    {
        let lists = self.child_lists();
        let view = self.create_view(&lists, labels, self.root);
        term_draw(&view)
    }
}

impl<T: Default> Tree<T> {
    /// Makes the tree that holds the default value of `T` alone.
    pub fn new() -> (r: Self)
        ensures
            r.wf(),
            r@.nodes.len() == 1,
            call_ensures(T::default, (), r@.nodes[0]),
            r@.parents == seq![-1int],
            r@.cursor == 0,
    {
        Tree::with_root(T::default())
    }
}

} // verus!
