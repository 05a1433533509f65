//! A tree in which each node owns its children, and its picture in text.
use core::fmt::Display;
use vstd::prelude::*;
use vstd::std_specs::cmp::PartialEqSpec;
use vstd::string::to_string_from_display_ensures;

verus! {

/// A node with its value and its children, in order.
#[derive(Debug, PartialEq)]
pub struct Tree<T> {
    pub nodes: Vec<Tree<T>>,
    pub data: T,
}

impl<T> Tree<T> {
    /// The number of nodes of the tree, this one among them.
    pub open spec fn size(&self) -> nat
        decreases self,
    {
        1 + sizes(self.nodes@, 0)
    }

    /// Makes a node with the value `data` and no children.
    pub fn with_data(data: T) -> (r: Self)
        ensures
            r.data == data,
            r.nodes@.len() == 0,
    {
        Tree { nodes: Vec::new(), data }
    }

    /// Adds `tree` as the last child.
    pub fn add_node(&mut self, tree: Tree<T>)
        ensures
            final(self).data == old(self).data,
            final(self).nodes@ == old(self).nodes@.push(tree),
    {
        self.nodes.push(tree);
    }

    /// Counts the nodes of a tree.
    pub fn count_nodes(tree: &Tree<T>) -> (n: usize)
        requires
            tree.size() <= usize::MAX,
        ensures
            n == tree.size(),
        decreases tree,
    {
        let mut count: usize = 1;
        let mut i: usize = tree.nodes.len();
        while i > 0
            invariant
                i <= tree.nodes@.len(),
                tree.size() <= usize::MAX,
                count == 1 + sizes(tree.nodes@, i as int),
            decreases i,
        {
            i = i - 1;
            proof {
                lemma_sizes_fall(tree.nodes@, 0, i as int);
            }
            let below = Self::count_nodes(&tree.nodes[i]);
            count = count + below;
        }
        count
    }
}

/// The number of nodes of the trees from place `from` on, taken together.
pub open spec fn sizes<T>(trees: Seq<Tree<T>>, from: int) -> nat
    decreases trees, trees.len() - from,
{
    if 0 <= from < trees.len() {
        trees[from].size() + sizes(trees, from + 1)
    } else {
        0
    }
}

/// Fewer trees have fewer nodes.
pub proof fn lemma_sizes_fall<T>(trees: Seq<Tree<T>>, from: int, to: int)
    requires
        0 <= from <= to,
    ensures
        sizes(trees, to) <= sizes(trees, from),
    decreases to - from,
{
    if from < to && from < trees.len() {
        lemma_sizes_fall(trees, from + 1, to);
    }
}

impl<T: Clone> Clone for Tree<T> {
    /// Copies the tree node by node. The copy has the shape of the tree, and
    /// each value is what `T` gives as a copy of the value in its place.
    fn clone(&self) -> (r: Self)
        ensures
            copied(*self, r),
        decreases self,
    {
        let mut nodes: Vec<Tree<T>> = Vec::new();
        let mut i: usize = 0;
        while i < self.nodes.len()
            invariant
                i <= self.nodes@.len(),
                nodes@.len() == i,
                forall|j: int| 0 <= j < i ==> copied(self.nodes@[j], #[trigger] nodes@[j]),
            decreases self.nodes@.len() - i,
        {
            nodes.push(self.nodes[i].clone());
            i = i + 1;
        }
        Tree { nodes, data: self.data.clone() }
    }
}

/// Whether `copy` has the shape of `tree` and in each place a value that is a
/// copy of the value there.
pub open spec fn copied<T: Clone>(tree: Tree<T>, copy: Tree<T>) -> bool
    decreases tree,
{
    &&& cloned::<T>(tree.data, copy.data)
    &&& copy.nodes@.len() == tree.nodes@.len()
    &&& forall|i: int|
        0 <= i < tree.nodes@.len() ==> copied(#[trigger] tree.nodes@[i], copy.nodes@[i])
}

impl<T: Default> Tree<T> {
    /// Makes a node with the default value of `T` and no children.
    pub fn new() -> (r: Self)
        ensures
            call_ensures(T::default, (), r.data),
            r.nodes@.len() == 0,
    {
        Tree { nodes: Vec::new(), data: T::default() }
    }
}

impl<T: PartialEq> Tree<T> {
    /// The first node, going through the tree parent before child and child
    /// by child in order, whose value equals `data`.
    pub open spec fn first_with(&self, data: &T) -> Option<Tree<T>>
        decreases self,
    {
        if self.data.eq_spec(data) {
            Some(*self)
        } else {
            first_among(self.nodes@, data, 0)
        }
    }

    /// Finds the first node whose value equals `data`, parent before child
    /// and child by child in order.
    ///
    /// What "equals" means is up to `T`. Where the `==` of `T` is what `T`
    /// specifies as `eq_spec`, the result is [`Tree::first_with`].
    pub fn find_node<'a>(tree: &'a Tree<T>, data: &'a T) -> (r: Option<&'a Tree<T>>)
        ensures
            T::obeys_eq_spec() ==> (match tree.first_with(data) {
                Some(node) => r is Some && *r->0 == node,
                None => r is None,
            }),
        decreases tree,
    {
        if tree.data == *data {
            return Some(tree);
        }
        let mut i: usize = 0;
        while i < tree.nodes.len()
            invariant
                i <= tree.nodes@.len(),
                T::obeys_eq_spec() ==> !tree.data.eq_spec(data),
                T::obeys_eq_spec() ==> first_among(tree.nodes@, data, 0) == first_among(
                    tree.nodes@,
                    data,
                    i as int,
                ),
            decreases tree.nodes@.len() - i,
        {
            let below = Self::find_node(&tree.nodes[i], data);
            proof {
                if T::obeys_eq_spec() {
                    assert(first_among(tree.nodes@, data, i as int) == (
                    match tree.nodes@[i as int].first_with(data) {
                        Some(node) => Some(node),
                        None => first_among(tree.nodes@, data, i + 1),
                    }));
                }
            }
            match below {
                Some(node) => {
                    return Some(node);
                },
                None => {},
            }
            i = i + 1;
        }
        None
    }
}

/// The first node among the trees from place `from` on whose value equals
/// `data`.
pub open spec fn first_among<T: PartialEq>(trees: Seq<Tree<T>>, data: &T, from: int) -> Option<
    Tree<T>,
>
    decreases trees, trees.len() - from,
{
    if 0 <= from < trees.len() {
        match trees[from].first_with(data) {
            Some(node) => Some(node),
            None => first_among(trees, data, from + 1),
        }
    } else {
        None
    }
}

/// Whether `texts` has the shape of `tree` and in each place the text that
/// the value there is displayed as.
pub open spec fn labelled<T: Display>(tree: Tree<T>, texts: Tree<String>) -> bool
    decreases tree,
{
    &&& to_string_from_display_ensures::<T>(&tree.data, texts.data)
    &&& texts.nodes@.len() == tree.nodes@.len()
    &&& forall|i: int|
        0 <= i < tree.nodes@.len() ==> labelled(#[trigger] tree.nodes@[i], texts.nodes@[i])
}

/// Turns each value of a tree into the text that it is displayed as.
pub fn labels<T: Display>(tree: &Tree<T>) -> (r: Tree<String>)
    ensures
        labelled(*tree, r),
    decreases tree,
{
    let mut nodes: Vec<Tree<String>> = Vec::new();
    let mut i: usize = 0;
    while i < tree.nodes.len()
        invariant
            i <= tree.nodes@.len(),
            nodes@.len() == i,
            forall|j: int| 0 <= j < i ==> labelled(tree.nodes@[j], #[trigger] nodes@[j]),
        decreases tree.nodes@.len() - i,
    {
        nodes.push(labels(&tree.nodes[i]));
        i = i + 1;
    }
    Tree { nodes, data: tree.data.to_string() }
}

/// The depth below `depth`. A depth that no deeper one can be counted for
/// stays.
pub open spec fn deeper(depth: usize) -> usize {
    if depth < usize::MAX {
        (depth + 1) as usize
    } else {
        depth
    }
}

/// `n` times a vertical line and a blank.
pub open spec fn rails(n: nat) -> Seq<char>
    decreases n,
{
    if n == 0 {
        Seq::empty()
    } else {
        rails((n - 1) as nat) + seq!['\u{2502}', ' ']
    }
}

/// What stands before a node's text on its line: nothing at depth 0, and
/// below that a rail for each level above the parent and then a branch, an
/// angle for a last child and a tee for another.
pub open spec fn lead(depth: usize, is_last_node: bool) -> Seq<char> {
    if depth == 0 {
        Seq::empty()
    } else {
        rails((depth - 1) as nat) + seq![
            if is_last_node {
                '\u{2514}'
            } else {
                '\u{251c}'
            },
            '\u{2500}',
        ]
    }
}

/// The picture of a tree of texts: a line for each node, parent before child
/// and child by child in order, each child one level deeper.
pub open spec fn picture(depth: usize, is_last_node: bool, tree: Tree<String>) -> Seq<char>
    decreases tree,
{
    lead(depth, is_last_node) + tree.data@ + pictures(deeper(depth), tree.nodes@, 0)
}

/// The pictures of the trees from place `from` on, each after a line break.
pub open spec fn pictures(depth: usize, trees: Seq<Tree<String>>, from: int) -> Seq<char>
    decreases trees, trees.len() - from,
{
    if 0 <= from < trees.len() {
        seq!['\n'] + picture(depth, from == trees.len() - 1, trees[from]) + pictures(
            depth,
            trees,
            from + 1,
        )
    } else {
        Seq::empty()
    }
}

/// Draws the picture of a tree of texts that hangs at depth `depth`, as a
/// last child or not.
pub fn write_children(depth: usize, is_last_node: bool, tree: &Tree<String>) -> (r: Vec<char>)
    ensures
        r@ == picture(depth, is_last_node, *tree),
    decreases tree,
{
    let mut chars: Vec<char> = Vec::new();
    let mut ii: usize = 0;
    while ii < depth
        invariant
            ii <= depth,
            ii < depth ==> chars@ == rails(ii as nat),
            ii == depth && depth > 0 ==> chars@ == lead(depth, is_last_node),
            depth == 0 ==> chars@ == Seq::<char>::empty(),
        decreases depth - ii,
    {
        if depth - ii == 1 {
            if is_last_node {
                chars.push('\u{2514}');
            } else {
                chars.push('\u{251c}');
            }
            chars.push('\u{2500}');
            proof {
                assert(chars@ =~= lead(depth, is_last_node));
            }
        } else {
            chars.push('\u{2502}');
            chars.push(' ');
            proof {
                assert(chars@ =~= rails((ii + 1) as nat));
            }
        }
        ii = ii + 1;
    }
    let ghost before = chars@;
    let label = tree.data.as_str();
    let count = label.unicode_len();
    let mut at: usize = 0;
    while at < count
        invariant
            at <= count,
            count == label@.len(),
            label@ == tree.data@,
            chars@ == before + label@.take(at as int),
        decreases count - at,
    {
        chars.push(label.get_char(at));
        proof {
            assert(label@.take(at + 1) =~= label@.take(at as int).push(label@[at as int]));
            assert(chars@ =~= before + label@.take(at + 1));
        }
        at = at + 1;
    }
    proof {
        assert(label@.take(count as int) =~= label@);
        assert(chars@ =~= lead(depth, is_last_node) + tree.data@ + Seq::<char>::empty());
    }
    let below = if depth < usize::MAX {
        depth + 1
    } else {
        depth
    };
    let ghost head = chars@;
    let mut i: usize = 0;
    while i < tree.nodes.len()
        invariant
            i <= tree.nodes@.len(),
            below == deeper(depth),
            chars@ + pictures(below, tree.nodes@, i as int) == head + pictures(
                below,
                tree.nodes@,
                0,
            ),
        decreases tree.nodes@.len() - i,
    {
        let ghost so_far = chars@;
        chars.push('\n');
        let mut child = write_children(below, i == tree.nodes.len() - 1, &tree.nodes[i]);
        chars.append(&mut child);
        proof {
            let line = picture(below, i == tree.nodes@.len() - 1, tree.nodes@[i as int]);
            let rest = pictures(below, tree.nodes@, i + 1);
            assert(chars@ =~= so_far + seq!['\n'] + line);
            assert(chars@ + rest =~= so_far + (seq!['\n'] + line + rest));
        }
        i = i + 1;
    }
    proof {
        assert(chars@ + Seq::<char>::empty() =~= chars@);
    }
    chars
}

/// Writes the picture of a tree of texts, from the root at depth 0.
pub fn text(tree: &Tree<String>) -> (r: String)
    ensures
        r@ == picture(0, false, *tree),
{
    chars_text(write_children(0, false, tree))
}

/// Collects characters into a text with `String::from_iter`.
///
/// Trusted: the text holds the characters given, in their order.
#[verifier::external_body]
fn chars_text(chars: Vec<char>) -> (r: String)
    ensures
        r@ == chars@,
{
    String::from_iter(chars)
}

} // verus!
