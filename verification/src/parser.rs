//! From the bytes of a file to its tags, and from the tags to the tree of
//! blocks.
use crate::enums::{BlockKind, BlockTagKind};
use crate::graph::{Tree, TreeView};
use crate::reader::{
    after, tags_from, with_tag, ReadError, ReadEvent, ReadRequest, ReaderView, TagReader,
};
use crate::tag::{
    header_of, i32_at, node_of, FiffNode, FiffNodeView, Tag, TagError, TagView, TreeError,
    HEADER_LEN,
};
use crate::wire::lemma_be_word_prefix;
use vstd::prelude::*;
use vstd::slice::{slice_subrange, slice_to_vec};

verus! {

/// The views of a sequence of tags.
pub open spec fn tag_views(tags: Seq<Tag>) -> Seq<TagView> {
    tags.map_values(|t: Tag| t@)
}

/// A tree of nodes as a mathematical value, each node by its view.
pub open spec fn node_tree(tree: Tree<FiffNode>) -> TreeView<FiffNodeView> {
    TreeView {
        nodes: tree@.nodes.map_values(|n: FiffNode| n@),
        parents: tree@.parents,
        cursor: tree@.cursor,
    }
}

/// Where the building of a tree stands: the tree so far, with the cursor at
/// the innermost open block, and below it the blocks that stay open around
/// that one, outermost first.
pub struct Build {
    pub tree: TreeView<FiffNodeView>,
    pub stack: Seq<int>,
}

/// The start of every build: the root block alone and nothing open.
pub open spec fn build_start() -> Build {
    Build {
        tree: TreeView::rooted(FiffNodeView::Block { kind: BlockKind::Root }),
        stack: Seq::empty(),
    }
}

/// What one tag does to a build.
///
/// A data tag becomes a leaf under the cursor. A block start becomes a block
/// under the cursor, and the cursor moves into it. A block end moves the
/// cursor back out, and is an error where no block is open. The other
/// structural tags leave the build as it is.
pub open spec fn build_step(b: Build, tag: TagView) -> Result<Build, TreeError> {
    match tag {
        TagView::Data { .. } => match node_of(tag) {
            Ok(node) => Ok(Build { tree: b.tree.add_child(node), stack: b.stack }),
            Err(e) => Err(e),
        },
        TagView::Block { kind, .. } => {
            if kind == BlockTagKind::BlockStart {
                match node_of(tag) {
                    Ok(node) => Ok(
                        Build {
                            tree: b.tree.add_child(node).move_to(b.tree.nodes.len() as int),
                            stack: b.stack.push(b.tree.cursor),
                        },
                    ),
                    Err(e) => Err(e),
                }
            } else if kind == BlockTagKind::BlockEnd {
                if b.stack.len() == 0 {
                    Err(TreeError::UnbalancedBlocks)
                } else {
                    Ok(Build { tree: b.tree.move_to(b.stack.last()), stack: b.stack.drop_last() })
                }
            } else {
                Ok(b)
            }
        },
    }
}

/// The build that a sequence of tags leads to, or the first error on the way.
pub open spec fn build(tags: Seq<TagView>) -> Result<Build, TreeError>
    decreases tags.len(),
{
    if tags.len() == 0 {
        Ok(build_start())
    } else {
        match build(tags.drop_last()) {
            Ok(b) => build_step(b, tags.last()),
            Err(e) => Err(e),
        }
    }
}

/// Whether the stack of a build is a path of nodes of its tree.
pub open spec fn stack_in_tree(b: Build) -> bool {
    &&& b.tree.wf()
    &&& forall|i: int| 0 <= i < b.stack.len() ==> 0 <= #[trigger] b.stack[i] < b.tree.nodes.len()
}

/// Every build is a tree, and its stack holds nodes of that tree.
pub proof fn lemma_build_in_tree(tags: Seq<TagView>)
    ensures
        build(tags) matches Ok(b) ==> stack_in_tree(b) && b.tree.nodes.len() <= tags.len() + 1,
    decreases tags.len(),
{
    if tags.len() > 0 {
        lemma_build_in_tree(tags.drop_last());
    }
}

/// The tags of a stream, given those made so far and those of the rest.
spec fn joined(made: Seq<TagView>, rest: Result<Seq<TagView>, ReadError>) -> Result<
    Seq<TagView>,
    ReadError,
> {
    match rest {
        Ok(tags) => Ok(made + tags),
        Err(e) => Err(e),
    }
}

/// How a reader that has been fed from `bytes` up to offset `at` stands to
/// the tags of the whole stream: those that it has made are the first of
/// them, and the rest are the tags from the header that it is at, or has
/// taken in last and not finished.
spec fn reading(bytes: Seq<u8>, reader: ReaderView, at: int) -> bool {
    &&& reader.wf()
    &&& 0 <= at <= bytes.len()
    &&& if reader.done {
        tags_from(bytes, 0) == Ok::<Seq<TagView>, ReadError>(reader.tags)
    } else {
        match reader.pending {
            None => {
                &&& at <= reader.position
                &&& at < bytes.len() ==> at == reader.position
                &&& tags_from(bytes, 0) == joined(reader.tags, tags_from(bytes, reader.position))
            },
            Some(header) => {
                &&& at == reader.position
                &&& at >= HEADER_LEN
                &&& header == header_of(bytes.skip(at - HEADER_LEN))
                &&& tags_from(bytes, 0) == joined(reader.tags, tags_from(bytes, at - HEADER_LEN))
            },
        }
    }
}

/// Why a stream could not be turned into a tree.
#[derive(Debug, PartialEq, Eq, Clone, Copy, Structural)]
pub enum ParseError {
    /// The tags could not be read.
    Read(ReadError),
    /// The tags do not spell a tree.
    Tree(TreeError),
    /// There are more tags than a tree has room for.
    TooManyTags,
}

/// The tree that the tags of a stream build, or why there is none.
pub open spec fn tree_of(bytes: Seq<u8>) -> Result<TreeView<FiffNodeView>, ParseError> {
    match tags_from(bytes, 0) {
        Err(e) => Err(ParseError::Read(e)),
        Ok(tags) => if tags.len() >= u32::MAX {
            Err(ParseError::TooManyTags)
        } else {
            match build(tags) {
                Ok(b) => Ok(b.tree),
                Err(e) => Err(ParseError::Tree(e)),
            }
        },
    }
}

/// The entry points of the library: reading a file's tags and building its
/// tree.
pub struct FifParser;

impl FifParser {
    /// Reads the tags of a stream that lies in memory.
    ///
    /// The result is what [`tags_from`] says of the stream from its start:
    /// all its tags in order, those left out that could not be made, or the
    /// error that ends the reading, and then no tags at all.
    pub fn read_tags(source: &[u8]) -> (r: Result<Vec<Tag>, ReadError>)
        ensures
            match tags_from(source@, 0) {
                Ok(tags) => r is Ok && tag_views(r->Ok_0@) == tags,
                Err(e) => r == Err::<Vec<Tag>, ReadError>(e),
            },
    {
        let mut reader = TagReader::new();
        let mut at: usize = 0;
        proof {
            assert(reader@.tags + tags_from(source@, 0)->Ok_0 =~= tags_from(source@, 0)->Ok_0);
        }
        loop
            invariant
                reading(source@, reader@, at as int),
            ensures
                reader@.done,
                reading(source@, reader@, at as int),
            decreases
                    2 * (source@.len() - at) + if reader@.done {
                        0int
                    } else if reader@.pending is None {
                        1int
                    } else {
                        2int
                    },
        {
            let ghost before = reader@;
            match reader.request() {
                ReadRequest::Header => {
                    let end = if source.len() - at < HEADER_LEN {
                        source.len()
                    } else {
                        at + HEADER_LEN
                    };
                    let chunk = slice_to_vec(slice_subrange(source, at, end));
                    proof {
                        if at + HEADER_LEN <= source@.len() {
                            lemma_header_of_chunk(source@, at as int);
                        }
                        if at == source@.len() {
                            assert(before.tags + Seq::<TagView>::empty() =~= before.tags);
                        }
                    }
                    at = end;
                    match reader.step(ReadEvent::Header(chunk)) {
                        Ok(_) => {},
                        Err(e) => {
                            return Err(e);
                        },
                    }
                },
                ReadRequest::Payload { size } => {
                    let end = if source.len() - at < size {
                        source.len()
                    } else {
                        at + size
                    };
                    let chunk = slice_to_vec(slice_subrange(source, at, end));
                    proof {
                        lemma_joined_after(
                            before.tags,
                            before.completes(ReadEvent::Payload(chunk)@)->0,
                            tags_from(source@, at + size),
                        );
                    }
                    at = end;
                    match reader.step(ReadEvent::Payload(chunk)) {
                        Ok(_) => {},
                        Err(e) => {
                            return Err(e);
                        },
                    }
                },
                ReadRequest::Skip { size } => {
                    proof {
                        lemma_joined_after(
                            before.tags,
                            before.completes(ReadEvent::Skipped@)->0,
                            tags_from(source@, at + size),
                        );
                    }
                    at = if ((source.len() - at) as u64) < size {
                        source.len()
                    } else {
                        at + size as usize
                    };
                    match reader.step(ReadEvent::Skipped) {
                        Ok(_) => {},
                        Err(e) => {
                            return Err(e);
                        },
                    }
                },
                ReadRequest::Done => {
                    break ;
                },
            }
        }
        Ok(reader.into_tags())
    }

    /// Reads the tags of a stream that lies in memory and builds their tree.
    pub fn parse(source: &[u8]) -> (r: Result<Tree<FiffNode>, ParseError>)
        ensures
            match tree_of(source@) {
                Ok(tree) => r is Ok && r->Ok_0.wf() && node_tree(r->Ok_0) == tree,
                Err(e) => r == Err::<Tree<FiffNode>, ParseError>(e),
            },
    {
        let tags = match Self::read_tags(source) {
            Ok(tags) => tags,
            Err(e) => {
                return Err(ParseError::Read(e));
            },
        };
        if tags.len() >= u32::MAX as usize {
            return Err(ParseError::TooManyTags);
        }
        match Self::make_fif_tree(tags) {
            Ok(tree) => Ok(tree),
            Err(e) => Err(ParseError::Tree(e)),
        }
    }

    /// Builds the tree of blocks that a sequence of tags spells out.
    ///
    /// The result is the tree of [`build`], with the cursor where the last tag
    /// left it: at the root exactly when every block that was opened has been
    /// closed. The first tag that does not fit ends the build with its error.
    pub fn make_fif_tree(tags: Vec<Tag>) -> (r: Result<Tree<FiffNode>, TreeError>)
        requires
            tags@.len() < u32::MAX,
        ensures
            match build(tag_views(tags@)) {
                Ok(b) => r is Ok && r->Ok_0.wf() && node_tree(r->Ok_0) == b.tree,
                Err(e) => r == Err::<Tree<FiffNode>, TreeError>(e),
            },
    {
        let mut tree = Tree::with_root(FiffNode::default());
        let mut stack: Vec<usize> = Vec::new();
        let ghost all = tag_views(tags@);
        proof {
            assert(all.take(0) =~= Seq::<TagView>::empty());
            assert(node_tree(tree).nodes =~= build_start().tree.nodes);
        }
        for tag in it: tags
            invariant
                all == tag_views(tags@),
                it.seq() == tags@,
                tags@.len() < u32::MAX,
                tree.wf(),
                build(all.take(it.index() as int)) matches Ok(b) && node_tree(tree) == b.tree
                    && stack@.len() == b.stack.len() && (forall|i: int|
                    0 <= i < stack@.len() ==> stack@[i] == #[trigger] b.stack[i]),
        {
            let ghost k = it.index() as int;
            let ghost before = build(all.take(k))->Ok_0;
            proof {
                assert(all.take(k + 1).drop_last() =~= all.take(k));
                assert(all.take(k + 1).last() == tag@);
                lemma_build_in_tree(all.take(k));
                lemma_build_in_tree(all.take(k + 1));
                tree.lemma_wf();
            }
            match &tag {
                Tag::Block { kind, .. } => match kind {
                    BlockTagKind::BlockStart => {
                        let here = tree.current();
                        match FiffNode::from_tag(tag) {
                            Ok(node) => {
                                stack.push(here);
                                let child = tree.add_child(node);
                                tree.move_to(child);
                                proof {
                                    let after = build(all.take(k + 1))->Ok_0;
                                    assert(node_tree(tree).nodes =~= after.tree.nodes);
                                    assert(stack@.len() == after.stack.len());
                                }
                            },
                            Err(e) => {
                                proof {
                                    lemma_build_fails_on(all, k + 1);
                                }
                                return Err(e);
                            },
                        }
                    },
                    BlockTagKind::BlockEnd => {
                        match stack.pop() {
                            Some(outer) => {
                                tree.move_to(outer);
                            },
                            None => {
                                proof {
                                    lemma_build_fails_on(all, k + 1);
                                }
                                return Err(TreeError::UnbalancedBlocks);
                            },
                        }
                    },
                    _ => {},
                },
                Tag::Data { .. } => {
                    match FiffNode::from_tag(tag) {
                        Ok(node) => {
                            tree.add_child(node);
                            proof {
                                let after = build(all.take(k + 1))->Ok_0;
                                assert(node_tree(tree).nodes =~= after.tree.nodes);
                            }
                        },
                        Err(e) => {
                            proof {
                                lemma_build_fails_on(all, k + 1);
                            }
                            return Err(e);
                        },
                    }
                },
            }
        }
        proof {
            assert(all.take(tags@.len() as int) =~= all);
        }
        Ok(tree)
    }
}

/// A build that fails on a part of the tags fails on all of them, with the
/// same error.
proof fn lemma_build_fails_on(tags: Seq<TagView>, n: int)
    requires
        0 <= n <= tags.len(),
        build(tags.take(n)) is Err,
    ensures
        build(tags) == build(tags.take(n)),
    decreases tags.len() - n,
{
    if n < tags.len() {
        assert(tags.take(n + 1).drop_last() =~= tags.take(n));
        lemma_build_fails_on(tags, n + 1);
    } else {
        assert(tags.take(n) =~= tags);
    }
}

/// Whether the stack of a build is the path from the root down to the parent
/// of the cursor: it starts at the root, each entry is the parent of the next,
/// and the last is the parent of the cursor. With nothing open the cursor is
/// at the root.
pub open spec fn stack_is_path(b: Build) -> bool {
    &&& stack_in_tree(b)
    &&& b.stack.len() == 0 <==> b.tree.cursor == 0
    &&& b.stack.len() > 0 ==> b.stack[0] == 0 && b.tree.parents[b.tree.cursor] == b.stack.last()
    &&& forall|i: int|
        1 <= i < b.stack.len() ==> b.tree.parents[#[trigger] b.stack[i]] == b.stack[i - 1]
}

/// In every build the stack is the path from the root to the cursor's parent.
/// So the blocks that are open at the end are the ancestors of the cursor, and
/// none is open exactly when the cursor is back at the root.
pub proof fn lemma_stack_is_path(tags: Seq<TagView>)
    ensures
        build(tags) matches Ok(b) ==> stack_is_path(b),
    decreases tags.len(),
{
    if tags.len() > 0 {
        lemma_stack_is_path(tags.drop_last());
        lemma_build_in_tree(tags.drop_last());
        lemma_build_in_tree(tags);
        if let Ok(before) = build(tags.drop_last()) {
            if let Ok(after) = build(tags) {
                if after.stack.len() > before.stack.len() {
                    assert(after.stack == before.stack.push(before.tree.cursor));
                    assert forall|i: int| 1 <= i < after.stack.len() implies after.tree.parents[
                    #[trigger] after.stack[i]] == after.stack[i - 1] by {
                        if i < before.stack.len() {
                            assert(after.stack[i] == before.stack[i]);
                        }
                    }
                } else if after.stack.len() < before.stack.len() {
                    assert(after.stack == before.stack.drop_last());
                    assert forall|i: int| 1 <= i < after.stack.len() implies after.tree.parents[
                    #[trigger] after.stack[i]] == after.stack[i - 1] by {
                        assert(after.stack[i] == before.stack[i]);
                    }
                    if before.stack.len() > 1 {
                        let top = before.stack.len() - 1;
                        assert(before.tree.parents[before.stack[top]] == before.stack[top - 1]);
                    }
                }
            }
        }
    }
}

/// Whether a tag starts a block.
pub open spec fn is_start(tag: TagView) -> bool {
    tag matches TagView::Block { kind, .. } && kind == BlockTagKind::BlockStart
}

/// Whether a tag ends a block.
pub open spec fn is_end(tag: TagView) -> bool {
    tag matches TagView::Block { kind, .. } && kind == BlockTagKind::BlockEnd
}

/// The number of block starts among the tags.
pub open spec fn starts(tags: Seq<TagView>) -> nat
    decreases tags.len(),
{
    if tags.len() == 0 {
        0
    } else {
        starts(tags.drop_last()) + if is_start(tags.last()) {
            1nat
        } else {
            0nat
        }
    }
}

/// The number of block ends among the tags.
pub open spec fn ends(tags: Seq<TagView>) -> nat
    decreases tags.len(),
{
    if tags.len() == 0 {
        0
    } else {
        ends(tags.drop_last()) + if is_end(tags.last()) {
            1nat
        } else {
            0nat
        }
    }
}

/// The number of data tags among the tags.
pub open spec fn leaves(tags: Seq<TagView>) -> nat
    decreases tags.len(),
{
    if tags.len() == 0 {
        0
    } else {
        leaves(tags.drop_last()) + if tags.last() is Data {
            1nat
        } else {
            0nat
        }
    }
}

/// Whether no block ends before it has started: up to every point there are
/// at least as many starts as ends.
pub open spec fn nested(tags: Seq<TagView>) -> bool {
    forall|n: int| 0 <= n <= tags.len() ==> ends(#[trigger] tags.take(n)) <= starts(tags.take(n))
}

/// Whether every block start carries the integer that names its block.
pub open spec fn starts_named(tags: Seq<TagView>) -> bool {
    forall|i: int| 0 <= i < tags.len() && is_start(#[trigger] tags[i]) ==> node_of(tags[i]) is Ok
}

/// Tags whose blocks are nested and named build a tree: one node for the
/// root, one for each block start and one for each data tag, with as many
/// blocks left open as starts have no end yet.
pub proof fn lemma_nested_build(tags: Seq<TagView>)
    requires
        nested(tags),
        starts_named(tags),
    ensures
        build(tags) matches Ok(b) && b.stack.len() == starts(tags) - ends(tags)
            && b.tree.nodes.len() == 1 + starts(tags) + leaves(tags),
    decreases tags.len(),
{
    if tags.len() > 0 {
        let front = tags.drop_last();
        assert forall|n: int| 0 <= n <= front.len() implies ends(#[trigger] front.take(n))
            <= starts(front.take(n)) by {
            assert(front.take(n) =~= tags.take(n));
        }
        assert forall|i: int| 0 <= i < front.len() && is_start(#[trigger] front[i]) implies node_of(
            front[i],
        ) is Ok by {
            assert(front[i] == tags[i]);
        }
        lemma_nested_build(front);
        assert(tags.take(tags.len() as int) =~= tags);
        assert(is_start(tags[tags.len() - 1]) ==> node_of(tags[tags.len() - 1]) is Ok);
    }
}

/// Stack balance. Where every block start has its end, properly nested, the
/// build succeeds with no block left open and the cursor back at the root,
/// and the tree has one node for the root, one for each block start and one
/// for each data tag.
pub proof fn lemma_balanced_build(tags: Seq<TagView>)
    requires
        nested(tags),
        starts(tags) == ends(tags),
        starts_named(tags),
    ensures
        build(tags) matches Ok(b) && b.stack.len() == 0 && b.tree.cursor == 0
            && b.tree.nodes.len() == 1 + starts(tags) + leaves(tags),
{
    lemma_nested_build(tags);
    lemma_stack_is_path(tags);
}

/// The header at an offset of a stream is the header of the sixteen bytes
/// that lie there.
proof fn lemma_header_of_chunk(bytes: Seq<u8>, at: int)
    requires
        0 <= at,
        at + HEADER_LEN <= bytes.len(),
    ensures
        header_of(bytes.subrange(at, at + HEADER_LEN)) == header_of(bytes.skip(at)),
{
    let chunk = bytes.subrange(at, at + HEADER_LEN);
    let rest = bytes.skip(at);
    assert forall|off: int| 0 <= off <= 12 implies i32_at(chunk, off) == i32_at(rest, off) by {
        assert(chunk.skip(off).subrange(0, 4) =~= rest.skip(off).subrange(0, 4));
        lemma_be_word_prefix(chunk.skip(off), rest.skip(off));
    }
}

/// Tags made so far, one more and the rest, joined in either grouping.
proof fn lemma_joined_after(
    made: Seq<TagView>,
    tag: Result<TagView, TagError>,
    rest: Result<Seq<TagView>, ReadError>,
)
    ensures
        joined(made, after(tag, rest)) == joined(with_tag(made, tag), rest),
{
    if let Ok(tags) = rest {
        assert(made + (with_tag(Seq::empty(), tag) + tags) =~= with_tag(made, tag) + tags);
    }
}

} // verus!
