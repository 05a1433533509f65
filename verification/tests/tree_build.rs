use fiff::enums::{BlockKind, BlockTagKind, DataTagKind};
use fiff::graph::Tree;
use fiff::parser::FifParser;
use fiff::tag::{Data, FiffNode, Tag, TreeError};

fn start(code: i32) -> Tag {
    Tag::Block { kind: BlockTagKind::BlockStart, data: Data::Int32(vec![code]) }
}

fn end() -> Tag {
    Tag::Block { kind: BlockTagKind::BlockEnd, data: Data::Void }
}

fn leaf(kind: DataTagKind) -> Tag {
    Tag::Data { kind, data: Data::Void }
}

fn make_dummy_tree() -> Tree<i32> {
    let mut tree = Tree::new();

    let _a = tree.add_child(1);
    let _b = tree.add_child(2);
    let c = tree.add_child(3);

    tree.move_to(c);
    let d = tree.add_child(4);
    let _e = tree.add_child(5);

    tree.move_to(d);
    let _f = tree.add_child(6);
    let _g = tree.add_child(7);

    tree
}

#[test]
fn can_make_tree() {
    let tree = make_dummy_tree();

    assert_eq!(tree.node_count(), 8);
    assert_eq!(tree.edge_count(), 7);
    let mut sum = 0;
    for node in 0..tree.node_count() {
        sum += *tree.get(node);
    }
    assert_eq!(sum, 28);
}

#[test]
fn children_come_in_the_order_of_insertion() {
    let tree = make_dummy_tree();
    assert_eq!(tree.root(), 0);
    assert_eq!(tree.current(), 4);
    assert_eq!(tree.children(0), vec![1, 2, 3]);
    assert_eq!(tree.children(3), vec![4, 5]);
    assert_eq!(tree.children(4), vec![6, 7]);
    assert_eq!(tree.children(7), Vec::<usize>::new());
    assert_eq!(tree.children(100), Vec::<usize>::new());
    assert_eq!(*tree.get(0), 0);
    assert_eq!(*tree.get(5), 5);
}

#[test]
fn a_tree_starts_as_its_root() {
    let tree: Tree<FiffNode> = Tree::with_root(FiffNode::default());
    assert_eq!(tree.node_count(), 1);
    assert_eq!(tree.edge_count(), 0);
    assert_eq!(tree.current(), 0);
    assert_eq!(*tree.get(0), FiffNode::Block { kind: BlockKind::Root });
    assert_eq!(tree.children(0), Vec::<usize>::new());
}

#[test]
fn no_tags_make_the_root_alone() {
    let tree = FifParser::make_fif_tree(vec![]).unwrap();
    assert_eq!(tree.node_count(), 1);
    assert_eq!(*tree.get(0), FiffNode::Block { kind: BlockKind::Root });
    assert_eq!(tree.current(), tree.root());
}

#[test]
fn flat_data_tags_become_leaves_of_the_root() {
    let tags = vec![
        Tag::Data { kind: DataTagKind::FileId, data: Data::Slice("test".into()) },
        Tag::Data { kind: DataTagKind::Sfreq, data: Data::Float(vec![200.0f32.to_bits()]) },
        Tag::Data { kind: DataTagKind::BadChs, data: Data::String("sensorA".into()) },
    ];
    let tree = FifParser::make_fif_tree(tags).unwrap();
    assert_eq!(tree.node_count(), 4);
    assert_eq!(tree.children(tree.root()), vec![1, 2, 3]);
    assert_eq!(
        *tree.get(1),
        FiffNode::Tag { kind: DataTagKind::FileId, data: Data::Slice("test".into()) }
    );
    assert_eq!(
        *tree.get(2),
        FiffNode::Tag { kind: DataTagKind::Sfreq, data: Data::Float(vec![200.0f32.to_bits()]) }
    );
    assert_eq!(
        *tree.get(3),
        FiffNode::Tag { kind: DataTagKind::BadChs, data: Data::String("sensorA".into()) }
    );
    for node in 1..4 {
        assert_eq!(tree.children(node), Vec::<usize>::new());
    }
    assert_eq!(tree.current(), tree.root());
}

#[test]
fn a_block_holds_what_lies_between_its_start_and_end() {
    let tags = vec![
        start(106),
        Tag::Data { kind: DataTagKind::Nchan, data: Data::Int32(vec![32]) },
        end(),
    ];
    let tree = FifParser::make_fif_tree(tags).unwrap();
    assert_eq!(tree.node_count(), 3);
    assert_eq!(tree.children(0), vec![1]);
    assert_eq!(*tree.get(1), FiffNode::Block { kind: BlockKind::Subject });
    assert_eq!(tree.children(1), vec![2]);
    assert_eq!(*tree.get(2), FiffNode::Tag { kind: DataTagKind::Nchan, data: Data::Int32(vec![32]) });
    assert_eq!(tree.current(), tree.root());
}

#[test]
fn blocks_after_a_closed_block_hang_where_that_one_hung() {
    let tags = vec![
        start(100),
        start(101),
        leaf(DataTagKind::Nchan),
        end(),
        start(102),
        leaf(DataTagKind::Sfreq),
        end(),
        leaf(DataTagKind::BadChs),
        end(),
        leaf(DataTagKind::FileId),
    ];
    let tree = FifParser::make_fif_tree(tags).unwrap();
    assert_eq!(tree.node_count(), 1 + 3 + 4);
    assert_eq!(tree.children(0), vec![1, 7]);
    assert_eq!(tree.children(1), vec![2, 4, 6]);
    assert_eq!(tree.children(2), vec![3]);
    assert_eq!(tree.children(4), vec![5]);
    assert_eq!(*tree.get(1), FiffNode::Block { kind: BlockKind::Meas });
    assert_eq!(*tree.get(2), FiffNode::Block { kind: BlockKind::MeasInfo });
    assert_eq!(*tree.get(4), FiffNode::Block { kind: BlockKind::RawData });
    assert_eq!(tree.current(), tree.root());
}

#[test]
fn balanced_tags_make_one_node_each() {
    let mut tags = Vec::new();
    let mut starts = 0;
    let mut leaves = 0;
    for round in 0..5 {
        tags.push(start(100 + round));
        starts += 1;
        for _ in 0..round {
            tags.push(leaf(DataTagKind::Nop));
            leaves += 1;
        }
        tags.push(Tag::Block { kind: BlockTagKind::BlockId, data: Data::Void });
    }
    for _ in 0..5 {
        tags.push(end());
    }
    let tree = FifParser::make_fif_tree(tags).unwrap();
    assert_eq!(tree.node_count(), 1 + starts + leaves);
    assert_eq!(tree.edge_count(), starts + leaves);
    assert_eq!(tree.current(), tree.root());
}

#[test]
fn other_structural_tags_are_passed_over() {
    let tags = vec![
        Tag::Block { kind: BlockTagKind::BlockId, data: Data::Int32(vec![1]) },
        Tag::Block { kind: BlockTagKind::ParentBlockId, data: Data::Void },
        Tag::Block { kind: BlockTagKind::BlockName, data: Data::String("x".into()) },
        Tag::Block { kind: BlockTagKind::BlockVersion, data: Data::Int32(vec![2]) },
    ];
    let tree = FifParser::make_fif_tree(tags).unwrap();
    assert_eq!(tree.node_count(), 1);
}

#[test]
fn an_open_block_leaves_the_cursor_inside() {
    let tags = vec![start(100), start(101), leaf(DataTagKind::Nchan), end()];
    let tree = FifParser::make_fif_tree(tags).unwrap();
    assert_eq!(tree.node_count(), 4);
    assert_eq!(tree.current(), 1);
    assert!(tree.current() != tree.root());
}

#[test]
fn an_end_without_a_start_is_an_error() {
    assert_eq!(FifParser::make_fif_tree(vec![end()]).err(), Some(TreeError::UnbalancedBlocks));
    let tags = vec![start(100), end(), leaf(DataTagKind::Nchan), end()];
    assert_eq!(FifParser::make_fif_tree(tags).err(), Some(TreeError::UnbalancedBlocks));
}

#[test]
fn a_block_start_must_carry_its_code() {
    let text = Tag::Block { kind: BlockTagKind::BlockStart, data: Data::String("Subject".into()) };
    assert_eq!(
        FifParser::make_fif_tree(vec![leaf(DataTagKind::Nchan), text]).err(),
        Some(TreeError::MalformedBlockStart)
    );
    let empty = Tag::Block { kind: BlockTagKind::BlockStart, data: Data::Int32(vec![]) };
    assert_eq!(FifParser::make_fif_tree(vec![empty]).err(), Some(TreeError::MalformedBlockStart));
    let deferred =
        Tag::Block { kind: BlockTagKind::BlockStart, data: Data::InFile { start: 16, size: 600 } };
    assert_eq!(FifParser::make_fif_tree(vec![deferred]).err(), Some(TreeError::MalformedBlockStart));
}

#[test]
fn all_children_are_listed_at_once() {
    let tree = make_dummy_tree();
    assert_eq!(
        tree.child_lists(),
        vec![vec![1, 2, 3], vec![], vec![], vec![4, 5], vec![6, 7], vec![], vec![], vec![]]
    );
    let alone: Tree<i32> = Tree::new();
    assert_eq!(alone.child_lists(), vec![Vec::<usize>::new()]);
}

#[test]
fn a_tree_is_drawn_with_its_branches() {
    let tree = make_dummy_tree();
    let labels: Vec<String> = (0..tree.node_count()).map(|n| tree.get(n).to_string()).collect();
    let expected = "0\n\
\u{251c}\u{2500}\u{2500} 1\n\
\u{251c}\u{2500}\u{2500} 2\n\
\u{2514}\u{2500}\u{2500} 3\n    \u{251c}\u{2500}\u{2500} 4\n    \u{2502}   \u{251c}\u{2500}\u{2500} 6\n    \u{2502}   \u{2514}\u{2500}\u{2500} 7\n    \u{2514}\u{2500}\u{2500} 5\n";
    assert_eq!(tree.draw(&labels), expected);
}

#[test]
fn a_root_alone_is_drawn_as_its_text() {
    let tree = FifParser::make_fif_tree(vec![]).unwrap();
    assert_eq!(tree.draw(&vec!["the root".to_string()]), "the root\n");
}

#[test]
fn the_drawing_follows_the_blocks() {
    let tags = vec![start(106), leaf(DataTagKind::Nchan), end(), leaf(DataTagKind::Sfreq)];
    let tree = FifParser::make_fif_tree(tags).unwrap();
    let labels = vec!["root".to_string(), "Subject".into(), "Nchan".into(), "Sfreq".into()];
    assert_eq!(
        tree.draw(&labels),
        "root\n\u{251c}\u{2500}\u{2500} Subject\n\u{2502}   \u{2514}\u{2500}\u{2500} Nchan\n\u{2514}\u{2500}\u{2500} Sfreq\n"
    );
}
