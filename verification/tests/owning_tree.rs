use fiff::tag::{Data, Tag};
use fiff::tree::{labels, text, write_children, Tree};

#[test]
fn can_create_root() {
    // create a root node with no data
    assert_eq!(Tree::new(), Tree { nodes: vec![], data: Data::Void });
}

#[test]
fn can_add_node() {
    // create a root node, then add another node as a child
    let mut root = Tree::new();
    let node = Tree::with_data(0.5f32);

    root.add_node(node.clone());

    assert_eq!(root, Tree { nodes: vec![Tree { nodes: vec![], data: 0.5 }], data: 0.0 });
}

#[test]
fn can_count_tree_nodes() {
    // create a new tree, add nodes, and check the count is correct
    let mut root: Tree<Tag> = Tree::new();
    let mut count = 1; // the root node is the only node in the tree
    assert_eq!(Tree::count_nodes(&root), count);

    for _ in 0..3 {
        root.add_node(Tree::new());
        count += 1;
    }
    assert_eq!(Tree::count_nodes(&root), count);

    let child_node = &mut root.nodes[0];

    for _ in 0..7 {
        child_node.add_node(Tree::new());
        count += 1;
    }
    assert_eq!(Tree::count_nodes(&root), count);

    let child_node_second = &mut root.nodes[0].nodes[0];

    for _ in 0..2 {
        child_node_second.add_node(Tree::new());
        count += 1;
    }

    assert_eq!(Tree::count_nodes(&root), count);
}

fn numbered() -> Tree<i32> {
    let mut root = Tree::new();

    for ii in 0..3 {
        root.add_node(Tree::with_data(ii));
    }

    for ii in 7..12 {
        root.nodes[0].add_node(Tree::with_data(ii));
    }

    for ii in 0..3 {
        root.nodes[0].nodes[3].add_node(Tree::with_data(ii));
    }
    root
}

#[test]
fn can_find_node() {
    let root = numbered();

    let target = Tree::find_node(&root, &7).unwrap();

    println!("{}", text(&labels(&root)));
    assert_eq!(target.data, 7);
}

#[test]
fn the_first_match_in_reading_order_is_found() {
    let root = numbered();
    let zero = Tree::find_node(&root, &0).unwrap();
    assert_eq!(zero.nodes.len(), 3);
    let one = Tree::find_node(&root, &1).unwrap();
    assert_eq!(one.nodes.len(), 0);
    let ten = Tree::find_node(&root, &10).unwrap();
    assert_eq!(ten.nodes.len(), 3);
    let two = Tree::find_node(&root, &2).unwrap();
    assert!(std::ptr::eq(two, &root.nodes[0].nodes[3].nodes[2]));
    assert_eq!(Tree::find_node(&root, &5), None);
}

#[test]
fn a_copy_has_the_shape_and_the_values() {
    let root = numbered();
    let copy = root.clone();
    assert_eq!(copy, root);
    assert_eq!(Tree::count_nodes(&copy), 12);
}

#[test]
fn labels_are_the_displayed_values() {
    let mut root = Tree::with_data(-3);
    root.add_node(Tree::with_data(14));
    let texts = labels(&root);
    assert_eq!(
        texts,
        Tree { nodes: vec![Tree { nodes: vec![], data: "14".to_string() }], data: "-3".to_string() }
    );
}

#[test]
fn a_tree_is_drawn_line_by_line() {
    let mut root = Tree::with_data("root".to_string());
    let mut a = Tree::with_data("a".to_string());
    a.add_node(Tree::with_data("a1".to_string()));
    let mut a2 = Tree::with_data("a2".to_string());
    a2.add_node(Tree::with_data("deep".to_string()));
    a.add_node(a2);
    root.add_node(a);
    root.add_node(Tree::with_data("b".to_string()));
    let expected = "root\n\u{251c}\u{2500}a\n\u{2502} \u{251c}\u{2500}a1\n\u{2502} \u{2514}\u{2500}a2\n\u{2502} \u{2502} \u{2514}\u{2500}deep\n\u{2514}\u{2500}b";
    assert_eq!(text(&root), expected);
}

#[test]
fn a_single_node_is_its_text() {
    assert_eq!(text(&Tree::with_data("m\u{e9}g".to_string())), "m\u{e9}g");
    assert_eq!(text(&Tree::with_data(String::new())), "");
    let leaf = Tree::with_data("x".to_string());
    assert_eq!(write_children(0, true, &leaf), vec!['x']);
    assert_eq!(write_children(1, true, &leaf), vec!['\u{2514}', '\u{2500}', 'x']);
    assert_eq!(write_children(1, false, &leaf), vec!['\u{251c}', '\u{2500}', 'x']);
    assert_eq!(
        write_children(3, false, &leaf),
        vec!['\u{2502}', ' ', '\u{2502}', ' ', '\u{251c}', '\u{2500}', 'x']
    );
}
