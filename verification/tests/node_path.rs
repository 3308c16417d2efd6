use zoc::node_path::{NodeEdge, NodePath};

#[test]
fn empty_path() {
    let nil = NodePath::Nil;
    assert_eq!(0, nil.len());
    assert!(nil.is_empty());
    assert_eq!(Vec::<NodeEdge>::new(), nil.to_vec());
}

#[test]
fn singleton_path() {
    let p = NodePath::singleton(NodeEdge(3));
    assert_eq!(1, p.len());
    assert!(!p.is_empty());
    assert_eq!(vec![NodeEdge(3)], p.to_vec());
}

#[test]
fn longer_paths_list_edges_from_the_root() {
    let root = NodePath::Nil;
    let a = NodePath::Snoc(&root, NodeEdge(1));
    let b = NodePath::Snoc(&a, NodeEdge(0));
    let c = NodePath::Snoc(&b, NodeEdge(2));
    assert_eq!(3, c.len());
    assert_eq!(vec![NodeEdge(1), NodeEdge(0), NodeEdge(2)], c.to_vec());
    assert_eq!(vec![NodeEdge(1), NodeEdge(0)], b.to_vec());
}

