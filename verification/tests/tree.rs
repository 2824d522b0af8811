use eucalyptus::tree::{asset_tree, selected_entity_id, EntryKind, TreeNode};

fn label(n: &TreeNode<String>) -> String {
    match n {
        TreeNode::CloseDir => "<close>".to_string(),
        TreeNode::Dir(l) => format!("dir:{}", l),
        TreeNode::Leaf(l) => format!("leaf:{}", l),
    }
}

#[test]
fn asset_tree_from_walk() {
    let walk = vec![
        (0usize, Some("resources".to_string()), EntryKind::Dir),
        (1, Some("models".to_string()), EntryKind::Dir),
        (2, Some("cube.glb".to_string()), EntryKind::File),
        (2, Some("tree.glb".to_string()), EntryKind::File),
        (1, Some("readme.txt".to_string()), EntryKind::File),
        (1, None, EntryKind::File),
        (1, Some("link".to_string()), EntryKind::Other),
    ];
    let nodes: Vec<String> = asset_tree(&walk).iter().map(label).collect();
    assert_eq!(
        nodes,
        vec![
            "dir:resources",
            "dir:models",
            "leaf:cube.glb",
            "leaf:tree.glb",
            "<close>",
            "leaf:readme.txt",
        ]
    );
}

#[test]
fn asset_tree_closes_one_folder_per_level() {
    let walk = vec![
        (0usize, Some("r".to_string()), EntryKind::Dir),
        (1, Some("a".to_string()), EntryKind::Dir),
        (2, Some("b".to_string()), EntryKind::Dir),
        (3, Some("c".to_string()), EntryKind::File),
        (1, Some("d".to_string()), EntryKind::File),
    ];
    let nodes: Vec<String> = asset_tree(&walk).iter().map(label).collect();
    assert_eq!(
        nodes,
        vec!["dir:r", "dir:a", "dir:b", "leaf:c", "<close>", "<close>", "leaf:d"]
    );
    assert!(asset_tree(&Vec::new()).is_empty());
}

#[test]
fn entity_tree_selection() {
    assert_eq!(selected_entity_id(&vec![5, 7]), Some(5));
    assert_eq!(selected_entity_id(&vec![-1]), None);
    assert_eq!(selected_entity_id(&vec![-5, 2]), None);
    assert_eq!(selected_entity_id(&Vec::new()), None);
    assert_eq!(selected_entity_id(&vec![0]), Some(0));
}
