use egui_taffy::ids::{Discriminator, ROOT_ID, child_id};
use egui_taffy::tree::{BuildError, TreeBuilder};

/// Build a small frame: root > [panel > [a, b, c], footer], with the given
/// explicit keys for a, b, c (None = call-order identity).
fn build_frame(keys: [Option<u64>; 3]) -> egui_taffy::tree::Arena {
    let mut b = TreeBuilder::new();
    let panel = b.begin_node(None);
    for key in keys {
        let child = b.begin_node(key);
        b.end_node(child).unwrap();
    }
    b.end_node(panel).unwrap();
    let footer = b.begin_node(None);
    b.end_node(footer).unwrap();
    b.finish().unwrap()
}

#[test]
fn identity_stable_across_frames() {
    // Two frames with identical declaration order and keys: every node's
    // id is identical across the two frames.
    let f1 = build_frame([None, Some(7), None]);
    let f2 = build_frame([None, Some(7), None]);
    assert_eq!(f1.nodes.len(), f2.nodes.len());
    for (n1, n2) in f1.nodes.iter().zip(f2.nodes.iter()) {
        assert_eq!(n1.id, n2.id);
    }
}

#[test]
fn keyed_identity_follows_key_not_position() {
    // Three siblings with distinct explicit keys, permuted between frames:
    // each key keeps its id.
    let mut b1 = TreeBuilder::new();
    let mut ids1 = std::collections::HashMap::new();
    for key in [10u64, 20, 30] {
        let h = b1.begin_node(Some(key));
        ids1.insert(key, b1.nodes[h].id);
        b1.end_node(h).unwrap();
    }
    let mut b2 = TreeBuilder::new();
    let mut ids2 = std::collections::HashMap::new();
    for key in [30u64, 10, 20] {
        let h = b2.begin_node(Some(key));
        ids2.insert(key, b2.nodes[h].id);
        b2.end_node(h).unwrap();
    }
    for key in [10u64, 20, 30] {
        assert_eq!(ids1[&key], ids2[&key]);
    }
    // and distinct keys give distinct ids
    assert_ne!(ids1[&10], ids1[&20]);
    assert_ne!(ids1[&20], ids1[&30]);
}

#[test]
fn unkeyed_identity_follows_position() {
    // Without explicit keys the discriminator is the sibling ordinal, so
    // permuting siblings reassigns ids by the new position: the node now
    // first gets the id the first position always had.
    let f1 = build_frame([None, None, None]);
    let f2 = build_frame([None, None, None]);
    // position i in one frame matches position i in the other, whatever
    // content stood there
    for i in 0..f1.nodes.len() {
        assert_eq!(f1.nodes[i].id, f2.nodes[i].id);
        assert_eq!(f1.nodes[i].disc, f2.nodes[i].disc);
    }
    let panel_children: Vec<_> = f1
        .nodes
        .iter()
        .filter(|n| n.parent == Some(1))
        .collect();
    assert_eq!(panel_children.len(), 3);
    assert_eq!(panel_children[0].disc, Discriminator::Ordinal(0));
    assert_eq!(panel_children[1].disc, Discriminator::Ordinal(1));
    assert_eq!(panel_children[2].disc, Discriminator::Ordinal(2));
}

#[test]
fn ordinal_and_key_never_alias() {
    // An ordinal discriminator and a key of the same numeric value mix
    // under different domain tags.
    assert_ne!(
        child_id(ROOT_ID, Discriminator::Ordinal(5)),
        child_id(ROOT_ID, Discriminator::Key(5))
    );
}

#[test]
fn child_id_is_deterministic() {
    let a = child_id(0x1234, Discriminator::Key(99));
    let b = child_id(0x1234, Discriminator::Key(99));
    assert_eq!(a, b);
    assert_ne!(a, child_id(0x1235, Discriminator::Key(99)));
    assert_ne!(a, child_id(0x1234, Discriminator::Key(98)));
}

#[test]
fn root_has_fixed_identity() {
    let b = TreeBuilder::new();
    assert_eq!(b.nodes[0].id, ROOT_ID);
    assert_eq!(b.nodes[0].parent, None);
}

#[test]
fn ending_non_innermost_node_is_rejected() {
    let mut b = TreeBuilder::new();
    let outer = b.begin_node(None);
    let inner = b.begin_node(None);
    // closing the outer node while the inner is still open is a misuse
    assert_eq!(b.end_node(outer), Err(BuildError::NotInnermost));
    // the tree is untouched: the proper order still works
    assert_eq!(b.end_node(inner), Ok(()));
    assert_eq!(b.end_node(outer), Ok(()));
}

#[test]
fn ending_root_is_rejected() {
    let mut b = TreeBuilder::new();
    assert_eq!(b.end_node(0), Err(BuildError::NotInnermost));
}

#[test]
fn finish_with_open_nodes_is_rejected() {
    let mut b = TreeBuilder::new();
    let _h = b.begin_node(None);
    match b.finish() {
        Ok(_) => panic!("finishing with open nodes must fail"),
        Err(e) => assert_eq!(e, BuildError::UnclosedNodes),
    }
}

#[test]
fn unknown_handle_is_rejected() {
    let mut b = TreeBuilder::new();
    let patch = egui_taffy::style::StylePatch::empty();
    assert_eq!(b.set_style(17, patch), Err(BuildError::UnknownHandle));
}
