use gamescope_x11_client::tree::WindowTree;

#[test]
fn descendants_are_parent_before_children() {
    let (r, a, b, c) = (1u32, 10u32, 20u32, 30u32);
    let mut tree = WindowTree::new(r);
    let a_at = tree.add_child(0, a);
    tree.add_child(0, b);
    tree.add_child(a_at, c);
    assert_eq!(tree.descendants(), vec![a, c, b]);
}

#[test]
fn lone_window_has_no_descendants() {
    let tree = WindowTree::new(5);
    assert_eq!(tree.len(), 1);
    assert_eq!(tree.window_at(0), 5);
    assert_eq!(tree.descendants(), Vec::<u32>::new());
}

#[test]
fn deep_and_wide_tree() {
    let mut tree = WindowTree::new(0);
    let x = tree.add_child(0, 1);
    let y = tree.add_child(x, 2);
    tree.add_child(y, 3);
    tree.add_child(x, 4);
    tree.add_child(0, 5);
    let z = tree.add_child(0, 6);
    tree.add_child(z, 7);
    assert_eq!(tree.descendants(), vec![1, 2, 3, 4, 5, 6, 7]);
    assert_eq!(tree.len(), 8);
}
