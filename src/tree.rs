//! A snapshot of a window hierarchy and its depth-first enumeration.

use vstd::prelude::*;

verus! {

/// One window of a snapshot, with the positions of its direct children in the
/// snapshot, in the order the server listed them.
#[derive(Debug)]
pub struct WindowNode {
    pub window: u32,
    pub children: Vec<usize>,
}

/// A window hierarchy as read from the server. Position 0 holds the window the
/// walk started from; each child stands at a later position than its parent,
/// so the snapshot has no cycle.
#[derive(Debug)]
pub struct WindowTree {
    nodes: Vec<WindowNode>,
}

/// The view of a snapshot: each window with the positions of its children.
pub type TreeView = Seq<(u32, Seq<usize>)>;

/// Every child of a node stands after it and inside the snapshot.
pub open spec fn tree_wf(t: TreeView) -> bool {
    &&& t.len() > 0
    &&& forall|i: int, k: int|
        0 <= i < t.len() && 0 <= k < t[i].1.len() ==> i < #[trigger] t[i].1[k] < t.len()
}

/// The windows below node `i`, each followed by the windows below it, children
/// in the order listed.
pub open spec fn descendants_of(t: TreeView, i: int) -> Seq<u32>
    decreases t.len() - i, t[i].1.len() + 1,
{
    if 0 <= i < t.len() {
        children_preorder(t, i, t[i].1.len() as int)
    } else {
        Seq::empty()
    }
}

/// The windows below the first `k` children of node `i`, in depth-first order.
pub open spec fn children_preorder(t: TreeView, i: int, k: int) -> Seq<u32>
    decreases t.len() - i, k,
{
    if 0 <= i < t.len() && 0 < k <= t[i].1.len() {
        let c = t[i].1[k - 1] as int;
        if i < c < t.len() {
            children_preorder(t, i, k - 1) + seq![t[c].0] + descendants_of(t, c)
        } else {
            children_preorder(t, i, k - 1)
        }
    } else {
        Seq::empty()
    }
}

impl View for WindowTree {
    type V = TreeView;

    closed spec fn view(&self) -> TreeView {
        self.nodes@.map_values(|n: WindowNode| (n.window, n.children@))
    }
}

impl WindowTree {
    pub open spec fn wf(&self) -> bool {
        tree_wf(self@)
    }

    /// A snapshot that holds only the window the walk starts from.
    pub fn new(root: u32) -> (r: WindowTree)
        ensures
            r.wf(),
            r@ == seq![(root, Seq::<usize>::empty())],
    {
        let mut nodes: Vec<WindowNode> = Vec::new();
        nodes.push(WindowNode { window: root, children: Vec::new() });
        let r = WindowTree { nodes };
        assert(r@ =~= seq![(root, Seq::<usize>::empty())]);
        r
    }

    /// Number of windows in the snapshot, the start window included.
    pub fn len(&self) -> (r: usize)
        ensures
            r == self@.len(),
    {
        self.nodes.len()
    }

    /// The window at a position.
    pub fn window_at(&self, i: usize) -> (r: u32)
        requires
            i < self@.len(),
        ensures
            r == self@[i as int].0,
    {
        self.nodes[i].window
    }

    /// Adds `window` as the last child of the node at position `parent`, and
    /// returns the new node's position.
    pub fn add_child(&mut self, parent: usize, window: u32) -> (r: usize)
        requires
            old(self).wf(),
            parent < old(self)@.len(),
        ensures
            final(self).wf(),
            r == old(self)@.len(),
            final(self)@ == old(self)@.update(
                parent as int,
                (old(self)@[parent as int].0, old(self)@[parent as int].1.push(r)),
            ).push((window, Seq::<usize>::empty())),
    {
        let r = self.nodes.len();
        let mut node = WindowNode { window: 0, children: Vec::new() };
        self.nodes.set_and_swap(parent, &mut node);
        node.children.push(r);
        self.nodes.set_and_swap(parent, &mut node);
        self.nodes.push(WindowNode { window, children: Vec::new() });
        assert(self@ =~= old(self)@.update(
            parent as int,
            (old(self)@[parent as int].0, old(self)@[parent as int].1.push(r)),
        ).push((window, Seq::<usize>::empty())));
        r
    }

    /// Every window of the snapshot below the start window: each child is
    /// followed by the windows below it, siblings in the order listed.
    pub fn descendants(&self) -> (r: Vec<u32>)
        requires
            self.wf(),
        ensures
            r@ == descendants_of(self@, 0),
    {
        let mut out: Vec<u32> = Vec::new();
        self.append_descendants(0, &mut out);
        out
    }

    fn append_descendants(&self, i: usize, out: &mut Vec<u32>)
        requires
            self.wf(),
            i < self@.len(),
        ensures
            final(out)@ == old(out)@ + descendants_of(self@, i as int),
        decreases self@.len() - i,
    {
        let ghost t = self@;
        let n = self.nodes[i].children.len();
        let mut k: usize = 0;
        assert(children_preorder(t, i as int, 0) =~= Seq::<u32>::empty());
        while k < n
            invariant
                self.wf(),
                t == self@,
                i < t.len(),
                n == t[i as int].1.len(),
                k <= n,
                out@ == old(out)@ + children_preorder(t, i as int, k as int),
            decreases n - k,
        {
            let c = self.nodes[i].children[k];
            assert(t[i as int].1[k as int] == c);
            assert(i < c < t.len());
            out.push(self.nodes[c].window);
            self.append_descendants(c, out);
            k = k + 1;
            assert(out@ =~= old(out)@ + children_preorder(t, i as int, k as int));
        }
    }
}

} // verus!
