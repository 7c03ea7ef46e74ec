//! The document-tree fragment the cell-index query walks: an arena of
//! nodes with kinds, parent links and ordered child lists. The query
//! always recomputes from the current structure — membership can
//! change between queries, so no ordinal is ever cached.

use vstd::prelude::*;

verus! {

/// The kind of a node, as far as the cell-index query needs it.
#[derive(Clone, Copy, Debug, PartialEq, Eq, Structural)]
pub enum NodeKind {
    TableRow,
    TableCell,
    Other,
}

/// One node: its kind, its parent, and its children in document order.
pub struct TreeNode {
    pub kind: NodeKind,
    pub parent: Option<usize>,
    pub children: Vec<usize>,
}

/// A document tree held as an arena; node identity is the arena index.
pub struct TableTree {
    pub nodes: Vec<TreeNode>,
}

/// The zero-based position of `node` among the table-cell entries of
/// `children`, in order; -1 when `node` is not among them.
pub open spec fn spec_cell_index_in(t: &TableTree, children: Seq<usize>, node: usize) -> int
    decreases children.len(),
{
    if children.len() == 0 {
        -1
    } else {
        let c = children[0];
        if t.nodes@[c as int].kind == NodeKind::TableCell {
            if c == node {
                0
            } else {
                let r = spec_cell_index_in(t, children.drop_first(), node);
                if r == -1 {
                    -1
                } else {
                    r + 1
                }
            }
        } else {
            spec_cell_index_in(t, children.drop_first(), node)
        }
    }
}

/// The cell index of `node`: its position among the table-cell
/// children of its parent row, or -1 when it has no parent, the
/// parent is not a row, or it is not found among the row's cells.
pub open spec fn spec_cell_index(t: &TableTree, node: usize) -> int {
    match t.nodes@[node as int].parent {
        Some(p) => {
            if t.nodes@[p as int].kind == NodeKind::TableRow {
                spec_cell_index_in(t, t.nodes@[p as int].children@, node)
            } else {
                -1
            }
        },
        None => -1,
    }
}

/// `s` with its first occurrence of `x` dropped; `s` itself when `x`
/// does not occur.
pub open spec fn remove_first(s: Seq<usize>, x: usize) -> Seq<usize>
    decreases s.len(),
{
    if s.len() == 0 {
        s
    } else if s[0] == x {
        s.drop_first()
    } else {
        seq![s[0]] + remove_first(s.drop_first(), x)
    }
}

proof fn lemma_remove_first_at(s: Seq<usize>, x: usize, i: int)
    requires
        0 <= i < s.len(),
        s[i] == x,
        forall|t: int| 0 <= t < i ==> s[t] != x,
    ensures
        remove_first(s, x) == s.remove(i),
    decreases i,
{
    if i == 0 {
        assert(s.drop_first() =~= s.remove(0));
    } else {
        lemma_remove_first_at(s.drop_first(), x, i - 1);
        assert(seq![s[0]] + s.drop_first().remove(i - 1) =~= s.remove(i));
    }
}

proof fn lemma_remove_first_absent(s: Seq<usize>, x: usize)
    requires
        forall|t: int| 0 <= t < s.len() ==> s[t] != x,
    ensures
        remove_first(s, x) == s,
    decreases s.len(),
{
    if s.len() > 0 {
        lemma_remove_first_absent(s.drop_first(), x);
        assert(seq![s[0]] + s.drop_first() =~= s);
    }
}

impl TableTree {
    /// Every parent and child reference stays inside the arena, and
    /// child lists are short enough for a 32-bit ordinal.
    pub open spec fn wf(&self) -> bool {
        &&& forall|i: int|
            0 <= i < self.nodes@.len() ==> match (#[trigger] self.nodes@[i]).parent {
                Some(p) => p < self.nodes@.len(),
                None => true,
            }
        &&& forall|i: int|
            0 <= i < self.nodes@.len() ==> (#[trigger] self.nodes@[i]).children@.len()
                < 0x8000_0000
        &&& forall|i: int, j: int|
            0 <= i < self.nodes@.len() && 0 <= j < self.nodes@[i].children@.len() ==> (
            #[trigger] self.nodes@[i].children@[j]) < self.nodes@.len()
    }

    /// An empty tree.
    pub fn new() -> (r: TableTree)
        ensures
            r.wf(),
            r.nodes@.len() == 0,
    {
        TableTree { nodes: Vec::new() }
    }

    /// Adds a parentless, childless node of the given kind and returns
    /// its identity.
    pub fn add_node(&mut self, kind: NodeKind) -> (id: usize)
        requires
            old(self).wf(),
            old(self).nodes@.len() < usize::MAX,
        ensures
            final(self).wf(),
            id == old(self).nodes@.len(),
            final(self).nodes@.len() == old(self).nodes@.len() + 1,
            final(self).nodes@[id as int].kind == kind,
            final(self).nodes@[id as int].parent is None,
            final(self).nodes@[id as int].children@.len() == 0,
            forall|i: int|
                0 <= i < old(self).nodes@.len() ==> final(self).nodes@[i] == old(self).nodes@[i],
    {
        let id = self.nodes.len();
        self.nodes.push(TreeNode { kind, parent: None, children: Vec::new() });
        id
    }

    /// Appends `child` to `parent`'s child list, in document order,
    /// and records the parent link.
    pub fn append_child(&mut self, parent: usize, child: usize)
        requires
            old(self).wf(),
            parent < old(self).nodes@.len(),
            child < old(self).nodes@.len(),
            parent != child,
            old(self).nodes@[parent as int].children@.len() + 1 < 0x8000_0000,
        ensures
            final(self).wf(),
            final(self).nodes@.len() == old(self).nodes@.len(),
            final(self).nodes@[parent as int].children@ == old(self).nodes@[parent as int].children@.push(child),
            final(self).nodes@[parent as int].kind == old(self).nodes@[parent as int].kind,
            final(self).nodes@[parent as int].parent == old(self).nodes@[parent as int].parent,
            final(self).nodes@[child as int].parent == Some(parent),
            final(self).nodes@[child as int].kind == old(self).nodes@[child as int].kind,
            final(self).nodes@[child as int].children@ == old(self).nodes@[child as int].children@,
            forall|i: int|
                0 <= i < old(self).nodes@.len() && i != parent && i != child ==> final(self).nodes@[i] == old(self).nodes@[i],
    {
        self.nodes[parent].children.push(child);
        self.nodes[child].parent = Some(parent);
    }

    /// Detaches `child` from `parent`: drops the first occurrence of
    /// `child` from the child list and clears the parent link.
    pub fn remove_child(&mut self, parent: usize, child: usize)
        requires
            old(self).wf(),
            parent < old(self).nodes@.len(),
            child < old(self).nodes@.len(),
            parent != child,
        ensures
            final(self).wf(),
            final(self).nodes@.len() == old(self).nodes@.len(),
            final(self).nodes@[parent as int].children@ == remove_first(
                old(self).nodes@[parent as int].children@,
                child,
            ),
            final(self).nodes@[parent as int].kind == old(self).nodes@[parent as int].kind,
            final(self).nodes@[parent as int].parent == old(self).nodes@[parent as int].parent,
            final(self).nodes@[child as int].parent is None,
            final(self).nodes@[child as int].kind == old(self).nodes@[child as int].kind,
            final(self).nodes@[child as int].children@ == old(self).nodes@[child as int].children@,
            forall|i: int|
                0 <= i < old(self).nodes@.len() && i != parent && i != child ==> final(self).nodes@[i] == old(self).nodes@[i],
    {
        let ghost s = self.nodes@[parent as int].children@;
        let n = self.nodes[parent].children.len();
        let mut idx: usize = 0;
        let mut found: bool = false;
        while idx < n && !found
            invariant
                idx <= n,
                n == s.len(),
                s == self.nodes@[parent as int].children@,
                parent < self.nodes@.len(),
                !found ==> forall|t: int| 0 <= t < idx ==> s[t] != child,
                found ==> idx < n && s[idx as int] == child && forall|t: int|
                    0 <= t < idx ==> s[t] != child,
            decreases n - idx, (if found { 0int } else { 1int }),
        {
            if self.nodes[parent].children[idx] == child {
                found = true;
            } else {
                idx = idx + 1;
            }
        }
        if found {
            proof {
                lemma_remove_first_at(s, child, idx as int);
            }
            self.nodes[parent].children.remove(idx);
        } else {
            proof {
                lemma_remove_first_absent(s, child);
            }
        }
        self.nodes[child].parent = None;
    }

    /// The position of `node` among the table-cell entries of
    /// `children`, counting from `from`; -1 when not found.
    fn cell_index_from(&self, children: &Vec<usize>, from: usize, node: usize) -> (r: i32)
        requires
            from <= children@.len(),
            children@.len() < 0x8000_0000,
            forall|j: int| 0 <= j < children@.len() ==> (#[trigger] children@[j]) < self.nodes@.len(),
        ensures
            r as int == spec_cell_index_in(self, children@.skip(from as int), node),
            r as int >= -1,
            ((r as int) < children@.len() - from) || r == -1,
        decreases children@.len() - from,
    {
        if from == children.len() {
            proof {
                assert(children@.skip(from as int) =~= Seq::<usize>::empty());
            }
            -1
        } else {
            let c = children[from];
            proof {
                assert(children@.skip(from as int)[0] == children@[from as int]);
                assert(children@.skip(from as int).drop_first() =~= children@.skip(
                    from as int + 1,
                ));
            }
            if self.nodes[c].kind == NodeKind::TableCell {
                if c == node {
                    0
                } else {
                    let r = self.cell_index_from(children, from + 1, node);
                    if r == -1 {
                        -1
                    } else {
                        r + 1
                    }
                }
            } else {
                self.cell_index_from(children, from + 1, node)
            }
        }
    }

    /// The cell index of `node`: -1 when it has no parent or its
    /// parent is not a table row; otherwise its zero-based position
    /// among the parent's table-cell children, or -1 when it is not
    /// found among them.
    pub fn get_cell_index(&self, node: usize) -> (r: i32)
        requires
            self.wf(),
            node < self.nodes@.len(),
        ensures
            r as int == spec_cell_index(self, node),
    {
        let parent = self.nodes[node].parent;
        match parent {
            Some(p) => {
                if self.nodes[p].kind == NodeKind::TableRow {
                    proof {
                        assert(self.nodes@[p as int].children@.skip(0)
                            =~= self.nodes@[p as int].children@);
                    }
                    self.cell_index_from(&self.nodes[p].children, 0, node)
                } else {
                    -1
                }
            },
            None => -1,
        }
    }
}

/// For a row whose children are all distinct table cells, the cell
/// index of the i-th child is exactly i: over the whole row the query
/// yields the sequence 0, 1, …, N-1 in document order.
pub proof fn lemma_complete_row_indices(t: &TableTree, p: usize, i: int)
    requires
        t.wf(),
        p < t.nodes@.len(),
        t.nodes@[p as int].kind == NodeKind::TableRow,
        forall|j: int|
            0 <= j < t.nodes@[p as int].children@.len() ==> t.nodes@[(
            #[trigger] t.nodes@[p as int].children@[j]) as int].kind == NodeKind::TableCell,
        forall|j: int|
            0 <= j < t.nodes@[p as int].children@.len() ==> t.nodes@[(
            #[trigger] t.nodes@[p as int].children@[j]) as int].parent == Some(p),
        t.nodes@[p as int].children@.no_duplicates(),
        0 <= i < t.nodes@[p as int].children@.len(),
    ensures
        spec_cell_index(t, t.nodes@[p as int].children@[i]) == i,
{
    lemma_all_cells_index(t, t.nodes@[p as int].children@, i);
}

proof fn lemma_all_cells_index(t: &TableTree, s: Seq<usize>, i: int)
    requires
        forall|j: int|
            0 <= j < s.len() ==> t.nodes@[(#[trigger] s[j]) as int].kind == NodeKind::TableCell,
        s.no_duplicates(),
        0 <= i < s.len(),
    ensures
        spec_cell_index_in(t, s, s[i]) == i,
    decreases i,
{
    if i > 0 {
        assert(s.drop_first().no_duplicates());
        assert(forall|j: int| 0 <= j < s.drop_first().len() ==> s.drop_first()[j] == s[j + 1]);
        lemma_all_cells_index(t, s.drop_first(), i - 1);
    }
}

/// A node with no parent, or whose parent is not a table row, has
/// cell index -1.
pub proof fn lemma_cell_index_outside_row(t: &TableTree, node: usize)
    requires
        node < t.nodes@.len(),
        match t.nodes@[node as int].parent {
            Some(p) => t.nodes@[p as int].kind != NodeKind::TableRow,
            None => true,
        },
    ensures
        spec_cell_index(t, node) == -1,
{
}

} // verus!
