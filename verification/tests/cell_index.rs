use table_cell::tree::{NodeKind, TableTree};

#[test]
fn row_of_cells_counts_in_document_order() {
    let mut tree = TableTree::new();
    let row = tree.add_node(NodeKind::TableRow);
    let mut cells = Vec::new();
    for _ in 0..5 {
        let c = tree.add_node(NodeKind::TableCell);
        tree.append_child(row, c);
        cells.push(c);
    }
    for (i, c) in cells.iter().enumerate() {
        assert_eq!(tree.get_cell_index(*c), i as i32);
    }
}

#[test]
fn non_cell_children_are_not_counted() {
    let mut tree = TableTree::new();
    let row = tree.add_node(NodeKind::TableRow);
    let a = tree.add_node(NodeKind::TableCell);
    let note = tree.add_node(NodeKind::Other);
    let b = tree.add_node(NodeKind::TableCell);
    tree.append_child(row, a);
    tree.append_child(row, note);
    tree.append_child(row, b);
    assert_eq!(tree.get_cell_index(a), 0);
    assert_eq!(tree.get_cell_index(b), 1);
    assert_eq!(tree.get_cell_index(note), -1);
}

#[test]
fn no_parent_gives_minus_one() {
    let mut tree = TableTree::new();
    let lone = tree.add_node(NodeKind::TableCell);
    assert_eq!(tree.get_cell_index(lone), -1);
}

#[test]
fn non_row_parent_gives_minus_one() {
    let mut tree = TableTree::new();
    let div = tree.add_node(NodeKind::Other);
    let cell = tree.add_node(NodeKind::TableCell);
    tree.append_child(div, cell);
    assert_eq!(tree.get_cell_index(cell), -1);
}

#[test]
fn removal_shifts_later_cells() {
    let mut tree = TableTree::new();
    let row = tree.add_node(NodeKind::TableRow);
    let a = tree.add_node(NodeKind::TableCell);
    let b = tree.add_node(NodeKind::TableCell);
    let c = tree.add_node(NodeKind::TableCell);
    tree.append_child(row, a);
    tree.append_child(row, b);
    tree.append_child(row, c);
    assert_eq!(tree.get_cell_index(b), 1);
    tree.remove_child(row, a);
    assert_eq!(tree.get_cell_index(b), 0);
    assert_eq!(tree.get_cell_index(c), 1);
    assert_eq!(tree.get_cell_index(a), -1);
}

#[test]
fn detached_cell_loses_its_index() {
    let mut tree = TableTree::new();
    let row = tree.add_node(NodeKind::TableRow);
    let a = tree.add_node(NodeKind::TableCell);
    tree.append_child(row, a);
    assert_eq!(tree.get_cell_index(a), 0);
    tree.remove_child(row, a);
    assert_eq!(tree.get_cell_index(a), -1);
}
