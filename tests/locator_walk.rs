use promptkey::locator::{bounded_walk, locate_editable, AccessNode, ControlRole, NODE_BUDGET};

fn node(role: ControlRole, value: bool, range: bool, children: Vec<usize>) -> AccessNode {
    AccessNode { role, has_value: value, has_text_range: range, children }
}

#[test]
fn deep_chain_stops_at_budget() {
    let n = 300;
    let nodes: Vec<AccessNode> = (0..n)
        .map(|i| node(ControlRole::Other, false, false, if i + 1 < n { vec![i + 1] } else { vec![] }))
        .collect();
    let w = bounded_walk(&nodes, 0);
    assert_eq!(w.visited.len(), NODE_BUDGET);
    assert_eq!(w.best, None);
    assert_eq!(locate_editable(&nodes, 0, None), 0);
}

#[test]
fn wide_tree_stops_at_budget() {
    let mut nodes = vec![node(ControlRole::Other, false, false, (1..1000).collect())];
    for _ in 1..1000 {
        nodes.push(node(ControlRole::Other, false, false, vec![]));
    }
    let w = bounded_walk(&nodes, 0);
    assert_eq!(w.visited.len(), NODE_BUDGET);
    assert!(w.best.is_none());
}

#[test]
fn cyclic_tree_terminates() {
    let nodes = vec![
        node(ControlRole::Other, false, false, vec![1]),
        node(ControlRole::Other, false, false, vec![0, 1]),
    ];
    let w = bounded_walk(&nodes, 0);
    assert!(w.visited.len() <= NODE_BUDGET);
}

#[test]
fn document_beats_edit_beats_other() {
    let nodes = vec![
        node(ControlRole::Other, false, false, vec![1, 2, 3, 99]),
        node(ControlRole::Other, true, false, vec![]),
        node(ControlRole::Edit, false, true, vec![4]),
        node(ControlRole::Other, false, false, vec![]),
        node(ControlRole::Document, true, true, vec![]),
    ];
    let w = bounded_walk(&nodes, 0);
    assert_eq!(w.visited, vec![0, 1, 2, 3, 4]);
    assert_eq!(w.best, Some(4));
    assert_eq!(locate_editable(&nodes, 0, None), 4);
}

#[test]
fn query_match_is_used_first() {
    let nodes = vec![node(ControlRole::Document, true, false, vec![])];
    assert_eq!(locate_editable(&nodes, 0, Some(7)), 7);
}

#[test]
fn ties_keep_first_found() {
    let nodes = vec![
        node(ControlRole::Other, false, false, vec![1, 2]),
        node(ControlRole::Edit, true, false, vec![]),
        node(ControlRole::Edit, true, false, vec![]),
    ];
    assert_eq!(bounded_walk(&nodes, 0).best, Some(1));
}
