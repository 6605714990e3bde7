use gpu_bootstrap::rebuild::{needs_rebuild, rebuild_marks, SourceGraph};

fn chain_graph() -> SourceGraph {
    // 0 pulls in 1, 1 pulls in 2; 3 stands alone.
    SourceGraph::new(vec![vec![1], vec![2], vec![], vec![]]).unwrap()
}

#[test]
fn direct_reference_forces_rebuild() {
    let g = chain_graph();
    assert!(needs_rebuild(&g, 0, 1));
    assert!(needs_rebuild(&g, 1, 2));
}

#[test]
fn transitive_reference_forces_rebuild() {
    let g = chain_graph();
    assert!(needs_rebuild(&g, 0, 2));
}

#[test]
fn own_change_forces_rebuild() {
    let g = chain_graph();
    assert!(needs_rebuild(&g, 3, 3));
}

#[test]
fn unrelated_file_does_not_force_rebuild() {
    let g = chain_graph();
    assert!(!needs_rebuild(&g, 3, 2));
    assert!(!needs_rebuild(&g, 2, 0));
}

#[test]
fn rebuild_marks_cover_exactly_the_referencing_shaders() {
    let g = chain_graph();
    let marks = rebuild_marks(&g, 2);
    assert_eq!(marks, vec![true, true, true, false]);
}

#[test]
fn cyclic_references_are_handled() {
    let g = SourceGraph::new(vec![vec![1], vec![0]]).unwrap();
    assert!(needs_rebuild(&g, 0, 1));
    assert!(needs_rebuild(&g, 1, 0));
}

#[test]
fn diamond_references_are_tracked_once() {
    // 0 pulls in 1 and 2, both pull in 3.
    let g = SourceGraph::new(vec![vec![1, 2], vec![3], vec![3], vec![]]).unwrap();
    let marks = rebuild_marks(&g, 3);
    assert_eq!(marks, vec![true, true, true, true]);
    let marks1 = rebuild_marks(&g, 1);
    assert_eq!(marks1, vec![true, true, false, false]);
}

#[test]
fn out_of_range_reference_is_rejected() {
    assert!(SourceGraph::new(vec![vec![2], vec![]]).is_none());
}
