use uta_studio_desktop::hierarchy::count_ui_entities;

#[test]
fn counts_every_entity_below_the_roots() {
    // 0 ─ 1 ─ 3
    //   └ 2
    // 4 (a second root without children)
    let children = vec![vec![1, 2], vec![3], vec![], vec![], vec![]];
    assert_eq!(count_ui_entities(&vec![0, 4], &children), 5);
    assert_eq!(count_ui_entities(&vec![1], &children), 2);
}

#[test]
fn no_roots_means_no_entities() {
    assert_eq!(count_ui_entities(&Vec::new(), &vec![vec![1], vec![]]), 0);
}

#[test]
fn entities_without_a_children_entry_are_leaves() {
    assert_eq!(count_ui_entities(&vec![7, 8], &Vec::new()), 2);
    assert_eq!(count_ui_entities(&vec![0], &vec![vec![9, 10]]), 3);
}

#[test]
fn cycles_that_the_roots_cannot_reach_do_not_matter() {
    // 0 ─ 1; entities 2 and 3 are each other's child, out of reach of 0.
    let children = vec![vec![1], vec![], vec![3], vec![2]];
    assert_eq!(count_ui_entities(&vec![0], &children), 2);
}
