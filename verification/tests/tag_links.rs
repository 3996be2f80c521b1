use lifetracker::tag_links::{contains_id, ids_missing_from, TagLinkPlan};

fn apply(linked: &[u128], plan: &TagLinkPlan) -> Vec<u128> {
    let mut after: Vec<u128> = linked
        .iter()
        .copied()
        .filter(|id| !plan.to_delete.contains(id))
        .collect();
    after.extend(plan.to_create.iter().copied());
    after
}

#[test]
fn memo_mutation_partial_update_add_tags() {
    let linked: Vec<u128> = vec![];
    let wanted: Vec<u128> = vec![11];
    let plan = TagLinkPlan::new(&linked, &wanted);
    assert_eq!(plan.to_create, vec![11]);
    assert_eq!(plan.to_delete, Vec::<u128>::new());
    assert!(!plan.has_deletions());
    assert_eq!(apply(&linked, &plan), vec![11]);
}

#[test]
fn memo_mutation_partial_update_remove_tags() {
    let linked: Vec<u128> = vec![11];
    let wanted: Vec<u128> = vec![];
    let plan = TagLinkPlan::new(&linked, &wanted);
    assert_eq!(plan.to_create, Vec::<u128>::new());
    assert_eq!(plan.to_delete, vec![11]);
    assert!(plan.has_deletions());
    assert_eq!(apply(&linked, &plan), Vec::<u128>::new());
}

#[test]
fn tag_links_mixed_change_keeps_common_tags() {
    let linked: Vec<u128> = vec![1, 2, 3];
    let wanted: Vec<u128> = vec![3, 4, 1, 5];
    let plan = TagLinkPlan::new(&linked, &wanted);
    assert_eq!(plan.to_create, vec![4, 5]);
    assert_eq!(plan.to_delete, vec![2]);
    let mut after = apply(&linked, &plan);
    after.sort();
    assert_eq!(after, vec![1, 3, 4, 5]);
}

#[test]
fn tag_links_unchanged_request_does_nothing() {
    let linked: Vec<u128> = vec![7, 8];
    let wanted: Vec<u128> = vec![8, 7];
    let plan = TagLinkPlan::new(&linked, &wanted);
    assert!(plan.to_create.is_empty());
    assert!(plan.to_delete.is_empty());
}

#[test]
fn tag_links_repeated_request_keeps_repeats() {
    let linked: Vec<u128> = vec![];
    let wanted: Vec<u128> = vec![9, 9];
    let plan = TagLinkPlan::new(&linked, &wanted);
    assert_eq!(plan.to_create, vec![9, 9]);
}

#[test]
fn tag_links_helpers() {
    assert!(contains_id(&vec![1, 2, 3], 2));
    assert!(!contains_id(&vec![1, 2, 3], 4));
    assert!(!contains_id(&vec![], 4));
    assert_eq!(ids_missing_from(&vec![1, 2, 3, 2], &vec![2]), vec![1, 3]);
}

#[test]
fn repeated_tag_update_changes_no_links() {
    let linked: Vec<u128> = vec![11, 12, 13];
    let wanted: Vec<u128> = vec![13, 14, 11];
    let first = TagLinkPlan::new(&linked, &wanted);
    let after = apply(&linked, &first);
    let second = TagLinkPlan::new(&after, &wanted);
    assert_eq!(second.to_create, Vec::<u128>::new());
    assert_eq!(second.to_delete, Vec::<u128>::new());
    assert!(!second.has_deletions());
}
