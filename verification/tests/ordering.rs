use lifetracker::ordering::{plan_order_updates, position_of};
use lifetracker::services::action_mutation::ActionMutation;
use lifetracker::services::ambition_mutation::AmbitionMutation;
use lifetracker::services::desired_state_mutation::DesiredStateMutation;
use lifetracker::services::mindset_mutation::MindsetMutation;

#[test]
fn action_mutation_bulk_update_ordering() {
    // Actions 100 and 101 are listed; action 102 is not and keeps its ordering.
    let found: Vec<u128> = vec![101, 100];
    let ordering: Vec<u128> = vec![100, 101];
    let r = ActionMutation::bulk_update_ordering(&found, &ordering);
    assert_eq!(r, vec![(101, 2), (100, 1)]);
}

#[test]
fn action_mutation_bulk_update_ordering_no_modification_on_different_users_records() {
    // The lookup returns only the user's own records, so another user's listed
    // record gets no order number.
    let found: Vec<u128> = vec![100];
    let ordering: Vec<u128> = vec![100, 999];
    let r = ActionMutation::bulk_update_ordering(&found, &ordering);
    assert_eq!(r, vec![(100, 1)]);
}

#[test]
fn ambition_mutation_bulk_update_ordering() {
    let r = AmbitionMutation::bulk_update_ordering(&vec![5, 6], &vec![6, 5]);
    assert_eq!(r, vec![(5, 2), (6, 1)]);
}

#[test]
fn desired_state_mutation_bulk_update_ordering() {
    let r = DesiredStateMutation::bulk_update_ordering(&vec![1, 2, 3], &vec![3, 1]);
    assert_eq!(r, vec![(1, 2), (3, 1)]);
}

#[test]
fn mindset_mutation_bulk_update_ordering() {
    let r = MindsetMutation::bulk_update_ordering(&vec![8], &vec![4, 8]);
    assert_eq!(r, vec![(8, 2)]);
}

#[test]
fn ordering_repeated_id_takes_first_position() {
    let r = plan_order_updates(&vec![4], &vec![3, 4, 4]);
    assert_eq!(r, vec![(4, 2)]);
}

#[test]
fn ordering_position_of() {
    assert_eq!(position_of(&vec![9, 8, 7], 7), Some(2));
    assert_eq!(position_of(&vec![9, 8, 7], 6), None);
}
