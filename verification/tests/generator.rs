use broadcast::mutate::Action;
use broadcast::mutate::ActionGenerator;
use broadcast::mutate::MutateError;

#[test]
fn can_load_map() {
    let g = ActionGenerator::new(vec![(Action::AddValue, 100)]).unwrap();
    assert_eq!(g.pick(), Action::AddValue);
}

#[test]
fn full_weight_list_builds() {
    let g = ActionGenerator::new(vec![
        (Action::AddKey, 10),
        (Action::AddValue, 40),
        (Action::RemoveKey, 10),
        (Action::RemoveValue, 40),
    ]);
    assert!(g.is_ok());
}

#[test]
fn pick_stays_within_the_list() {
    let g = ActionGenerator::new(vec![(Action::AddKey, 30), (Action::RemoveValue, 70)]).unwrap();
    for _ in 0..200 {
        let action = g.pick();
        assert!(action == Action::AddKey || action == Action::RemoveValue);
    }
}

#[test]
fn underflow_reports_filled_count() {
    let r = ActionGenerator::new(vec![(Action::AddKey, 50), (Action::AddValue, 40)]);
    assert!(matches!(r, Err(MutateError::ActionListUnderflow(90))));
}

#[test]
fn overflow_reports_table_size() {
    let r = ActionGenerator::new(vec![(Action::AddKey, 60), (Action::AddValue, 60)]);
    assert!(matches!(r, Err(MutateError::ActionListOverflow(100))));
}

#[test]
fn empty_weight_list_underflows() {
    let r = ActionGenerator::new(vec![]);
    assert!(matches!(r, Err(MutateError::ActionListUnderflow(0))));
}
