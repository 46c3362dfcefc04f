use broadcast::names::Names;
use broadcast::names::NamesError;

#[test]
fn can_load_names() {
    let n = Names::new(vec![
        String::from("Alice"),
        String::from("Bob"),
        String::from("Carol"),
    ]);
    n.pick().unwrap();
}

#[test]
fn picked_name_comes_from_the_pool() {
    let n = Names::new(vec![String::from("only")]);
    assert_eq!(n.pick().unwrap(), "only");
}

#[test]
fn empty_pool_has_nothing_to_pick() {
    let n = Names::new(vec![]);
    assert!(matches!(n.pick(), Err(NamesError::NodDataError)));
}

#[test]
fn default_pool_is_empty() {
    let n = Names::default();
    assert!(matches!(n.pick(), Err(NamesError::NodDataError)));
}

#[test]
fn load_appends_lines() {
    let mut n = Names::new(vec![]);
    n.load(vec![String::from("Dave")]);
    assert_eq!(n.pick().unwrap(), "Dave");
}
