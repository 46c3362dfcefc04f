use broadcast::actor::ActorError;
use broadcast::actor::ActorState;
use broadcast::actor::GossipOutcome;
use broadcast::friends::FriendMap;
use broadcast::friends::SnapshotError;
use broadcast::mutate::Action;
use broadcast::mutate::ActionGenerator;

fn any_generator() -> ActionGenerator {
    ActionGenerator::new(vec![(Action::AddValue, 100)]).unwrap()
}

#[test]
fn merge_with_self_is_idempotent() {
    let mut map = FriendMap::new();
    map.apply_add(1, &String::from("Alice"), &String::from("Bob"));
    map.apply_add(1, &String::from("Carol"), &String::from("Dave"));
    map.apply_remove_value(1, &String::from("Alice"), &String::from("Bob"));

    let before = map.snapshot();
    let own_copy = map.snapshot();
    map.merge_from(own_copy);
    assert!(map.same_state(&before));
}

#[test]
fn merge_of_subsumed_snapshot_changes_nothing() {
    let mut map = FriendMap::new();
    map.apply_add(1, &String::from("Alice"), &String::from("Bob"));
    let early = map.snapshot();

    map.apply_add(1, &String::from("Carol"), &String::from("Dave"));
    map.apply_remove_key(&String::from("Alice"));

    let before = map.snapshot();
    map.merge_from(early);
    assert!(map.same_state(&before));
}

#[test]
fn merge_commutes_on_disjoint_updates() {
    let mut r1 = FriendMap::new();
    r1.apply_add(1, &String::from("Alice"), &String::from("Bob"));
    r1.apply_add(1, &String::from("Erin"), &String::from("Frank"));

    let mut r2 = FriendMap::new();
    r2.apply_add(2, &String::from("Carol"), &String::from("Dave"));

    let mut one_then_two = r1.snapshot();
    one_then_two.merge_from(r2.snapshot());

    let mut two_then_one = r2.snapshot();
    two_then_one.merge_from(r1.snapshot());

    assert!(one_then_two.same_state(&two_then_one));
    assert_eq!(one_then_two.len(), 3);
}

#[test]
fn gossip_between_two_replicas() {
    // the broadcasting replica's state: one key "X" with value "Y"
    let mut broadcast_map = FriendMap::new();
    broadcast_map.apply_add(1, &String::from("X"), &String::from("Y"));
    let payload = broadcast_map.to_snapshot().unwrap();

    // the sender ignores its own broadcast
    let mut r1 = ActorState::new(1, any_generator());
    let outcome = r1.on_gossip(1, &payload).unwrap();
    assert_eq!(outcome, GossipOutcome::Ignored);
    assert_eq!(r1.received_count(), 0);
    assert_eq!(r1.matched_count(), 0);

    // the other replica counts and merges it
    let mut r2 = ActorState::new(2, any_generator());
    let outcome = r2.on_gossip(1, &payload).unwrap();
    assert!(matches!(outcome, GossipOutcome::Merged { .. }));
    assert_eq!(r2.received_count(), 1);

    let keys = r2.map().keys();
    assert_eq!(keys, vec![String::from("X")]);
    let values = r2.map().get(&String::from("X")).unwrap();
    assert_eq!(values, vec![String::from("Y")]);
}

#[test]
fn resent_snapshot_counts_as_matched() {
    let mut broadcast_map = FriendMap::new();
    broadcast_map.apply_add(1, &String::from("X"), &String::from("Y"));
    let payload = broadcast_map.to_snapshot().unwrap();

    let mut r2 = ActorState::new(2, any_generator());
    r2.on_gossip(1, &payload).unwrap();
    let outcome = r2.on_gossip(1, &payload).unwrap();
    assert_eq!(outcome, GossipOutcome::Merged { matched: true });
    assert_eq!(r2.received_count(), 2);
    assert_eq!(r2.matched_count(), 1);
}

#[test]
fn settledness_is_checked_at_run_time() {
    let mut map = FriendMap::new();
    assert!(map.is_settled());
    map.apply_add(1, &String::from("Alice"), &String::from("Bob"));
    map.apply_remove_value(1, &String::from("Alice"), &String::from("Bob"));
    assert!(map.is_settled());

    // a parseable snapshot whose entry clock outruns the map clock
    let mut crafted = String::from("{\"clock\":{\"dots\":{}},\"entries\":{\"A\":");
    crafted.push_str("{\"clock\":{\"dots\":{\"7\":5}},\"val\":{\"clock\":{\"dots\":{\"7\":5}},");
    crafted.push_str("\"entries\":{\"x\":{\"dots\":{\"7\":5}}},\"deferred\":{}}}},\"deferred\":{}}");
    let parsed = FriendMap::from_snapshot(&crafted).unwrap();
    assert!(!parsed.is_settled());

    let mut r = ActorState::new(3, any_generator());
    let result = r.on_gossip(1, &crafted);
    assert!(matches!(result, Err(ActorError::Incompatible)));

    // a parseable snapshot holding an entry whose clock is empty: a merge
    // would mistake the entry for one already seen and dropped
    let mut degenerate = String::from("{\"clock\":{\"dots\":{}},\"entries\":{\"A\":");
    degenerate.push_str("{\"clock\":{\"dots\":{}},\"val\":{\"clock\":{\"dots\":{}},");
    degenerate.push_str("\"entries\":{},\"deferred\":{}}}},\"deferred\":{}}");
    let parsed = FriendMap::from_snapshot(&degenerate).unwrap();
    assert!(!parsed.is_settled());

    let mut r = ActorState::new(4, any_generator());
    let result = r.on_gossip(1, &degenerate);
    assert!(matches!(result, Err(ActorError::Incompatible)));
}

#[test]
fn malformed_snapshot_is_fatal() {
    let mut r = ActorState::new(2, any_generator());
    let result = r.on_gossip(1, &String::from("not a snapshot"));
    assert!(matches!(result, Err(ActorError::Snapshot(SnapshotError::Decode))));
    assert_eq!(r.received_count(), 1);
    assert_eq!(r.matched_count(), 0);
}

#[test]
fn incompatible_snapshot_is_fatal() {
    // two states that spent the same causal dot on different keys
    let mut map_a = FriendMap::new();
    map_a.apply_add(1, &String::from("A"), &String::from("x"));
    let mut map_b = FriendMap::new();
    map_b.apply_add(1, &String::from("B"), &String::from("y"));
    assert!(!map_a.merge_compatible(&map_b));

    let mut r = ActorState::new(9, any_generator());
    r.on_gossip(1, &map_a.to_snapshot().unwrap()).unwrap();
    let result = r.on_gossip(2, &map_b.to_snapshot().unwrap());
    assert!(matches!(result, Err(ActorError::Incompatible)));
}

#[test]
fn halt_controls_the_loop_guard() {
    let mut r = ActorState::new(3, any_generator());
    assert!(r.running());
    r.on_halt(true);
    assert!(!r.running());
    let mut r = ActorState::new(4, any_generator());
    r.on_closed();
    assert!(!r.running());
}

#[test]
fn tick_mutates_and_renders_a_snapshot() {
    let names = broadcast::names::Names::new(vec![
        String::from("Alice"),
        String::from("Bob"),
    ]);
    let mut r = ActorState::new(5, any_generator());
    let payload = r.on_tick(&names).unwrap();

    // an empty replica is below the size floor, so the tick added a key
    assert_eq!(r.map().len(), 1);
    let merged = FriendMap::from_snapshot(&payload).unwrap();
    assert!(merged.same_state(r.map()));
}

#[test]
fn tick_with_empty_pool_fails() {
    let names = broadcast::names::Names::new(vec![]);
    let mut r = ActorState::new(6, any_generator());
    let result = r.on_tick(&names);
    assert!(matches!(
        result,
        Err(ActorError::Mutate(broadcast::mutate::MutateError::NamesError(
            broadcast::names::NamesError::NodDataError
        )))
    ));
}
