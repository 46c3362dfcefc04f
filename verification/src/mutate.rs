//! The weighted mutation policy: a table-driven action generator and the
//! per-tick mutation of one replica's map.
//!
//! The generator reserves one slot of a 100-slot table for each percentage
//! point of an action's declared weight, so a uniformly random slot realises
//! the declared distribution. The mutation engine keeps the map's key count
//! nudged into `[MIN_SIZE, MAX_SIZE]`: below the floor an add-key is forced,
//! above the ceiling a remove-key, and in between the table decides.

use vstd::prelude::*;

use crate::friends::ActorId;
use crate::friends::FriendMap;
use crate::friends::contents_of;
use crate::friends::settled;
use crate::friends::with_value_added;
use crate::names::Names;
use crate::names::NamesError;

verus! {

/// Failures when building the action table or drawing labels for a mutation.
#[derive(Debug)]
pub enum MutateError {
    /// A label could not be drawn from the pool.
    NamesError(NamesError),
    /// The weights overran the 100-slot table; carries the slot count reached.
    ActionListOverflow(usize),
    /// The weights left the table short; carries the number of filled slots.
    ActionListUnderflow(usize),
}

/// A replica holding fewer keys than this is always grown.
pub const MIN_SIZE: usize = 10;

/// A replica holding more keys than this is always shrunk.
pub const MAX_SIZE: usize = 20;

/// The action to take when mutating the map.
#[derive(Clone, Copy, Debug, PartialEq, Eq, Structural)]
pub enum Action {
    /// Add a new key, with a first value.
    AddKey,
    /// Add a new value to an existing key.
    AddValue,
    /// Remove a key and all its values.
    RemoveKey,
    /// Remove an individual value from an existing key.
    RemoveValue,
}

/// An ordered list of actions, each with its percentage weight.
pub type ActionList = Vec<(Action, usize)>;

/// The summed weights of a weighted action list.
pub open spec fn weight_sum(list: Seq<(Action, usize)>) -> int
    decreases list.len(),
{
    if list.len() == 0 {
        0
    } else {
        list[0].1 + weight_sum(list.skip(1))
    }
}

/// The action that slot `j` of the table built from `list` holds: the action
/// of the first pair whose weight block covers `j`.
pub open spec fn slot_action(list: Seq<(Action, usize)>, j: int) -> Action
    decreases list.len(),
{
    if list.len() == 0 {
        Action::AddKey
    } else if j < list[0].1 {
        list[0].0
    } else {
        slot_action(list.skip(1), j - list[0].1)
    }
}

proof fn lemma_weight_sum_nonneg(list: Seq<(Action, usize)>)
    ensures
        weight_sum(list) >= 0,
    decreases list.len(),
{
    if list.len() > 0 {
        lemma_weight_sum_nonneg(list.skip(1));
    }
}

proof fn lemma_weight_sum_split(list: Seq<(Action, usize)>, i: int)
    requires
        0 <= i <= list.len(),
    ensures
        weight_sum(list) == weight_sum(list.take(i)) + weight_sum(list.skip(i)),
    decreases i,
{
    if i == 0 {
        assert(list.take(0) =~= Seq::<(Action, usize)>::empty());
        assert(list.skip(0) =~= list);
    } else {
        lemma_weight_sum_split(list.skip(1), i - 1);
        assert(list.skip(1).take(i - 1) =~= list.take(i).skip(1));
        assert(list.skip(1).skip(i - 1) =~= list.skip(i));
        assert(list.take(i)[0] == list[0]);
    }
}

proof fn lemma_weight_sum_take_step(list: Seq<(Action, usize)>, i: int)
    requires
        0 <= i < list.len(),
    ensures
        weight_sum(list.take(i + 1)) == weight_sum(list.take(i)) + list[i].1,
    decreases i,
{
    if i == 0 {
        assert(list.take(0) =~= Seq::<(Action, usize)>::empty());
        assert(list.take(1) =~= seq![list[0]]);
        assert(list.take(1).skip(1) =~= Seq::<(Action, usize)>::empty());
    } else {
        lemma_weight_sum_take_step(list.skip(1), i - 1);
        assert(list.skip(1).take(i) =~= list.take(i + 1).skip(1));
        assert(list.skip(1).take(i - 1) =~= list.take(i).skip(1));
        assert(list.skip(1)[i - 1] == list[i]);
        assert(list.take(i + 1)[0] == list[0]);
        assert(list.take(i)[0] == list[0]);
    }
}

proof fn lemma_slot_action_in_block(list: Seq<(Action, usize)>, i: int, j: int)
    requires
        0 <= i < list.len(),
        weight_sum(list.take(i)) <= j < weight_sum(list.take(i)) + list[i].1,
    ensures
        slot_action(list, j) == list[i].0,
    decreases i,
{
    if i == 0 {
        assert(list.take(0) =~= Seq::<(Action, usize)>::empty());
    } else {
        assert(list.take(i)[0] == list[0]);
        lemma_weight_sum_nonneg(list.take(i).skip(1));
        assert(list.skip(1).take(i - 1) =~= list.take(i).skip(1));
        assert(list.skip(1)[i - 1] == list[i]);
        lemma_slot_action_in_block(list.skip(1), i - 1, j - list[0].1);
    }
}

proof fn lemma_slot_action_in_list(list: Seq<(Action, usize)>, j: int)
    requires
        0 <= j < weight_sum(list),
    ensures
        exists|i: int|
            0 <= i < list.len() && list[i].0 == slot_action(list, j) && list[i].1 > 0,
    decreases list.len(),
{
    if list.len() == 0 {
    } else if j < list[0].1 {
        assert(list[0].0 == slot_action(list, j) && list[0].1 > 0);
    } else {
        lemma_slot_action_in_list(list.skip(1), j - list[0].1);
        let i0 = choose|i: int|
            0 <= i < list.skip(1).len() && list.skip(1)[i].0 == slot_action(
                list.skip(1),
                j - list[0].1,
            ) && list.skip(1)[i].1 > 0;
        assert(list[i0 + 1].0 == slot_action(list, j) && list[i0 + 1].1 > 0);
    }
}

/// How one mutation step may change the map's contents: for each action
/// kind, the new contents relate to the old ones through one key and, where
/// one is involved, one value. Added labels come from the pool; a removed
/// value is a member of the key's set, or the empty-string placeholder when
/// that set holds nothing.
pub open spec fn mutation_applies(
    pre: Map<Seq<char>, Set<Seq<char>>>,
    post: Map<Seq<char>, Set<Seq<char>>>,
    action: Action,
    pool: Seq<Seq<char>>,
) -> bool {
    match action {
        Action::AddKey => exists|k: Seq<char>, v: Seq<char>|
            pool.contains(k) && pool.contains(v) && post == with_value_added(pre, k, v),
        Action::AddValue => exists|k: Seq<char>, v: Seq<char>|
            pre.dom().contains(k) && pool.contains(v) && post == with_value_added(pre, k, v),
        Action::RemoveKey => exists|k: Seq<char>|
            pre.dom().contains(k) && post == pre.remove(k),
        Action::RemoveValue => exists|k: Seq<char>, v: Seq<char>|
            pre.dom().contains(k) && (pre[k].contains(v) || (pre[k].len() == 0 && v
                == Seq::<char>::empty())) && post == pre.insert(k, pre[k].remove(v)),
    }
}

/// The law of the weighted draw: a generator built from a list whose
/// weights sum to exactly 100 — the table `ActionGenerator::new` then
/// guarantees — can only ever pick an action that stands in that list with a
/// positive weight, never one absent from it.
pub proof fn lemma_pick_from_list(list: Seq<(Action, usize)>, g: ActionGenerator, a: Action)
    requires
        weight_sum(list) == 100,
        forall|j: int| 0 <= j < 100 ==> g.table()[j] == slot_action(list, j),
        exists|j: int| 0 <= j < 100 && a == g.table()[j],
    ensures
        exists|i: int| 0 <= i < list.len() && list[i].0 == a && list[i].1 > 0,
{
    let j = choose|j: int| 0 <= j < 100 && a == g.table()[j];
    lemma_slot_action_in_list(list, j);
}

/// Draws actions with the frequencies a weighted action list declares.
pub struct ActionGenerator {
    /// One slot for each percentage point; an action's weight is the number
    /// of slots holding it.
    actions: Vec<Action>,
}

impl ActionGenerator {
    /// The 100-slot lookup table.
    pub closed spec fn table(&self) -> Seq<Action> {
        self.actions@
    }

    /// A generator is well formed when its table covers exactly 100 slots.
    pub open spec fn wf(&self) -> bool {
        self.table().len() == 100
    }

    /// Build the table from an ordered list of weighted actions. Each pair
    /// occupies as many consecutive slots as its weight; the weights must
    /// sum to exactly 100, else construction reports how far filling came.
    pub fn new(action_list: ActionList) -> (r: Result<ActionGenerator, MutateError>)
        ensures
            weight_sum(action_list@) == 100 ==> (r matches Ok(g) && g.wf() && forall|j: int|
                0 <= j < 100 ==> g.table()[j] == slot_action(action_list@, j)),
            weight_sum(action_list@) > 100 ==> (r matches Err(e) && e
                == MutateError::ActionListOverflow(100)),
            weight_sum(action_list@) < 100 ==> (r matches Err(e) && e
                == MutateError::ActionListUnderflow(weight_sum(action_list@) as usize)),
    {
        let mut actions: Vec<Action> = Vec::new();
        let mut i: usize = 0;
        while i < action_list.len()
            invariant
                i <= action_list.len(),
                actions@.len() == weight_sum(action_list@.take(i as int)),
                actions@.len() <= 100,
                forall|j: int| 0 <= j < actions@.len() ==> actions@[j] == slot_action(
                    action_list@,
                    j,
                ),
            decreases action_list.len() - i,
        {
            let (action, probability) = action_list[i];
            let mut placed: usize = 0;
            while placed < probability
                invariant
                    placed <= probability,
                    i < action_list.len(),
                    (action, probability) == action_list@[i as int],
                    actions@.len() == weight_sum(action_list@.take(i as int)) + placed,
                    actions@.len() <= 100,
                    forall|j: int| 0 <= j < actions@.len() ==> actions@[j] == slot_action(
                        action_list@,
                        j,
                    ),
                decreases probability - placed,
            {
                if actions.len() == 100 {
                    proof {
                        lemma_weight_sum_take_step(action_list@, i as int);
                        lemma_weight_sum_split(action_list@, i as int + 1);
                        lemma_weight_sum_nonneg(action_list@.skip(i as int + 1));
                    }
                    return Err(MutateError::ActionListOverflow(actions.len()));
                }
                proof {
                    lemma_weight_sum_nonneg(action_list@.take(i as int));
                    lemma_slot_action_in_block(action_list@, i as int, actions@.len() as int);
                }
                actions.push(action);
                placed = placed + 1;
            }
            proof {
                lemma_weight_sum_take_step(action_list@, i as int);
            }
            i = i + 1;
        }
        proof {
            assert(action_list@.take(action_list@.len() as int) =~= action_list@);
        }
        if actions.len() != 100 {
            return Err(MutateError::ActionListUnderflow(actions.len()));
        }
        Ok(ActionGenerator { actions })
    }

    /// Draw a uniformly random slot and return the action stored there.
    pub fn pick(&self) -> (r: Action)
        requires
            self.wf(),
        ensures
            exists|j: int| 0 <= j < 100 && r == self.table()[j],
    {
        let i = crate::rng::random_below(100);
        let action = self.actions[i];
        proof {
            assert(0 <= i < 100 && action == self.table()[i as int]);
        }
        action
    }
}

/// Add a key drawn from the pool, carrying one drawn value. The key may
/// already be present; the value then joins its set.
pub fn add_key(actor_id: ActorId, names: &Names, friend_map: &mut FriendMap) -> (r: Result<
    (),
    MutateError,
>)
    requires
        settled(*old(friend_map)),
    ensures
        settled(*final(friend_map)),
        r is Ok <==> names.labels().len() > 0,
        r is Ok ==> mutation_applies(
            contents_of(*old(friend_map)),
            contents_of(*final(friend_map)),
            Action::AddKey,
            names.labels(),
        ),
        r matches Err(e) ==> (e == MutateError::NamesError(NamesError::NodDataError)
            && *final(friend_map) == *old(friend_map)),
{
    let key = match names.pick() {
        Ok(name) => name,
        Err(e) => {
            return Err(MutateError::NamesError(e));
        },
    };
    let value = match names.pick() {
        Ok(name) => name,
        Err(e) => {
            return Err(MutateError::NamesError(e));
        },
    };
    friend_map.apply_add(actor_id, &key, &value);
    proof {
        assert(names.labels().contains(key@) && names.labels().contains(value@)
            && contents_of(*friend_map) == with_value_added(
            contents_of(*old(friend_map)),
            key@,
            value@,
        ));
    }
    Ok(())
}

/// Remove a uniformly random existing key, and with it all its values.
pub fn remove_key(_actor_id: ActorId, friend_map: &mut FriendMap)
    requires
        settled(*old(friend_map)),
        contents_of(*old(friend_map)).dom().finite(),
        contents_of(*old(friend_map)).dom().len() > 0,
    ensures
        settled(*final(friend_map)),
        mutation_applies(
            contents_of(*old(friend_map)),
            contents_of(*final(friend_map)),
            Action::RemoveKey,
            Seq::<Seq<char>>::empty(),
        ),
{
    let keys = friend_map.keys();
    let i = crate::rng::random_below(keys.len());
    let key = &keys[i];
    friend_map.apply_remove_key(key);
    proof {
        assert(contents_of(*old(friend_map)).dom().contains(key@) && contents_of(*friend_map)
            == contents_of(*old(friend_map)).remove(key@));
    }
}

/// Add a value drawn from the pool to a uniformly random existing key.
pub fn add_value(actor_id: ActorId, names: &Names, friend_map: &mut FriendMap) -> (r: Result<
    (),
    MutateError,
>)
    requires
        settled(*old(friend_map)),
        contents_of(*old(friend_map)).dom().finite(),
        contents_of(*old(friend_map)).dom().len() > 0,
    ensures
        settled(*final(friend_map)),
        r is Ok <==> names.labels().len() > 0,
        r is Ok ==> mutation_applies(
            contents_of(*old(friend_map)),
            contents_of(*final(friend_map)),
            Action::AddValue,
            names.labels(),
        ),
        r matches Err(e) ==> (e == MutateError::NamesError(NamesError::NodDataError)
            && *final(friend_map) == *old(friend_map)),
{
    let keys = friend_map.keys();
    let i = crate::rng::random_below(keys.len());
    let key = &keys[i];
    let value = match names.pick() {
        Ok(name) => name,
        Err(e) => {
            return Err(MutateError::NamesError(e));
        },
    };
    friend_map.apply_add(actor_id, key, &value);
    proof {
        assert(contents_of(*old(friend_map)).dom().contains(key@) && names.labels().contains(
            value@,
        ) && contents_of(*friend_map) == with_value_added(
            contents_of(*old(friend_map)),
            key@,
            value@,
        ));
    }
    Ok(())
}

/// Remove a uniformly random value from a uniformly random existing key; a
/// key whose set is already empty gets a removal of the empty-string
/// placeholder, so a well-formed operation is still performed.
pub fn remove_value(actor_id: ActorId, friend_map: &mut FriendMap)
    requires
        settled(*old(friend_map)),
        contents_of(*old(friend_map)).dom().finite(),
        contents_of(*old(friend_map)).dom().len() > 0,
    ensures
        settled(*final(friend_map)),
        mutation_applies(
            contents_of(*old(friend_map)),
            contents_of(*final(friend_map)),
            Action::RemoveValue,
            Seq::<Seq<char>>::empty(),
        ),
{
    let keys = friend_map.keys();
    let i = crate::rng::random_below(keys.len());
    let key = &keys[i];
    let values = match friend_map.get(key) {
        Some(vs) => vs,
        None => {
            // the key was just drawn from the map, so the lookup cannot miss
            proof {
                assert(false);
            }
            Vec::new()
        },
    };
    let ghost pre = contents_of(*friend_map);
    let ghost members = values@.map_values(|s: String| s@);
    let value = if values.len() == 0 {
        proof {
            assert forall|a: Seq<char>| !pre[key@].contains(a) by {
                assert(pre[key@].contains(a) == members.contains(a));
            }
            assert(pre[key@] =~= Set::<Seq<char>>::empty());
        }
        String::new()
    } else {
        let j = crate::rng::random_below(values.len());
        let picked = values[j].clone();
        proof {
            assert(members[j as int] == picked@);
            assert(members.contains(picked@));
        }
        picked
    };
    friend_map.apply_remove_value(actor_id, key, &value);
    proof {
        assert(pre.dom().contains(key@));
        assert(pre[key@].contains(value@) || (pre[key@].len() == 0 && value@ == Seq::<
            char,
        >::empty()));
        assert(contents_of(*friend_map) == pre.insert(key@, pre[key@].remove(value@)));
    }
}

/// Make one change to the map, to be broadcast to the other replicas: below
/// the size floor a key is added, above the size ceiling a key is removed,
/// and in between the weighted action generator decides.
pub fn mutate_map(
    actor_id: ActorId,
    names: &Names,
    friend_map: &mut FriendMap,
    action_generator: &ActionGenerator,
) -> (r: Result<Action, MutateError>)
    requires
        settled(*old(friend_map)),
        action_generator.wf(),
        contents_of(*old(friend_map)).dom().finite(),
    ensures
        settled(*final(friend_map)),
        names.labels().len() > 0 ==> r is Ok,
        r matches Ok(action) ==> mutation_applies(
            contents_of(*old(friend_map)),
            contents_of(*final(friend_map)),
            action,
            names.labels(),
        ),
        contents_of(*old(friend_map)).dom().len() < MIN_SIZE ==> (r matches Ok(action)
            ==> action == Action::AddKey),
        contents_of(*old(friend_map)).dom().len() > MAX_SIZE ==> (r matches Ok(action) && action
            == Action::RemoveKey),
        MIN_SIZE <= contents_of(*old(friend_map)).dom().len() <= MAX_SIZE ==> (r matches Ok(action)
            ==> exists|j: int| 0 <= j < 100 && action == action_generator.table()[j]),
        r matches Err(e) ==> (e == MutateError::NamesError(NamesError::NodDataError)
            && *final(friend_map) == *old(friend_map) && names.labels().len() == 0),
{
    let len = friend_map.len();
    if len < MIN_SIZE {
        match add_key(actor_id, names, friend_map) {
            Ok(u) => Ok(Action::AddKey),
            Err(e) => Err(e),
        }
    } else if len > MAX_SIZE {
        remove_key(actor_id, friend_map);
        Ok(Action::RemoveKey)
    } else {
        match action_generator.pick() {
            Action::AddKey => match add_key(actor_id, names, friend_map) {
                Ok(u) => Ok(Action::AddKey),
                Err(e) => Err(e),
            },
            Action::AddValue => match add_value(actor_id, names, friend_map) {
                Ok(u) => Ok(Action::AddValue),
                Err(e) => Err(e),
            },
            Action::RemoveKey => {
                remove_key(actor_id, friend_map);
                Ok(Action::RemoveKey)
            },
            Action::RemoveValue => {
                remove_value(actor_id, friend_map);
                Ok(Action::RemoveValue)
            },
        }
    }
}

} // verus!
