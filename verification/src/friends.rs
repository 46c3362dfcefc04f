//! The replicated map from a name to the set of names of their friends.
//!
//! The convergent map itself is the `crdts` crate's business: its causal
//! bookkeeping, merge algorithm and serialization are consumed here through a
//! narrow trusted surface and are not re-verified. What the verified logic
//! sees of a map is `contents_of`: the current key-to-value-set association.

use crdts::CmRDT;
use crdts::CvRDT;
use vstd::prelude::*;

verus! {

/// Identity of a replica actor, also the causal actor id inside the map.
pub type ActorId = usize;

/// A label: both the keys of the map and the members of each value set.
pub type Name = String;

/// One replica's copy of the convergent map-of-sets.
///
/// Holds the `crdts` map keyed by `String` with `Orswot<String, ActorId>`
/// values. The value is opaque to the verifier; every operation on it goes
/// through the trusted methods below.
#[verifier::external_body]
pub struct FriendMap {
    inner: crdts::Map<Name, crdts::orswot::Orswot<Name, ActorId>, ActorId>,
}

/// What the replicated map currently holds: each present key's set of values.
pub uninterp spec fn contents_of(m: FriendMap) -> Map<Seq<char>, Set<Seq<char>>>;

/// Whether the state is one the causal bookkeeping below can act on
/// exactly: no deferred removal is pending at the map level or inside any
/// entry's set; the map's clock dominates each entry's clock and each entry
/// set's clock, and each set's clock dominates its members' dots; and every
/// present entry's clock and every member's dot set holds at least one dot
/// (the crate prunes an entry or member the moment its clock empties, so a
/// state with an empty one in place would be mis-taken by a merge for
/// something already seen and dropped). Operations a replica derives from
/// its own reads preserve this, and so does merging two settled,
/// merge-validated states; `is_settled` decides it at run time, so nothing
/// has to be assumed of a parsed snapshot.
pub uninterp spec fn settled(m: FriendMap) -> bool;

/// The rendering of a state that `is_settled` reads its clocks from.
#[verifier::external_type_specification]
#[verifier::external_body]
pub struct ExSnapshotValue(serde_json::Value);

/// What `serde_json::from_str` makes of a snapshot text: the parsed state,
/// or nothing where the text does not parse as one. A function of the text
/// alone.
pub uninterp spec fn parsed_of(s: Seq<char>) -> Option<FriendMap>;

/// The state that merging `b` into `a` yields: the join of the two states,
/// a function of the two alone.
pub uninterp spec fn merged_of(a: FriendMap, b: FriendMap) -> FriendMap;

/// Whether `crdts`' merge validation accepts merging `b` into `a`; a
/// function of the two states alone.
pub uninterp spec fn compatible_of(a: FriendMap, b: FriendMap) -> bool;

/// What a freshly created replica holds: nothing.
pub open spec fn empty_contents() -> Map<Seq<char>, Set<Seq<char>>> {
    Map::empty()
}

/// The value set of `key`, the empty set where the key is absent.
pub open spec fn set_at(m: Map<Seq<char>, Set<Seq<char>>>, key: Seq<char>) -> Set<Seq<char>> {
    if m.dom().contains(key) {
        m[key]
    } else {
        Set::empty()
    }
}

/// `m` after adding `value` to `key`'s set, creating the key where absent.
pub open spec fn with_value_added(
    m: Map<Seq<char>, Set<Seq<char>>>,
    key: Seq<char>,
    value: Seq<char>,
) -> Map<Seq<char>, Set<Seq<char>>> {
    m.insert(key, set_at(m, key).insert(value))
}

/// Failures when moving a snapshot to or from its transport form.
#[derive(Debug)]
pub enum SnapshotError {
    /// The local state could not be serialized.
    Encode,
    /// The incoming text was not a well-formed snapshot.
    Decode,
}

impl FriendMap {
    /// Relies on `crdts::Map::new`: a fresh map holds no entries, defers
    /// nothing, validates against anything (validation walks its entries,
    /// of which it has none), and is the least state: merging any settled
    /// state into it yields exactly that state.
    #[verifier::external_body]
    pub fn new() -> (r: Self)
        ensures
            contents_of(r) == empty_contents(),
            settled(r),
            forall|x: FriendMap| compatible_of(r, x),
            forall|x: FriendMap| settled(x) ==> merged_of(r, x) == x,
    {
        FriendMap { inner: crdts::Map::new() }
    }

    /// Relies on `crdts::Map::is_empty`: its `val` is whether no entry exists.
    #[verifier::external_body]
    pub fn is_empty(&self) -> (r: bool)
        ensures
            r <==> contents_of(*self).dom().len() == 0,
    {
        self.inner.is_empty().val
    }

    /// Relies on `crdts::Map::len`: its `val` is the number of entries.
    #[verifier::external_body]
    pub fn len(&self) -> (r: usize)
        ensures
            r == contents_of(*self).dom().len(),
    {
        self.inner.len().val
    }

    /// Relies on `crdts::Map::keys`: it yields each present key exactly once.
    #[verifier::external_body]
    pub fn keys(&self) -> (r: Vec<Name>)
        ensures
            r@.len() == contents_of(*self).dom().len(),
            forall|i: int| 0 <= i < r@.len() ==> contents_of(*self).dom().contains(r@[i]@),
    {
        self.inner.keys().map(|key_ctx| key_ctx.val.clone()).collect()
    }

    /// Relies on `crdts::Map::get` and `crdts::Orswot::read`: the read's `val`
    /// is the entry's member set where the key is present, `None` otherwise.
    #[verifier::external_body]
    pub fn get(&self, key: &Name) -> (r: Option<Vec<Name>>)
        ensures
            r is Some <==> contents_of(*self).dom().contains(key@),
            r matches Some(values) ==> (values@.map_values(|s: Name| s@).to_set()
                =~= contents_of(*self)[key@]),
    {
        let read_ctx = self.inner.get(key);
        read_ctx.val.map(|set| set.read().val.into_iter().collect())
    }

    /// Relies on `crdts::Map::update` with `crdts::Orswot::add`, and
    /// `crdts::Map::apply` (`CmRDT`): an update anchored on a fresh read of
    /// this same replica adds `value` to `key`'s set, creating the entry
    /// where it is absent, and — since a settled state has no deferred
    /// removal waiting to fire — touches no other key.
    #[verifier::external_body]
    pub fn apply_add(&mut self, actor: ActorId, key: &Name, value: &Name)
        requires
            settled(*old(self)),
        ensures
            settled(*final(self)),
            contents_of(*final(self)) == with_value_added(
                contents_of(*old(self)),
                key@,
                value@,
            ),
    {
        let add_ctx = self.inner.len().derive_add_ctx(actor);
        let member = value.clone();
        let op = self.inner.update(key.as_str(), add_ctx, |set, ctx| set.add(member, ctx));
        self.inner.apply(op);
    }

    /// Relies on `crdts::Map::rm` anchored on `crdts::Map::get`'s remove
    /// context, and `crdts::Map::apply`: on this same settled replica it
    /// drops the whole entry for `key`, touches no other key, and defers
    /// nothing, its context being part of the replica's own history.
    #[verifier::external_body]
    pub fn apply_remove_key(&mut self, key: &Name)
        requires
            settled(*old(self)),
        ensures
            settled(*final(self)),
            contents_of(*final(self)) == contents_of(*old(self)).remove(key@),
    {
        let rm_ctx = self.inner.get(key).derive_rm_ctx();
        let op = self.inner.rm(key.clone(), rm_ctx);
        self.inner.apply(op);
    }

    /// Relies on `crdts::Map::update` with `crdts::Orswot::contains` and
    /// `crdts::Orswot::rm`, and `crdts::Map::apply`: on this same replica it
    /// removes `value` from the present entry for `key` (a member the entry
    /// does not hold is left alone, so the entry survives, possibly empty).
    #[verifier::external_body]
    pub fn apply_remove_value(&mut self, actor: ActorId, key: &Name, value: &Name)
        requires
            settled(*old(self)),
            contents_of(*old(self)).dom().contains(key@),
        ensures
            settled(*final(self)),
            contents_of(*final(self)) == contents_of(*old(self)).insert(
                key@,
                contents_of(*old(self))[key@].remove(value@),
            ),
    {
        let add_ctx = self.inner.len().derive_add_ctx(actor);
        let member = value.clone();
        let op = self.inner.update(key.as_str(), add_ctx, |set, _ctx| {
            let element_ctx = set.contains(&member);
            set.rm(member, element_ctx.derive_rm_ctx())
        });
        self.inner.apply(op);
    }

    /// Relies on the `Clone` of `crdts::Map`: the copy is the same state.
    #[verifier::external_body]
    pub fn snapshot(&self) -> (r: Self)
        ensures
            r == *self,
    {
        FriendMap { inner: self.inner.clone() }
    }

    /// Relies on `crdts::Map::validate_merge` (`CvRDT`): whether the other
    /// state is structurally compatible for merging, a deterministic
    /// decision over the two states.
    #[verifier::external_body]
    pub fn merge_compatible(&self, other: &FriendMap) -> (r: bool)
        ensures
            r == compatible_of(*self, *other),
    {
        self.inner.validate_merge(&other.inner).is_ok()
    }

    /// Relies on `serde_json::to_value` and the serialized shape of
    /// `crdts::Map`: a pending deferred removal makes serialization fail
    /// (its table is keyed by a clock, not a string), and the clocks land
    /// under `clock`/`dots` at the map, entry and entry-set levels, so the
    /// dominance and non-emptiness that `settled` asks for can be read off
    /// the rendering by the two walks below. None of this is observable
    /// through the crate's public reads.
    #[verifier::external_body]
    pub fn is_settled(&self) -> (r: bool)
        ensures
            r <==> settled(*self),
    {
        match serde_json::to_value(&self.inner) {
            Ok(rendered) => clocks_covered(&rendered) && clocks_filled(&rendered),
            Err(_) => false,
        }
    }

    /// Relies on `crdts::Map::merge` (`CvRDT`): the least upper bound of
    /// the two states, which the crate documents as commutative,
    /// associative and idempotent, so merging in either order meets in the
    /// same state, re-merging either operand changes nothing more, and
    /// merging a state with itself leaves it as it was. Merging two
    /// settled, merge-validated states defers nothing, and the result is
    /// again a finite map.
    #[verifier::external_body]
    pub fn merge_from(&mut self, other: FriendMap)
        requires
            settled(*old(self)),
            settled(other),
            compatible_of(*old(self), other),
        ensures
            settled(*final(self)),
            contents_of(*final(self)).dom().finite(),
            *final(self) == merged_of(*old(self), other),
            *final(self) == merged_of(other, *old(self)),
            merged_of(*final(self), other) == *final(self),
            merged_of(*final(self), *old(self)) == *final(self),
            other == *old(self) ==> *final(self) == *old(self),
    {
        self.inner.merge(other.inner);
    }

    /// Relies on the `PartialEq` of `crdts::Map`: equality of the full
    /// states, structurally, which is exactly what equality of the two
    /// values means to the model.
    #[verifier::external_body]
    pub fn same_state(&self, other: &FriendMap) -> (r: bool)
        ensures
            r <==> *self == *other,
    {
        self.inner == other.inner
    }

    /// Relies on `serde_json::to_string`: it renders the full state, it
    /// succeeds on any settled state (every table then has string keys),
    /// and parsing the rendered text back yields that same state. The text
    /// itself is not named: the tables inside the state are hashed, so two
    /// renderings of one state may order their keys differently.
    #[verifier::external_body]
    pub fn to_snapshot(&self) -> (r: Result<String, SnapshotError>)
        ensures
            settled(*self) ==> r is Ok,
            r matches Ok(text) ==> (settled(*self) ==> parsed_of(text@) == Some(*self)),
            r matches Err(e) ==> e is Encode,
    {
        match serde_json::to_string(&self.inner) {
            Ok(text) => Ok(text),
            Err(_) => Err(SnapshotError::Encode),
        }
    }

    /// Relies on `serde_json::from_str`: parsing is a deterministic
    /// function of the text; it rejects text that does not parse as a map
    /// state, and any state it accepts is a finite map. Nothing more is
    /// claimed of a parsed state — whether it is settled is checked, not
    /// assumed, by `is_settled`.
    #[verifier::external_body]
    pub fn from_snapshot(data: &str) -> (r: Result<FriendMap, SnapshotError>)
        ensures
            r matches Ok(m) ==> (parsed_of(data@) == Some(m) && contents_of(m).dom().finite()),
            r matches Err(e) ==> (e is Decode && parsed_of(data@) is None),
    {
        match serde_json::from_str(data) {
            Ok(inner) => Ok(FriendMap { inner }),
            Err(_) => Err(SnapshotError::Decode),
        }
    }
}

/// Relies on `serde_json::Value`'s reads: whether, in a rendered state, the
/// map's clock dominates each entry's clock and each entry set's clock, and
/// each set's clock dominates its members' dots.
#[verifier::external_body]
fn clocks_covered(rendered: &serde_json::Value) -> bool {
    let covers = |c: &serde_json::Value, d: &serde_json::Value| {
        d.as_object().is_some_and(|d| d.iter().all(|(a, n)| c[a.as_str()].as_u64() >= n.as_u64()))
    };
    let top = &rendered["clock"]["dots"];
    rendered["entries"].as_object().is_some_and(|es| es.values().all(|e| {
        let set = &e["val"]["clock"]["dots"];
        covers(top, &e["clock"]["dots"]) && covers(top, set)
            && e["val"]["entries"].as_object().is_some_and(|ms| ms.values().all(|m| covers(set, &m["dots"])))
    }))
}

/// Relies on `serde_json::Value`'s reads: whether, in a rendered state,
/// every entry's clock and every member's dot set holds at least one dot.
#[verifier::external_body]
fn clocks_filled(rendered: &serde_json::Value) -> bool {
    let filled = |d: &serde_json::Value| d.as_object().is_some_and(|d| !d.is_empty());
    rendered["entries"].as_object().is_some_and(|es| es.values().all(|e| {
        filled(&e["clock"]["dots"])
            && e["val"]["entries"].as_object().is_some_and(|ms| ms.values().all(|m| filled(&m["dots"])))
    }))
}

} // verus!
