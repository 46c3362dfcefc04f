//! One replica actor's state and the decisions of its event loop.
//!
//! The loop itself lives with the runtime that drives it: it races a tick
//! timer, a halt observation and a gossip receive, and hands whichever event
//! won to the matching method here. Everything the actor decides — what a
//! tick changes, when a message is ignored, when a merge counts as already
//! subsumed, when the loop must stop — is in this module.

use vstd::prelude::*;

use crate::friends::ActorId;
use crate::friends::FriendMap;
use crate::friends::SnapshotError;
use crate::friends::compatible_of;
use crate::friends::contents_of;
use crate::friends::empty_contents;
use crate::friends::merged_of;
use crate::friends::parsed_of;
use crate::friends::settled;
use crate::mutate::Action;
use crate::mutate::ActionGenerator;
use crate::mutate::MAX_SIZE;
use crate::mutate::MIN_SIZE;
use crate::mutate::MutateError;
use crate::mutate::mutate_map;
use crate::mutate::mutation_applies;
use crate::names::Names;

verus! {

/// Failures that terminate a replica actor.
#[derive(Debug)]
pub enum ActorError {
    /// The per-tick mutation could not be performed.
    Mutate(MutateError),
    /// A snapshot could not be serialized or parsed.
    Snapshot(SnapshotError),
    /// An incoming snapshot failed merge validation.
    Incompatible,
}

/// What handling one gossip message amounted to.
#[derive(Clone, Copy, Debug, PartialEq, Eq, Structural)]
pub enum GossipOutcome {
    /// The message was this actor's own broadcast and was ignored.
    Ignored,
    /// The snapshot was merged; `matched` says it was already subsumed.
    Merged {
        /// Whether merging left the receiver's state as it was.
        matched: bool,
    },
}

/// One replica actor: its copy of the map, its mutation policy, the halt it
/// has observed, and its convergence counters.
pub struct ActorState {
    actor_id: ActorId,
    friend_map: FriendMap,
    action_generator: ActionGenerator,
    halt: bool,
    received_count: usize,
    matched_count: usize,
}

impl ActorState {
    /// The actor's identity.
    pub closed spec fn spec_id(&self) -> ActorId {
        self.actor_id
    }

    /// The actor's copy of the map.
    pub closed spec fn spec_map(&self) -> FriendMap {
        self.friend_map
    }

    /// What the actor's copy of the map holds.
    pub open spec fn spec_contents(&self) -> Map<Seq<char>, Set<Seq<char>>> {
        contents_of(self.spec_map())
    }

    /// Whether the actor has observed the halt request.
    pub closed spec fn spec_halt(&self) -> bool {
        self.halt
    }

    /// How many foreign snapshots were received.
    pub closed spec fn spec_received(&self) -> int {
        self.received_count as int
    }

    /// How many received snapshots were already subsumed when merged.
    pub closed spec fn spec_matched(&self) -> int {
        self.matched_count as int
    }

    /// The actor's table is complete, its map is a finite, settled
    /// association, and no more snapshots matched than arrived.
    pub closed spec fn wf(&self) -> bool {
        &&& self.action_generator.wf()
        &&& contents_of(self.friend_map).dom().finite()
        &&& settled(self.friend_map)
        &&& self.matched_count <= self.received_count
    }

    /// A fresh actor: empty map, no halt observed, both counters at zero.
    pub fn new(actor_id: ActorId, action_generator: ActionGenerator) -> (r: Self)
        requires
            action_generator.wf(),
        ensures
            r.wf(),
            r.spec_id() == actor_id,
            !r.spec_halt(),
            r.spec_received() == 0,
            r.spec_matched() == 0,
            r.spec_contents() == empty_contents(),
            forall|x: FriendMap| compatible_of(r.spec_map(), x),
            forall|x: FriendMap| settled(x) ==> merged_of(r.spec_map(), x) == x,
    {
        let state = ActorState {
            actor_id,
            friend_map: FriendMap::new(),
            action_generator,
            halt: false,
            received_count: 0,
            matched_count: 0,
        };
        proof {
            assert(empty_contents().dom() =~= Set::<Seq<char>>::empty());
        }
        state
    }

    /// The loop's guard: the actor keeps running until it observes halt.
    pub fn running(&self) -> (r: bool)
        ensures
            r == !self.spec_halt(),
    {
        !self.halt
    }

    /// Record a newly observed value of the shared halt flag.
    pub fn on_halt(&mut self, value: bool)
        requires
            old(self).wf(),
        ensures
            final(self).wf(),
            final(self).spec_halt() == value,
            final(self).spec_id() == old(self).spec_id(),
            final(self).spec_contents() == old(self).spec_contents(),
            final(self).spec_received() == old(self).spec_received(),
            final(self).spec_matched() == old(self).spec_matched(),
    {
        self.halt = value;
    }

    /// A closed gossip source means no more senders: halt locally.
    pub fn on_closed(&mut self)
        requires
            old(self).wf(),
        ensures
            final(self).wf(),
            final(self).spec_halt(),
            final(self).spec_id() == old(self).spec_id(),
            final(self).spec_contents() == old(self).spec_contents(),
            final(self).spec_received() == old(self).spec_received(),
            final(self).spec_matched() == old(self).spec_matched(),
    {
        self.halt = true;
    }

    /// A tick fired: mutate the local map once, then render the whole state
    /// as the snapshot to broadcast.
    pub fn on_tick(&mut self, names: &Names) -> (r: Result<String, ActorError>)
        requires
            old(self).wf(),
        ensures
            final(self).wf(),
            final(self).spec_id() == old(self).spec_id(),
            final(self).spec_halt() == old(self).spec_halt(),
            final(self).spec_received() == old(self).spec_received(),
            final(self).spec_matched() == old(self).spec_matched(),
            names.labels().len() > 0 ==> (exists|action: Action|
                mutation_applies(
                    old(self).spec_contents(),
                    final(self).spec_contents(),
                    action,
                    names.labels(),
                ) && (old(self).spec_contents().dom().len() < MIN_SIZE ==> action
                    == Action::AddKey) && (old(self).spec_contents().dom().len() > MAX_SIZE
                    ==> action == Action::RemoveKey)),
            names.labels().len() > 0 ==> r is Ok,
            r matches Ok(text) ==> parsed_of(text@) == Some(final(self).spec_map()),
            r matches Err(e) ==> (e matches ActorError::Mutate(inner) && names.labels().len() == 0
                && *final(self) == *old(self)),
    {
        let action = match mutate_map(
            self.actor_id,
            names,
            &mut self.friend_map,
            &self.action_generator,
        ) {
            Ok(action) => action,
            Err(e) => {
                return Err(ActorError::Mutate(e));
            },
        };
        proof {
            assert(mutation_applies(
                old(self).spec_contents(),
                self.spec_contents(),
                action,
                names.labels(),
            ) && (old(self).spec_contents().dom().len() < MIN_SIZE ==> action == Action::AddKey)
                && (old(self).spec_contents().dom().len() > MAX_SIZE ==> action
                == Action::RemoveKey));
        }
        match self.friend_map.to_snapshot() {
            Ok(text) => Ok(text),
            Err(e) => {
                // a settled state always serializes
                proof {
                    assert(false);
                }
                Err(ActorError::Snapshot(e))
            },
        }
    }

    /// A gossip message arrived: ignore our own broadcast; otherwise count
    /// it, parse the snapshot, reject one whose bookkeeping is not settled
    /// or that fails merge validation, clone our state for comparison,
    /// merge, and count the merge as matched when it changed nothing.
    pub fn on_gossip(&mut self, from: ActorId, data: &String) -> (r: Result<
        GossipOutcome,
        ActorError,
    >)
        requires
            old(self).wf(),
        ensures
            final(self).wf(),
            final(self).spec_id() == old(self).spec_id(),
            final(self).spec_halt() == old(self).spec_halt(),
            from == old(self).spec_id() ==> (r matches Ok(o) && o == GossipOutcome::Ignored),
            from == old(self).spec_id() ==> *final(self) == *old(self),
            from != old(self).spec_id() && old(self).spec_received() < usize::MAX ==> final(self).spec_received() == old(self).spec_received() + 1,
            from != old(self).spec_id() && old(self).spec_received() == usize::MAX ==> final(self).spec_received() == old(self).spec_received(),
            from != old(self).spec_id() && r is Ok ==> (r matches Ok(o) && o matches
                GossipOutcome::Merged { matched: _ }),
            r matches Ok(GossipOutcome::Merged { matched }) ==> (matched <==> final(self).spec_map()
                == old(self).spec_map()),
            r matches Ok(GossipOutcome::Merged { matched }) && matched && old(self).spec_received()
                < usize::MAX ==> final(self).spec_matched() == old(self).spec_matched() + 1,
            r matches Ok(GossipOutcome::Merged { matched }) && matched && old(self).spec_received()
                == usize::MAX ==> final(self).spec_matched() == (if old(self).spec_matched()
                < usize::MAX { old(self).spec_matched() + 1 } else { old(self).spec_matched() }),
            r matches Ok(GossipOutcome::Merged { matched }) && !matched ==> final(self).spec_matched() == old(self).spec_matched(),
            r is Err ==> (from != old(self).spec_id() && final(self).spec_map() == old(self).spec_map() && final(self).spec_matched() == old(self).spec_matched()),
            from != old(self).spec_id() && parsed_of(data@) is None ==> (r matches Err(e)
                && e matches ActorError::Snapshot(decode)),
            forall|m0: FriendMap| #![trigger settled(m0)]
                (from != old(self).spec_id() && parsed_of(data@) == Some(m0) && !settled(m0))
                    ==> (r matches Err(e) && e is Incompatible),
            forall|m0: FriendMap| #![trigger compatible_of(old(self).spec_map(), m0)]
                (from != old(self).spec_id() && settled(m0) && parsed_of(data@) == Some(m0)
                    && compatible_of(old(self).spec_map(), m0)) ==> (r matches Ok(o)
                    && o matches GossipOutcome::Merged { matched: _ }),
            forall|m0: FriendMap| #![trigger compatible_of(old(self).spec_map(), m0)]
                (from != old(self).spec_id() && settled(m0) && parsed_of(data@) == Some(m0)
                    && !compatible_of(old(self).spec_map(), m0)) ==> (r matches Err(e)
                    && e is Incompatible),
            forall|m0: FriendMap| #![trigger merged_of(old(self).spec_map(), m0)]
                (from != old(self).spec_id() && settled(m0) && parsed_of(data@) == Some(m0)
                    && r is Ok) ==> (final(self).spec_map() == merged_of(old(self).spec_map(), m0)
                    && final(self).spec_map() == merged_of(m0, old(self).spec_map())
                    && merged_of(final(self).spec_map(), m0) == final(self).spec_map()
                    && (m0 == old(self).spec_map() ==> final(self).spec_map() == old(
                        self,
                    ).spec_map())),
    {
        if from == self.actor_id {
            return Ok(GossipOutcome::Ignored);
        }
        if self.received_count < usize::MAX {
            self.received_count = self.received_count + 1;
        }
        let incoming = match FriendMap::from_snapshot(data.as_str()) {
            Ok(m) => m,
            Err(e) => {
                return Err(ActorError::Snapshot(e));
            },
        };
        if !incoming.is_settled() {
            return Err(ActorError::Incompatible);
        }
        if !self.friend_map.merge_compatible(&incoming) {
            return Err(ActorError::Incompatible);
        }
        let before = self.friend_map.snapshot();
        self.friend_map.merge_from(incoming);
        let matched = self.friend_map.same_state(&before);
        if matched && self.matched_count < self.received_count {
            self.matched_count = self.matched_count + 1;
        }
        Ok(GossipOutcome::Merged { matched })
    }

    /// A well-formed actor never counts more matched snapshots than it has
    /// received.
    pub proof fn lemma_counters_ordered(&self)
        requires
            self.wf(),
        ensures
            0 <= self.spec_matched() <= self.spec_received() <= usize::MAX,
    {
    }

    /// The actor's identity.
    pub fn actor_id(&self) -> (r: ActorId)
        ensures
            r == self.spec_id(),
    {
        self.actor_id
    }

    /// How many foreign snapshots this actor has received.
    pub fn received_count(&self) -> (r: usize)
        ensures
            r == self.spec_received(),
    {
        self.received_count
    }

    /// How many received snapshots were already subsumed when merged.
    pub fn matched_count(&self) -> (r: usize)
        ensures
            r == self.spec_matched(),
    {
        self.matched_count
    }

    /// Read access to the actor's copy of the map.
    pub fn map(&self) -> (r: &FriendMap)
        ensures
            contents_of(*r) == self.spec_contents(),
    {
        &self.friend_map
    }
}

} // verus!
