//! The correlation table: which device each outstanding endpoint request
//! belongs to.
use vstd::prelude::*;

use std::collections::HashMap;

use vstd::std_specs::iter::IteratorSpec;

verus! {

broadcast use vstd::std_specs::hash::group_hash_axioms;

/// An outstanding request: the device that issued it and the connection
/// generation it was sent on.
#[derive(Clone, Copy, Debug, PartialEq, Eq)]
pub struct PendingRequest {
    pub owner: u128,
    pub generation: u64,
}

/// Why a request could not be given an id.
#[derive(Clone, Copy, Debug, PartialEq, Eq)]
pub enum CorrelationError {
    /// Every request id has been handed out.
    IdsExhausted,
}

/// Outstanding endpoint requests by request id. Ids start at 1 and only grow,
/// so an id is never in the table twice.
pub struct CorrelationTable {
    entries: HashMap<u64, PendingRequest>,
    next_id: u64,
    generation: u64,
}

/// The entries of `m` that do not belong to generation `g`.
pub open spec fn without_generation(m: Map<u64, PendingRequest>, g: u64) -> Map<u64, PendingRequest> {
    m.restrict(m.dom().filter(|id: u64| m[id].generation != g))
}

impl CorrelationTable {
    pub closed spec fn entries(&self) -> Map<u64, PendingRequest> {
        self.entries@
    }

    /// The id that the next dispatch hands out.
    pub closed spec fn next_id(&self) -> u64 {
        self.next_id
    }

    /// The current connection generation.
    pub closed spec fn generation(&self) -> u64 {
        self.generation
    }

    /// Every outstanding id lies below the next one and was sent on the
    /// current generation.
    pub open spec fn wf(&self) -> bool {
        &&& self.next_id() >= 1
        &&& forall|id: u64| #[trigger] self.entries().contains_key(id)
            ==> 1 <= id < self.next_id() && self.entries()[id].generation == self.generation()
    }

    pub fn new() -> (r: Self)
        ensures
            r.wf(),
            r.entries() == Map::<u64, PendingRequest>::empty(),
            r.next_id() == 1,
            r.generation() == 0,
    {
        CorrelationTable { entries: HashMap::new(), next_id: 1, generation: 0 }
    }

    pub fn generation_number(&self) -> (r: u64)
        ensures
            r == self.generation(),
    {
        self.generation
    }

    pub fn next_request_id(&self) -> (r: u64)
        ensures
            r == self.next_id(),
    {
        self.next_id
    }

    pub fn len(&self) -> (r: usize)
        ensures
            r == self.entries().len(),
    {
        self.entries.len()
    }

    /// Every outstanding request id with its owner, each id once.
    pub fn snapshot(&self) -> (r: Vec<(u64, u128)>)
        ensures
            r@.len() == self.entries().len(),
            forall|k: int| 0 <= k < r@.len() ==> #[trigger] self.entries().contains_key(r@[k].0)
                && self.entries()[r@[k].0].owner == r@[k].1,
            forall|id: u64| #[trigger] self.entries().contains_key(id) ==> exists|k: int| 0 <= k < r@.len()
                && r@[k].0 == id,
    {
        let ghost items = vstd::std_specs::hash::spec_hash_map_iter(&self.entries).remaining();
        let mut out: Vec<(u64, u128)> = Vec::new();
        for (id, p) in it: self.entries.iter()
            invariant
                it.seq() == items,
                out@.len() == it.index(),
                forall|k: int| 0 <= k < out@.len() ==> out@[k] == (*items[k].0, items[k].1.owner),
        {
            out.push((*id, p.owner));
        }
        proof {
            assert forall|k: int| 0 <= k < out@.len() implies #[trigger] self.entries().contains_key(out@[k].0)
                && self.entries()[out@[k].0].owner == out@[k].1 by {
                assert(self.entries@.contains_key(*items[k].0));
            }
            assert forall|id: u64| #[trigger] self.entries().contains_key(id) implies exists|k: int| 0 <= k < out@.len()
                && out@[k].0 == id by {
                assert(items.contains((&id, &self.entries@[id])));
                let k = choose|k: int| 0 <= k < items.len() && items[k] == (&id, &self.entries@[id]);
                assert(out@[k].0 == id);
            }
        }
        out
    }

    /// Allocates the next request id and records `owner` for it, in one step.
    pub fn dispatch(&mut self, owner: u128) -> (r: Result<u64, CorrelationError>)
        requires
            old(self).wf(),
        ensures
            final(self).wf(),
            r is Ok <==> old(self).next_id() < u64::MAX,
            r is Err ==> *final(self) == *old(self),
            r matches Ok(id) ==> dispatched(*old(self), *final(self), owner, id),
    {
        if self.next_id == u64::MAX {
            return Err(CorrelationError::IdsExhausted);
        }
        let id = self.next_id;
        self.entries.insert(id, PendingRequest { owner, generation: self.generation });
        self.next_id = id + 1;
        assert forall|k: u64| #[trigger] self.entries().contains_key(k) implies 1 <= k < self.next_id()
            && self.entries()[k].generation == self.generation() by {
            if k != id {
                assert(old(self).entries().contains_key(k));
            }
        }
        Ok(id)
    }

    /// Removes the request `id` and hands back the device that issued it;
    /// `None` when the id is unknown or was already resolved.
    pub fn resolve(&mut self, id: u64) -> (r: Option<u128>)
        requires
            old(self).wf(),
        ensures
            final(self).wf(),
            resolved(*old(self), *final(self), id, r),
    {
        match self.entries.remove(&id) {
            Some(p) => Some(p.owner),
            None => None,
        }
    }

    /// Drops every entry of generation `g` and no other.
    pub fn purge_generation(&mut self, g: u64)
        requires
            old(self).wf(),
        ensures
            final(self).wf(),
            purged(*old(self), *final(self), g),
    {
        let ghost m = old(self).entries@;
        let ghost keep = m.dom().filter(|id: u64| m[id].generation != g);
        if g == self.generation {
            self.entries.clear();
            assert forall|id: u64| !#[trigger] keep.contains(id) by {
                if m.contains_key(id) {
                    assert(old(self).entries().contains_key(id));
                }
            }
            assert(keep =~= Set::<u64>::empty());
        } else {
            assert forall|id: u64| #[trigger] m.dom().contains(id) implies keep.contains(id) by {
                assert(old(self).entries().contains_key(id));
            }
            assert(keep =~= m.dom());
        }
        assert(self.entries@ =~= without_generation(m, g));
    }

    /// Starts the next connection generation: the entries of the superseded
    /// one are dropped, since their responses can never arrive.
    pub fn begin_generation(&mut self) -> (r: u64)
        requires
            old(self).wf(),
        ensures
            final(self).wf(),
            reconnected(*old(self), *final(self)),
            r == final(self).generation(),
    {
        let old_generation = self.generation;
        self.purge_generation(old_generation);
        self.generation = if old_generation == u64::MAX { 0 } else { old_generation + 1 };
        assert(self.entries@ =~= Map::<u64, PendingRequest>::empty());
        self.generation
    }
}

/// `after` is `before` with request `id` handed out to `owner` on the
/// current generation.
pub open spec fn dispatched(before: CorrelationTable, after: CorrelationTable, owner: u128, id: u64) -> bool {
    &&& id == before.next_id()
    &&& !before.entries().contains_key(id)
    &&& after.entries() == before.entries().insert(id, PendingRequest { owner, generation: before.generation() })
    &&& after.next_id() == id + 1
    &&& after.generation() == before.generation()
}

/// `after` is `before` with request `id` resolved, and `r` its owner.
pub open spec fn resolved(before: CorrelationTable, after: CorrelationTable, id: u64, r: Option<u128>) -> bool {
    &&& after.entries() == before.entries().remove(id)
    &&& after.next_id() == before.next_id()
    &&& after.generation() == before.generation()
    &&& r == (if before.entries().contains_key(id) { Some(before.entries()[id].owner) } else { None::<u128> })
}

/// `after` starts a new generation: no entry of `before`'s generation is
/// left, and the ids handed out so far are not handed out again.
pub open spec fn reconnected(before: CorrelationTable, after: CorrelationTable) -> bool {
    &&& after.entries() == without_generation(before.entries(), before.generation())
    &&& after.generation() != before.generation()
    &&& after.next_id() == before.next_id()
}

/// `after` is `before` without the entries of generation `g`.
pub open spec fn purged(before: CorrelationTable, after: CorrelationTable, g: u64) -> bool {
    &&& after.entries() == without_generation(before.entries(), g)
    &&& after.next_id() == before.next_id()
    &&& after.generation() == before.generation()
}

/// `after` is `before` with ids handed out to `owners`, in order, from the
/// next id on, all on the current generation.
pub open spec fn dispatched_all(before: CorrelationTable, after: CorrelationTable, owners: Seq<u128>) -> bool {
    &&& after.next_id() == before.next_id() + owners.len()
    &&& after.generation() == before.generation()
    &&& forall|id: u64| #[trigger] after.entries().contains_key(id) <==> (before.entries().contains_key(id)
        || (before.next_id() <= id < before.next_id() + owners.len()))
    &&& forall|id: u64| #[trigger] before.entries().contains_key(id) ==> after.entries()[id] == before.entries()[id]
    &&& forall|k: int| 0 <= k < owners.len() ==> after.entries()[(before.next_id() + k) as u64] == (PendingRequest {
        owner: #[trigger] owners[k],
        generation: before.generation(),
    })
}

/// A request that was dispatched is resolved to the device that issued it,
/// once: resolving the same id again finds nothing.
pub proof fn lemma_resolve_once(
    t0: CorrelationTable,
    t1: CorrelationTable,
    t2: CorrelationTable,
    t3: CorrelationTable,
    owner: u128,
    id: u64,
    first: Option<u128>,
    second: Option<u128>,
)
    requires
        t0.wf(),
        dispatched(t0, t1, owner, id),
        resolved(t1, t2, id, first),
        resolved(t2, t3, id, second),
    ensures
        first == Some(owner),
        second == None::<u128>,
{
}

/// Starting a new generation drops every entry of the superseded one, and a
/// later purge of the superseded generation spares what was dispatched on
/// the new one.
pub proof fn lemma_reconnect_spares_new_generation(
    t0: CorrelationTable,
    t1: CorrelationTable,
    t2: CorrelationTable,
    t3: CorrelationTable,
    owner: u128,
    id: u64,
)
    requires
        t0.wf(),
        reconnected(t0, t1),
        dispatched(t1, t2, owner, id),
        purged(t2, t3, t0.generation()),
    ensures
        forall|k: u64| #[trigger] t0.entries().contains_key(k) ==> !t1.entries().contains_key(k),
        t1.entries().is_empty(),
        t3.entries().contains_key(id),
        t3.entries()[id] == (PendingRequest { owner, generation: t1.generation() }),
{
    let m = t0.entries();
    let g = t0.generation();
    assert(m.dom().filter(|k: u64| m[k].generation != g) =~= Set::<u64>::empty());
    assert(t1.entries() =~= Map::<u64, PendingRequest>::empty());
    let m2 = t2.entries();
    assert(m2.dom().filter(|k: u64| m2[k].generation != g).contains(id));
}

} // verus!
