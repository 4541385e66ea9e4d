//! Allocation of stream ids for multi-stream apps.
//!
//! Ids are handed out from 0 upwards and never reused, so each can key a UI
//! element for the whole life of the list.

use vstd::prelude::*;

verus! {

/// The live stream ids, in insertion order, and the next id to hand out.
pub struct StreamIds {
    next: u32,
    ids: Vec<u32>,
}

/// Every id in `ids` is below `next`, and the ids strictly increase.
pub open spec fn ids_wf(next: u32, ids: Seq<u32>) -> bool {
    &&& forall|i: int| 0 <= i < ids.len() ==> #[trigger] ids[i] < next
    &&& forall|i: int, j: int| 0 <= i < j < ids.len() ==> #[trigger] ids[i] < #[trigger] ids[j]
}

/// Predicate of the ids other than `id`.
pub open spec fn differs_from(id: u32) -> spec_fn(u32) -> bool {
    |other: u32| other != id
}

impl StreamIds {
    /// Next id to hand out.
    pub closed spec fn next_spec(&self) -> u32 {
        self.next
    }

    /// The live ids, in insertion order.
    pub closed spec fn ids_spec(&self) -> Seq<u32> {
        self.ids@
    }

    #[verifier::type_invariant]
    spec fn wf(&self) -> bool {
        ids_wf(self.next, self.ids@)
    }

    /// An empty list whose first id is 0.
    pub fn new() -> (list: StreamIds)
        ensures
            list.next_spec() == 0,
            list.ids_spec() == Seq::<u32>::empty(),
    {
        StreamIds { next: 0, ids: Vec::new() }
    }

    /// The live ids, in insertion order; they strictly increase and are all
    /// below the next id.
    pub fn ids(&self) -> (ids: &Vec<u32>)
        ensures
            ids@ == self.ids_spec(),
            ids_wf(self.next_spec(), ids@),
    {
        proof {
            use_type_invariant(self);
        }
        &self.ids
    }

    /// The id the next [`StreamIds::add`] hands out.
    pub fn next_id(&self) -> (next: u32)
        ensures
            next == self.next_spec(),
    {
        self.next
    }

    /// Appends a fresh id and returns it: the next id, which is greater than
    /// every id handed out before, so ids are never reused.
    pub fn add(&mut self) -> (id: u32)
        requires
            old(self).next_spec() < u32::MAX,
        ensures
            id == old(self).next_spec(),
            forall|i: int| 0 <= i < old(self).ids_spec().len() ==> #[trigger] old(
                self,
            ).ids_spec()[i] < id,
            !old(self).ids_spec().contains(id),
            final(self).next_spec() == id + 1,
            final(self).ids_spec() == old(self).ids_spec().push(id),
    {
        proof {
            use_type_invariant(&*self);
        }
        let id = self.next;
        let mut ids: Vec<u32> = Vec::new();
        std::mem::swap(&mut ids, &mut self.ids);
        ids.push(id);
        *self = StreamIds { next: id + 1, ids };
        id
    }

    /// Removes `id` from the list; nothing happens when it is absent.
    pub fn remove(&mut self, id: u32)
        ensures
            final(self).next_spec() == old(self).next_spec(),
            final(self).ids_spec() == old(self).ids_spec().filter(differs_from(id)),
    {
        proof {
            use_type_invariant(&*self);
        }
        let ghost before = self.ids@;
        let next = self.next;
        let mut ids: Vec<u32> = Vec::new();
        std::mem::swap(&mut ids, &mut self.ids);
        let mut kept: Vec<u32> = Vec::new();
        proof {
            reveal_with_fuel(Seq::filter, 1);
            assert(before.take(0).filter(differs_from(id)) =~= Seq::<u32>::empty());
        }
        let mut i: usize = 0;
        while i < ids.len()
            invariant
                i <= ids@.len(),
                ids@ == before,
                ids_wf(next, before),
                kept@ == before.take(i as int).filter(differs_from(id)),
                ids_wf(next, kept@),
                forall|k: int| 0 <= k < kept@.len() && i < ids@.len() ==> #[trigger] kept@[k] < ids@[i as int],
            decreases ids@.len() - i,
        {
            let x = ids[i];
            proof {
                reveal_with_fuel(Seq::filter, 1);
                assert(before.take(i + 1).drop_last() =~= before.take(i as int));
                assert(before.take(i + 1).last() == x);
                assert(before.take(i + 1).filter(differs_from(id)) == if x != id {
                    before.take(i as int).filter(differs_from(id)).push(x)
                } else {
                    before.take(i as int).filter(differs_from(id))
                });
            }
            if x != id {
                kept.push(x);
            }
            i = i + 1;
        }
        assert(before.take(i as int) =~= before);
        *self = StreamIds { next, ids: kept };
    }
}

/// A call on a stream-id list.
pub enum IdCall {
    /// [`StreamIds::add`].
    Add,
    /// [`StreamIds::remove`] of this id.
    Remove(u32),
}

/// Next id and live ids of a new list after `calls`, call by call as the
/// contracts of [`StreamIds::add`] and [`StreamIds::remove`] give them.
pub open spec fn ids_after(calls: Seq<IdCall>) -> (nat, Seq<u32>)
    decreases calls.len(),
{
    if calls.len() == 0 {
        (0, seq![])
    } else {
        let before = ids_after(calls.drop_last());
        match calls.last() {
            IdCall::Add => (before.0 + 1, before.1.push(before.0 as u32)),
            IdCall::Remove(x) => (before.0, before.1.filter(differs_from(x))),
        }
    }
}

/// Number of adds among `calls`.
pub open spec fn add_count(calls: Seq<IdCall>) -> nat
    decreases calls.len(),
{
    if calls.len() == 0 {
        0
    } else {
        add_count(calls.drop_last()) + if calls.last() is Add {
            1nat
        } else {
            0nat
        }
    }
}

/// `ids` strictly increase and all lie below `bound`.
pub open spec fn increasing_below(ids: Seq<u32>, bound: nat) -> bool {
    &&& forall|i: int| 0 <= i < ids.len() ==> #[trigger] ids[i] < bound
    &&& forall|i: int, j: int| 0 <= i < j < ids.len() ==> #[trigger] ids[i] < #[trigger] ids[j]
}

proof fn lemma_filter_increasing(ids: Seq<u32>, x: u32, bound: nat)
    requires
        increasing_below(ids, bound),
    ensures
        increasing_below(ids.filter(differs_from(x)), bound),
    decreases ids.len(),
{
    reveal_with_fuel(Seq::filter, 1);
    if ids.len() > 0 {
        let rest = ids.drop_last();
        let last = ids.last();
        lemma_filter_increasing(rest, x, bound);
        let kept = rest.filter(differs_from(x));
        assert forall|i: int| 0 <= i < kept.len() implies #[trigger] kept[i] < last by {
            rest.lemma_filter_contains_rev(differs_from(x), kept[i]);
            let j = choose|j: int| 0 <= j < rest.len() && rest[j] == kept[i];
            assert(ids[j] < ids[ids.len() - 1]);
        }
    }
}

/// Ids are handed out as 0, 1, 2, ... and never reused: after any run of
/// calls on a new list with fewer than 2^32 adds, the next id is the number
/// of adds so far (so the k-th add returned k - 1), and the live ids
/// strictly increase, in insertion order, below it.
pub proof fn lemma_id_run(calls: Seq<IdCall>)
    requires
        add_count(calls) <= 0x1_0000_0000,
    ensures
        ids_after(calls).0 == add_count(calls),
        increasing_below(ids_after(calls).1, ids_after(calls).0),
    decreases calls.len(),
{
    if calls.len() > 0 {
        let before = calls.drop_last();
        assert(add_count(before) <= add_count(calls));
        lemma_id_run(before);
        let (next, ids) = ids_after(before);
        match calls.last() {
            IdCall::Add => {
                assert(next < 0x1_0000_0000);
                assert((next as u32) as nat == next);
            },
            IdCall::Remove(x) => {
                lemma_filter_increasing(ids, x, next);
            },
        }
    }
}

/// Removing an id that is not in the list leaves the list unchanged.
pub proof fn lemma_remove_absent(ids: Seq<u32>, x: u32)
    requires
        !ids.contains(x),
    ensures
        ids.filter(differs_from(x)) == ids,
    decreases ids.len(),
{
    reveal_with_fuel(Seq::filter, 1);
    if ids.len() > 0 {
        let rest = ids.drop_last();
        assert(!rest.contains(x)) by {
            if rest.contains(x) {
                let j = choose|j: int| 0 <= j < rest.len() && rest[j] == x;
                assert(ids[j] == x);
            }
        }
        lemma_remove_absent(rest, x);
        assert(ids.last() != x) by {
            assert(ids[ids.len() - 1] == ids.last());
        }
        assert(rest.push(ids.last()) =~= ids);
    }
}

} // verus!
