//! The ownership discipline of native handles, stated as a ledger.
//!
//! Every wand kind follows one pattern: a constructor or clone acquires a
//! fresh native allocation, the owning wrapper is the only holder of it, and
//! dropping the wrapper releases the allocation exactly once. The ledger
//! below is that discipline as a verified data structure: `acquire` records
//! a fresh allocation, `release` retires it and refuses an id that is not
//! outstanding (a double release), and the laws at the bottom say that
//! handles acquired and then dropped in any order release exactly as many
//! allocations as were made, leaving the ledger as it began.

use vstd::prelude::*;
use vstd::set::group_set_axioms;

verus! {

broadcast use group_set_axioms;

/// Ledger of outstanding native allocations: which ids are live now, and the
/// next id a fresh allocation receives.
#[derive(Debug)]
pub struct HandleLedger {
    live: Vec<u64>,
    next_id: u64,
}

impl HandleLedger {
    /// The ids of the allocations outstanding now.
    pub closed spec fn live_ids(&self) -> Set<u64> {
        self.live@.to_set()
    }

    /// How many allocations are outstanding now.
    pub closed spec fn spec_outstanding(&self) -> nat {
        self.live@.len()
    }

    /// The id the next acquisition receives.
    pub closed spec fn spec_next(&self) -> u64 {
        self.next_id
    }

    /// Internal consistency: no id is recorded twice, and every recorded id
    /// was handed out before `next_id`.
    pub closed spec fn well_formed(&self) -> bool {
        self.live@.no_duplicates() && (forall|i: int|
            0 <= i < self.live@.len() ==> self.live@[i] < self.next_id)
    }

    /// A ledger with nothing outstanding.
    pub fn new() -> (l: HandleLedger)
        ensures
            l.well_formed(),
            l.live_ids() =~= Set::<u64>::empty(),
            l.spec_outstanding() == 0,
            l.spec_next() == 0,
    {
        let l = HandleLedger { live: Vec::new(), next_id: 0 };
        proof {
            assert(l.live@.to_set() =~= Set::<u64>::empty());
        }
        l
    }

    /// Record one fresh native allocation (a constructor or a clone). The
    /// returned id was not outstanding before, so the allocation is
    /// independent of every other live one.
    pub fn acquire(&mut self) -> (id: u64)
        requires
            old(self).well_formed(),
            old(self).spec_next() < u64::MAX,
        ensures
            final(self).well_formed(),
            !old(self).live_ids().contains(id),
            final(self).live_ids() =~= old(self).live_ids().insert(id),
            final(self).spec_outstanding() == old(self).spec_outstanding() + 1,
            final(self).spec_next() == old(self).spec_next() + 1,
    {
        let id = self.next_id;
        self.next_id = self.next_id + 1;
        self.live.push(id);
        proof {
            let prior = old(self).live@;
            assert(self.live@ == prior.push(id));
            assert(!prior.contains(id));
            assert forall|x: u64| self.live@.contains(x) <==> (prior.contains(x) || x
                == id) by {
                if self.live@.contains(x) {
                    let k = choose|k: int| 0 <= k < self.live@.len() && self.live@[k] == x;
                    if k < prior.len() {
                        assert(prior[k] == x);
                    }
                }
                if prior.contains(x) {
                    let k = choose|k: int| 0 <= k < prior.len() && prior[k] == x;
                    assert(self.live@[k] == x);
                }
                if x == id {
                    assert(self.live@[prior.len() as int] == x);
                }
            }
            assert(self.live@.to_set() =~= prior.to_set().insert(id));
        }
        id
    }

    /// Retire the allocation with the given id (the wrapper's drop). Returns
    /// whether the id was outstanding; releasing an id that is not — a
    /// double release — changes nothing and reports `false`.
    pub fn release(&mut self, id: u64) -> (ok: bool)
        requires
            old(self).well_formed(),
        ensures
            final(self).well_formed(),
            ok == old(self).live_ids().contains(id),
            ok ==> final(self).live_ids() =~= old(self).live_ids().remove(id),
            ok ==> final(self).spec_outstanding() == old(self).spec_outstanding() - 1,
            !ok ==> final(self).live_ids() == old(self).live_ids(),
            !ok ==> final(self).spec_outstanding() == old(self).spec_outstanding(),
            final(self).spec_next() == old(self).spec_next(),
    {
        let n = self.live.len();
        let mut i: usize = 0;
        while i < n
            invariant
                old(self).well_formed(),
                *self == *old(self),
                n == self.live.len(),
                i <= n,
                forall|j: int| 0 <= j < i ==> self.live@[j] != id,
            decreases n - i,
        {
            if self.live[i] == id {
                let prior = Ghost(self.live@);
                self.live.remove(i);
                proof {
                    let removed = prior@.remove(i as int);
                    assert(prior@ == old(self).live@);
                    assert(old(self).well_formed());
                    assert(self.live@ == removed);
                    assert(prior@.no_duplicates());
                    assert(prior@[i as int] == id);
                    assert forall|j: int| 0 <= j < removed.len() implies removed[j]
                        < self.next_id by {
                        let pj: int = if j < i { j } else { j + 1 };
                        assert(removed[j] == prior@[pj]);
                    }
                    assert forall|a: int, b: int|
                        0 <= a < removed.len() && 0 <= b < removed.len() && a
                            != b implies removed[a] != removed[b] by {
                        let pa: int = if a < i { a } else { a + 1 };
                        let pb: int = if b < i { b } else { b + 1 };
                        assert(removed[a] == prior@[pa]);
                        assert(removed[b] == prior@[pb]);
                        assert(pa != pb);
                    }
                    assert(removed.no_duplicates());
                    assert forall|x: u64| removed.contains(x) implies (prior@.contains(x) && x
                        != id) by {
                        let k = choose|k: int| 0 <= k < removed.len() && removed[k] == x;
                        let pk: int = if k < i { k } else { k + 1 };
                        assert(removed[k] == prior@[pk]);
                        assert(pk != i);
                        assert(prior@[pk] != prior@[i as int]);
                    }
                    assert forall|x: u64| prior@.contains(x) && x != id implies removed.contains(
                        x,
                    ) by {
                        let k = choose|k: int| 0 <= k < prior@.len() && prior@[k] == x;
                        assert(k != i);
                        if k < i {
                            assert(removed[k] == x);
                        } else {
                            assert(removed[k - 1] == prior@[k]);
                        }
                    }
                    assert(self.live@.to_set() =~= prior@.to_set().remove(id));
                    assert(prior@.to_set().contains(id));
                }
                return true;
            }
            i = i + 1;
        }
        proof {
            assert(!self.live@.contains(id));
            assert(!self.live@.to_set().contains(id));
        }
        false
    }

    /// How many allocations are outstanding.
    pub fn outstanding(&self) -> (n: usize)
        ensures
            n == self.spec_outstanding(),
    {
        self.live.len()
    }

    /// Whether the allocation with the given id is outstanding.
    pub fn is_live(&self, id: u64) -> (r: bool)
        ensures
            r == self.live_ids().contains(id),
    {
        let n = self.live.len();
        let mut i: usize = 0;
        while i < n
            invariant
                n == self.live.len(),
                i <= n,
                forall|j: int| 0 <= j < i ==> self.live@[j] != id,
            decreases n - i,
        {
            if self.live[i] == id {
                return true;
            }
            i = i + 1;
        }
        proof {
            assert(!self.live@.contains(id));
        }
        false
    }
}

/// With a well-formed ledger, the outstanding count is exactly the number of
/// distinct live ids.
pub proof fn lemma_outstanding_is_live_count(l: &HandleLedger)
    requires
        l.well_formed(),
    ensures
        l.spec_outstanding() == l.live_ids().len(),
{
    l.live@.unique_seq_to_set();
}

/// Apply one release per id of `order`, in that order, to a set of live
/// allocation ids.
pub open spec fn release_all(live: Set<u64>, order: Seq<u64>) -> Set<u64>
    decreases order.len(),
{
    if order.len() == 0 {
        live
    } else {
        release_all(live.remove(order[0]), order.drop_first())
    }
}

/// Law: releasing outstanding allocations in any order retires each exactly
/// once — the ids of `order` leave the live set, nothing else does, and the
/// count drops by exactly the number of releases.
pub proof fn lemma_release_any_order(live: Set<u64>, order: Seq<u64>)
    requires
        live.finite(),
        order.no_duplicates(),
        forall|i: int| 0 <= i < order.len() ==> live.contains(#[trigger] order[i]),
    ensures
        release_all(live, order) =~= live.difference(order.to_set()),
        release_all(live, order).len() == live.len() - order.len(),
    decreases order.len(),
{
    if order.len() == 0 {
        assert(live.difference(order.to_set()) =~= live);
    } else {
        let x = order[0];
        let rest = order.drop_first();
        assert(forall|i: int| 0 <= i < rest.len() ==> rest[i] == order[i + 1]);
        assert forall|i: int| 0 <= i < rest.len() implies live.remove(x).contains(
            #[trigger] rest[i],
        ) by {
            assert(order[i + 1] != x);
            assert(live.contains(order[i + 1]));
        }
        lemma_release_any_order(live.remove(x), rest);
        assert forall|y: u64| order.to_set().contains(y) <==> (y == x || rest.to_set().contains(
            y,
        )) by {
            if order.contains(y) {
                let k = choose|k: int| 0 <= k < order.len() && order[k] == y;
                if k > 0 {
                    assert(rest[k - 1] == y);
                }
            }
            if rest.contains(y) {
                let k = choose|k: int| 0 <= k < rest.len() && rest[k] == y;
                assert(order[k + 1] == y);
            }
            if y == x {
                assert(order.contains(x));
            }
        }
        assert(live.remove(x).difference(rest.to_set()) =~= live.difference(order.to_set()));
    }
}

/// Law: constructing a batch of handles and then dropping them in any order
/// releases exactly as many allocations as were constructed — no leak and no
/// double release — leaving the ledger's live set exactly as it began.
///
/// `initial` is what was outstanding before, `acquired` the fresh ids the
/// batch received in order of construction, and `order` the same ids in the
/// order the handles were dropped.
pub proof fn lemma_construct_then_drop_balanced(
    initial: Set<u64>,
    acquired: Seq<u64>,
    order: Seq<u64>,
)
    requires
        initial.finite(),
        acquired.no_duplicates(),
        forall|i: int| 0 <= i < acquired.len() ==> !initial.contains(#[trigger] acquired[i]),
        order.no_duplicates(),
        order.to_set() == acquired.to_set(),
    ensures
        release_all(initial.union(acquired.to_set()), order) =~= initial,
        release_all(initial.union(acquired.to_set()), order).len() == initial.len(),
{
    let live = initial.union(acquired.to_set());
    vstd::seq_lib::seq_to_set_is_finite::<u64>(acquired);
    assert(live.finite());
    assert forall|i: int| 0 <= i < order.len() implies live.contains(#[trigger] order[i]) by {
        assert(acquired.to_set().contains(order[i]));
    }
    lemma_release_any_order(live, order);
    assert(live.difference(order.to_set()) =~= initial);
    assert(release_all(live, order) =~= initial);
}

} // verus!
