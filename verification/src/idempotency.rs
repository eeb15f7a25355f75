//! Duplicate-submission guard: remembers the order ids already used, up to a
//! capacity, forgetting the oldest first.
use vstd::prelude::*;
use crate::registry::{position_of, texts};
use crate::text::owned;

verus! {

/// Tracks used order ids so the same order is never submitted twice.
pub struct IdempotencyTracker {
    used_ids: Vec<String>,
    max_size: usize,
}

impl IdempotencyTracker {
    /// The remembered ids, oldest first.
    pub closed spec fn ids(&self) -> Seq<Seq<char>> {
        texts(self.used_ids@)
    }

    pub closed spec fn capacity(&self) -> nat {
        self.max_size as nat
    }

    /// No id is remembered twice.
    pub closed spec fn wf(&self) -> bool {
        self.ids().no_duplicates()
    }

    /// A tracker remembering up to `max_size` ids.
    pub fn new(max_size: usize) -> (r: IdempotencyTracker)
        ensures
            r.wf(),
            r.ids() =~= Seq::<Seq<char>>::empty(),
            r.capacity() == max_size,
    {
        let r = IdempotencyTracker { used_ids: Vec::new(), max_size };
        assert(r.ids() =~= Seq::<Seq<char>>::empty());
        r
    }

    /// Claims `id`: `false` when it was already used; otherwise it is remembered
    /// (forgetting the oldest id when at capacity) and the claim succeeds.
    pub fn claim(&mut self, id: &str) -> (r: bool)
        requires
            old(self).wf(),
        ensures
            final(self).wf(),
            final(self).capacity() == old(self).capacity(),
            r == !old(self).ids().contains(id@),
            !r ==> final(self).ids() == old(self).ids(),
            r ==> final(self).ids() == (if old(self).ids().len() >= old(self).capacity()
                && old(self).ids().len() > 0 {
                old(self).ids().drop_first()
            } else {
                old(self).ids()
            }).push(id@),
    {
        if let Some(k) = position_of(&self.used_ids, id) {
            proof {
                assert(self.ids()[k as int] == id@);
            }
            return false;
        }
        if self.used_ids.len() >= self.max_size && self.used_ids.len() > 0 {
            let ghost before = self.ids();
            self.used_ids.remove(0);
            proof {
                assert(self.ids() =~= before.drop_first());
                assert forall|i: int, j: int|
                    0 <= i < self.ids().len() && 0 <= j < self.ids().len() && i != j implies self.ids()[i]
                    != self.ids()[j] by {
                    assert(self.ids()[i] == before[i + 1]);
                    assert(self.ids()[j] == before[j + 1]);
                }
            }
        }
        let ghost mid = self.ids();
        self.used_ids.push(owned(id));
        proof {
            assert(self.ids() =~= mid.push(id@));
            assert(!mid.contains(id@)) by {
                if mid.contains(id@) {
                    let k = choose|k: int| 0 <= k < mid.len() && mid[k] == id@;
                    if old(self).ids().len() >= old(self).capacity() && old(self).ids().len() > 0 {
                        assert(old(self).ids()[k + 1] == id@);
                    } else {
                        assert(old(self).ids()[k] == id@);
                    }
                }
            }
        }
        true
    }

    /// Has `id` been used (and not yet forgotten)?
    pub fn contains(&self, id: &str) -> (r: bool)
        ensures
            r == self.ids().contains(id@),
    {
        let found = position_of(&self.used_ids, id);
        proof {
            if let Some(k) = found {
                assert(self.ids()[k as int] == id@);
            }
        }
        found.is_some()
    }

    /// How many ids are remembered.
    pub fn len(&self) -> (r: usize)
        ensures
            r == self.ids().len(),
    {
        self.used_ids.len()
    }
}

impl Default for IdempotencyTracker {
    /// Remembers up to 10000 ids.
    fn default() -> (r: Self)
        ensures
            r.wf(),
            r.ids() =~= Seq::<Seq<char>>::empty(),
            r.capacity() == 10000,
    {
        IdempotencyTracker::new(10000)
    }
}

/// With a capacity of at least one, a tracker never remembers more ids than its
/// capacity, and a successful claim leaves the id remembered.
pub proof fn lemma_claim_bounded(before: Seq<Seq<char>>, capacity: nat, id: Seq<char>)
    requires
        capacity >= 1,
        before.len() <= capacity,
    ensures
        ({
            let after = (if before.len() >= capacity && before.len() > 0 {
                before.drop_first()
            } else {
                before
            }).push(id);
            after.len() <= capacity && after.contains(id)
        }),
{
    let after = (if before.len() >= capacity && before.len() > 0 {
        before.drop_first()
    } else {
        before
    }).push(id);
    assert(after[after.len() - 1] == id);
}

} // verus!
