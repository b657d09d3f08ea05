//! Request and subscription identifiers, and the generator of fresh request ids.
use vstd::prelude::*;

verus! {

/// A client-chosen correlation token for one request and its answer.
#[derive(Clone, Copy, Debug, PartialEq, Eq, Structural, Hash)]
pub struct ReqID(pub u64);

/// A server-chosen token that names one active subscription's update stream.
#[derive(Clone, Copy, Debug, PartialEq, Eq, Structural, Hash)]
pub struct SubscriptionID(pub u64);

/// Hands out request ids, each distinct from every id it handed out before.
///
/// Ids are drawn from a counter: an id has been issued exactly when its number
/// lies below the counter.
pub struct ReqIDGenerator {
    next: u64,
}

impl View for ReqIDGenerator {
    type V = nat;

    /// The number that the next id will carry.
    closed spec fn view(&self) -> nat {
        self.next as nat
    }
}

impl ReqIDGenerator {
    /// Whether `id` has already been handed out by this generator (or an
    /// earlier state of it).
    pub open spec fn has_issued(&self, id: ReqID) -> bool {
        id.0 < self@
    }

    /// The id that the next call of `next_id` hands out, if any is left.
    pub open spec fn upcoming(&self) -> Option<ReqID> {
        if self@ < u64::MAX {
            Some(ReqID(self@ as u64))
        } else {
            None
        }
    }

    /// A generator that has issued nothing yet.
    pub fn new() -> (g: Self)
        ensures
            g@ == 0,
    {
        ReqIDGenerator { next: 0 }
    }

    /// Hands out a fresh request id, or `None` once the id space is used up.
    pub fn next_id(&mut self) -> (r: Option<ReqID>)
        ensures
            r == old(self).upcoming(),
            r matches Some(id) ==> !old(self).has_issued(id) && final(self).has_issued(id)
                && final(self)@ == old(self)@ + 1,
            r is None ==> final(self)@ == old(self)@,
            forall|id: ReqID| old(self).has_issued(id) ==> final(self).has_issued(id),
    {
        if self.next < u64::MAX {
            let id = ReqID(self.next);
            self.next = self.next + 1;
            Some(id)
        } else {
            None
        }
    }
}

/// Every id that a generator hands out differs from every id it handed out
/// before: no two outstanding requests can share an id.
pub proof fn lemma_fresh_id_is_unique(g: ReqIDGenerator, earlier: ReqID, fresh: ReqID)
    requires
        g.has_issued(earlier),
        g.upcoming() == Some(fresh),
    ensures
        earlier != fresh,
{
}

/// Two ids drawn one after the other from a generator differ.
pub proof fn lemma_successive_ids_differ(g0: ReqIDGenerator, g1: ReqIDGenerator, a: ReqID, b: ReqID)
    requires
        g0.upcoming() == Some(a),
        g1@ == g0@ + 1,
        g1.upcoming() == Some(b),
    ensures
        a != b,
        g1.has_issued(a),
{
}

} // verus!
