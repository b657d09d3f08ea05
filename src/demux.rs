//! A registry that lets several operations share one connection: it routes
//! each decoded response to the outstanding request or the subscription it
//! belongs to.
use vstd::prelude::*;
use crate::ids::{ReqID, ReqIDGenerator, SubscriptionID};
use crate::message::Response;

verus! {

/// What an outstanding request waits for.
#[derive(Clone, Copy, Debug, PartialEq, Eq, Structural)]
pub enum Awaiting {
    GetAck,
    SubscribeAck,
    UnsubscribeAllAck,
}

/// Where a decoded response goes.
#[derive(Debug)]
pub enum Route<V> {
    /// It answers the outstanding request with this id, which is now settled.
    Answer(ReqID, Response<V>),
    /// It acknowledges the subscribe request with this id, whose
    /// subscription now streams under the subscription id.
    Subscribed(ReqID, SubscriptionID),
    /// It is an update of the subscription that the request with this id
    /// opened.
    Update(ReqID, SubscriptionID, V),
    /// No outstanding request or live subscription claims it.
    Unclaimed,
}

/// The outstanding requests and the live subscriptions of one connection.
pub struct Demux {
    outstanding: Vec<(ReqID, Awaiting)>,
    streams: Vec<(SubscriptionID, ReqID)>,
}

/// No two outstanding requests share a request id.
pub open spec fn requests_unique(s: Seq<(ReqID, Awaiting)>) -> bool {
    forall|i: int, j: int|
        0 <= i < s.len() && 0 <= j < s.len() && i != j ==> #[trigger] s[i].0 != #[trigger] s[j].0
}

/// No two live subscriptions share a subscription id.
pub open spec fn streams_unique(t: Seq<(SubscriptionID, ReqID)>) -> bool {
    forall|i: int, j: int|
        0 <= i < t.len() && 0 <= j < t.len() && i != j ==> #[trigger] t[i].0 != #[trigger] t[j].0
}

/// Whether a request with this id is outstanding.
pub open spec fn has_request(s: Seq<(ReqID, Awaiting)>, id: ReqID) -> bool {
    exists|i: int| 0 <= i < s.len() && #[trigger] s[i].0 == id
}

/// Whether a request with this id waits for this kind of answer.
pub open spec fn holds(s: Seq<(ReqID, Awaiting)>, entry: (ReqID, Awaiting)) -> bool {
    exists|i: int| 0 <= i < s.len() && #[trigger] s[i] == entry
}

/// The place of an entry among the outstanding requests.
pub open spec fn slot_of(s: Seq<(ReqID, Awaiting)>, entry: (ReqID, Awaiting)) -> int {
    choose|i: int| 0 <= i < s.len() && #[trigger] s[i] == entry
}

/// Whether a subscription with this id is live.
pub open spec fn has_stream(t: Seq<(SubscriptionID, ReqID)>, sid: SubscriptionID) -> bool {
    exists|j: int| 0 <= j < t.len() && #[trigger] t[j].0 == sid
}

/// The place of a subscription among the live ones.
pub open spec fn stream_slot(t: Seq<(SubscriptionID, ReqID)>, sid: SubscriptionID) -> int {
    choose|j: int| 0 <= j < t.len() && #[trigger] t[j].0 == sid
}

/// What routing one response does: the outstanding requests and live
/// subscriptions after it, and where it goes.
///
/// An answer settles the request that waits for it. A subscribe
/// acknowledgement also makes its subscription live (taking the id over
/// if the server named a live one again). An unsubscribe-all answer ends
/// every live subscription. An update goes to the request that opened its
/// subscription. Anything else is unclaimed and changes nothing.
pub open spec fn route_spec<V>(
    s: Seq<(ReqID, Awaiting)>,
    t: Seq<(SubscriptionID, ReqID)>,
    resp: Response<V>,
) -> (Seq<(ReqID, Awaiting)>, Seq<(SubscriptionID, ReqID)>, Route<V>) {
    match resp {
        Response::Get { request_id, value } => {
            let entry = (request_id, Awaiting::GetAck);
            if holds(s, entry) {
                (s.remove(slot_of(s, entry)), t, Route::Answer(request_id, Response::Get { request_id, value }))
            } else {
                (s, t, Route::Unclaimed)
            }
        },
        Response::Subscribe { request_id, subscription_id } => {
            let entry = (request_id, Awaiting::SubscribeAck);
            if holds(s, entry) {
                let t2 = if has_stream(t, subscription_id) {
                    t.update(stream_slot(t, subscription_id), (subscription_id, request_id))
                } else {
                    t.push((subscription_id, request_id))
                };
                (s.remove(slot_of(s, entry)), t2, Route::Subscribed(request_id, subscription_id))
            } else {
                (s, t, Route::Unclaimed)
            }
        },
        Response::UnsubscribeAll { request_id } => {
            let entry = (request_id, Awaiting::UnsubscribeAllAck);
            if holds(s, entry) {
                (
                    s.remove(slot_of(s, entry)),
                    Seq::empty(),
                    Route::Answer(request_id, Response::UnsubscribeAll { request_id }),
                )
            } else {
                (s, t, Route::Unclaimed)
            }
        },
        Response::Subscription { subscription_id, value } => {
            if has_stream(t, subscription_id) {
                (s, t, Route::Update(t[stream_slot(t, subscription_id)].1, subscription_id, value))
            } else {
                (s, t, Route::Unclaimed)
            }
        },
    }
}

impl View for Demux {
    type V = (Seq<(ReqID, Awaiting)>, Seq<(SubscriptionID, ReqID)>);

    /// The outstanding requests in order of registration, and the live
    /// subscriptions with the request that opened each.
    closed spec fn view(&self) -> (Seq<(ReqID, Awaiting)>, Seq<(SubscriptionID, ReqID)>) {
        (self.outstanding@, self.streams@)
    }
}

/// Removing an entry keeps the request ids unique.
proof fn lemma_remove_keeps_unique(s: Seq<(ReqID, Awaiting)>, k: int)
    requires
        requests_unique(s),
        0 <= k < s.len(),
    ensures
        requests_unique(s.remove(k)),
{
    let r = s.remove(k);
    assert forall|i: int, j: int| 0 <= i < r.len() && 0 <= j < r.len() && i != j implies r[i].0
        != r[j].0 by {
        let a = if i < k { i } else { i + 1 };
        let b = if j < k { j } else { j + 1 };
        assert(r[i] == s[a]);
        assert(r[j] == s[b]);
    }
}

impl Demux {
    /// The registry is consistent: request ids and subscription ids are
    /// each unique.
    pub open spec fn wf(&self) -> bool {
        requests_unique(self@.0) && streams_unique(self@.1)
    }

    /// A registry with nothing outstanding and no live subscription.
    pub fn new() -> (d: Self)
        ensures
            d.wf(),
            d@.0 == Seq::<(ReqID, Awaiting)>::empty(),
            d@.1 == Seq::<(SubscriptionID, ReqID)>::empty(),
    {
        Demux { outstanding: Vec::new(), streams: Vec::new() }
    }

    fn find_request(&self, id: ReqID) -> (r: Option<usize>)
        ensures
            r matches Some(i) ==> i < self@.0.len() && self@.0[i as int].0 == id,
            r is None ==> !has_request(self@.0, id),
    {
        let mut i: usize = 0;
        while i < self.outstanding.len()
            invariant
                i <= self.outstanding@.len(),
                forall|k: int| 0 <= k < i ==> #[trigger] self.outstanding@[k].0 != id,
            decreases self.outstanding@.len() - i,
        {
            if self.outstanding[i].0 == id {
                return Some(i);
            }
            i = i + 1;
        }
        None
    }

    fn find_stream(&self, sid: SubscriptionID) -> (r: Option<usize>)
        ensures
            r matches Some(j) ==> j < self@.1.len() && self@.1[j as int].0 == sid,
            r is None ==> !has_stream(self@.1, sid),
    {
        let mut j: usize = 0;
        while j < self.streams.len()
            invariant
                j <= self.streams@.len(),
                forall|k: int| 0 <= k < j ==> #[trigger] self.streams@[k].0 != sid,
            decreases self.streams@.len() - j,
        {
            if self.streams[j].0 == sid {
                return Some(j);
            }
            j = j + 1;
        }
        None
    }

    /// Whether a request with this id is outstanding.
    pub fn is_outstanding(&self, id: ReqID) -> (r: bool)
        ensures
            r == has_request(self@.0, id),
    {
        self.find_request(id).is_some()
    }

    /// Records that the request `id` now waits for an answer of the given
    /// kind. Refused, changing nothing, when a request with that id is
    /// already outstanding: two outstanding requests never share an id.
    pub fn register(&mut self, id: ReqID, awaiting: Awaiting) -> (ok: bool)
        requires
            old(self).wf(),
        ensures
            final(self).wf(),
            ok == !has_request(old(self)@.0, id),
            ok ==> final(self)@.0 == old(self)@.0.push((id, awaiting)),
            !ok ==> final(self)@.0 == old(self)@.0,
            final(self)@.1 == old(self)@.1,
    {
        match self.find_request(id) {
            Some(_) => false,
            None => {
                self.outstanding.push((id, awaiting));
                proof {
                    let s = self.outstanding@;
                    assert forall|i: int, j: int|
                        0 <= i < s.len() && 0 <= j < s.len() && i != j implies s[i].0 != s[j].0 by {
                        if i == s.len() - 1 {
                            assert(s[j] == old(self)@.0[j]);
                        } else if j == s.len() - 1 {
                            assert(s[i] == old(self)@.0[i]);
                        } else {
                            assert(s[i] == old(self)@.0[i]);
                            assert(s[j] == old(self)@.0[j]);
                        }
                    }
                }
                true
            },
        }
    }

    /// Takes the outstanding request `id` off the registry if it waits for
    /// `awaiting`; returns whether it did.
    fn settle(&mut self, id: ReqID, awaiting: Awaiting) -> (settled: bool)
        requires
            old(self).wf(),
        ensures
            final(self).wf(),
            settled == holds(old(self)@.0, (id, awaiting)),
            settled ==> final(self)@.0 == old(self)@.0.remove(slot_of(old(self)@.0, (id, awaiting))),
            !settled ==> final(self)@.0 == old(self)@.0,
            final(self)@.1 == old(self)@.1,
    {
        let ghost s = self@.0;
        match self.find_request(id) {
            Some(i) => {
                if self.outstanding[i].1 == awaiting {
                    proof {
                        assert(s[i as int] == (id, awaiting));
                        let k = slot_of(s, (id, awaiting));
                        assert(s[k] == (id, awaiting));
                        assert(s[k].0 == s[i as int].0);
                        lemma_remove_keeps_unique(s, i as int);
                    }
                    self.outstanding.remove(i);
                    true
                } else {
                    proof {
                        assert forall|k: int| 0 <= k < s.len() implies s[k] != (id, awaiting) by {
                            if s[k] == (id, awaiting) {
                                assert(s[k].0 == s[i as int].0);
                            }
                        }
                    }
                    false
                }
            },
            None => {
                proof {
                    assert forall|k: int| 0 <= k < s.len() implies s[k] != (id, awaiting) by {
                        if s[k] == (id, awaiting) {
                            assert(s[k].0 == id);
                        }
                    }
                }
                false
            },
        }
    }

    /// Routes one decoded response, as `route_spec` says.
    pub fn route<V>(&mut self, resp: Response<V>) -> (r: Route<V>)
        requires
            old(self).wf(),
        ensures
            final(self).wf(),
            (final(self)@.0, final(self)@.1, r) == route_spec(old(self)@.0, old(self)@.1, resp),
    {
        let ghost t = self@.1;
        match resp {
            Response::Get { request_id, value } => {
                if self.settle(request_id, Awaiting::GetAck) {
                    Route::Answer(request_id, Response::Get { request_id, value })
                } else {
                    Route::Unclaimed
                }
            },
            Response::UnsubscribeAll { request_id } => {
                if self.settle(request_id, Awaiting::UnsubscribeAllAck) {
                    self.streams.clear();
                    Route::Answer(request_id, Response::UnsubscribeAll { request_id })
                } else {
                    Route::Unclaimed
                }
            },
            Response::Subscribe { request_id, subscription_id } => {
                if self.settle(request_id, Awaiting::SubscribeAck) {
                    match self.find_stream(subscription_id) {
                        Some(j) => {
                            proof {
                                let k = stream_slot(t, subscription_id);
                                assert(t[k].0 == t[j as int].0);
                            }
                            self.streams.set(j, (subscription_id, request_id));
                            proof {
                                let u = self.streams@;
                                assert forall|a: int, b: int|
                                    0 <= a < u.len() && 0 <= b < u.len() && a != b implies u[a].0
                                    != u[b].0 by {
                                    assert(u[a].0 == t[a].0);
                                    assert(u[b].0 == t[b].0);
                                }
                            }
                        },
                        None => {
                            self.streams.push((subscription_id, request_id));
                            proof {
                                let u = self.streams@;
                                assert forall|a: int, b: int|
                                    0 <= a < u.len() && 0 <= b < u.len() && a != b implies u[a].0
                                    != u[b].0 by {
                                    if a == u.len() - 1 {
                                        assert(u[b] == t[b]);
                                    } else if b == u.len() - 1 {
                                        assert(u[a] == t[a]);
                                    } else {
                                        assert(u[a] == t[a]);
                                        assert(u[b] == t[b]);
                                    }
                                }
                            }
                        },
                    }
                    Route::Subscribed(request_id, subscription_id)
                } else {
                    Route::Unclaimed
                }
            },
            Response::Subscription { subscription_id, value } => {
                match self.find_stream(subscription_id) {
                    Some(j) => {
                        proof {
                            let k = stream_slot(t, subscription_id);
                            assert(t[k].0 == t[j as int].0);
                        }
                        Route::Update(self.streams[j].1, subscription_id, value)
                    },
                    None => Route::Unclaimed,
                }
            },
        }
    }
}

/// A request id fresh from the generator is never already outstanding, so
/// registering it always succeeds, provided every outstanding request drew
/// its id from that generator.
pub proof fn lemma_fresh_id_registers(d: Demux, g: ReqIDGenerator, id: ReqID)
    requires
        forall|i: int| 0 <= i < d@.0.len() ==> g.has_issued(#[trigger] d@.0[i].0),
        g.upcoming() == Some(id),
    ensures
        !has_request(d@.0, id),
{
    if has_request(d@.0, id) {
        let i = choose|i: int| 0 <= i < d@.0.len() && #[trigger] d@.0[i].0 == id;
        assert(g.has_issued(d@.0[i].0));
    }
}

} // verus!
