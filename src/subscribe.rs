//! Correlators of the streaming operations: a subscription, and the raw
//! stream of every decoded response.
use vstd::prelude::*;
use crate::error::VISClientError;
use crate::ids::{ReqID, ReqIDGenerator, SubscriptionID};
use crate::inbound::{Ending, Inbound, StreamStep, transport_error};
use crate::message::{Action, Filters, Response};

verus! {

/// Where one subscription stands.
#[derive(Clone, Copy, Debug, PartialEq, Eq, Structural)]
pub enum CorrelationState {
    /// The server has not yet acknowledged the subscribe request.
    AwaitingAck,
    /// The server acknowledged it and named the subscription with this id.
    Streaming(SubscriptionID),
}

/// Turns the inbound events of a connection into the updates of one
/// subscription.
pub struct SubscribeCorrelator {
    request_id: ReqID,
    state: CorrelationState,
}

impl View for SubscribeCorrelator {
    type V = (ReqID, CorrelationState);

    /// The request id of the subscribe request, and where the subscription stands.
    closed spec fn view(&self) -> (ReqID, CorrelationState) {
        (self.request_id, self.state)
    }
}

/// What one event does to a subscription: its next state and what the
/// stream does.
///
/// The first acknowledgement that carries the request id records the
/// subscription id; from then on exactly the updates with that id are
/// items. A transport failure, or the connection closing, ends the stream
/// with an error. Everything else is passed over.
pub open spec fn subscribe_next<T>(
    request_id: ReqID,
    state: CorrelationState,
    ev: Inbound<Result<T, serde_json::Error>>,
) -> (CorrelationState, StreamStep<(SubscriptionID, T)>) {
    match ev {
        Inbound::Response(Response::Subscribe { request_id: r, subscription_id }) => {
            if r == request_id && state == CorrelationState::AwaitingAck {
                (CorrelationState::Streaming(subscription_id), StreamStep::Skip)
            } else {
                (state, StreamStep::Skip)
            }
        },
        Inbound::Response(Response::Subscription { subscription_id, value }) => {
            if state == CorrelationState::Streaming(subscription_id) {
                match value {
                    Ok(t) => (state, StreamStep::Item((subscription_id, t))),
                    Err(e) => (state, StreamStep::Fail(VISClientError::SerdeError(e))),
                }
            } else {
                (state, StreamStep::Skip)
            }
        },
        Inbound::TransportFailed(e) => (state, StreamStep::Fail(transport_error(e))),
        Inbound::Closed => (state, StreamStep::Fail(VISClientError::ConnectionClosed)),
        _ => (state, StreamStep::Skip),
    }
}

/// A subscription over events in arrival order: the state it is left in, the
/// items it yields, and how it stopped.
pub open spec fn subscribe_run<T>(
    request_id: ReqID,
    state: CorrelationState,
    events: Seq<Inbound<Result<T, serde_json::Error>>>,
) -> (CorrelationState, Seq<(SubscriptionID, T)>, Ending)
    decreases events.len(),
{
    if events.len() == 0 {
        (state, Seq::empty(), Ending::Open)
    } else {
        let next = subscribe_next(request_id, state, events[0]);
        match next.1 {
            StreamStep::Skip => subscribe_run(request_id, next.0, events.drop_first()),
            StreamStep::Item(i) => {
                let rest = subscribe_run(request_id, next.0, events.drop_first());
                (rest.0, seq![i] + rest.1, rest.2)
            },
            StreamStep::Fail(e) => (next.0, Seq::empty(), Ending::Failed(e)),
        }
    }
}

/// Draws a fresh request id and builds the subscribe action that carries it,
/// or `None` when the generator has no id left.
pub fn subscribe_action(ids: &mut ReqIDGenerator, path: String, filters: Option<Filters>) -> (r:
    Option<Action>)
    ensures
        final(ids)@ == old(ids)@ + (if r is Some { 1int } else { 0int }),
        match old(ids).upcoming() {
            None => r is None,
            Some(id) => r == Some(Action::Subscribe { path, filters, request_id: id }),
        },
{
    match ids.next_id() {
        Some(request_id) => Some(Action::Subscribe { path, filters, request_id }),
        None => None,
    }
}

impl SubscribeCorrelator {
    /// Starts a subscription to `path`: returns the subscribe action to send
    /// with the correlator that follows its answer and updates, or `None`
    /// when the generator has no id left.
    pub fn start(ids: &mut ReqIDGenerator, path: String, filters: Option<Filters>) -> (r: Option<
        (Action, SubscribeCorrelator),
    >)
        ensures
            final(ids)@ == old(ids)@ + (if r is Some { 1int } else { 0int }),
            match old(ids).upcoming() {
                None => r is None,
                Some(id) => r matches Some((a, c)) && a == (Action::Subscribe {
                    path,
                    filters,
                    request_id: id,
                }) && c@ == (id, CorrelationState::AwaitingAck),
            },
    {
        match subscribe_action(ids, path, filters) {
            Some(a) => {
                let request_id = a.request_id();
                Some((a, SubscribeCorrelator { request_id, state: CorrelationState::AwaitingAck }))
            },
            None => None,
        }
    }

    /// Where the subscription stands.
    pub fn state(&self) -> (r: CorrelationState)
        ensures
            r == self@.1,
    {
        self.state
    }

    /// Handles one inbound event, moving the subscription on as
    /// `subscribe_next` says.
    pub fn on_event<T>(&mut self, ev: Inbound<Result<T, serde_json::Error>>) -> (r: StreamStep<
        (SubscriptionID, T),
    >)
        ensures
            final(self)@.0 == old(self)@.0,
            (final(self)@.1, r) == subscribe_next(old(self)@.0, old(self)@.1, ev),
    {
        match ev {
            Inbound::Response(Response::Subscribe { request_id, subscription_id }) => {
                if request_id == self.request_id && self.state == CorrelationState::AwaitingAck {
                    self.state = CorrelationState::Streaming(subscription_id);
                }
                StreamStep::Skip
            },
            Inbound::Response(Response::Subscription { subscription_id, value }) => {
                if self.state == CorrelationState::Streaming(subscription_id) {
                    match value {
                        Ok(t) => StreamStep::Item((subscription_id, t)),
                        Err(e) => StreamStep::Fail(VISClientError::SerdeError(e)),
                    }
                } else {
                    StreamStep::Skip
                }
            },
            Inbound::TransportFailed(e) => StreamStep::Fail(VISClientError::WebSocketError(e)),
            Inbound::Closed => StreamStep::Fail(VISClientError::ConnectionClosed),
            _ => StreamStep::Skip,
        }
    }

    /// Feeds events in arrival order until the stream fails or the events
    /// run out; returns the items in order and how the stream stopped.
    pub fn run<T>(&mut self, events: Vec<Inbound<Result<T, serde_json::Error>>>) -> (r: (
        Vec<(SubscriptionID, T)>,
        Ending,
    ))
        ensures
            ({
                let expected = subscribe_run(old(self)@.0, old(self)@.1, events@);
                &&& final(self)@ == (old(self)@.0, expected.0)
                &&& r.0@ == expected.1
                &&& r.1 == expected.2
            }),
    {
        let ghost total = subscribe_run(self@.0, self@.1, events@);
        let mut items: Vec<(SubscriptionID, T)> = Vec::new();
        let mut pending = events;
        while pending.len() > 0
            invariant
                self@.0 == old(self)@.0,
                total == subscribe_run(old(self)@.0, old(self)@.1, events@),
                ({
                    let rest = subscribe_run(self@.0, self@.1, pending@);
                    &&& rest.0 == total.0
                    &&& items@ + rest.1 == total.1
                    &&& rest.2 == total.2
                }),
            decreases pending.len(),
        {
            let ghost before = pending@;
            let ghost state_before = self@.1;
            proof {
                assert(pending@.remove(0) =~= pending@.drop_first());
            }
            let ev = pending.remove(0);
            match self.on_event(ev) {
                StreamStep::Skip => {},
                StreamStep::Item(i) => {
                    proof {
                        let rest = subscribe_run(self@.0, self@.1, pending@);
                        assert(items@.push(i) + rest.1 =~= items@ + (seq![i] + rest.1));
                    }
                    items.push(i);
                },
                StreamStep::Fail(e) => {
                    proof {
                        assert(items@ + Seq::<(SubscriptionID, T)>::empty() =~= items@);
                    }
                    return (items, Ending::Failed(e));
                },
            }
        }
        proof {
            assert(items@ + Seq::<(SubscriptionID, T)>::empty() =~= items@);
        }
        (items, Ending::Open)
    }
}

/// What one event does to the raw stream of a subscribe request: every
/// decoded response is an item, whatever its kind or ids; a malformed frame
/// ends the stream with its error, and so do a transport failure and the
/// connection closing.
pub open spec fn raw_next<V>(ev: Inbound<V>) -> StreamStep<Response<V>> {
    match ev {
        Inbound::Response(r) => StreamStep::Item(r),
        Inbound::Malformed(e) => StreamStep::Fail(VISClientError::SerdeError(e)),
        Inbound::NonText => StreamStep::Skip,
        Inbound::TransportFailed(e) => StreamStep::Fail(transport_error(e)),
        Inbound::Closed => StreamStep::Fail(VISClientError::ConnectionClosed),
    }
}

/// Handles one inbound event of the raw stream, as `raw_next` says.
pub fn raw_step<V>(ev: Inbound<V>) -> (r: StreamStep<Response<V>>)
    ensures
        r == raw_next(ev),
{
    match ev {
        Inbound::Response(r) => StreamStep::Item(r),
        Inbound::Malformed(e) => StreamStep::Fail(VISClientError::SerdeError(e)),
        Inbound::NonText => StreamStep::Skip,
        Inbound::TransportFailed(e) => StreamStep::Fail(VISClientError::WebSocketError(e)),
        Inbound::Closed => StreamStep::Fail(VISClientError::ConnectionClosed),
    }
}

/// The raw stream over events in arrival order: the responses it yields,
/// and how it stopped.
pub open spec fn raw_run<V>(events: Seq<Inbound<V>>) -> (Seq<Response<V>>, Ending)
    decreases events.len(),
{
    if events.len() == 0 {
        (Seq::empty(), Ending::Open)
    } else {
        match raw_next(events[0]) {
            StreamStep::Skip => raw_run(events.drop_first()),
            StreamStep::Item(i) => {
                let rest = raw_run(events.drop_first());
                (seq![i] + rest.0, rest.1)
            },
            StreamStep::Fail(e) => (Seq::empty(), Ending::Failed(e)),
        }
    }
}

/// Feeds events in arrival order to the raw stream until it fails or the
/// events run out; returns the responses in order and how the stream
/// stopped. No event after the first failure is read.
pub fn run_raw<V>(events: Vec<Inbound<V>>) -> (r: (Vec<Response<V>>, Ending))
    ensures
        r.0@ == raw_run(events@).0,
        r.1 == raw_run(events@).1,
{
    let ghost total = raw_run(events@);
    let mut items: Vec<Response<V>> = Vec::new();
    let mut pending = events;
    while pending.len() > 0
        invariant
            total == raw_run(events@),
            items@ + raw_run(pending@).0 == total.0,
            raw_run(pending@).1 == total.1,
        decreases pending.len(),
    {
        proof {
            assert(pending@.remove(0) =~= pending@.drop_first());
        }
        let ev = pending.remove(0);
        match raw_step(ev) {
            StreamStep::Skip => {},
            StreamStep::Item(i) => {
                proof {
                    let rest = raw_run(pending@);
                    assert(items@.push(i) + rest.0 =~= items@ + (seq![i] + rest.0));
                }
                items.push(i);
            },
            StreamStep::Fail(e) => {
                proof {
                    assert(items@ + Seq::<Response<V>>::empty() =~= items@);
                }
                return (items, Ending::Failed(e));
            },
        }
    }
    proof {
        assert(items@ + Seq::<Response<V>>::empty() =~= items@);
    }
    (items, Ending::Open)
}

/// A subscription whose connection closes never ends quietly: after the
/// items of the events before the close, it fails with `ConnectionClosed`,
/// whether or not it was acknowledged.
pub proof fn lemma_subscribe_close_is_error<T>(
    r: ReqID,
    state: CorrelationState,
    before: Seq<Inbound<Result<T, serde_json::Error>>>,
    rest: Seq<Inbound<Result<T, serde_json::Error>>>,
)
    requires
        subscribe_run(r, state, before).2 is Open,
    ensures
        ({
            let pre = subscribe_run(r, state, before);
            subscribe_run(r, state, before + seq![Inbound::Closed] + rest) == (
                pre.0,
                pre.1,
                Ending::Failed(VISClientError::ConnectionClosed),
            )
        }),
    decreases before.len(),
{
    let whole = before + seq![Inbound::Closed] + rest;
    if before.len() == 0 {
        assert(whole =~= seq![Inbound::Closed] + rest);
        assert(whole[0] == Inbound::<Result<T, serde_json::Error>>::Closed);
    } else {
        assert(whole[0] == before[0]);
        assert(whole.drop_first() =~= before.drop_first() + seq![Inbound::Closed] + rest);
        let next = subscribe_next(r, state, before[0]);
        lemma_subscribe_close_is_error(r, next.0, before.drop_first(), rest);
    }
}

/// The raw stream of a connection that closes never ends quietly: after the
/// responses of the events before the close, it fails with
/// `ConnectionClosed`.
pub proof fn lemma_raw_close_is_error<V>(before: Seq<Inbound<V>>, rest: Seq<Inbound<V>>)
    requires
        raw_run(before).1 is Open,
    ensures
        raw_run(before + seq![Inbound::Closed] + rest) == (
            raw_run(before).0,
            Ending::Failed(VISClientError::ConnectionClosed),
        ),
    decreases before.len(),
{
    let whole = before + seq![Inbound::Closed] + rest;
    if before.len() == 0 {
        assert(whole =~= seq![Inbound::Closed] + rest);
        assert(whole[0] == Inbound::<V>::Closed);
    } else {
        assert(whole[0] == before[0]);
        assert(whole.drop_first() =~= before.drop_first() + seq![Inbound::Closed] + rest);
        lemma_raw_close_is_error(before.drop_first(), rest);
    }
}

/// The update events of subscription `s` that carry the given values, read
/// as the caller's type.
pub open spec fn readable_updates<T>(s: SubscriptionID, values: Seq<T>) -> Seq<
    Inbound<Result<T, serde_json::Error>>,
> {
    values.map_values(
        |v: T| Inbound::Response(Response::Subscription { subscription_id: s, value: Ok(v) }),
    )
}

/// Any number of readable updates of a streaming subscription are yielded
/// in order; the first update whose value cannot be read as the caller's
/// type then ends the stream with that reading's error.
pub proof fn lemma_subscribe_unreadable_update_fails<T>(
    r: ReqID,
    s: SubscriptionID,
    values: Seq<T>,
    bad: serde_json::Error,
    rest: Seq<Inbound<Result<T, serde_json::Error>>>,
)
    ensures
        subscribe_run(
            r,
            CorrelationState::Streaming(s),
            readable_updates(s, values) + seq![
                Inbound::Response(Response::Subscription { subscription_id: s, value: Err(bad) }),
            ] + rest,
        ) == (
            CorrelationState::Streaming(s),
            values.map_values(|v: T| (s, v)),
            Ending::Failed(VISClientError::SerdeError(bad)),
        ),
    decreases values.len(),
{
    let st = CorrelationState::Streaming(s);
    let unreadable = Inbound::Response(
        Response::Subscription { subscription_id: s, value: Err::<T, serde_json::Error>(bad) },
    );
    let whole = readable_updates(s, values) + seq![unreadable] + rest;
    if values.len() == 0 {
        assert(whole[0] == unreadable);
        assert(values.map_values(|v: T| (s, v)) =~= Seq::<(SubscriptionID, T)>::empty());
    } else {
        assert(whole[0] == Inbound::Response(
            Response::Subscription { subscription_id: s, value: Ok::<T, serde_json::Error>(values[0]) },
        ));
        assert(readable_updates(s, values).drop_first() =~= readable_updates(s, values.drop_first()));
        assert(whole.drop_first() =~= readable_updates(s, values.drop_first()) + seq![unreadable] + rest);
        lemma_subscribe_unreadable_update_fails(r, s, values.drop_first(), bad, rest);
        assert(seq![(s, values[0])] + values.drop_first().map_values(|v: T| (s, v)) =~= values.map_values(|v: T| (s, v)));
    }
}

/// A subscription yields exactly the updates that carry the id its
/// acknowledgement assigned, in order: after the acknowledgement of request
/// `r` naming `s`, updates for `s`, for another id `s2`, and for `s` again
/// yield the first and the last, and nothing for `s2`.
pub proof fn lemma_subscribe_keeps_own_updates<T>(
    r: ReqID,
    s: SubscriptionID,
    s2: SubscriptionID,
    v1: T,
    v2: T,
    v3: T,
)
    requires
        s2 != s,
    ensures
        subscribe_run(
            r,
            CorrelationState::AwaitingAck,
            seq![
                Inbound::Response(Response::Subscribe { request_id: r, subscription_id: s }),
                Inbound::Response(Response::Subscription { subscription_id: s, value: Ok(v1) }),
                Inbound::Response(Response::Subscription { subscription_id: s2, value: Ok(v2) }),
                Inbound::Response(Response::Subscription { subscription_id: s, value: Ok(v3) }),
            ],
        ) == (CorrelationState::Streaming(s), seq![(s, v1), (s, v3)], Ending::Open),
{
    let ack = Inbound::<Result<T, serde_json::Error>>::Response(
        Response::Subscribe { request_id: r, subscription_id: s },
    );
    let u1 = Inbound::<Result<T, serde_json::Error>>::Response(
        Response::Subscription { subscription_id: s, value: Ok(v1) },
    );
    let u2 = Inbound::<Result<T, serde_json::Error>>::Response(
        Response::Subscription { subscription_id: s2, value: Ok(v2) },
    );
    let u3 = Inbound::<Result<T, serde_json::Error>>::Response(
        Response::Subscription { subscription_id: s, value: Ok(v3) },
    );
    let st = CorrelationState::Streaming(s);
    let e0 = seq![ack, u1, u2, u3];
    let e1 = seq![u1, u2, u3];
    let e2 = seq![u2, u3];
    let e3 = seq![u3];
    assert(e0.drop_first() =~= e1);
    assert(e1.drop_first() =~= e2);
    assert(e2.drop_first() =~= e3);
    assert(e3.drop_first() =~= Seq::<Inbound<Result<T, serde_json::Error>>>::empty());
    assert(e0[0] == ack && e1[0] == u1 && e2[0] == u2 && e3[0] == u3);
    assert(subscribe_next(r, CorrelationState::AwaitingAck, ack) == (st, StreamStep::<(SubscriptionID, T)>::Skip));
    assert(subscribe_next(r, st, u1) == (st, StreamStep::Item((s, v1))));
    assert(subscribe_next(r, st, u2) == (st, StreamStep::<(SubscriptionID, T)>::Skip));
    assert(subscribe_next(r, st, u3) == (st, StreamStep::Item((s, v3))));
    assert(subscribe_run(r, st, e3.drop_first()) == (st, Seq::<(SubscriptionID, T)>::empty(), Ending::Open));
    assert(subscribe_run(r, st, e3) == (st, seq![(s, v3)] + Seq::<(SubscriptionID, T)>::empty(), Ending::Open));
    assert(seq![(s, v3)] + Seq::<(SubscriptionID, T)>::empty() =~= seq![(s, v3)]);
    assert(subscribe_run(r, st, e2) == subscribe_run(r, st, e3));
    assert(subscribe_run(r, st, e1) == (st, seq![(s, v1)] + seq![(s, v3)], Ending::Open));
    assert(seq![(s, v1)] + seq![(s, v3)] =~= seq![(s, v1), (s, v3)]);
    assert(subscribe_run(r, CorrelationState::AwaitingAck, e0) == subscribe_run(r, st, e1));
}

/// A frame with malformed payload text never ends a subscription: it is
/// passed over. An update for the subscription whose value cannot be read
/// as the caller's type ends the stream with that reading's error.
pub proof fn lemma_subscribe_malformed<T>(
    r: ReqID,
    state: CorrelationState,
    e: serde_json::Error,
    s: SubscriptionID,
    bad: serde_json::Error,
    rest: Seq<Inbound<Result<T, serde_json::Error>>>,
)
    ensures
        subscribe_run(r, state, seq![Inbound::Malformed(e)] + rest) == subscribe_run(r, state, rest),
        subscribe_run(
            r,
            CorrelationState::Streaming(s),
            seq![Inbound::Response(Response::Subscription { subscription_id: s, value: Err(bad) })]
                + rest,
        ) == (
            CorrelationState::Streaming(s),
            Seq::<(SubscriptionID, T)>::empty(),
            Ending::Failed(VISClientError::SerdeError(bad)),
        ),
{
    let s1 = seq![Inbound::Malformed(e)] + rest;
    assert(s1.drop_first() =~= rest);
    let s2 = seq![Inbound::Response(Response::Subscription { subscription_id: s, value: Err::<T, serde_json::Error>(bad) })]
        + rest;
    assert(s2[0] == Inbound::Response(Response::Subscription { subscription_id: s, value: Err::<T, serde_json::Error>(bad) }));
}

} // verus!
