//! Correlators of the single-shot operations: get and unsubscribe-all.
//!
//! Each sends one action and then waits for the one response that carries
//! its request id; every other frame is passed over.
use vstd::prelude::*;
use crate::error::VISClientError;
use crate::ids::{ReqID, ReqIDGenerator};
use crate::inbound::{Inbound, into_outcome, transport_error, value_outcome};
use crate::message::{Action, Response};

verus! {

/// Waits for the answer to one get request.
pub struct GetCorrelator {
    pub request_id: ReqID,
}

/// Waits for the answer to one unsubscribe-all request.
pub struct UnsubscribeAllCorrelator {
    pub request_id: ReqID,
}

impl GetCorrelator {
    /// What one event does to the operation: `None` while it still waits,
    /// else its result.
    pub open spec fn spec_step<T>(self, ev: Inbound<Result<T, serde_json::Error>>) -> Option<
        Result<T, VISClientError>,
    > {
        match ev {
            Inbound::Response(Response::Get { request_id, value }) => {
                if request_id == self.request_id {
                    Some(value_outcome(value))
                } else {
                    None
                }
            },
            Inbound::TransportFailed(e) => Some(Err(transport_error(e))),
            Inbound::Closed => Some(Err(VISClientError::ConnectionClosed)),
            _ => None,
        }
    }

    /// The result of the operation over events in arrival order: that of the
    /// first event that settles it, `None` if none does.
    pub open spec fn spec_run<T>(self, events: Seq<Inbound<Result<T, serde_json::Error>>>) -> Option<
        Result<T, VISClientError>,
    >
        decreases events.len(),
    {
        if events.len() == 0 {
            None
        } else {
            match self.spec_step(events[0]) {
                Some(r) => Some(r),
                None => self.spec_run(events.drop_first()),
            }
        }
    }

    /// Starts a get of `path`: draws a fresh request id and returns the
    /// action to send with the correlator that waits for its answer, or
    /// `None` when the generator has no id left.
    pub fn start(ids: &mut ReqIDGenerator, path: String) -> (r: Option<(Action, GetCorrelator)>)
        ensures
            final(ids)@ == old(ids)@ + (if r is Some { 1int } else { 0int }),
            match old(ids).upcoming() {
                None => r is None,
                Some(id) => r matches Some((a, c)) && a == (Action::Get { path, request_id: id })
                    && c.request_id == id,
            },
    {
        match ids.next_id() {
            Some(request_id) => Some(
                (Action::Get { path, request_id }, GetCorrelator { request_id }),
            ),
            None => None,
        }
    }

    /// Handles one inbound event: `None` while the operation still waits,
    /// else its result.
    pub fn step<T>(&self, ev: Inbound<Result<T, serde_json::Error>>) -> (r: Option<
        Result<T, VISClientError>,
    >)
        ensures
            r == self.spec_step(ev),
    {
        match ev {
            Inbound::Response(Response::Get { request_id, value }) => {
                if request_id == self.request_id {
                    Some(into_outcome(value))
                } else {
                    None
                }
            },
            Inbound::TransportFailed(e) => Some(Err(VISClientError::WebSocketError(e))),
            Inbound::Closed => Some(Err(VISClientError::ConnectionClosed)),
            _ => None,
        }
    }

    /// Feeds events in arrival order until one settles the operation.
    pub fn run<T>(&self, events: Vec<Inbound<Result<T, serde_json::Error>>>) -> (r: Option<
        Result<T, VISClientError>,
    >)
        ensures
            r == self.spec_run(events@),
    {
        let mut pending = events;
        while pending.len() > 0
            invariant
                self.spec_run(pending@) == self.spec_run(events@),
            decreases pending.len(),
        {
            let ghost before = pending@;
            proof {
                assert(pending@.remove(0) =~= pending@.drop_first());
            }
            let ev = pending.remove(0);
            match self.step(ev) {
                Some(r) => {
                    assert(self.spec_run(before) == Some(r));
                    return Some(r);
                },
                None => {},
            }
        }
        None
    }
}

impl UnsubscribeAllCorrelator {
    /// What one event does to the operation: `None` while it still waits,
    /// else its result.
    pub open spec fn spec_step<V>(self, ev: Inbound<V>) -> Option<Result<(), VISClientError>> {
        match ev {
            Inbound::Response(Response::UnsubscribeAll { request_id }) => {
                if request_id == self.request_id {
                    Some(Ok(()))
                } else {
                    None
                }
            },
            Inbound::TransportFailed(e) => Some(Err(transport_error(e))),
            Inbound::Closed => Some(Err(VISClientError::ConnectionClosed)),
            _ => None,
        }
    }

    /// The result of the operation over events in arrival order: that of the
    /// first event that settles it, `None` if none does.
    pub open spec fn spec_run<V>(self, events: Seq<Inbound<V>>) -> Option<Result<(), VISClientError>>
        decreases events.len(),
    {
        if events.len() == 0 {
            None
        } else {
            match self.spec_step(events[0]) {
                Some(r) => Some(r),
                None => self.spec_run(events.drop_first()),
            }
        }
    }

    /// Starts an unsubscribe-all: draws a fresh request id and returns the
    /// action to send with the correlator that waits for its answer, or
    /// `None` when the generator has no id left.
    pub fn start(ids: &mut ReqIDGenerator) -> (r: Option<(Action, UnsubscribeAllCorrelator)>)
        ensures
            final(ids)@ == old(ids)@ + (if r is Some { 1int } else { 0int }),
            match old(ids).upcoming() {
                None => r is None,
                Some(id) => r matches Some((a, c)) && a == (Action::UnsubscribeAll { request_id: id })
                    && c.request_id == id,
            },
    {
        match ids.next_id() {
            Some(request_id) => Some(
                (Action::UnsubscribeAll { request_id }, UnsubscribeAllCorrelator { request_id }),
            ),
            None => None,
        }
    }

    /// Handles one inbound event: `None` while the operation still waits,
    /// else its result.
    pub fn step<V>(&self, ev: Inbound<V>) -> (r: Option<Result<(), VISClientError>>)
        ensures
            r == self.spec_step(ev),
    {
        match ev {
            Inbound::Response(Response::UnsubscribeAll { request_id }) => {
                if request_id == self.request_id {
                    Some(Ok(()))
                } else {
                    None
                }
            },
            Inbound::TransportFailed(e) => Some(Err(VISClientError::WebSocketError(e))),
            Inbound::Closed => Some(Err(VISClientError::ConnectionClosed)),
            _ => None,
        }
    }

    /// Feeds events in arrival order until one settles the operation.
    pub fn run<V>(&self, events: Vec<Inbound<V>>) -> (r: Option<Result<(), VISClientError>>)
        ensures
            r == self.spec_run(events@),
    {
        let mut pending = events;
        while pending.len() > 0
            invariant
                self.spec_run(pending@) == self.spec_run(events@),
            decreases pending.len(),
        {
            let ghost before = pending@;
            proof {
                assert(pending@.remove(0) =~= pending@.drop_first());
            }
            let ev = pending.remove(0);
            match self.step(ev) {
                Some(r) => {
                    assert(self.spec_run(before) == Some(r));
                    return Some(r);
                },
                None => {},
            }
        }
        None
    }
}

/// Events that leave a get waiting change nothing: the run over them
/// followed by more events is the run over the rest alone.
pub proof fn lemma_get_passes_over<T>(
    c: GetCorrelator,
    skipped: Seq<Inbound<Result<T, serde_json::Error>>>,
    rest: Seq<Inbound<Result<T, serde_json::Error>>>,
)
    requires
        forall|i: int| 0 <= i < skipped.len() ==> (#[trigger] c.spec_step(skipped[i])) is None,
    ensures
        c.spec_run(skipped + rest) == c.spec_run(rest),
    decreases skipped.len(),
{
    if skipped.len() > 0 {
        assert((skipped + rest).drop_first() =~= skipped.drop_first() + rest);
        assert(c.spec_step(skipped[0]) is None);
        lemma_get_passes_over(c, skipped.drop_first(), rest);
    } else {
        assert(skipped + rest =~= rest);
    }
}

/// Events that leave an unsubscribe-all waiting change nothing: the run over
/// them followed by more events is the run over the rest alone.
pub proof fn lemma_unsubscribe_all_passes_over<V>(
    c: UnsubscribeAllCorrelator,
    skipped: Seq<Inbound<V>>,
    rest: Seq<Inbound<V>>,
)
    requires
        forall|i: int| 0 <= i < skipped.len() ==> (#[trigger] c.spec_step(skipped[i])) is None,
    ensures
        c.spec_run(skipped + rest) == c.spec_run(rest),
    decreases skipped.len(),
{
    if skipped.len() > 0 {
        assert((skipped + rest).drop_first() =~= skipped.drop_first() + rest);
        assert(c.spec_step(skipped[0]) is None);
        lemma_unsubscribe_all_passes_over(c, skipped.drop_first(), rest);
    } else {
        assert(skipped + rest =~= rest);
    }
}

/// A frame with malformed payload text never ends a get: it is passed over.
/// A matching answer whose value cannot be read as the caller's type ends
/// the get with that reading's error.
pub proof fn lemma_get_malformed<T>(
    c: GetCorrelator,
    e: serde_json::Error,
    rest: Seq<Inbound<Result<T, serde_json::Error>>>,
    bad: serde_json::Error,
)
    ensures
        c.spec_run(seq![Inbound::Malformed(e)] + rest) == c.spec_run(rest),
        c.spec_run(
            seq![Inbound::Response(Response::Get { request_id: c.request_id, value: Err(bad) })]
                + rest,
        ) == Some(Err::<T, VISClientError>(VISClientError::SerdeError(bad))),
{
    let s1 = seq![Inbound::Malformed(e)] + rest;
    assert(s1.drop_first() =~= rest);
    let s2 = seq![Inbound::Response(Response::Get { request_id: c.request_id, value: Err(bad) })]
        + rest;
    assert(s2[0] == Inbound::Response(Response::Get { request_id: c.request_id, value: Err::<T, serde_json::Error>(bad) }));
}

/// A get whose connection closes before its answer arrives fails with
/// `ConnectionClosed`: it never waits forever on a closed connection.
pub proof fn lemma_get_fails_on_close<T>(
    c: GetCorrelator,
    before: Seq<Inbound<Result<T, serde_json::Error>>>,
    rest: Seq<Inbound<Result<T, serde_json::Error>>>,
)
    requires
        forall|i: int| 0 <= i < before.len() ==> (#[trigger] c.spec_step(before[i])) is None,
    ensures
        c.spec_run(before + seq![Inbound::Closed] + rest) == Some(
            Err::<T, VISClientError>(VISClientError::ConnectionClosed),
        ),
{
    assert(before + seq![Inbound::Closed] + rest =~= before + (seq![Inbound::Closed] + rest));
    lemma_get_passes_over(c, before, seq![Inbound::Closed] + rest);
}

/// An unsubscribe-all whose connection closes before its answer arrives
/// fails with `ConnectionClosed`: it never waits forever on a closed
/// connection.
pub proof fn lemma_unsubscribe_all_fails_on_close<V>(
    c: UnsubscribeAllCorrelator,
    before: Seq<Inbound<V>>,
    rest: Seq<Inbound<V>>,
)
    requires
        forall|i: int| 0 <= i < before.len() ==> (#[trigger] c.spec_step(before[i])) is None,
    ensures
        c.spec_run(before + seq![Inbound::Closed] + rest) == Some(
            Err::<(), VISClientError>(VISClientError::ConnectionClosed),
        ),
{
    assert(before + seq![Inbound::Closed] + rest =~= before + (seq![Inbound::Closed] + rest));
    lemma_unsubscribe_all_passes_over(c, before, seq![Inbound::Closed] + rest);
}

/// Unsubscribe-all can be issued twice in a row and both succeed: the two
/// calls get distinct request ids from the generator, each succeeds on its
/// own acknowledgement, and the first call's acknowledgement, seen again
/// by the second, does not settle it.
pub proof fn lemma_unsubscribe_all_twice<V>(
    g0: ReqIDGenerator,
    g1: ReqIDGenerator,
    first: UnsubscribeAllCorrelator,
    second: UnsubscribeAllCorrelator,
    rest: Seq<Inbound<V>>,
)
    requires
        g0.upcoming() == Some(first.request_id),
        g1@ == g0@ + 1,
        g1.upcoming() == Some(second.request_id),
    ensures
        first.request_id != second.request_id,
        first.spec_run(
            seq![Inbound::Response(Response::UnsubscribeAll { request_id: first.request_id })] + rest,
        ) == Some(Ok::<(), VISClientError>(())),
        second.spec_run(
            seq![
                Inbound::Response(Response::UnsubscribeAll { request_id: first.request_id }),
                Inbound::Response(Response::UnsubscribeAll { request_id: second.request_id }),
            ] + rest,
        ) == Some(Ok::<(), VISClientError>(())),
{
    crate::ids::lemma_successive_ids_differ(g0, g1, first.request_id, second.request_id);
    let stale = Inbound::<V>::Response(Response::UnsubscribeAll { request_id: first.request_id });
    let fresh = Inbound::<V>::Response(Response::UnsubscribeAll { request_id: second.request_id });
    let s = seq![stale, fresh] + rest;
    assert(second.spec_step(stale) is None);
    assert(s[0] == stale);
    assert(s.drop_first() =~= seq![fresh] + rest);
    assert((seq![fresh] + rest)[0] == fresh);
    assert(second.spec_run(seq![fresh] + rest) == Some(Ok::<(), VISClientError>(())));
    assert(second.spec_run(s) == second.spec_run(s.drop_first()));
    assert((seq![stale] + rest)[0] == stale);
}

} // verus!
