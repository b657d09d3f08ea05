//! The protocol's messages: actions the client sends, responses it receives,
//! and the flat wire envelope that both travel in.
use vstd::prelude::*;
use crate::ids::{ReqID, SubscriptionID};

verus! {

/// The `"action"` tag of a wire object.
#[derive(Clone, Copy, Debug, PartialEq, Eq, Structural)]
pub enum ActionKind {
    Get,
    Subscribe,
    Subscription,
    UnsubscribeAll,
}

/// Conditions under which the server sends subscription updates.
#[derive(Clone, Copy, Debug, PartialEq, Eq, Structural)]
pub struct Filters {
    /// Least time between two updates, in milliseconds.
    pub interval: Option<u64>,
    /// Send only values above this bound.
    pub range_above: Option<i64>,
    /// Send only values below this bound.
    pub range_below: Option<i64>,
    /// Send only when the value moved by at least this much.
    pub min_change: Option<u64>,
}

/// A request from client to server.
#[derive(Clone, Debug)]
pub enum Action {
    Get { path: String, request_id: ReqID },
    Subscribe { path: String, filters: Option<Filters>, request_id: ReqID },
    UnsubscribeAll { request_id: ReqID },
}

/// A successful answer from server to client; `V` is the type of a signal value.
#[derive(Clone, Debug)]
pub enum Response<V> {
    Get { request_id: ReqID, value: V },
    Subscribe { request_id: ReqID, subscription_id: SubscriptionID },
    Subscription { subscription_id: SubscriptionID, value: V },
    UnsubscribeAll { request_id: ReqID },
}

/// A field of the wire object.
#[derive(Clone, Copy, Debug, PartialEq, Eq, Structural)]
pub enum Field {
    Path,
    RequestId,
    SubscriptionId,
    Value,
}

/// Why a wire object does not form a message of the expected kind.
#[derive(Clone, Copy, Debug, PartialEq, Eq, Structural)]
pub enum DecodeError {
    /// The object lacks a field that its action tag calls for.
    Missing(Field),
    /// The action tag names no message of this direction.
    UnexpectedAction(ActionKind),
}

/// One wire object, field by field, as the JSON text carries it.
#[derive(Clone, Debug)]
pub struct Envelope<V> {
    pub action: ActionKind,
    pub path: Option<String>,
    pub filters: Option<Filters>,
    pub request_id: Option<ReqID>,
    pub subscription_id: Option<SubscriptionID>,
    pub value: Option<V>,
}

impl Action {
    /// The request id that the action carries.
    pub open spec fn spec_request_id(&self) -> ReqID {
        match self {
            Action::Get { request_id, .. } => *request_id,
            Action::Subscribe { request_id, .. } => *request_id,
            Action::UnsubscribeAll { request_id } => *request_id,
        }
    }

    /// The wire object of an action: its tag and its own fields, nothing else.
    pub open spec fn spec_envelope<V>(self) -> Envelope<V> {
        match self {
            Action::Get { path, request_id } => Envelope {
                action: ActionKind::Get,
                path: Some(path),
                filters: None,
                request_id: Some(request_id),
                subscription_id: None,
                value: None,
            },
            Action::Subscribe { path, filters, request_id } => Envelope {
                action: ActionKind::Subscribe,
                path: Some(path),
                filters,
                request_id: Some(request_id),
                subscription_id: None,
                value: None,
            },
            Action::UnsubscribeAll { request_id } => Envelope {
                action: ActionKind::UnsubscribeAll,
                path: None,
                filters: None,
                request_id: Some(request_id),
                subscription_id: None,
                value: None,
            },
        }
    }

    /// The action that a wire object describes; fields that its tag does not
    /// call for are ignored.
    pub open spec fn spec_from_envelope<V>(e: Envelope<V>) -> Result<Action, DecodeError> {
        match e.action {
            ActionKind::Get => match (e.path, e.request_id) {
                (Some(path), Some(request_id)) => Ok(Action::Get { path, request_id }),
                (None, _) => Err(DecodeError::Missing(Field::Path)),
                (_, None) => Err(DecodeError::Missing(Field::RequestId)),
            },
            ActionKind::Subscribe => match (e.path, e.request_id) {
                (Some(path), Some(request_id)) => Ok(
                    Action::Subscribe { path, filters: e.filters, request_id },
                ),
                (None, _) => Err(DecodeError::Missing(Field::Path)),
                (_, None) => Err(DecodeError::Missing(Field::RequestId)),
            },
            ActionKind::UnsubscribeAll => match e.request_id {
                Some(request_id) => Ok(Action::UnsubscribeAll { request_id }),
                None => Err(DecodeError::Missing(Field::RequestId)),
            },
            ActionKind::Subscription => Err(DecodeError::UnexpectedAction(ActionKind::Subscription)),
        }
    }

    /// The request id that the action carries.
    pub fn request_id(&self) -> (r: ReqID)
        ensures
            r == self.spec_request_id(),
    {
        match self {
            Action::Get { request_id, .. } => *request_id,
            Action::Subscribe { request_id, .. } => *request_id,
            Action::UnsubscribeAll { request_id } => *request_id,
        }
    }

    /// Lays the action out as a wire object.
    pub fn into_envelope<V>(self) -> (e: Envelope<V>)
        ensures
            e == self.spec_envelope::<V>(),
    {
        match self {
            Action::Get { path, request_id } => Envelope {
                action: ActionKind::Get,
                path: Some(path),
                filters: None,
                request_id: Some(request_id),
                subscription_id: None,
                value: None,
            },
            Action::Subscribe { path, filters, request_id } => Envelope {
                action: ActionKind::Subscribe,
                path: Some(path),
                filters,
                request_id: Some(request_id),
                subscription_id: None,
                value: None,
            },
            Action::UnsubscribeAll { request_id } => Envelope {
                action: ActionKind::UnsubscribeAll,
                path: None,
                filters: None,
                request_id: Some(request_id),
                subscription_id: None,
                value: None,
            },
        }
    }

    /// Reads an action from a wire object.
    pub fn from_envelope<V>(e: Envelope<V>) -> (r: Result<Action, DecodeError>)
        ensures
            r == Action::spec_from_envelope(e),
    {
        match e.action {
            ActionKind::Get => match (e.path, e.request_id) {
                (Some(path), Some(request_id)) => Ok(Action::Get { path, request_id }),
                (None, _) => Err(DecodeError::Missing(Field::Path)),
                (_, None) => Err(DecodeError::Missing(Field::RequestId)),
            },
            ActionKind::Subscribe => match (e.path, e.request_id) {
                (Some(path), Some(request_id)) => Ok(
                    Action::Subscribe { path, filters: e.filters, request_id },
                ),
                (None, _) => Err(DecodeError::Missing(Field::Path)),
                (_, None) => Err(DecodeError::Missing(Field::RequestId)),
            },
            ActionKind::UnsubscribeAll => match e.request_id {
                Some(request_id) => Ok(Action::UnsubscribeAll { request_id }),
                None => Err(DecodeError::Missing(Field::RequestId)),
            },
            ActionKind::Subscription => Err(DecodeError::UnexpectedAction(ActionKind::Subscription)),
        }
    }
}

impl<V> Response<V> {
    /// The wire object of a response: its tag and its own fields, nothing else.
    pub open spec fn spec_envelope(self) -> Envelope<V> {
        match self {
            Response::Get { request_id, value } => Envelope {
                action: ActionKind::Get,
                path: None,
                filters: None,
                request_id: Some(request_id),
                subscription_id: None,
                value: Some(value),
            },
            Response::Subscribe { request_id, subscription_id } => Envelope {
                action: ActionKind::Subscribe,
                path: None,
                filters: None,
                request_id: Some(request_id),
                subscription_id: Some(subscription_id),
                value: None,
            },
            Response::Subscription { subscription_id, value } => Envelope {
                action: ActionKind::Subscription,
                path: None,
                filters: None,
                request_id: None,
                subscription_id: Some(subscription_id),
                value: Some(value),
            },
            Response::UnsubscribeAll { request_id } => Envelope {
                action: ActionKind::UnsubscribeAll,
                path: None,
                filters: None,
                request_id: Some(request_id),
                subscription_id: None,
                value: None,
            },
        }
    }

    /// The response that a wire object describes; fields that its tag does
    /// not call for are ignored.
    pub open spec fn spec_from_envelope(e: Envelope<V>) -> Result<Response<V>, DecodeError> {
        match e.action {
            ActionKind::Get => match (e.request_id, e.value) {
                (Some(request_id), Some(value)) => Ok(Response::Get { request_id, value }),
                (None, _) => Err(DecodeError::Missing(Field::RequestId)),
                (_, None) => Err(DecodeError::Missing(Field::Value)),
            },
            ActionKind::Subscribe => match (e.request_id, e.subscription_id) {
                (Some(request_id), Some(subscription_id)) => Ok(
                    Response::Subscribe { request_id, subscription_id },
                ),
                (None, _) => Err(DecodeError::Missing(Field::RequestId)),
                (_, None) => Err(DecodeError::Missing(Field::SubscriptionId)),
            },
            ActionKind::Subscription => match (e.subscription_id, e.value) {
                (Some(subscription_id), Some(value)) => Ok(
                    Response::Subscription { subscription_id, value },
                ),
                (None, _) => Err(DecodeError::Missing(Field::SubscriptionId)),
                (_, None) => Err(DecodeError::Missing(Field::Value)),
            },
            ActionKind::UnsubscribeAll => match e.request_id {
                Some(request_id) => Ok(Response::UnsubscribeAll { request_id }),
                None => Err(DecodeError::Missing(Field::RequestId)),
            },
        }
    }

    /// Lays the response out as a wire object.
    pub fn into_envelope(self) -> (e: Envelope<V>)
        ensures
            e == self.spec_envelope(),
    {
        match self {
            Response::Get { request_id, value } => Envelope {
                action: ActionKind::Get,
                path: None,
                filters: None,
                request_id: Some(request_id),
                subscription_id: None,
                value: Some(value),
            },
            Response::Subscribe { request_id, subscription_id } => Envelope {
                action: ActionKind::Subscribe,
                path: None,
                filters: None,
                request_id: Some(request_id),
                subscription_id: Some(subscription_id),
                value: None,
            },
            Response::Subscription { subscription_id, value } => Envelope {
                action: ActionKind::Subscription,
                path: None,
                filters: None,
                request_id: None,
                subscription_id: Some(subscription_id),
                value: Some(value),
            },
            Response::UnsubscribeAll { request_id } => Envelope {
                action: ActionKind::UnsubscribeAll,
                path: None,
                filters: None,
                request_id: Some(request_id),
                subscription_id: None,
                value: None,
            },
        }
    }

    /// Reads a response from a wire object.
    pub fn from_envelope(e: Envelope<V>) -> (r: Result<Response<V>, DecodeError>)
        ensures
            r == Response::spec_from_envelope(e),
    {
        match e.action {
            ActionKind::Get => match (e.request_id, e.value) {
                (Some(request_id), Some(value)) => Ok(Response::Get { request_id, value }),
                (None, _) => Err(DecodeError::Missing(Field::RequestId)),
                (_, None) => Err(DecodeError::Missing(Field::Value)),
            },
            ActionKind::Subscribe => match (e.request_id, e.subscription_id) {
                (Some(request_id), Some(subscription_id)) => Ok(
                    Response::Subscribe { request_id, subscription_id },
                ),
                (None, _) => Err(DecodeError::Missing(Field::RequestId)),
                (_, None) => Err(DecodeError::Missing(Field::SubscriptionId)),
            },
            ActionKind::Subscription => match (e.subscription_id, e.value) {
                (Some(subscription_id), Some(value)) => Ok(
                    Response::Subscription { subscription_id, value },
                ),
                (None, _) => Err(DecodeError::Missing(Field::SubscriptionId)),
                (_, None) => Err(DecodeError::Missing(Field::Value)),
            },
            ActionKind::UnsubscribeAll => match e.request_id {
                Some(request_id) => Ok(Response::UnsubscribeAll { request_id }),
                None => Err(DecodeError::Missing(Field::RequestId)),
            },
        }
    }
}

/// Laying an action out as a wire object and reading it back gives the same
/// action, every field included.
pub proof fn lemma_action_round_trip<V>(a: Action)
    ensures
        Action::spec_from_envelope(a.spec_envelope::<V>()) == Ok::<Action, DecodeError>(a),
{
}

/// Laying a response out as a wire object and reading it back gives the same
/// response, every field included.
pub proof fn lemma_response_round_trip<V>(r: Response<V>)
    ensures
        Response::spec_from_envelope(r.spec_envelope()) == Ok::<Response<V>, DecodeError>(r),
{
}

/// The answer to an action echoes its request id: a wire object that carries
/// the action's tag and request id, with the field the answer adds, reads back
/// as an answer with that same id.
pub proof fn lemma_answer_keeps_request_id<V>(
    a: Action,
    subscription_id: SubscriptionID,
    value: V,
)
    ensures
        ({
            let e = a.spec_envelope::<V>();
            let answer = Envelope::<V> {
                action: e.action,
                path: None,
                filters: None,
                request_id: e.request_id,
                subscription_id: Some(subscription_id),
                value: Some(value),
            };
            let r = Response::spec_from_envelope(answer);
            match a {
                Action::Get { request_id, .. } => r == Ok::<Response<V>, DecodeError>(
                    Response::Get { request_id, value },
                ),
                Action::Subscribe { request_id, .. } => r == Ok::<Response<V>, DecodeError>(
                    Response::Subscribe { request_id, subscription_id },
                ),
                Action::UnsubscribeAll { request_id } => r == Ok::<Response<V>, DecodeError>(
                    Response::UnsubscribeAll { request_id },
                ),
            }
        }),
{
}

} // verus!
