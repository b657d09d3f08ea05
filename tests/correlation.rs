use vis_client::error::VISClientError;
use vis_client::ids::{ReqID, ReqIDGenerator, SubscriptionID};
use vis_client::inbound::{into_outcome, Ending, Inbound, StreamStep};
use vis_client::message::{Action, Response};
use vis_client::single::{GetCorrelator, UnsubscribeAllCorrelator};
use vis_client::subscribe::{raw_step, run_raw, subscribe_action, CorrelationState, SubscribeCorrelator};

type Read = Result<i64, serde_json::Error>;

fn json_error() -> serde_json::Error {
    serde_json::from_str::<serde_json::Value>("{\"action\":").unwrap_err()
}

fn get_ack(id: u64, value: i64) -> Inbound<Read> {
    Inbound::Response(Response::Get { request_id: ReqID(id), value: Ok(value) })
}

fn update(sid: u64, value: i64) -> Inbound<Read> {
    Inbound::Response(Response::Subscription { subscription_id: SubscriptionID(sid), value: Ok(value) })
}

fn sub_ack(id: u64, sid: u64) -> Inbound<Read> {
    Inbound::Response(Response::Subscribe { request_id: ReqID(id), subscription_id: SubscriptionID(sid) })
}

fn unsub_ack(id: u64) -> Inbound<Read> {
    Inbound::Response(Response::UnsubscribeAll { request_id: ReqID(id) })
}

#[test]
fn generator_hands_out_distinct_ids() {
    let mut ids = ReqIDGenerator::new();
    let a = ids.next_id().unwrap();
    let b = ids.next_id().unwrap();
    let c = ids.next_id().unwrap();
    assert_eq!(a, ReqID(0));
    assert_eq!(b, ReqID(1));
    assert_eq!(c, ReqID(2));
    assert_ne!(a, b);
    assert_ne!(b, c);
    assert_ne!(a, c);
}

#[test]
fn get_start_builds_action_with_fresh_id() {
    let mut ids = ReqIDGenerator::new();
    let _ = ids.next_id();
    let (action, c) = GetCorrelator::start(&mut ids, "Vehicle.Speed".to_string()).unwrap();
    assert_eq!(c.request_id, ReqID(1));
    match action {
        Action::Get { path, request_id } => {
            assert_eq!(path, "Vehicle.Speed");
            assert_eq!(request_id, ReqID(1));
        }
        _ => panic!("expected a get action"),
    }
}

#[test]
fn get_ignores_other_request_ids() {
    let c = GetCorrelator { request_id: ReqID(7) };
    let events = vec![get_ack(3, 100), get_ack(7, 42)];
    assert_eq!(c.run(events).unwrap().unwrap(), 42);
}

#[test]
fn get_passes_over_unrelated_frames() {
    let c = GetCorrelator { request_id: ReqID(7) };
    let events = vec![
        Inbound::NonText,
        Inbound::Malformed(json_error()),
        sub_ack(7, 1),
        update(1, 5),
        unsub_ack(7),
        get_ack(7, -9),
        get_ack(7, 11),
    ];
    assert_eq!(c.run(events).unwrap().unwrap(), -9);
}

#[test]
fn get_fails_when_matching_value_is_unreadable() {
    let c = GetCorrelator { request_id: ReqID(7) };
    let events = vec![
        Inbound::Malformed(json_error()),
        Inbound::Response(Response::Get { request_id: ReqID(7), value: Err(json_error()) }),
        get_ack(7, 1),
    ];
    assert!(matches!(c.run(events), Some(Err(VISClientError::SerdeError(_)))));
}

#[test]
fn get_fails_on_close_before_answer() {
    let c = GetCorrelator { request_id: ReqID(7) };
    let events = vec![get_ack(6, 1), Inbound::Closed, get_ack(7, 2)];
    assert!(matches!(c.run(events), Some(Err(VISClientError::ConnectionClosed))));
}

#[test]
fn get_fails_on_transport_failure() {
    let c = GetCorrelator { request_id: ReqID(7) };
    let events: Vec<Inbound<Read>> =
        vec![Inbound::TransportFailed(websocket::WebSocketError::NoDataAvailable)];
    assert!(matches!(c.run(events), Some(Err(VISClientError::WebSocketError(_)))));
}

#[test]
fn get_waits_without_answer() {
    let c = GetCorrelator { request_id: ReqID(7) };
    assert!(c.run(vec![get_ack(1, 1), Inbound::NonText]).is_none());
    assert!(c.run(Vec::<Inbound<Read>>::new()).is_none());
}

#[test]
fn get_step_settles_only_on_match() {
    let c = GetCorrelator { request_id: ReqID(2) };
    assert!(c.step(get_ack(1, 5)).is_none());
    assert_eq!(c.step(get_ack(2, 5)).unwrap().unwrap(), 5);
}

#[test]
fn subscribe_keeps_only_own_updates() {
    let mut ids = ReqIDGenerator::new();
    let (action, mut c) = SubscribeCorrelator::start(&mut ids, "Vehicle.Speed".to_string(), None).unwrap();
    assert_eq!(action.request_id(), ReqID(0));
    assert_eq!(c.state(), CorrelationState::AwaitingAck);
    let events = vec![sub_ack(0, 9), update(9, 1), update(8, 2), update(9, 3)];
    let (items, ending) = c.run(events);
    let items: Vec<(u64, i64)> = items.into_iter().map(|(s, v)| (s.0, v)).collect();
    assert_eq!(items, vec![(9, 1), (9, 3)]);
    assert!(matches!(ending, Ending::Open));
    assert_eq!(c.state(), CorrelationState::Streaming(SubscriptionID(9)));
}

#[test]
fn subscribe_drops_updates_before_ack_and_foreign_acks() {
    let mut ids = ReqIDGenerator::new();
    let (_, mut c) = SubscribeCorrelator::start(&mut ids, "Vehicle.Speed".to_string(), None).unwrap();
    let events = vec![update(9, 1), sub_ack(5, 4), sub_ack(0, 9), sub_ack(0, 4), update(4, 2), update(9, 3)];
    let (items, _) = c.run(events);
    let items: Vec<(u64, i64)> = items.into_iter().map(|(s, v)| (s.0, v)).collect();
    assert_eq!(items, vec![(9, 3)]);
}

#[test]
fn subscribe_passes_over_malformed_frames() {
    let mut ids = ReqIDGenerator::new();
    let (_, mut c) = SubscribeCorrelator::start(&mut ids, "p".to_string(), None).unwrap();
    let events = vec![
        sub_ack(0, 1),
        Inbound::Malformed(json_error()),
        Inbound::NonText,
        get_ack(0, 5),
        update(1, 10),
        Inbound::Response(Response::Subscription { subscription_id: SubscriptionID(2), value: Err(json_error()) }),
        update(1, 11),
    ];
    let (items, ending) = c.run(events);
    assert_eq!(items.len(), 2);
    assert_eq!(items[0].1, 10);
    assert_eq!(items[1].1, 11);
    assert!(matches!(ending, Ending::Open));
}

#[test]
fn subscribe_fails_on_unreadable_own_update() {
    let mut ids = ReqIDGenerator::new();
    let (_, mut c) = SubscribeCorrelator::start(&mut ids, "p".to_string(), None).unwrap();
    let events = vec![
        sub_ack(0, 1),
        update(1, 10),
        Inbound::Response(Response::Subscription { subscription_id: SubscriptionID(1), value: Err(json_error()) }),
        update(1, 11),
    ];
    let (items, ending) = c.run(events);
    assert_eq!(items.len(), 1);
    assert!(matches!(ending, Ending::Failed(VISClientError::SerdeError(_))));
}

#[test]
fn subscribe_ends_on_close() {
    let mut ids = ReqIDGenerator::new();
    let (_, mut c) = SubscribeCorrelator::start(&mut ids, "p".to_string(), None).unwrap();
    let (items, ending) = c.run(vec![sub_ack(0, 1), update(1, 3), Inbound::Closed, update(1, 4)]);
    assert_eq!(items.len(), 1);
    assert!(matches!(ending, Ending::Failed(VISClientError::ConnectionClosed)));
}

#[test]
fn subscribe_close_before_ack_is_error() {
    let mut ids = ReqIDGenerator::new();
    let (_, mut c) = SubscribeCorrelator::start(&mut ids, "p".to_string(), None).unwrap();
    let (items, ending) = c.run(vec![update(1, 3), Inbound::Closed, sub_ack(0, 1)]);
    assert!(items.is_empty());
    assert!(matches!(ending, Ending::Failed(VISClientError::ConnectionClosed)));
    assert_eq!(c.state(), CorrelationState::AwaitingAck);
}

#[test]
fn subscribe_yields_readable_updates_then_fails() {
    let mut ids = ReqIDGenerator::new();
    let (_, mut c) = SubscribeCorrelator::start(&mut ids, "p".to_string(), None).unwrap();
    let events = vec![
        sub_ack(0, 1),
        update(1, 10),
        Inbound::Malformed(json_error()),
        update(1, 11),
        update(1, 12),
        Inbound::Response(Response::Subscription { subscription_id: SubscriptionID(1), value: Err(json_error()) }),
        update(1, 13),
    ];
    let (items, ending) = c.run(events);
    let values: Vec<i64> = items.into_iter().map(|(_, v)| v).collect();
    assert_eq!(values, vec![10, 11, 12]);
    assert!(matches!(ending, Ending::Failed(VISClientError::SerdeError(_))));
}

#[test]
fn subscribe_on_event_steps() {
    let mut ids = ReqIDGenerator::new();
    let (_, mut c) = SubscribeCorrelator::start(&mut ids, "p".to_string(), None).unwrap();
    assert!(matches!(c.on_event(update(1, 3)), StreamStep::Skip));
    assert!(matches!(c.on_event(sub_ack(0, 1)), StreamStep::Skip));
    assert!(matches!(c.on_event(update(1, 3)), StreamStep::Item((SubscriptionID(1), 3))));
    assert!(matches!(
        c.on_event::<i64>(Inbound::TransportFailed(websocket::WebSocketError::NoDataAvailable)),
        StreamStep::Fail(VISClientError::WebSocketError(_))
    ));
}

#[test]
fn subscribe_action_carries_fresh_id() {
    let mut ids = ReqIDGenerator::new();
    let a = subscribe_action(&mut ids, "x".to_string(), None).unwrap();
    let b = subscribe_action(&mut ids, "x".to_string(), None).unwrap();
    assert_eq!(a.request_id(), ReqID(0));
    assert_eq!(b.request_id(), ReqID(1));
}

#[test]
fn raw_stream_yields_every_response() {
    let r: StreamStep<Response<i64>> = raw_step(Inbound::Response(Response::UnsubscribeAll { request_id: ReqID(3) }));
    assert!(matches!(r, StreamStep::Item(Response::UnsubscribeAll { request_id: ReqID(3) })));
    let r: StreamStep<Response<i64>> = raw_step(Inbound::NonText);
    assert!(matches!(r, StreamStep::Skip));
    let r: StreamStep<Response<i64>> = raw_step(Inbound::Malformed(json_error()));
    assert!(matches!(r, StreamStep::Fail(VISClientError::SerdeError(_))));
    let r: StreamStep<Response<i64>> = raw_step(Inbound::Closed);
    assert!(matches!(r, StreamStep::Fail(VISClientError::ConnectionClosed)));
}

#[test]
fn raw_run_stops_at_first_failure() {
    let events: Vec<Inbound<i64>> = vec![
        Inbound::Response(Response::Get { request_id: ReqID(1), value: 5 }),
        Inbound::NonText,
        Inbound::Response(Response::UnsubscribeAll { request_id: ReqID(2) }),
        Inbound::Malformed(json_error()),
        Inbound::Response(Response::UnsubscribeAll { request_id: ReqID(3) }),
    ];
    let (items, ending) = run_raw(events);
    assert_eq!(items.len(), 2);
    assert!(matches!(items[0], Response::Get { request_id: ReqID(1), value: 5 }));
    assert!(matches!(items[1], Response::UnsubscribeAll { request_id: ReqID(2) }));
    assert!(matches!(ending, Ending::Failed(VISClientError::SerdeError(_))));
}

#[test]
fn raw_run_close_is_error() {
    let events: Vec<Inbound<i64>> = vec![
        Inbound::Response(Response::Get { request_id: ReqID(1), value: 5 }),
        Inbound::Closed,
        Inbound::Response(Response::Get { request_id: ReqID(2), value: 6 }),
    ];
    let (items, ending) = run_raw(events);
    assert_eq!(items.len(), 1);
    assert!(matches!(ending, Ending::Failed(VISClientError::ConnectionClosed)));
    let (items, ending) = run_raw(Vec::<Inbound<i64>>::new());
    assert!(items.is_empty());
    assert!(matches!(ending, Ending::Open));
}

#[test]
fn unsubscribe_all_twice_succeeds() {
    let mut ids = ReqIDGenerator::new();
    let (a1, c1) = UnsubscribeAllCorrelator::start(&mut ids).unwrap();
    assert!(matches!(a1, Action::UnsubscribeAll { request_id: ReqID(0) }));
    assert!(matches!(c1.run(vec![update(1, 1), unsub_ack(0)]), Some(Ok(()))));
    let (a2, c2) = UnsubscribeAllCorrelator::start(&mut ids).unwrap();
    assert!(matches!(a2, Action::UnsubscribeAll { request_id: ReqID(1) }));
    assert!(c2.run(vec![unsub_ack(0)]).is_none());
    assert!(matches!(c2.run(vec![unsub_ack(0), unsub_ack(1)]), Some(Ok(()))));
}

#[test]
fn unsubscribe_all_fails_on_close() {
    let c = UnsubscribeAllCorrelator { request_id: ReqID(4) };
    assert!(matches!(c.run(vec![unsub_ack(3), Inbound::Closed]), Some(Err(VISClientError::ConnectionClosed))));
    assert!(matches!(c.step(unsub_ack(4)), Some(Ok(()))));
    assert!(c.step(get_ack(4, 1)).is_none());
}

#[test]
fn outcome_of_value_reading() {
    assert_eq!(into_outcome(Ok::<i64, serde_json::Error>(3)).unwrap(), 3);
    assert!(matches!(into_outcome::<i64>(Err(json_error())), Err(VISClientError::SerdeError(_))));
}

#[test]
fn errors_from_outside_errors() {
    let e: VISClientError = json_error().into();
    assert!(matches!(e, VISClientError::SerdeError(_)));
    assert!(!e.is_transport());
    let e: VISClientError = websocket::WebSocketError::NoDataAvailable.into();
    assert!(e.is_transport());
    let e: VISClientError = std::io::Error::new(std::io::ErrorKind::Other, "down").into();
    assert!(matches!(e, VISClientError::IoError(_)));
    assert!(VISClientError::ConnectionClosed.is_transport());
    assert!(!VISClientError::Other.is_transport());
}
