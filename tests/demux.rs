use vis_client::demux::{Awaiting, Demux, Route};
use vis_client::ids::{ReqID, ReqIDGenerator, SubscriptionID};
use vis_client::message::Response;

#[test]
fn register_refuses_outstanding_id() {
    let mut d = Demux::new();
    assert!(d.register(ReqID(1), Awaiting::GetAck));
    assert!(!d.register(ReqID(1), Awaiting::SubscribeAck));
    assert!(d.is_outstanding(ReqID(1)));
    assert!(!d.is_outstanding(ReqID(2)));
}

#[test]
fn generator_ids_always_register() {
    let mut ids = ReqIDGenerator::new();
    let mut d = Demux::new();
    for _ in 0..5 {
        let id = ids.next_id().unwrap();
        assert!(d.register(id, Awaiting::GetAck));
    }
}

#[test]
fn answers_settle_their_request_once() {
    let mut d = Demux::new();
    d.register(ReqID(1), Awaiting::GetAck);
    d.register(ReqID(2), Awaiting::GetAck);
    let r = d.route(Response::Get { request_id: ReqID(2), value: 20i64 });
    assert!(matches!(r, Route::Answer(ReqID(2), Response::Get { value: 20, .. })));
    assert!(!d.is_outstanding(ReqID(2)));
    assert!(d.is_outstanding(ReqID(1)));
    let again = d.route(Response::Get { request_id: ReqID(2), value: 21i64 });
    assert!(matches!(again, Route::Unclaimed));
}

#[test]
fn answer_of_another_kind_is_unclaimed() {
    let mut d = Demux::new();
    d.register(ReqID(1), Awaiting::UnsubscribeAllAck);
    let r = d.route(Response::Get { request_id: ReqID(1), value: 0i64 });
    assert!(matches!(r, Route::Unclaimed));
    assert!(d.is_outstanding(ReqID(1)));
}

#[test]
fn updates_go_to_their_subscription() {
    let mut d = Demux::new();
    d.register(ReqID(1), Awaiting::SubscribeAck);
    d.register(ReqID(2), Awaiting::SubscribeAck);
    let early = d.route(Response::Subscription { subscription_id: SubscriptionID(10), value: 0i64 });
    assert!(matches!(early, Route::Unclaimed));
    let a = d.route::<i64>(Response::Subscribe { request_id: ReqID(1), subscription_id: SubscriptionID(10) });
    assert!(matches!(a, Route::Subscribed(ReqID(1), SubscriptionID(10))));
    let b = d.route::<i64>(Response::Subscribe { request_id: ReqID(2), subscription_id: SubscriptionID(20) });
    assert!(matches!(b, Route::Subscribed(ReqID(2), SubscriptionID(20))));
    let u = d.route(Response::Subscription { subscription_id: SubscriptionID(20), value: 7i64 });
    assert!(matches!(u, Route::Update(ReqID(2), SubscriptionID(20), 7)));
    let u = d.route(Response::Subscription { subscription_id: SubscriptionID(10), value: 8i64 });
    assert!(matches!(u, Route::Update(ReqID(1), SubscriptionID(10), 8)));
    let u = d.route(Response::Subscription { subscription_id: SubscriptionID(30), value: 9i64 });
    assert!(matches!(u, Route::Unclaimed));
}

#[test]
fn unsubscribe_all_ends_every_subscription() {
    let mut d = Demux::new();
    d.register(ReqID(1), Awaiting::SubscribeAck);
    d.route::<i64>(Response::Subscribe { request_id: ReqID(1), subscription_id: SubscriptionID(10) });
    d.register(ReqID(2), Awaiting::UnsubscribeAllAck);
    let r = d.route::<i64>(Response::UnsubscribeAll { request_id: ReqID(2) });
    assert!(matches!(r, Route::Answer(ReqID(2), Response::UnsubscribeAll { .. })));
    let u = d.route(Response::Subscription { subscription_id: SubscriptionID(10), value: 1i64 });
    assert!(matches!(u, Route::Unclaimed));
    d.register(ReqID(3), Awaiting::UnsubscribeAllAck);
    let r = d.route::<i64>(Response::UnsubscribeAll { request_id: ReqID(3) });
    assert!(matches!(r, Route::Answer(ReqID(3), _)));
}
