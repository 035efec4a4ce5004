use ptd_cli::protocol::ResponseMessage;
use ptd_cli::router::{disconnect_notices, Router};

#[test]
fn register_and_deliver() {
    let mut router = Router::new();
    let rx = router.register("r1".into());
    assert_eq!(router.pending_count(), 1);

    let resp = ResponseMessage::success("r1".into(), serde_json::Value::String("ok".into()));
    assert!(router.deliver(resp));
    assert_eq!(router.pending_count(), 0);

    let received = rx.blocking_recv().unwrap();
    assert_eq!(received.id, "r1");
    assert!(received.result.is_some());
}

#[test]
fn deliver_unknown_id_returns_false() {
    let mut router = Router::new();
    let resp = ResponseMessage::success("unknown".into(), serde_json::Value::String("ok".into()));
    assert!(!router.deliver(resp));
}

#[test]
fn fail_all_sends_errors() {
    let mut router = Router::new();
    let rx1 = router.register("r1".into());
    let rx2 = router.register("r2".into());

    router.fail_all("shutting down");
    assert_eq!(router.pending_count(), 0);

    let resp1 = rx1.blocking_recv().unwrap();
    assert_eq!(resp1.error.unwrap().code, "DISCONNECTED");

    let resp2 = rx2.blocking_recv().unwrap();
    assert_eq!(resp2.error.unwrap().code, "DISCONNECTED");
}

#[test]
fn response_goes_to_its_own_request() {
    let mut router = Router::new();
    let rx_a = router.register("a".into());
    let mut rx_b = router.register("b".into());
    assert_eq!(router.pending_count(), 2);
    assert!(router.deliver(ResponseMessage::success("a".into(), serde_json::Value::Bool(true))));
    assert_eq!(router.pending_count(), 1);
    let got = rx_a.blocking_recv().unwrap();
    assert_eq!(got.id, "a");
    assert!(rx_b.try_recv().is_err());
    assert!(router.deliver(ResponseMessage::error("b".into(), "TIMEOUT", "timed out")));
    let got_b = rx_b.blocking_recv().unwrap();
    assert_eq!(got_b.id, "b");
    assert_eq!(got_b.error.unwrap().message, "timed out");
}

#[test]
fn second_delivery_is_refused() {
    let mut router = Router::new();
    let _rx = router.register("r1".into());
    assert!(router.deliver(ResponseMessage::success("r1".into(), serde_json::Value::Null)));
    assert!(!router.deliver(ResponseMessage::success("r1".into(), serde_json::Value::Null)));
    assert_eq!(router.pending_count(), 0);
}

#[test]
fn registering_an_id_again_replaces_its_receiver() {
    let mut router = Router::new();
    let old_rx = router.register("r1".into());
    let new_rx = router.register("r1".into());
    assert_eq!(router.pending_count(), 1);
    assert!(router.deliver(ResponseMessage::success("r1".into(), serde_json::Value::Null)));
    assert!(old_rx.blocking_recv().is_err());
    assert_eq!(new_rx.blocking_recv().unwrap().id, "r1");
}

#[test]
fn deliver_to_dropped_receiver_is_not_delivered() {
    let mut router = Router::new();
    let rx = router.register("gone".into());
    drop(rx);
    assert!(!router.deliver(ResponseMessage::success("gone".into(), serde_json::Value::Null)));
    assert_eq!(router.pending_count(), 0);
}

#[test]
fn route_response_pairs_destination_and_response() {
    let mut router = Router::new();
    let rx = router.register("r7".into());
    let routed = router.route_response(ResponseMessage::success("r7".into(), serde_json::Value::Null));
    let (tx, resp) = routed.unwrap();
    assert_eq!(resp.id, "r7");
    assert_eq!(router.pending_count(), 0);
    tx.send(resp).unwrap();
    assert_eq!(rx.blocking_recv().unwrap().id, "r7");
    assert!(router.route_response(ResponseMessage::success("r7".into(), serde_json::Value::Null)).is_none());
}

#[test]
fn take_route_and_drain() {
    let mut router = Router::new();
    let _rx1 = router.register("x".into());
    let _rx2 = router.register("y".into());
    assert!(router.take_route(&"z".to_string()).is_none());
    assert!(router.take_route(&"x".to_string()).is_some());
    assert_eq!(router.pending_count(), 1);
    let routes = router.drain();
    assert_eq!(routes.len(), 1);
    assert_eq!(routes[0].0, "y");
    assert_eq!(router.pending_count(), 0);
}

#[test]
fn disconnect_notices_carry_each_id() {
    let (tx1, rx1) = tokio::sync::oneshot::channel();
    let (tx2, _rx2) = tokio::sync::oneshot::channel();
    let notices = disconnect_notices(vec![("p".to_string(), tx1), ("q".to_string(), tx2)], "bye");
    assert_eq!(notices.len(), 2);
    assert_eq!(notices[0].1.id, "p");
    assert_eq!(notices[1].1.id, "q");
    let e = notices[1].1.error.as_ref().unwrap();
    assert_eq!(e.code, "DISCONNECTED");
    assert_eq!(e.message, "bye");
    assert!(notices[1].1.result.is_none());
    let mut notices = notices;
    let (tx, n) = notices.remove(0);
    tx.send(n).unwrap();
    assert_eq!(rx1.blocking_recv().unwrap().id, "p");
}

#[test]
fn register_sender_counts() {
    let mut router = Router::new();
    let (tx, rx) = tokio::sync::oneshot::channel();
    router.register_sender("s".into(), tx);
    assert_eq!(router.pending_count(), 1);
    router.fail_all("daemon shutting down");
    let r = rx.blocking_recv().unwrap();
    assert_eq!(r.id, "s");
    assert_eq!(r.error.unwrap().message, "daemon shutting down");
}
