use rshare::codec::encode;
use rshare::errors::{DispatchError, ProtocolError};
use rshare::gateway::{
    accept_request, reply_for_outcome, GatewayStep, STATUS_BAD_GATEWAY, STATUS_GATEWAY_TIMEOUT,
    STATUS_NOT_FOUND, STATUS_OK,
};
use rshare::listener::{control_inbound, handshake, ControlEvent};
use rshare::msg::TunnelMessage;
use rshare::registry::{Registry, RequestOutcome, DEFAULT_OUTBOUND_CAPACITY};

const SUFFIX: &str = "public.dev.peril.lol";

fn fresh_registry() -> Registry {
    Registry::new(SUFFIX.to_string(), DEFAULT_OUTBOUND_CAPACITY)
}

#[test]
fn register_without_domain_yields_generated_url() {
    // End-to-end scenario: domain absent, clientId "abc", the base suffix.
    let mut reg = fresh_registry();
    let (url, evicted) = reg.register("abc".to_string(), None);
    assert_eq!(url, "https://abc.public.dev.peril.lol");
    assert!(evicted.is_empty());
}

#[test]
fn register_with_domain_yields_custom_url() {
    let mut reg = fresh_registry();
    let (url, _) = reg.register("abc".to_string(), Some("tunnel.example.org".to_string()));
    assert_eq!(url, "https://tunnel.example.org");
}

#[test]
fn lookup_finds_generated_subdomain() {
    let mut reg = fresh_registry();
    reg.register("abc".to_string(), None);
    reg.register("xyz".to_string(), None);
    let hit = reg.lookup(&"abc.public.dev.peril.lol".to_string());
    assert_eq!(hit, Some(0));
    let hit = reg.lookup(&"xyz.public.dev.peril.lol".to_string());
    assert_eq!(hit, Some(1));
}

#[test]
fn lookup_prefers_custom_domain() {
    let mut reg = fresh_registry();
    reg.register("abc".to_string(), None);
    reg.register("xyz".to_string(), Some("my.host".to_string()));
    assert_eq!(reg.lookup(&"my.host".to_string()), Some(1));
}

#[test]
fn lookup_unknown_host_misses() {
    let mut reg = fresh_registry();
    reg.register("abc".to_string(), None);
    assert_eq!(reg.lookup(&"nobody.public.dev.peril.lol".to_string()), None);
}

#[test]
fn reregistration_evicts_and_fails_pending() {
    let mut reg = fresh_registry();
    let id = "abc".to_string();
    reg.register(id.clone(), None);
    let rid = reg.dispatch(&id, vec![1, 2], 0, 30000).expect("dispatch");
    let (_, evicted) = reg.register(id.clone(), None);
    assert_eq!(evicted.len(), 1);
    assert_eq!(evicted[0].request_id, rid);
    assert_eq!(evicted[0].outcome, RequestOutcome::ClientReplaced);
    // The replacement session starts clean: the old id names nothing now.
    assert_eq!(reg.resolve(&id, rid, vec![3]), None);
}

#[test]
fn dispatch_then_resolve_delivers_exact_bytes_once() {
    let mut reg = fresh_registry();
    let id = "abc".to_string();
    reg.register(id.clone(), None);
    let rid = reg.dispatch(&id, vec![10, 20], 0, 30000).expect("dispatch");
    let delivery = reg.resolve(&id, rid, vec![200, 201, 202]).expect("must deliver");
    assert_eq!(delivery.request_id, rid);
    assert_eq!(delivery.outcome, RequestOutcome::Delivered { data: vec![200, 201, 202] });
    // Exactly once: the same id delivers nothing a second time.
    assert_eq!(reg.resolve(&id, rid, vec![1]), None);
}

#[test]
fn concurrent_dispatches_resolve_out_of_order() {
    // End-to-end scenario: responses arrive in reverse order of issuance.
    let mut reg = fresh_registry();
    let id = "abc".to_string();
    reg.register(id.clone(), None);
    let first = reg.dispatch(&id, vec![1], 0, 30000).expect("dispatch");
    let second = reg.dispatch(&id, vec![2], 0, 30000).expect("dispatch");
    assert_ne!(first, second);
    let d2 = reg.resolve(&id, second, vec![22]).expect("second resolves first");
    let d1 = reg.resolve(&id, first, vec![11]).expect("first still resolves");
    assert_eq!(d2.request_id, second);
    assert_eq!(d2.outcome, RequestOutcome::Delivered { data: vec![22] });
    assert_eq!(d1.request_id, first);
    assert_eq!(d1.outcome, RequestOutcome::Delivered { data: vec![11] });
}

#[test]
fn expiry_reclaims_entry_and_late_response_is_noop() {
    let mut reg = fresh_registry();
    let id = "abc".to_string();
    reg.register(id.clone(), None);
    let rid = reg.dispatch(&id, vec![1], 1000, 30000).expect("dispatch");
    // Before the deadline nothing expires.
    assert_eq!(reg.expire(&id, rid, 30999), None);
    let d = reg.expire(&id, rid, 31000).expect("deadline reached");
    assert_eq!(d.request_id, rid);
    assert_eq!(d.outcome, RequestOutcome::TimedOut);
    // The late response finds nothing: no error, no second delivery.
    assert_eq!(reg.resolve(&id, rid, vec![5]), None);
    // And expiring again finds nothing either.
    assert_eq!(reg.expire(&id, rid, 40000), None);
}

#[test]
fn deregister_unblocks_every_pending_request() {
    let mut reg = fresh_registry();
    let id = "abc".to_string();
    reg.register(id.clone(), None);
    let r1 = reg.dispatch(&id, vec![1], 0, 30000).expect("dispatch");
    let r2 = reg.dispatch(&id, vec![2], 0, 30000).expect("dispatch");
    let failed = reg.deregister(&id);
    assert_eq!(failed.len(), 2);
    assert_eq!(failed[0].request_id, r1);
    assert_eq!(failed[0].outcome, RequestOutcome::ClientDisconnected);
    assert_eq!(failed[1].request_id, r2);
    assert_eq!(failed[1].outcome, RequestOutcome::ClientDisconnected);
    assert_eq!(reg.lookup(&"abc.public.dev.peril.lol".to_string()), None);
}

#[test]
fn dispatch_to_unknown_client_fails() {
    let mut reg = fresh_registry();
    assert_eq!(
        reg.dispatch(&"ghost".to_string(), vec![1], 0, 30000),
        Err(DispatchError::UnknownClient)
    );
}

#[test]
fn full_outbound_queue_refuses_dispatch() {
    let mut reg = Registry::new(SUFFIX.to_string(), 1);
    let id = "abc".to_string();
    reg.register(id.clone(), None);
    reg.dispatch(&id, vec![1], 0, 30000).expect("first dispatch fills the queue");
    assert_eq!(reg.dispatch(&id, vec![2], 0, 30000), Err(DispatchError::ChannelFull));
}

#[test]
fn outbound_frames_come_out_in_order() {
    let mut reg = fresh_registry();
    let id = "abc".to_string();
    reg.register(id.clone(), None);
    let rid = reg.dispatch(&id, vec![1, 2], 0, 30000).expect("dispatch");
    assert!(reg.enqueue_keepalive(&id));
    assert_eq!(
        reg.take_outbound(&id),
        Some(TunnelMessage::HttpRequest { request_id: rid, data: vec![1, 2] })
    );
    assert_eq!(reg.take_outbound(&id), Some(TunnelMessage::KeepAlive));
    assert_eq!(reg.take_outbound(&id), None);
}

#[test]
fn gateway_rejects_missing_host() {
    let mut reg = fresh_registry();
    let step = accept_request(&mut reg, None, &"GET".to_string(), &"/".to_string(), 0, 30000);
    match step {
        GatewayStep::Reply(rep) => assert_eq!(rep.status, STATUS_NOT_FOUND),
        GatewayStep::Awaiting { .. } => panic!("no host must not dispatch"),
    }
}

#[test]
fn gateway_rejects_unregistered_host() {
    // End-to-end scenario: the public request arrives before any client
    // registered that host.
    let mut reg = fresh_registry();
    let step = accept_request(
        &mut reg,
        Some("abc.public.dev.peril.lol".to_string()),
        &"GET".to_string(),
        &"/".to_string(),
        0,
        30000,
    );
    match step {
        GatewayStep::Reply(rep) => assert_eq!(rep.status, STATUS_NOT_FOUND),
        GatewayStep::Awaiting { .. } => panic!("unregistered host must not dispatch"),
    }
}

#[test]
fn gateway_timeout_reclaims_pending() {
    // End-to-end scenario: the client's bridge never answers; the gateway
    // times out and the pending entry is gone afterwards.
    let mut reg = fresh_registry();
    reg.register("abc".to_string(), None);
    let step = accept_request(
        &mut reg,
        Some("abc.public.dev.peril.lol".to_string()),
        &"GET".to_string(),
        &"/slow".to_string(),
        0,
        30000,
    );
    let (client_id, request_id) = match step {
        GatewayStep::Awaiting { client_id, request_id } => (client_id, request_id),
        GatewayStep::Reply(rep) => panic!("expected dispatch, got status {}", rep.status),
    };
    let d = reg.expire(&client_id, request_id, 30000).expect("timeout reclaims");
    let reply = reply_for_outcome(d.outcome);
    assert_eq!(reply.status, STATUS_GATEWAY_TIMEOUT);
    assert_eq!(reg.resolve(&client_id, request_id, vec![1]), None);
}

#[test]
fn gateway_serializes_request_line_and_host() {
    let mut reg = fresh_registry();
    reg.register("abc".to_string(), None);
    let step = accept_request(
        &mut reg,
        Some("abc.public.dev.peril.lol".to_string()),
        &"GET".to_string(),
        &"/a?b=c".to_string(),
        0,
        30000,
    );
    let (client_id, request_id) = match step {
        GatewayStep::Awaiting { client_id, request_id } => (client_id, request_id),
        GatewayStep::Reply(_) => panic!("expected dispatch"),
    };
    match reg.take_outbound(&client_id) {
        Some(TunnelMessage::HttpRequest { request_id: rid, data }) => {
            assert_eq!(rid, request_id);
            assert_eq!(
                data,
                b"GET /a?b=c HTTP/1.1\r\nHost: abc.public.dev.peril.lol\r\n\r\n".to_vec()
            );
        },
        other => panic!("expected the forwarded request, got {:?}", other),
    }
}

#[test]
fn gateway_replies_for_each_outcome() {
    let ok = reply_for_outcome(RequestOutcome::Delivered { data: vec![1, 2] });
    assert_eq!(ok.status, STATUS_OK);
    assert_eq!(ok.body, vec![1, 2]);
    assert_eq!(reply_for_outcome(RequestOutcome::ClientReplaced).status, STATUS_BAD_GATEWAY);
    assert_eq!(reply_for_outcome(RequestOutcome::ClientDisconnected).status, STATUS_BAD_GATEWAY);
    assert_eq!(reply_for_outcome(RequestOutcome::TimedOut).status, STATUS_GATEWAY_TIMEOUT);
}

#[test]
fn gateway_full_queue_is_bad_gateway() {
    let mut reg = Registry::new(SUFFIX.to_string(), 1);
    reg.register("abc".to_string(), None);
    reg.dispatch(&"abc".to_string(), vec![0], 0, 30000).expect("fill the queue");
    let step = accept_request(
        &mut reg,
        Some("abc.public.dev.peril.lol".to_string()),
        &"GET".to_string(),
        &"/".to_string(),
        0,
        30000,
    );
    match step {
        GatewayStep::Reply(rep) => assert_eq!(rep.status, STATUS_BAD_GATEWAY),
        GatewayStep::Awaiting { .. } => panic!("a full queue must refuse the dispatch"),
    }
}

#[test]
fn handshake_registers_and_confirms() {
    let mut reg = fresh_registry();
    let payload = encode(&TunnelMessage::Register { client_id: "abc".to_string(), domain: None });
    let ok = handshake(&mut reg, &payload).expect("valid registration");
    assert_eq!(ok.client_id, "abc");
    assert!(ok.evicted.is_empty());
    let reply = rshare::codec::decode(&ok.reply).expect("reply must decode");
    assert_eq!(
        reply,
        TunnelMessage::Registered { url: "https://abc.public.dev.peril.lol".to_string() }
    );
    assert_eq!(reg.lookup(&"abc.public.dev.peril.lol".to_string()), Some(0));
}

#[test]
fn handshake_rejects_non_register_first_frame() {
    let mut reg = fresh_registry();
    let payload = encode(&TunnelMessage::KeepAlive);
    assert_eq!(handshake(&mut reg, &payload), Err(ProtocolError::UnexpectedFrame));
    assert_eq!(reg.lookup(&"abc.public.dev.peril.lol".to_string()), None);
}

#[test]
fn handshake_rejects_garbage() {
    let mut reg = fresh_registry();
    assert_eq!(handshake(&mut reg, &vec![99, 1, 2]), Err(ProtocolError::Malformed));
}

#[test]
fn control_inbound_correlates_response() {
    let mut reg = fresh_registry();
    let id = "abc".to_string();
    reg.register(id.clone(), None);
    let rid = reg.dispatch(&id, vec![1], 0, 30000).expect("dispatch");
    let payload = encode(&TunnelMessage::HttpResponse { request_id: rid, data: vec![42, 43] });
    match control_inbound(&mut reg, &id, &payload) {
        ControlEvent::ResponseDelivered(d) => {
            assert_eq!(d.request_id, rid);
            assert_eq!(d.outcome, RequestOutcome::Delivered { data: vec![42, 43] });
        },
        other => panic!("expected a delivery, got {:?}", other),
    }
}

#[test]
fn control_inbound_reverse_order_responses() {
    // End-to-end scenario: two in-flight requests, the client answers in
    // reverse order, each reply reaches its own request.
    let mut reg = fresh_registry();
    let id = "abc".to_string();
    reg.register(id.clone(), None);
    let first = reg.dispatch(&id, vec![1], 0, 30000).expect("dispatch");
    let second = reg.dispatch(&id, vec![2], 0, 30000).expect("dispatch");
    let p2 = encode(&TunnelMessage::HttpResponse { request_id: second, data: vec![102] });
    let p1 = encode(&TunnelMessage::HttpResponse { request_id: first, data: vec![101] });
    match control_inbound(&mut reg, &id, &p2) {
        ControlEvent::ResponseDelivered(d) => {
            assert_eq!(d.request_id, second);
            assert_eq!(d.outcome, RequestOutcome::Delivered { data: vec![102] });
        },
        other => panic!("expected a delivery, got {:?}", other),
    }
    match control_inbound(&mut reg, &id, &p1) {
        ControlEvent::ResponseDelivered(d) => {
            assert_eq!(d.request_id, first);
            assert_eq!(d.outcome, RequestOutcome::Delivered { data: vec![101] });
        },
        other => panic!("expected a delivery, got {:?}", other),
    }
}

#[test]
fn control_inbound_stale_response_is_noop() {
    let mut reg = fresh_registry();
    let id = "abc".to_string();
    reg.register(id.clone(), None);
    let payload = encode(&TunnelMessage::HttpResponse { request_id: 9, data: vec![1] });
    match control_inbound(&mut reg, &id, &payload) {
        ControlEvent::StaleResponse => {},
        other => panic!("expected a stale response, got {:?}", other),
    }
}

#[test]
fn control_inbound_echoes_keep_alive() {
    let mut reg = fresh_registry();
    let id = "abc".to_string();
    reg.register(id.clone(), None);
    let payload = encode(&TunnelMessage::KeepAlive);
    match control_inbound(&mut reg, &id, &payload) {
        ControlEvent::KeepAliveEchoed => {},
        other => panic!("expected an echo, got {:?}", other),
    }
    assert_eq!(reg.take_outbound(&id), Some(TunnelMessage::KeepAlive));
}

#[test]
fn control_inbound_drops_garbage_and_ignores_wrong_frames() {
    let mut reg = fresh_registry();
    let id = "abc".to_string();
    reg.register(id.clone(), None);
    match control_inbound(&mut reg, &id, &vec![77]) {
        ControlEvent::FrameDropped => {},
        other => panic!("expected a dropped frame, got {:?}", other),
    }
    let payload = encode(&TunnelMessage::HttpRequest { request_id: 1, data: vec![1] });
    match control_inbound(&mut reg, &id, &payload) {
        ControlEvent::FrameIgnored => {},
        other => panic!("expected an ignored frame, got {:?}", other),
    }
}
