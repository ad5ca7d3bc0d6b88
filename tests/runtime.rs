use futures::channel::mpsc;
use rustdht::assembly::{startup_plan, StartupStep};
use rustdht::bridge::{
    connect_to_server, publish_command, send_message, send_outcome, BridgeError, Command, CommandBridge,
    SubmitError,
};
use rustdht::config::{
    describe_role, endpoint_address, push_decimal, Family, ListenEndpoint, NodeConfig, Role,
    TransportKind,
};
use rustdht::event_loop::{
    Action, CloseCause, LoopInput, LoopState, NetEvent, ProbeFailure, ProbeOutcome,
};
use rustdht::health::{health_response, http_ok_response};

fn decimal_of(n: u64) -> String {
    let mut s = String::from("x");
    push_decimal(&mut s, n);
    s
}

#[test]
fn decimal_text_of_ports() {
    assert_eq!(decimal_of(0), "x0");
    assert_eq!(decimal_of(9), "x9");
    assert_eq!(decimal_of(10), "x10");
    assert_eq!(decimal_of(9090), "x9090");
    assert_eq!(decimal_of(65535), "x65535");
    assert_eq!(decimal_of(u64::MAX), "x18446744073709551615");
}

#[test]
fn endpoint_addresses() {
    let tcp = ListenEndpoint { family: Family::Ip4, kind: TransportKind::Tcp, port: 9091 };
    assert_eq!(endpoint_address(&tcp), "/ip4/0.0.0.0/tcp/9091");
    let rtc6 = ListenEndpoint { family: Family::Ip6, kind: TransportKind::WebRtcDirect, port: 9090 };
    assert_eq!(endpoint_address(&rtc6), "/ip6/::/udp/9090/webrtc-direct");
    let rtc4 = ListenEndpoint { family: Family::Ip4, kind: TransportKind::WebRtcDirect, port: 1 };
    assert_eq!(endpoint_address(&rtc4), "/ip4/0.0.0.0/udp/1/webrtc-direct");
}

#[test]
fn endpoint_addresses_parse_as_multiaddrs() {
    let ep = ListenEndpoint { family: Family::Ip6, kind: TransportKind::WebRtcDirect, port: 9090 };
    let text = endpoint_address(&ep);
    assert!(text.parse::<libp2p::Multiaddr>().is_ok());
}

#[test]
fn default_configuration() {
    let c = NodeConfig::defaults();
    assert_eq!(c.tcp_port, 9091);
    assert_eq!(c.signaling_port, 9090);
    assert_eq!(c.http_health_port, 8080);
    assert_eq!(c.idle_timeout_secs, 5);
    assert_eq!(c.heartbeat_interval_secs, 1);
    assert_eq!(c.ping_interval_secs, 1);
    assert_eq!(c.topic_name, "chat");
}

#[test]
fn role_descriptors() {
    let c = NodeConfig::defaults();
    let dual = describe_role(Role::DualTransport, &c);
    assert_eq!(
        dual.endpoints,
        vec![
            ListenEndpoint { family: Family::Ip4, kind: TransportKind::Tcp, port: 9091 },
            ListenEndpoint { family: Family::Ip4, kind: TransportKind::WebRtcDirect, port: 9090 },
        ]
    );
    assert!(!dual.accepts_commands);
    assert_eq!(dual.health_port, None);

    let sig = describe_role(Role::Signaling, &c);
    assert_eq!(
        sig.endpoints,
        vec![
            ListenEndpoint { family: Family::Ip4, kind: TransportKind::WebRtcDirect, port: 9090 },
            ListenEndpoint { family: Family::Ip6, kind: TransportKind::WebRtcDirect, port: 9090 },
        ]
    );
    assert_eq!(sig.health_port, Some(8080));
    assert!(!sig.accepts_commands);

    let client = describe_role(Role::BrowserClient, &c);
    assert!(client.endpoints.is_empty());
    assert!(client.accepts_commands);
    assert_eq!(client.health_port, None);
    for d in [&dual, &sig, &client] {
        assert!(d.gossip_enabled && d.ping_enabled && d.strict_validation);
    }
}

#[test]
fn signaling_startup_binds_every_endpoint_before_the_loop() {
    let c = NodeConfig::defaults();
    let d = describe_role(Role::Signaling, &c);
    let plan = startup_plan(&d, &c.topic_name);
    assert_eq!(
        plan,
        vec![
            StartupStep::Subscribe("chat".to_string()),
            StartupStep::Listen("/ip4/0.0.0.0/udp/9090/webrtc-direct".to_string()),
            StartupStep::Listen("/ip6/::/udp/9090/webrtc-direct".to_string()),
            StartupStep::ServeHealth(8080),
            StartupStep::RunLoop,
        ]
    );
}

#[test]
fn client_startup_has_no_listener() {
    let c = NodeConfig::defaults();
    let d = describe_role(Role::BrowserClient, &c);
    let plan = startup_plan(&d, &c.topic_name);
    assert_eq!(plan, vec![StartupStep::Subscribe("chat".to_string()), StartupStep::RunLoop]);
}

#[test]
fn health_reply_is_fixed() {
    assert_eq!(health_response(), "HTTP/1.1 200 OK\r\nContent-Length: 2\r\n\r\nOK");
    for _ in 0..3 {
        assert_eq!(health_response().as_bytes(), b"HTTP/1.1 200 OK\r\nContent-Length: 2\r\n\r\nOK");
    }
}

#[test]
fn http_reply_counts_bytes() {
    assert_eq!(http_ok_response(""), "HTTP/1.1 200 OK\r\nContent-Length: 0\r\n\r\n");
    assert_eq!(http_ok_response("héllo"), "HTTP/1.1 200 OK\r\nContent-Length: 6\r\n\r\nhéllo");
}

#[test]
fn submit_before_install_is_not_ready() {
    let bridge = CommandBridge::new();
    assert!(!bridge.is_installed());
    assert_eq!(bridge.submit(Command::Publish(b"hi".to_vec())), Err(BridgeError::NotReady));
    assert_eq!(send_message(&bridge, "hi"), Err(SubmitError::Bridge(BridgeError::NotReady)));
    assert_eq!(
        connect_to_server(&bridge, "/ip4/127.0.0.1/tcp/9091"),
        Err(SubmitError::Bridge(BridgeError::NotReady))
    );
}

#[test]
fn second_install_keeps_the_first_sender() {
    let mut bridge = CommandBridge::new();
    let (tx1, mut rx1) = mpsc::unbounded();
    let (tx2, mut rx2) = mpsc::unbounded();
    assert!(bridge.install(tx1).is_ok());
    assert!(bridge.install(tx2).is_err());
    assert!(bridge.is_installed());
    assert_eq!(send_message(&bridge, "one"), Ok(()));
    match rx1.try_next() {
        Ok(Some(Command::Publish(data))) => assert_eq!(data, b"one".to_vec()),
        other => panic!("unexpected: {:?}", other),
    }
    assert!(!matches!(rx2.try_next(), Ok(Some(_))));
}

#[test]
fn rejected_sender_is_handed_back() {
    let mut bridge = CommandBridge::new();
    let (tx1, _rx1) = mpsc::unbounded();
    let (tx2, mut rx2) = mpsc::unbounded();
    bridge.install(tx1).unwrap();
    let back = bridge.install(tx2).unwrap_err();
    back.unbounded_send(Command::Publish(vec![7])).unwrap();
    assert!(matches!(rx2.try_next(), Ok(Some(Command::Publish(d))) if d == vec![7]));
}

#[test]
fn submit_after_loop_ended_is_closed() {
    let mut bridge = CommandBridge::new();
    let (tx, rx) = mpsc::unbounded();
    bridge.install(tx).unwrap();
    drop(rx);
    assert_eq!(send_message(&bridge, "late"), Err(SubmitError::Bridge(BridgeError::Closed)));
    assert_eq!(
        connect_to_server(&bridge, "/ip4/127.0.0.1/tcp/9091"),
        Err(SubmitError::Bridge(BridgeError::Closed))
    );
}

#[test]
fn send_outcome_values() {
    assert_eq!(send_outcome(true), Ok(()));
    assert_eq!(send_outcome(false), Err(BridgeError::Closed));
}

#[test]
fn commands_arrive_in_submission_order() {
    let mut bridge = CommandBridge::new();
    let (tx, mut rx) = mpsc::unbounded();
    bridge.install(tx).unwrap();
    assert_eq!(send_message(&bridge, "a"), Ok(()));
    assert_eq!(connect_to_server(&bridge, "/ip4/10.0.0.1/tcp/4001"), Ok(()));
    assert_eq!(send_message(&bridge, "b"), Ok(()));
    assert!(matches!(rx.try_next(), Ok(Some(Command::Publish(d))) if d == b"a".to_vec()));
    match rx.try_next() {
        Ok(Some(Command::Dial(addr))) => assert_eq!(addr.to_string(), "/ip4/10.0.0.1/tcp/4001"),
        other => panic!("unexpected: {:?}", other),
    }
    assert!(matches!(rx.try_next(), Ok(Some(Command::Publish(d))) if d == b"b".to_vec()));
    assert!(rx.try_next().is_err());
}

#[test]
fn invalid_dial_is_a_local_parse_failure() {
    let mut bridge = CommandBridge::new();
    let (tx, mut rx) = mpsc::unbounded();
    bridge.install(tx).unwrap();
    for bad in ["not an address", "ip4/1.2.3.4", "/ip4/999.0.0.1/tcp/1", "/nosuch/1"] {
        match connect_to_server(&bridge, bad) {
            Err(SubmitError::InvalidAddress(detail)) => assert!(!detail.is_empty()),
            other => panic!("unexpected: {:?}", other),
        }
    }
    // Nothing reached the event loop's queue, and the queue is still open.
    assert!(rx.try_next().is_err());
}

#[test]
fn invalid_dial_is_reported_even_without_a_bridge() {
    let bridge = CommandBridge::new();
    assert!(matches!(connect_to_server(&bridge, "garbage"), Err(SubmitError::InvalidAddress(_))));
}

#[test]
fn publish_command_carries_the_message_bytes() {
    assert!(matches!(publish_command("hello"), Command::Publish(d) if d == b"hello".to_vec()));
    assert!(matches!(publish_command(""), Command::Publish(d) if d.is_empty()));
    assert!(matches!(publish_command("é"), Command::Publish(d) if d == vec![0xc3, 0xa9]));
}

#[test]
fn sent_message_reaches_the_loop_as_published_payload() {
    let mut bridge = CommandBridge::new();
    let (tx, mut rx) = mpsc::unbounded();
    bridge.install(tx).unwrap();
    assert_eq!(send_message(&bridge, "hello"), Ok(()));
    let command = match rx.try_next() {
        Ok(Some(c)) => c,
        other => panic!("unexpected: {:?}", other),
    };
    let mut st = LoopState::new("chat".to_string(), true);
    match st.step(LoopInput::Host(command)) {
        Some(Action::Publish { topic, data }) => {
            assert_eq!(topic, "chat");
            assert_eq!(data, b"hello".to_vec());
        }
        other => panic!("unexpected: {:?}", other),
    }
}

fn message(source: &str, topic: &str, data: &[u8]) -> LoopInput {
    LoopInput::Network(NetEvent::Message {
        source: source.to_string(),
        topic: topic.to_string(),
        data: data.to_vec(),
    })
}

#[test]
fn client_notifies_host_of_one_message() {
    let mut st = LoopState::new("chat".to_string(), true);
    match st.step(message("peer-b", "chat", b"hello")) {
        Some(Action::Notify { peer, payload }) => {
            assert_eq!(peer, "peer-b");
            assert_eq!(payload, b"hello".to_vec());
        }
        other => panic!("unexpected: {:?}", other),
    }
    assert_eq!(st.stats.delivered, 1);
}

#[test]
fn native_node_reports_messages() {
    let mut st = LoopState::new("chat".to_string(), false);
    match st.step(message("peer-b", "chat", b"hello")) {
        Some(Action::Report(NetEvent::Message { source, topic, data })) => {
            assert_eq!((source.as_str(), topic.as_str(), data.as_slice()), ("peer-b", "chat", &b"hello"[..]));
        }
        other => panic!("unexpected: {:?}", other),
    }
}

#[test]
fn messages_on_other_topics_are_ignored() {
    let mut st = LoopState::new("chat".to_string(), true);
    assert!(st.step(message("peer-b", "other", b"x")).is_none());
    assert_eq!(st.stats.delivered, 0);
}

#[test]
fn dial_round_trip_reports_once_each() {
    let mut st = LoopState::new("chat".to_string(), true);
    let addr: libp2p::Multiaddr = "/ip4/127.0.0.1/tcp/9091".parse().unwrap();
    match st.step(LoopInput::Host(Command::Dial(addr.clone()))) {
        Some(Action::Dial(a)) => assert_eq!(a, addr),
        other => panic!("unexpected: {:?}", other),
    }
    let established = NetEvent::Established { peer: "peer-a".to_string(), remote: addr.to_string() };
    match st.step(LoopInput::Network(established.clone())) {
        Some(Action::Report(e)) => assert_eq!(e, established),
        other => panic!("unexpected: {:?}", other),
    }
    let closed = NetEvent::Closed { peer: "peer-a".to_string(), cause: CloseCause::Reset };
    match st.step(LoopInput::Network(closed.clone())) {
        Some(Action::Report(e)) => assert_eq!(e, closed),
        other => panic!("unexpected: {:?}", other),
    }
    assert_eq!((st.stats.dials, st.stats.established, st.stats.closed), (1, 1, 1));
}

#[test]
fn publish_goes_to_the_topic() {
    let mut st = LoopState::new("chat".to_string(), true);
    match st.step(LoopInput::Host(Command::Publish(b"hello".to_vec()))) {
        Some(Action::Publish { topic, data }) => {
            assert_eq!(topic, "chat");
            assert_eq!(data, b"hello".to_vec());
        }
        other => panic!("unexpected: {:?}", other),
    }
    assert_eq!(st.stats.publishes, 1);
}

#[test]
fn outcomes_are_reported_and_loop_goes_on() {
    let mut st = LoopState::new("chat".to_string(), true);
    let r = st.step(LoopInput::DialOutcome { address: "/ip4/1.2.3.4/tcp/1".to_string(), error: Some("refused".to_string()) });
    assert!(matches!(r, Some(Action::ReportDial { error: Some(_), .. })));
    let r = st.step(LoopInput::PublishOutcome { error: Some("no peers".to_string()) });
    assert!(matches!(r, Some(Action::ReportPublish { error: Some(_) })));
    assert!(!st.is_terminated());
}

#[test]
fn probes_are_counted() {
    let mut st = LoopState::new("chat".to_string(), false);
    let ok = NetEvent::Probe { peer: "p".to_string(), outcome: ProbeOutcome::RoundTrip(1500) };
    let bad = NetEvent::Probe { peer: "p".to_string(), outcome: ProbeOutcome::Failed(ProbeFailure::Timeout) };
    assert!(matches!(st.step(LoopInput::Network(ok)), Some(Action::Report(_))));
    assert!(matches!(st.step(LoopInput::Network(bad)), Some(Action::Report(_))));
    assert_eq!((st.stats.probes_ok, st.stats.probes_failed), (1, 1));
}

#[test]
fn listening_is_counted_and_reported() {
    let mut st = LoopState::new("chat".to_string(), false);
    let ev = NetEvent::Listening { address: "/ip4/0.0.0.0/tcp/9091".to_string() };
    assert!(matches!(st.step(LoopInput::Network(ev)), Some(Action::Report(NetEvent::Listening { .. }))));
    assert_eq!(st.stats.listening, 1);
}

#[test]
fn loop_stops_when_both_sources_end() {
    let mut st = LoopState::new("chat".to_string(), true);
    assert!(st.step(LoopInput::HostEnded).is_none());
    assert!(!st.is_terminated());
    assert!(matches!(
        st.step(LoopInput::Network(NetEvent::Other { description: "x".to_string() })),
        Some(Action::Report(_))
    ));
    assert!(matches!(st.step(LoopInput::NetworkEnded), Some(Action::Stop)));
    assert!(st.is_terminated());
    assert!(st.step(message("p", "chat", b"late")).is_none());
    assert_eq!(st.stats.delivered, 0);
}

#[test]
fn transport_kinds_per_role() {
    let c = NodeConfig::defaults();
    let dual = describe_role(Role::DualTransport, &c);
    assert!(dual.uses_kind(TransportKind::Tcp) && dual.uses_kind(TransportKind::WebRtcDirect));
    let sig = describe_role(Role::Signaling, &c);
    assert!(!sig.uses_kind(TransportKind::Tcp) && sig.uses_kind(TransportKind::WebRtcDirect));
    let client = describe_role(Role::BrowserClient, &c);
    assert!(!client.uses_kind(TransportKind::Tcp) && !client.uses_kind(TransportKind::WebRtcDirect));
}
