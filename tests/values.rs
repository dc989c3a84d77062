use channel_open_init::{
    Attributes, ChannelEnd, ChannelId, ConnectionEnd, ConnectionId, Counterparty, HandlerOutput,
    HandlerOutputBuilder, Height, IbcEvent, List, MsgChannelOpenInit, OpenInit, Order, PortId,
    Signer, State, Version, check_connection, check_connection_hops, open_init_output,
    Capability, ErrorKind,
};

fn strings(items: &[&str]) -> List<String> {
    let mut l = List::Nil;
    for s in items {
        l = l.push(s.to_string());
    }
    l
}

fn channel(hop_ids: &[&str], ordering: Order, version: &str) -> ChannelEnd {
    let mut l = List::Nil;
    for s in hop_ids {
        l = l.push(ConnectionId(s.to_string()));
    }
    ChannelEnd {
        state: State::Uninitialized,
        ordering,
        remote: Counterparty { port_id: PortId("bank".to_string()), channel_id: Some(ChannelId::new(3)) },
        connection_hops: l,
        version: version.to_string(),
    }
}

#[test]
fn channel_ids_are_decimal() {
    assert_eq!(ChannelId::new(0).0, "channel-0");
    assert_eq!(ChannelId::new(7).0, "channel-7");
    assert_eq!(ChannelId::new(10).0, "channel-10");
    assert_eq!(ChannelId::new(1234567890).0, "channel-1234567890");
    assert_eq!(ChannelId::new(u64::MAX).0, "channel-18446744073709551615");
}

#[test]
fn connection_ids_are_decimal() {
    assert_eq!(ConnectionId::new(0).0, "connection-0");
    assert_eq!(ConnectionId::new(99).0, "connection-99");
    assert_eq!(ConnectionId::new(100).0, "connection-100");
}

#[test]
fn defaults() {
    assert_eq!(ChannelId::default().0, "channel-0");
    assert_eq!(ConnectionId::default().0, "connection-0");
    assert_eq!(PortId::default().0, "defaultPort");
    let h = Height::default();
    assert_eq!((h.revision_number, h.revision_height), (0, 0));
    let a = Attributes::default();
    assert!(a.channel_id.is_none());
    assert!(a.counterparty_channel_id.is_none());
    assert_eq!(a.port_id.0, "defaultPort");
    assert_eq!(a.counterparty_port_id.0, "defaultPort");
    assert_eq!(a.connection_id.0, "connection-0");
}

#[test]
fn clones_keep_the_text() {
    let c = ChannelId::new(5);
    assert_eq!(c.clone().0, "channel-5");
    assert_eq!(PortId("p".to_string()).clone().0, "p");
    assert_eq!(ConnectionId::new(2).clone().0, "connection-2");
    let cp = Counterparty { port_id: PortId("x".to_string()), channel_id: Some(ChannelId::new(9)) };
    let cp2 = cp.clone();
    assert_eq!(cp2.port_id.0, "x");
    assert_eq!(cp2.channel_id.map(|c| c.0), Some("channel-9".to_string()));
    let l = strings(&["a", "b"]).clone();
    assert_eq!(l.len(), 2);
    assert_eq!(l.first(), "a");
}

#[test]
fn order_feature_names() {
    assert_eq!(Order::Uninitialized.as_string(), "UNINITIALIZED");
    assert_eq!(Order::Unordered.as_string(), "ORDER_UNORDERED");
    assert_eq!(Order::Ordered.as_string(), "ORDER_ORDERED");
}

#[test]
fn list_operations() {
    let empty: List<String> = List::Nil;
    assert_eq!(empty.len(), 0);
    assert!(!empty.contains(&"a".to_string()));
    let l = strings(&["a", "b", "c"]);
    assert_eq!(l.len(), 3);
    assert_eq!(l.first(), "a");
    assert!(l.contains(&"c".to_string()));
    assert!(l.contains(&"b".to_string()));
    assert!(!l.contains(&"d".to_string()));
    let l = l.push("d".to_string());
    assert_eq!(l.len(), 4);
    assert!(l.contains(&"d".to_string()));
    assert_eq!(l.first(), "a");
}

#[test]
fn version_features() {
    let v = Version { features: strings(&["ORDER_ORDERED", "ORDER_UNORDERED"]) };
    assert!(v.is_supported_feature("ORDER_ORDERED".to_string()));
    assert!(!v.is_supported_feature("UNINITIALIZED".to_string()));
    let conn = ConnectionEnd { versions: List::Nil.push(v) };
    assert_eq!(conn.versions().len(), 1);
}

#[test]
fn getters() {
    let ch = channel(&["connection-4"], Order::Ordered, "v1");
    assert_eq!(ch.connection_hops().first().0, "connection-4");
    assert_eq!(*ch.ordering(), Order::Ordered);
    assert_eq!(ch.counterparty().port_id.0, "bank");
    assert_eq!(ch.version(), "v1");
    let msg = MsgChannelOpenInit { port_id: PortId("p".to_string()), channel: ch, signer: Signer("s".to_string()) };
    assert_eq!(msg.port_id().0, "p");
    assert_eq!(msg.channel().version, "v1");
}

#[test]
fn builder_keeps_order() {
    let b: HandlerOutputBuilder<u64> = HandlerOutput::builder();
    let b = b.log("one").log("two");
    let mut attrs = Attributes::default();
    attrs.channel_id = Some(ChannelId::new(1));
    let b = b.emit(IbcEvent::OpenInitChannel(OpenInit::from(attrs)));
    let out = b.with_result(42);
    assert_eq!(out.result, 42);
    assert_eq!(out.log.len(), 2);
    assert_eq!(out.log.first(), "one");
    match &out.log {
        List::Cons(_, t) => assert_eq!(t.first(), "two"),
        List::Nil => panic!("empty log"),
    }
    assert_eq!(out.events.len(), 1);
    let fresh: HandlerOutputBuilder<u64> = HandlerOutputBuilder::new();
    let out = fresh.with_result(1);
    assert_eq!(out.log.len(), 0);
    assert_eq!(out.events.len(), 0);
}

#[test]
fn hop_check_alone() {
    assert!(check_connection_hops(&channel(&["c"], Order::Ordered, "v")).is_ok());
    assert!(matches!(
        check_connection_hops(&channel(&["a", "b", "c"], Order::Ordered, "v")),
        Err(ErrorKind::InvalidConnectionHopsLength(1, 3))
    ));
}

#[test]
fn connection_check_alone() {
    let conn = |fs: &[&str]| ConnectionEnd { versions: List::Nil.push(Version { features: strings(fs) }) };
    assert!(check_connection(&channel(&["c"], Order::Ordered, "v"), Some(conn(&["ORDER_ORDERED"]))).is_ok());
    assert!(matches!(
        check_connection(&channel(&["c"], Order::Ordered, "v"), Some(conn(&["ORDER_UNORDERED"]))),
        Err(ErrorKind::ChannelFeatureNotSupportedByConnection)
    ));
    assert!(matches!(
        check_connection(&channel(&["c"], Order::Ordered, ""), Some(conn(&["ORDER_ORDERED"]))),
        Err(ErrorKind::InvalidVersion)
    ));
    assert!(matches!(
        check_connection(&channel(&["c"], Order::Ordered, "v"), None),
        Err(ErrorKind::MissingConnection(_))
    ));
}

#[test]
fn output_copies_the_request() {
    let msg = MsgChannelOpenInit {
        port_id: PortId("p".to_string()),
        channel: channel(&["connection-1"], Order::Unordered, "v2"),
        signer: Signer("s".to_string()),
    };
    let out = open_init_output(msg, Capability { index: 8 }, 3);
    assert_eq!(out.result.channel_id.0, "channel-3");
    assert_eq!(out.result.port_id.0, "p");
    assert_eq!(out.result.channel_end.state, State::Init);
    assert_eq!(out.result.channel_end.version, "v2");
    assert_eq!(out.result.channel_end.remote.port_id.0, "bank");
    assert_eq!(out.result.channel_end.remote.channel_id.as_ref().map(|c| c.0.as_str()), Some("channel-3"));
    assert_eq!(out.result.channel_end.connection_hops.first().0, "connection-1");
    assert_eq!(out.log.len(), 2);
    assert_eq!(out.events.len(), 1);
}
