use crossbeam_channel::unbounded;
use telnet_gateway::bridge::{bridge_step, client_read_step, BridgeAction, BridgeEvent, ClientRead, ConnectionBridge};
use telnet_gateway::encoding::decode_backend_data;
use telnet_gateway::manager::{ClientManager, ClientManagerMessage};
use telnet_gateway::negotiation::{
    negotiation_reply, terminal_type, NegotiationAction, NegotiationReply, OPT_ECHO, OPT_SEND_LOCATION,
    OPT_SUPPRESS_GO_AHEAD, OPT_TERMINAL_TYPE, OPT_TRANSMIT_BINARY,
};
use telnet_gateway::session::{ClientConnection, SharedClientMap};
use NegotiationAction::{Do, Dont, Will, Wont};

fn manager() -> ClientManager<u32> {
    let (_tx, rx) = unbounded::<ClientManagerMessage<u32>>();
    ClientManager::new(rx)
}

fn plain(action: NegotiationAction, option: u8) -> Option<NegotiationReply> {
    Some(NegotiationReply { action, option, subnegotiation: None })
}

#[test]
fn echo_do_gets_will() {
    assert_eq!(negotiation_reply(NegotiationAction::Do, OPT_ECHO, b"x"), plain(NegotiationAction::Will, OPT_ECHO));
}

#[test]
fn echo_table() {
    assert_eq!(negotiation_reply(Dont, OPT_ECHO, b""), plain(Wont, OPT_ECHO));
    assert_eq!(negotiation_reply(Will, OPT_ECHO, b""), plain(Do, OPT_ECHO));
    assert_eq!(negotiation_reply(Wont, OPT_ECHO, b""), plain(Dont, OPT_ECHO));
}

#[test]
fn suppress_go_ahead_and_binary_always_accepted() {
    for opt in [OPT_SUPPRESS_GO_AHEAD, OPT_TRANSMIT_BINARY] {
        assert_eq!(negotiation_reply(Do, opt, b""), plain(Will, opt));
        assert_eq!(negotiation_reply(Dont, opt, b""), plain(Will, opt));
        assert_eq!(negotiation_reply(Will, opt, b""), plain(Do, opt));
        assert_eq!(negotiation_reply(Wont, opt, b""), plain(Do, opt));
    }
}

#[test]
fn send_location_table() {
    assert_eq!(
        negotiation_reply(Do, OPT_SEND_LOCATION, b"10.0.0.1"),
        Some(NegotiationReply { action: Will, option: OPT_SEND_LOCATION, subnegotiation: Some(b"10.0.0.1".to_vec()) })
    );
    assert_eq!(negotiation_reply(Dont, OPT_SEND_LOCATION, b"10.0.0.1"), plain(Wont, OPT_SEND_LOCATION));
    assert_eq!(negotiation_reply(Will, OPT_SEND_LOCATION, b"10.0.0.1"), plain(Dont, OPT_SEND_LOCATION));
    assert_eq!(negotiation_reply(Wont, OPT_SEND_LOCATION, b"10.0.0.1"), plain(Dont, OPT_SEND_LOCATION));
}

#[test]
fn terminal_type_table() {
    assert_eq!(
        negotiation_reply(Do, OPT_TERMINAL_TYPE, b""),
        Some(NegotiationReply { action: Will, option: OPT_TERMINAL_TYPE, subnegotiation: Some(b"ansi-bbs".to_vec()) })
    );
    assert_eq!(negotiation_reply(Dont, OPT_TERMINAL_TYPE, b""), None);
    assert_eq!(negotiation_reply(Will, OPT_TERMINAL_TYPE, b""), None);
    assert_eq!(negotiation_reply(Wont, OPT_TERMINAL_TYPE, b""), None);
    assert_eq!(terminal_type(), b"ansi-bbs".to_vec());
}

#[test]
fn other_options_get_no_reply() {
    for opt in [2u8, 5, 31, 255] {
        for a in [Do, Dont, Will, Wont] {
            assert_eq!(negotiation_reply(a, opt, b"1.2.3.4"), None);
        }
    }
}

#[test]
fn replies_repeat_identically() {
    let a = negotiation_reply(NegotiationAction::Will, OPT_SUPPRESS_GO_AHEAD, b"");
    let b = negotiation_reply(NegotiationAction::Will, OPT_SUPPRESS_GO_AHEAD, b"");
    assert_eq!(a, b);
    assert_eq!(a, plain(NegotiationAction::Do, OPT_SUPPRESS_GO_AHEAD));
}

#[test]
fn every_byte_decodes_to_one_char() {
    let all: Vec<u8> = (0..=255u8).collect();
    let text = decode_backend_data(all);
    assert_eq!(text.chars().count(), 256);
    for (i, c) in text.chars().enumerate().take(128) {
        assert_eq!(c as u32, i as u32);
    }
}

#[test]
fn high_bytes_decode_through_code_page() {
    assert_eq!(decode_backend_data(vec![0x80, 0xB0, 0xFE]), "\u{C7}\u{2591}\u{25A0}");
    assert_eq!(decode_backend_data(vec![0x00, 0x0D, 0x0A]), "\u{0}\r\n");
    assert_eq!(decode_backend_data(vec![]), "");
}

#[test]
fn backend_data_reaches_client_as_text() {
    let mut m = manager();
    let record = m.connect("192.0.2.1".to_string()).unwrap();
    assert_eq!(m.len(), 1);
    let mut bridge = ConnectionBridge::new(record);
    let action = bridge.on_backend_event(BridgeEvent::Data(vec![0x41, 0x42]));
    assert_eq!(action, BridgeAction::SendToClient("AB".to_string()));
    assert!(bridge.is_running());
}

#[test]
fn backend_do_echo_answered_with_will_echo() {
    let record = ClientConnection::new(7, "192.0.2.1".to_string());
    let action = bridge_step(BridgeEvent::Negotiation(NegotiationAction::Do, OPT_ECHO), &record);
    assert_eq!(
        action,
        BridgeAction::Reply(NegotiationReply { action: NegotiationAction::Will, option: OPT_ECHO, subnegotiation: None })
    );
}

#[test]
fn send_location_reports_client_address() {
    let record = ClientConnection::new(9, "203.0.113.7".to_string());
    let action = bridge_step(BridgeEvent::Negotiation(NegotiationAction::Do, OPT_SEND_LOCATION), &record);
    assert_eq!(
        action,
        BridgeAction::Reply(NegotiationReply {
            action: NegotiationAction::Will,
            option: OPT_SEND_LOCATION,
            subnegotiation: Some(b"203.0.113.7".to_vec()),
        })
    );
}

#[test]
fn terminal_type_reported_on_do() {
    let record = ClientConnection::new(9, "203.0.113.7".to_string());
    let action = bridge_step(BridgeEvent::Negotiation(NegotiationAction::Do, OPT_TERMINAL_TYPE), &record);
    assert_eq!(
        action,
        BridgeAction::Reply(NegotiationReply {
            action: NegotiationAction::Will,
            option: OPT_TERMINAL_TYPE,
            subnegotiation: Some(b"ansi-bbs".to_vec()),
        })
    );
}

#[test]
fn client_closure_removes_session() {
    let mut m = manager();
    let record = m.connect("198.51.100.2".to_string()).unwrap();
    let id = record.client_id;
    let mut bridge = ConnectionBridge::new(record);
    assert_eq!(bridge.on_client_read(ClientRead::Closed), BridgeAction::Close);
    assert!(!bridge.is_running());
    assert_eq!(bridge.finish(), Some(id));
    assert_eq!(bridge.finish(), None);
    assert!(m.close(id));
    assert_eq!(m.len(), 0);
    assert!(m.session(id).is_none());
}

#[test]
fn bridge_ignores_quiet_events_and_stops_on_errors() {
    let record = ClientConnection::new(1, "192.0.2.9".to_string());
    assert_eq!(bridge_step(BridgeEvent::NoData, &record), BridgeAction::Idle);
    assert_eq!(bridge_step(BridgeEvent::TimedOut, &record), BridgeAction::Idle);
    assert_eq!(bridge_step(BridgeEvent::UnknownCommand(241), &record), BridgeAction::Idle);
    assert_eq!(bridge_step(BridgeEvent::Subnegotiation(24, vec![1]), &record), BridgeAction::Idle);
    assert_eq!(bridge_step(BridgeEvent::OtherError, &record), BridgeAction::Idle);
    assert_eq!(bridge_step(BridgeEvent::QueueError, &record), BridgeAction::Close);
    assert_eq!(bridge_step(BridgeEvent::Disconnected, &record), BridgeAction::Close);
    let mut bridge = ConnectionBridge::new(ClientConnection::new(2, "192.0.2.9".to_string()));
    assert_eq!(bridge.on_backend_event(BridgeEvent::QueueError), BridgeAction::Close);
    assert!(!bridge.is_running());
    assert_eq!(bridge.client_id(), 2);
}

#[test]
fn client_bytes_forwarded_verbatim() {
    assert_eq!(client_read_step(ClientRead::Bytes(vec![0xFF])), BridgeAction::SendToBackend(vec![0xFF]));
    assert_eq!(client_read_step(ClientRead::Bytes(vec![])), BridgeAction::Idle);
    assert_eq!(client_read_step(ClientRead::NothingWaiting), BridgeAction::Idle);
    assert_eq!(client_read_step(ClientRead::Failed), BridgeAction::Close);
}

#[test]
fn closing_twice_is_a_no_op() {
    let mut m = manager();
    m.register(5, "192.0.2.5".to_string()).unwrap();
    m.register(6, "192.0.2.6".to_string()).unwrap();
    assert!(m.close(5));
    assert_eq!(m.len(), 1);
    assert!(!m.close(5));
    assert_eq!(m.len(), 1);
    assert_eq!(m.session(6).unwrap().ip_addr, "192.0.2.6");
}

#[test]
fn taken_identifier_is_refused() {
    let mut m = manager();
    let first = m.register(5, "192.0.2.5".to_string()).unwrap();
    assert_eq!(first.client_id, 5);
    assert!(m.register(5, "192.0.2.77".to_string()).is_none());
    assert_eq!(m.session(5).unwrap().ip_addr, "192.0.2.5");
    assert_eq!(m.len(), 1);
}

#[test]
fn minted_identifiers_are_distinct() {
    let mut m = manager();
    let a = m.connect("192.0.2.1".to_string()).unwrap();
    let b = m.connect("192.0.2.1".to_string()).unwrap();
    let c = m.connect("192.0.2.2".to_string()).unwrap();
    assert_ne!(a.client_id, b.client_id);
    assert_ne!(a.client_id, c.client_id);
    assert_ne!(b.client_id, c.client_id);
    assert_eq!(m.len(), 3);
}

#[test]
fn registry_tracks_connect_and_close_sequence() {
    let mut m = manager();
    m.register(1, "a".to_string());
    m.register(2, "b".to_string());
    m.close(1);
    m.register(3, "c".to_string());
    m.register(1, "d".to_string());
    m.close(2);
    m.close(9);
    assert_eq!(m.len(), 2);
    assert!(m.session(1).is_some());
    assert!(m.session(2).is_none());
    assert!(m.session(3).is_some());
    assert_eq!(m.session(1).unwrap().ip_addr, "d");
}

#[test]
fn shared_map_operations() {
    let mut map = SharedClientMap::new();
    assert_eq!(map.len(), 0);
    map.insert(4, ClientConnection::new(4, "192.0.2.4".to_string()));
    assert!(map.contains(4));
    let got = map.get(4).unwrap();
    assert_eq!(got.client_id, 4);
    assert_eq!(got.location(), b"192.0.2.4");
    map.remove(4);
    map.remove(4);
    assert!(map.get(4).is_none());
    assert_eq!(map.len(), 0);
}

#[test]
fn receive_reports_empty_channel_and_messages() {
    let (tx, rx) = unbounded::<ClientManagerMessage<u32>>();
    let m = ClientManager::new(rx);
    assert!(m.receive().is_err());
    tx.send(ClientManagerMessage::ConnectionClosed { client_id: 3 }).unwrap();
    match m.receive() {
        Ok(ClientManagerMessage::ConnectionClosed { client_id }) => assert_eq!(client_id, 3),
        _ => panic!("expected a closure message"),
    }
}
