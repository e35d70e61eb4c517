use autovpn::attr::Attribute;
use autovpn::endian::Endian;
use autovpn::error::{NetlinkError, ProtocolError};
use autovpn::genl::GenlMessage;
use autovpn::netlink::{
    decode_messages, NetlinkMessage, Payload, Protocol, NLMSG_DONE, NLMSG_ERROR, NLM_F_MULTI,
    NLM_F_REQUEST,
};
use autovpn::nl80211::{Nl80211Attr, Nl80211Cmd};
use autovpn::wifi::{
    classify, cmd_connect, cmd_new_interface, finish_interface_scan, gen_nl80211_header,
    get_ifindex, get_ifindex_request, get_ssid, handle_message, handle_messages, handle_payload,
    parse_ifindex, read_ifindex, InterfaceScan, LinkState, MonitorAction, WifiMonitor,
};
use autovpn::Msg;

fn names(list: &[&str]) -> Vec<String> {
    list.iter().map(|s| s.to_string()).collect()
}

fn attr(kind: Nl80211Attr, payload: &[u8]) -> Attribute {
    Attribute { kind: u16::from(kind), payload: payload.to_vec() }
}

fn event(cmd: Nl80211Cmd, attrs: Vec<Attribute>) -> GenlMessage {
    GenlMessage { cmd: u8::from(cmd), version: 1, attrs }
}

fn message(flags: u16, payload: Payload) -> NetlinkMessage {
    NetlinkMessage { msg_type: 0x1c, flags, sequence: 0, port: 0, payload }
}

fn monitor(ifindex: Option<u32>, state: LinkState) -> WifiMonitor {
    WifiMonitor { ifindex, state }
}

fn all_states() -> Vec<WifiMonitor> {
    vec![
        monitor(None, LinkState::Unassociated),
        monitor(Some(3), LinkState::Unassociated),
        monitor(Some(3), LinkState::ResolvingSsid(3)),
        monitor(Some(3), LinkState::Associated),
        monitor(None, LinkState::Associated),
    ]
}

#[test]
fn known_network_disables_and_unknown_enables() {
    let known = names(&["Home", "Work"]);
    assert_eq!(classify(&known, &"Home".to_string()), Msg::Disable);
    assert_eq!(classify(&known, &"Work".to_string()), Msg::Disable);
    assert_eq!(classify(&known, &"Office".to_string()), Msg::Enable);
    assert_eq!(classify(&known, &"".to_string()), Msg::Enable);
}

#[test]
fn classification_is_by_exact_match() {
    let known = names(&["Home"]);
    assert_eq!(classify(&known, &"home".to_string()), Msg::Enable);
    assert_eq!(classify(&known, &"Home ".to_string()), Msg::Enable);
    assert_eq!(classify(&known, &"Hom".to_string()), Msg::Enable);
    assert_eq!(classify(&known, &"Home\0".to_string()), Msg::Enable);
    assert_eq!(classify(&Vec::new(), &"Home".to_string()), Msg::Enable);
    assert_eq!(classify(&names(&[""]), &"".to_string()), Msg::Disable);
}

#[test]
fn classification_over_every_name_of_a_set() {
    let known = names(&["a", "b", "caf\u{e9}", "\u{fffd}"]);
    for n in ["a", "b", "c", "caf\u{e9}", "cafe", "\u{fffd}", "ab", ""] {
        let expected = if known.iter().any(|k| k == n) { Msg::Disable } else { Msg::Enable };
        assert_eq!(classify(&known, &n.to_string()), expected, "{:?}", n);
    }
}

#[test]
fn interface_index_is_read_in_native_order() {
    assert_eq!(parse_ifindex(&3u32.to_ne_bytes()), 3);
    assert_eq!(parse_ifindex(&0x0102_0304u32.to_ne_bytes()), 0x0102_0304);
    assert_eq!(parse_ifindex(&[1, 2, 3, 4]), u32::from_ne_bytes([1, 2, 3, 4]));
}

#[test]
fn interface_index_of_another_width_is_refused() {
    assert_eq!(read_ifindex(Endian::Little, &[3, 0, 0, 0]), Ok(3));
    assert_eq!(read_ifindex(Endian::Big, &[3, 0, 0, 0]), Ok(0x0300_0000));
    assert_eq!(read_ifindex(Endian::Little, &[3, 0, 0]), Err(ProtocolError::BadWidth));
    assert_eq!(read_ifindex(Endian::Little, &[3, 0, 0, 0, 0]), Err(ProtocolError::BadWidth));
    assert_eq!(read_ifindex(Endian::Little, &[]), Err(ProtocolError::BadWidth));
}

#[test]
fn monitor_starts_by_asking_for_the_current_network() {
    assert_eq!(
        WifiMonitor::start(Some(3)),
        (monitor(Some(3), LinkState::ResolvingSsid(3)), MonitorAction::QuerySsid(3))
    );
    assert_eq!(WifiMonitor::start(None), (monitor(None, LinkState::Unassociated), MonitorAction::Ignore));
}

#[test]
fn disconnect_always_disables() {
    let known = names(&["Home"]);
    let disconnect = event(Nl80211Cmd::Disconnect, vec![attr(Nl80211Attr::Ifindex, &[9, 0, 0, 0])]);
    for start in all_states() {
        let mut m = start;
        let action = handle_payload(Endian::Little, &mut m, &disconnect, &known);
        assert_eq!(action, MonitorAction::Publish(Msg::Disable));
        assert_eq!(m, monitor(start.ifindex, LinkState::Unassociated));
    }
    // also without any attribute
    let bare = event(Nl80211Cmd::Disconnect, Vec::new());
    let mut m = monitor(Some(3), LinkState::Associated);
    assert_eq!(handle_payload(Endian::Little, &mut m, &bare, &known), MonitorAction::Publish(Msg::Disable));
}

#[test]
fn connect_on_another_interface_is_ignored() {
    let known = names(&["Home"]);
    let connect = event(Nl80211Cmd::Connect, vec![attr(Nl80211Attr::Ifindex, &[4, 0, 0, 0])]);
    for start in all_states() {
        if start.ifindex.is_none() {
            continue;
        }
        let mut m = start;
        assert_eq!(handle_payload(Endian::Little, &mut m, &connect, &known), MonitorAction::Ignore);
        assert_eq!(m, start);
        let mut m = start;
        assert_eq!(cmd_connect(Endian::Little, &mut m, &connect), MonitorAction::Ignore);
        assert_eq!(m, start);
    }
}

#[test]
fn connect_adopts_the_first_index_and_asks_for_the_name() {
    let connect = event(Nl80211Cmd::Connect, vec![attr(Nl80211Attr::Ifindex, &[4, 0, 0, 0])]);
    let mut m = monitor(None, LinkState::Unassociated);
    assert_eq!(cmd_connect(Endian::Little, &mut m, &connect), MonitorAction::QuerySsid(4));
    assert_eq!(m, monitor(Some(4), LinkState::ResolvingSsid(4)));
    // the same interface again
    m.state = LinkState::Associated;
    assert_eq!(cmd_connect(Endian::Little, &mut m, &connect), MonitorAction::QuerySsid(4));
    assert_eq!(m, monitor(Some(4), LinkState::ResolvingSsid(4)));
    // read in the other order it is another interface
    assert_eq!(cmd_connect(Endian::Big, &mut m, &connect), MonitorAction::Ignore);
    assert_eq!(m, monitor(Some(4), LinkState::ResolvingSsid(4)));
}

#[test]
fn connect_without_a_usable_index_is_ignored() {
    let start = monitor(None, LinkState::Unassociated);
    let mut m = start;
    let bare = event(Nl80211Cmd::Connect, vec![attr(Nl80211Attr::Ssid, b"Home")]);
    assert_eq!(cmd_connect(Endian::Little, &mut m, &bare), MonitorAction::Ignore);
    assert_eq!(m, start);
    let narrow = event(Nl80211Cmd::Connect, vec![attr(Nl80211Attr::Ifindex, &[4, 0])]);
    assert_eq!(cmd_connect(Endian::Little, &mut m, &narrow), MonitorAction::Ignore);
    assert_eq!(m, start);
}

#[test]
fn new_interface_publishes_one_decision() {
    let known = names(&["Home"]);
    let mut m = monitor(Some(3), LinkState::ResolvingSsid(3));
    let home = event(Nl80211Cmd::NewInterface, vec![attr(Nl80211Attr::Ssid, b"Home")]);
    assert_eq!(cmd_new_interface(&mut m, &home, &known), MonitorAction::Publish(Msg::Disable));
    assert_eq!(m, monitor(Some(3), LinkState::Associated));
    let office = event(Nl80211Cmd::NewInterface, vec![attr(Nl80211Attr::Ssid, b"Office")]);
    assert_eq!(cmd_new_interface(&mut m, &office, &known), MonitorAction::Publish(Msg::Enable));
    assert_eq!(m, monitor(Some(3), LinkState::Associated));
}

#[test]
fn new_interface_without_a_name_is_ignored() {
    let known = names(&["Home"]);
    let start = monitor(Some(3), LinkState::ResolvingSsid(3));
    let mut m = start;
    let bare = event(Nl80211Cmd::NewInterface, vec![attr(Nl80211Attr::Ifindex, &[3, 0, 0, 0])]);
    assert_eq!(cmd_new_interface(&mut m, &bare, &known), MonitorAction::Ignore);
    assert_eq!(m, start);
}

#[test]
fn network_name_is_decoded_permissively() {
    // 0xff is no UTF-8: it reads as U+FFFD
    let known = names(&["caf\u{fffd}", "caf\u{e9}"]);
    let mut m = monitor(Some(3), LinkState::ResolvingSsid(3));
    let latin1 = event(Nl80211Cmd::NewInterface, vec![attr(Nl80211Attr::Ssid, &[b'c', b'a', b'f', 0xff])]);
    assert_eq!(cmd_new_interface(&mut m, &latin1, &known), MonitorAction::Publish(Msg::Disable));
    let utf8 = event(Nl80211Cmd::NewInterface, vec![attr(Nl80211Attr::Ssid, "caf\u{e9}".as_bytes())]);
    assert_eq!(cmd_new_interface(&mut m, &utf8, &known), MonitorAction::Publish(Msg::Disable));
    let other = event(Nl80211Cmd::NewInterface, vec![attr(Nl80211Attr::Ssid, &[b'c', b'a', b'f', 0xe9, 0xe9])]);
    assert_eq!(cmd_new_interface(&mut m, &other, &known), MonitorAction::Publish(Msg::Enable));
}

#[test]
fn other_commands_are_ignored() {
    let known = names(&["Home"]);
    for cmd in [Nl80211Cmd::GetInterface, Nl80211Cmd::Roam, Nl80211Cmd::TriggerScan, Nl80211Cmd::UnrecognizedConst(250)] {
        for start in all_states() {
            let mut m = start;
            let e = event(cmd, vec![attr(Nl80211Attr::Ifindex, &[3, 0, 0, 0]), attr(Nl80211Attr::Ssid, b"Home")]);
            assert_eq!(handle_payload(Endian::Little, &mut m, &e, &known), MonitorAction::Ignore);
            assert_eq!(m, start);
        }
    }
}

#[test]
fn requests_and_control_messages_are_skipped() {
    let known = names(&["Home"]);
    let start = monitor(Some(3), LinkState::Associated);
    let disconnect = event(Nl80211Cmd::Disconnect, Vec::new());
    let mut m = start;
    let request = message(NLM_F_REQUEST, Payload::Genl(disconnect.clone()));
    assert_eq!(handle_message(Endian::Little, &mut m, &request, &known), MonitorAction::Ignore);
    assert_eq!(m, start);
    for payload in [Payload::Ack, Payload::Error(-1), Payload::Done] {
        assert_eq!(handle_message(Endian::Little, &mut m, &message(0, payload), &known), MonitorAction::Ignore);
        assert_eq!(m, start);
    }
    let plain = message(NLM_F_MULTI, Payload::Genl(disconnect));
    assert_eq!(handle_message(Endian::Little, &mut m, &plain, &known), MonitorAction::Publish(Msg::Disable));
}

#[test]
fn batch_is_handled_in_order() {
    let known = names(&["Home"]);
    let batch = vec![
        message(0, Payload::Genl(event(Nl80211Cmd::Connect, vec![attr(Nl80211Attr::Ifindex, &[3, 0, 0, 0])]))),
        message(0, Payload::Genl(event(Nl80211Cmd::Connect, vec![attr(Nl80211Attr::Ifindex, &[4, 0, 0, 0])]))),
        message(0, Payload::Genl(event(Nl80211Cmd::NewInterface, vec![attr(Nl80211Attr::Ssid, b"Cafe")]))),
        message(NLM_F_REQUEST, Payload::Genl(event(Nl80211Cmd::Disconnect, Vec::new()))),
        message(0, Payload::Genl(event(Nl80211Cmd::NewInterface, vec![attr(Nl80211Attr::Ssid, b"Home")]))),
        message(0, Payload::Genl(event(Nl80211Cmd::Disconnect, Vec::new()))),
    ];
    let mut m = monitor(None, LinkState::Unassociated);
    let actions = handle_messages(Endian::Little, &mut m, &batch, &known);
    assert_eq!(
        actions,
        vec![
            MonitorAction::QuerySsid(3),
            MonitorAction::Ignore,
            MonitorAction::Publish(Msg::Enable),
            MonitorAction::Ignore,
            MonitorAction::Publish(Msg::Disable),
            MonitorAction::Publish(Msg::Disable),
        ]
    );
    assert_eq!(m, monitor(Some(3), LinkState::Unassociated));
    let mut m = monitor(Some(7), LinkState::Associated);
    assert_eq!(handle_messages(Endian::Little, &mut m, &Vec::new(), &known), Vec::new());
    assert_eq!(m, monitor(Some(7), LinkState::Associated));
}

#[test]
fn request_header_has_version_one_and_no_sequence() {
    let attrs = vec![attr(Nl80211Attr::Ifindex, &[3, 0, 0, 0])];
    assert_eq!(
        gen_nl80211_header(Nl80211Cmd::GetInterface, attrs.clone(), 0x1c, NLM_F_REQUEST),
        NetlinkMessage {
            msg_type: 0x1c,
            flags: 1,
            sequence: 0,
            port: 0,
            payload: Payload::Genl(GenlMessage { cmd: 5, version: 1, attrs }),
        }
    );
}

#[test]
fn ssid_query_bytes() {
    assert_eq!(
        get_ssid(Endian::Little, 0x1c, 3),
        vec![28, 0, 0, 0, 0x1c, 0, 1, 0, 0, 0, 0, 0, 0, 0, 0, 0, 5, 1, 0, 0, 8, 0, 3, 0, 3, 0, 0, 0]
    );
    assert_eq!(
        get_ssid(Endian::Big, 0x1c, 3),
        vec![0, 0, 0, 28, 0, 0x1c, 0, 1, 0, 0, 0, 0, 0, 0, 0, 0, 5, 1, 0, 0, 0, 8, 0, 3, 0, 0, 0, 3]
    );
}

#[test]
fn interface_query_bytes() {
    assert_eq!(
        get_ifindex_request(Endian::Little, 0x1c),
        vec![20, 0, 0, 0, 0x1c, 0, 0x01, 0x03, 0, 0, 0, 0, 0, 0, 0, 0, 5, 1, 0, 0]
    );
    let sent = decode_messages(Endian::Little, Protocol::Generic, &get_ifindex_request(Endian::Little, 0x1c)).unwrap();
    assert_eq!(sent.len(), 1);
    assert_eq!(sent[0].flags, 0x301);
}

fn interface(flags: u16, name: &[u8], index: Option<&[u8]>) -> NetlinkMessage {
    let mut attrs = Vec::new();
    if let Some(bytes) = index {
        attrs.push(attr(Nl80211Attr::Ifindex, bytes));
    }
    attrs.push(attr(Nl80211Attr::Ifname, name));
    message(flags, Payload::Genl(event(Nl80211Cmd::NewInterface, attrs)))
}

#[test]
fn interface_dump_gives_the_index_of_the_named_interface() {
    let order = Endian::Little;
    let wlan0 = "wlan0".to_string();
    let msgs = vec![
        interface(NLM_F_MULTI, b"wlan1\0", Some(&[4, 0, 0, 0])),
        interface(NLM_F_MULTI, b"wlan0\0", Some(&[3, 0, 0, 0])),
        interface(NLM_F_MULTI, b"p2p-dev-wlan0\0", Some(&[5, 0, 0, 0])),
    ];
    assert_eq!(
        get_ifindex(order, &msgs, &wlan0),
        Ok(InterfaceScan { ifindex: Some(3), done_pending: true })
    );
    assert_eq!(
        get_ifindex(order, &msgs, &"eth0".to_string()),
        Ok(InterfaceScan { ifindex: None, done_pending: true })
    );
    assert_eq!(
        get_ifindex(order, &Vec::new(), &wlan0),
        Ok(InterfaceScan { ifindex: None, done_pending: false })
    );
    let done = NetlinkMessage { msg_type: NLMSG_DONE, flags: NLM_F_MULTI, sequence: 0, port: 0, payload: Payload::Done };
    let mut closed = msgs.clone();
    closed.push(done);
    assert_eq!(
        get_ifindex(order, &closed, &wlan0),
        Ok(InterfaceScan { ifindex: Some(3), done_pending: false })
    );
}

#[test]
fn last_interface_of_the_name_counts() {
    let order = Endian::Little;
    let wlan0 = "wlan0".to_string();
    let msgs = vec![
        interface(0, b"wlan0\0", Some(&[3, 0, 0, 0])),
        interface(0, b"wlan0\0", Some(&[8, 0, 0, 0])),
    ];
    assert_eq!(get_ifindex(order, &msgs, &wlan0), Ok(InterfaceScan { ifindex: Some(8), done_pending: false }));
    // one that carries no index takes the index away
    let msgs = vec![interface(0, b"wlan0\0", Some(&[3, 0, 0, 0])), interface(0, b"wlan0\0", None)];
    assert_eq!(get_ifindex(order, &msgs, &wlan0), Ok(InterfaceScan { ifindex: None, done_pending: false }));
    // a message without a name changes nothing
    let nameless = message(0, Payload::Genl(event(Nl80211Cmd::NewInterface, vec![attr(Nl80211Attr::Ifindex, &[9, 0, 0, 0])])));
    let msgs = vec![interface(0, b"wlan0\0", Some(&[3, 0, 0, 0])), nameless];
    assert_eq!(get_ifindex(order, &msgs, &wlan0), Ok(InterfaceScan { ifindex: Some(3), done_pending: false }));
}

#[test]
fn interface_dump_errors() {
    let order = Endian::Little;
    let wlan0 = "wlan0".to_string();
    assert_eq!(
        get_ifindex(order, &vec![interface(0, b"wlan0", Some(&[3, 0, 0, 0]))], &wlan0),
        Err(NetlinkError::Protocol(ProtocolError::MissingNul))
    );
    assert_eq!(
        get_ifindex(order, &vec![interface(0, b"wl\0an0\0", Some(&[3, 0, 0, 0]))], &wlan0),
        Err(NetlinkError::Protocol(ProtocolError::InteriorNul))
    );
    assert_eq!(
        get_ifindex(order, &vec![interface(0, b"wlan0\0", Some(&[3, 0]))], &wlan0),
        Err(NetlinkError::Protocol(ProtocolError::BadWidth))
    );
    // the width of an index on another interface is not looked at
    assert_eq!(
        get_ifindex(order, &vec![interface(0, b"wlan1\0", Some(&[3, 0]))], &wlan0),
        Ok(InterfaceScan { ifindex: None, done_pending: false })
    );
    let rejected = NetlinkMessage { msg_type: NLMSG_ERROR, flags: 0, sequence: 0, port: 0, payload: Payload::Error(-19) };
    assert_eq!(
        get_ifindex(order, &vec![interface(0, b"wlan0\0", Some(&[3, 0, 0, 0])), rejected], &wlan0),
        Err(NetlinkError::KernelRejection(-19))
    );
    // the first failure ends the scan
    let rejected = NetlinkMessage { msg_type: NLMSG_ERROR, flags: 0, sequence: 0, port: 0, payload: Payload::Error(-19) };
    assert_eq!(
        get_ifindex(order, &vec![interface(0, b"wlan0", None), rejected], &wlan0),
        Err(NetlinkError::Protocol(ProtocolError::MissingNul))
    );
}

#[test]
fn interface_query_fails_without_its_terminator() {
    let order = Endian::Little;
    let wlan0 = "wlan0".to_string();
    let msgs = vec![interface(NLM_F_MULTI, b"wlan0\0", Some(&[3, 0, 0, 0]))];
    let scan = get_ifindex(order, &msgs, &wlan0).unwrap();
    assert_eq!(scan, InterfaceScan { ifindex: Some(3), done_pending: true });
    // nothing follows
    assert_eq!(
        finish_interface_scan(scan, None),
        Err(NetlinkError::Protocol(ProtocolError::MissingDone))
    );
    // a message of another type follows
    let other = interface(NLM_F_MULTI, b"wlan1\0", Some(&[4, 0, 0, 0]));
    assert_eq!(
        finish_interface_scan(scan, Some(&other)),
        Err(NetlinkError::Protocol(ProtocolError::MissingDone))
    );
    let ack = NetlinkMessage { msg_type: NLMSG_ERROR, flags: 0, sequence: 0, port: 0, payload: Payload::Ack };
    assert_eq!(
        finish_interface_scan(scan, Some(&ack)),
        Err(NetlinkError::Protocol(ProtocolError::MissingDone))
    );
    // the kernel rejects the query
    let rejected = NetlinkMessage { msg_type: NLMSG_ERROR, flags: 0, sequence: 0, port: 0, payload: Payload::Error(-19) };
    assert_eq!(finish_interface_scan(scan, Some(&rejected)), Err(NetlinkError::KernelRejection(-19)));
}

#[test]
fn interface_query_gives_the_index_once_the_reply_is_complete() {
    let done = NetlinkMessage { msg_type: NLMSG_DONE, flags: NLM_F_MULTI, sequence: 0, port: 0, payload: Payload::Done };
    let pending = InterfaceScan { ifindex: Some(3), done_pending: true };
    assert_eq!(finish_interface_scan(pending, Some(&done)), Ok(Some(3)));
    let none = InterfaceScan { ifindex: None, done_pending: true };
    assert_eq!(finish_interface_scan(none, Some(&done)), Ok(None));
    // where no terminator is to come, what follows is not looked at
    let complete = InterfaceScan { ifindex: Some(3), done_pending: false };
    assert_eq!(finish_interface_scan(complete, None), Ok(Some(3)));
    let other = interface(0, b"wlan1\0", Some(&[4, 0, 0, 0]));
    assert_eq!(finish_interface_scan(complete, Some(&other)), Ok(Some(3)));
    let empty = InterfaceScan { ifindex: None, done_pending: false };
    assert_eq!(finish_interface_scan(empty, None), Ok(None));
}
