use autovpn::attr::{attribute_payload, Attribute};
use autovpn::bus::{react, Reaction, Task};
use autovpn::dump::expect_done;
use autovpn::endian::{get_u32, Endian};
use autovpn::error::{NetlinkError, ProtocolError};
use autovpn::genl::GenlMessage;
use autovpn::netlink::{
    decode_messages, encode_message, NetlinkMessage, Payload, Protocol, NLMSG_DONE, NLMSG_ERROR,
    NLM_F_MULTI, NLM_F_REQUEST,
};
use autovpn::nl80211::{Nl80211Attr, Nl80211Cmd};
use autovpn::rtnl::{RuleMessage, RTA_MARK, RTA_TABLE, RTM_DELRULE, RTM_GETRULE, RTM_NEWRULE};
use autovpn::rule::{
    add_rule, check_request, check_rule, check_rules, decide, disable_rules, enable_rules,
    encode_request, generate_msg_header, generate_rtattrs, generate_rule_msg, remove_rule,
    Exchange, Family, Intent, Outcome, Phase, Rtm, RuleKey, RuleRequest, RuleScan,
};
use autovpn::wifi::{handle_messages, MonitorAction, WifiMonitor};
use autovpn::wireguard::change_listen_port;
use autovpn::wireguard::enums::{WgCmd, WgDeviceAttr};
use autovpn::{Config, Msg};

/// A rule table that answers requests as the kernel does.
struct Kernel {
    order: Endian,
    rules: Vec<(u8, u32, u32)>,
    served: Vec<u16>,
}

fn attr_u32(order: Endian, attrs: &Vec<Attribute>, code: u16) -> u32 {
    get_u32(order, attribute_payload(attrs, code).unwrap(), 0)
}

fn family_of(code: u8) -> Family {
    if code == 2 {
        Family::Inet
    } else {
        Family::Inet6
    }
}

impl Kernel {
    fn new(order: Endian) -> Kernel {
        Kernel { order, rules: Vec::new(), served: Vec::new() }
    }

    fn done(&self) -> Vec<u8> {
        let msg = NetlinkMessage {
            msg_type: NLMSG_DONE,
            flags: NLM_F_MULTI,
            sequence: 0,
            port: 0,
            payload: Payload::Done,
        };
        encode_message(self.order, &msg).unwrap()
    }

    /// Serves one request and gives the datagrams of the reply.
    fn serve(&mut self, datagram: &[u8]) -> Vec<Vec<u8>> {
        let msgs = decode_messages(self.order, Protocol::Route, datagram).unwrap();
        assert_eq!(msgs.len(), 1);
        let msg = &msgs[0];
        assert_eq!(msg.flags & NLM_F_REQUEST, NLM_F_REQUEST);
        self.served.push(msg.msg_type);
        let rule = match &msg.payload {
            Payload::Rule(rule) => rule,
            other => panic!("no rule record: {:?}", other),
        };
        let entry = (
            rule.family,
            attr_u32(self.order, &rule.attrs, RTA_MARK),
            attr_u32(self.order, &rule.attrs, RTA_TABLE),
        );
        if msg.msg_type == RTM_GETRULE {
            let mut records = Vec::new();
            for (family, fwmark, table) in self.rules.iter().filter(|r| r.0 == rule.family) {
                let record = generate_msg_header(
                    self.order,
                    family_of(*family),
                    Rtm::Newrule,
                    *fwmark,
                    *table,
                    NLM_F_MULTI,
                );
                records.extend(encode_message(self.order, &record).unwrap());
            }
            if records.is_empty() {
                vec![self.done()]
            } else {
                vec![records, self.done()]
            }
        } else if msg.msg_type == RTM_NEWRULE {
            if !self.rules.contains(&entry) {
                self.rules.push(entry);
            }
            Vec::new()
        } else {
            assert_eq!(msg.msg_type, RTM_DELRULE);
            if let Some(at) = self.rules.iter().position(|r| *r == entry) {
                self.rules.remove(at);
            }
            Vec::new()
        }
    }
}

/// Runs one exchange against the kernel, as the daemon does against its
/// socket.
fn exchange(kernel: &mut Kernel, intent: Intent, key: RuleKey) -> Result<(), NetlinkError> {
    let order = kernel.order;
    let (mut exchange, query) = Exchange::start(intent, key);
    let mut replies = kernel.serve(&encode_request(order, &query)).into_iter();
    loop {
        let msgs = match replies.next() {
            Some(bytes) => decode_messages(order, Protocol::Route, &bytes).map_err(NetlinkError::Protocol)?,
            None => Vec::new(),
        };
        match exchange.on_reply(order, &msgs) {
            Outcome::Receive => {}
            Outcome::Finish(request) => {
                if let Some(request) = request {
                    kernel.serve(&encode_request(order, &request));
                }
                return Ok(());
            }
            Outcome::Fail(e) => return Err(e),
        }
    }
}

fn create(kernel: &mut Kernel, key: RuleKey) -> Result<(), NetlinkError> {
    exchange(kernel, Intent::Create, key)
}

fn remove(kernel: &mut Kernel, key: RuleKey) -> Result<(), NetlinkError> {
    exchange(kernel, Intent::Remove, key)
}

fn key(family: Family, fwmark: u32, table: u32) -> RuleKey {
    RuleKey { family, fwmark, table }
}

fn rule_record(order: Endian, table: u32) -> NetlinkMessage {
    generate_msg_header(order, Family::Inet, Rtm::Newrule, 100, table, NLM_F_MULTI)
}

#[test]
fn creating_a_rule_twice_leaves_one_rule() {
    for order in [Endian::Little, Endian::Big] {
        let mut kernel = Kernel::new(order);
        let k = key(Family::Inet, 100, 200);
        assert_eq!(create(&mut kernel, k), Ok(()));
        assert_eq!(kernel.rules, vec![(2, 100, 200)]);
        assert_eq!(kernel.served, vec![RTM_GETRULE, RTM_NEWRULE]);
        assert_eq!(create(&mut kernel, k), Ok(()));
        assert_eq!(kernel.rules, vec![(2, 100, 200)]);
        // the second exchange asked and sent nothing more
        assert_eq!(kernel.served, vec![RTM_GETRULE, RTM_NEWRULE, RTM_GETRULE]);
    }
}

#[test]
fn removing_an_absent_rule_is_a_no_op() {
    let mut kernel = Kernel::new(Endian::Little);
    let k = key(Family::Inet6, 100, 200);
    assert_eq!(remove(&mut kernel, k), Ok(()));
    assert!(kernel.rules.is_empty());
    assert_eq!(kernel.served, vec![RTM_GETRULE]);
    // rules of another table, or of another family, do not count
    kernel.rules = vec![(10, 100, 300), (2, 100, 200)];
    assert_eq!(remove(&mut kernel, k), Ok(()));
    assert_eq!(kernel.rules, vec![(10, 100, 300), (2, 100, 200)]);
    assert_eq!(kernel.served, vec![RTM_GETRULE, RTM_GETRULE]);
}

#[test]
fn removing_undoes_creating() {
    let mut kernel = Kernel::new(Endian::Big);
    kernel.rules = vec![(2, 1, 254), (10, 1, 254)];
    let k = key(Family::Inet, 51820, 1000);
    create(&mut kernel, k).unwrap();
    assert_eq!(kernel.rules, vec![(2, 1, 254), (10, 1, 254), (2, 51820, 1000)]);
    remove(&mut kernel, k).unwrap();
    assert_eq!(kernel.rules, vec![(2, 1, 254), (10, 1, 254)]);
}

#[test]
fn rule_of_the_other_family_does_not_stand_in() {
    let mut kernel = Kernel::new(Endian::Little);
    create(&mut kernel, key(Family::Inet, 100, 200)).unwrap();
    create(&mut kernel, key(Family::Inet6, 100, 200)).unwrap();
    assert_eq!(kernel.rules, vec![(2, 100, 200), (10, 100, 200)]);
}

#[test]
fn query_reply_with_table_1000_classifies_as_existing() {
    for order in [Endian::Little, Endian::Big] {
        let request = encode_request(order, &check_request(key(Family::Inet, 100, 1000)));
        let sent = decode_messages(order, Protocol::Route, &request).unwrap();
        assert_eq!(sent.len(), 1);
        assert_eq!(sent[0].msg_type, RTM_GETRULE);
        match &sent[0].payload {
            Payload::Rule(rule) => assert_eq!(rule.family, 2),
            other => panic!("no rule record: {:?}", other),
        }
        let reply = encode_message(order, &rule_record(order, 1000)).unwrap();
        let msgs = decode_messages(order, Protocol::Route, &reply).unwrap();
        assert_eq!(
            check_rules(order, &msgs, 1000),
            Ok(RuleScan { rule_exists: true, done_pending: true })
        );
        let other = encode_message(order, &rule_record(order, 2000)).unwrap();
        let msgs = decode_messages(order, Protocol::Route, &other).unwrap();
        assert_eq!(
            check_rules(order, &msgs, 1000),
            Ok(RuleScan { rule_exists: false, done_pending: true })
        );
    }
}

#[test]
fn scan_looks_for_the_target_table() {
    let order = Endian::Little;
    let msgs = vec![rule_record(order, 254), rule_record(order, 200), rule_record(order, 1000)];
    assert!(check_rules(order, &msgs, 200).unwrap().rule_exists);
    assert!(check_rules(order, &msgs, 1000).unwrap().rule_exists);
    assert!(check_rules(order, &msgs, 254).unwrap().rule_exists);
    assert!(!check_rules(order, &msgs, 201).unwrap().rule_exists);
    assert_eq!(
        check_rules(order, &Vec::new(), 200),
        Ok(RuleScan { rule_exists: false, done_pending: false })
    );
}

#[test]
fn table_attribute_of_another_width_does_not_match() {
    let order = Endian::Little;
    let mut rule = generate_rule_msg(order, Family::Inet, 100, 200);
    assert!(check_rule(order, &rule, 200));
    rule.attrs[2].payload = vec![200, 0];
    assert!(!check_rule(order, &rule, 200));
    rule.attrs[2].payload = vec![200, 0, 0, 0, 0];
    assert!(!check_rule(order, &rule, 200));
    // the mark is not the table
    let marked = generate_rule_msg(order, Family::Inet, 200, 100);
    assert!(!check_rule(order, &marked, 200));
    // read in the other order the table is another
    let rule = generate_rule_msg(Endian::Big, Family::Inet, 100, 200);
    assert!(!check_rule(Endian::Little, &rule, 200));
    assert!(check_rule(Endian::Little, &rule, 200u32.swap_bytes()));
}

#[test]
fn terminator_inside_the_batch_ends_the_dump() {
    let order = Endian::Little;
    let done = NetlinkMessage { msg_type: NLMSG_DONE, flags: NLM_F_MULTI, sequence: 0, port: 0, payload: Payload::Done };
    let msgs = vec![rule_record(order, 200), done.clone()];
    assert_eq!(
        check_rules(order, &msgs, 200),
        Ok(RuleScan { rule_exists: true, done_pending: false })
    );
    assert_eq!(
        check_rules(order, &vec![done], 200),
        Ok(RuleScan { rule_exists: false, done_pending: false })
    );
    // a record that is no part of a dump asks for no terminator
    let single = generate_msg_header(order, Family::Inet, Rtm::Newrule, 100, 200, 0);
    assert_eq!(
        check_rules(order, &vec![single], 200),
        Ok(RuleScan { rule_exists: true, done_pending: false })
    );
}

#[test]
fn rejection_fails_the_scan_with_its_code() {
    let order = Endian::Little;
    let error = |code: i32| NetlinkMessage {
        msg_type: NLMSG_ERROR,
        flags: 0,
        sequence: 0,
        port: 0,
        payload: Payload::Error(code),
    };
    let ack = NetlinkMessage { msg_type: NLMSG_ERROR, flags: 0, sequence: 0, port: 0, payload: Payload::Ack };
    let msgs = vec![rule_record(order, 200), ack.clone(), error(-1), error(-22)];
    assert_eq!(check_rules(order, &msgs, 200), Err(NetlinkError::KernelRejection(-1)));
    assert_eq!(
        check_rules(order, &vec![ack], 200),
        Ok(RuleScan { rule_exists: false, done_pending: false })
    );
}

#[test]
fn missing_terminator_is_an_error() {
    let done = NetlinkMessage { msg_type: NLMSG_DONE, flags: NLM_F_MULTI, sequence: 0, port: 0, payload: Payload::Done };
    assert_eq!(expect_done(Some(&done)), Ok(()));
    assert_eq!(expect_done(None), Err(NetlinkError::Protocol(ProtocolError::MissingDone)));
    assert_eq!(
        expect_done(Some(&rule_record(Endian::Little, 200))),
        Err(NetlinkError::Protocol(ProtocolError::MissingDone))
    );
    let ack = NetlinkMessage { msg_type: NLMSG_ERROR, flags: 0, sequence: 0, port: 0, payload: Payload::Ack };
    assert_eq!(expect_done(Some(&ack)), Err(NetlinkError::Protocol(ProtocolError::MissingDone)));
    let error = NetlinkMessage { msg_type: NLMSG_ERROR, flags: 0, sequence: 0, port: 0, payload: Payload::Error(-16) };
    assert_eq!(expect_done(Some(&error)), Err(NetlinkError::KernelRejection(-16)));
}

#[test]
fn decisions_follow_the_scan() {
    let k = key(Family::Inet, 100, 200);
    assert_eq!(add_rule(true, k), None);
    assert_eq!(add_rule(false, k), Some(RuleRequest { rtm: Rtm::Newrule, key: k, flags: 0x601 }));
    assert_eq!(remove_rule(false, k), None);
    assert_eq!(remove_rule(true, k), Some(RuleRequest { rtm: Rtm::Delrule, key: k, flags: 0x1 }));
    assert_eq!(check_request(k), RuleRequest { rtm: Rtm::Getrule, key: k, flags: 0x301 });
}

#[test]
fn rule_attributes_are_source_mark_table() {
    let attrs = generate_rtattrs(Endian::Little, 100, 200);
    assert_eq!(
        attrs,
        vec![
            Attribute { kind: 2, payload: vec![0] },
            Attribute { kind: 16, payload: vec![100, 0, 0, 0] },
            Attribute { kind: 15, payload: vec![200, 0, 0, 0] },
        ]
    );
    let attrs = generate_rtattrs(Endian::Big, 0x0102_0304, 0x0a0b_0c0d);
    assert_eq!(attrs[1].payload, vec![1, 2, 3, 4]);
    assert_eq!(attrs[2].payload, vec![0x0a, 0x0b, 0x0c, 0x0d]);
}

#[test]
fn rule_record_has_the_fixed_fields() {
    let order = Endian::Little;
    let msg = generate_rule_msg(order, Family::Inet6, 100, 200);
    assert_eq!(
        msg,
        RuleMessage {
            family: 10,
            dst_len: 0,
            src_len: 0,
            tos: 0,
            table: 253,
            protocol: 0,
            scope: 0,
            kind: 1,
            flags: 0,
            attrs: generate_rtattrs(order, 100, 200),
        }
    );
    let header = generate_msg_header(order, Family::Inet6, Rtm::Delrule, 100, 200, 0x1);
    assert_eq!(
        header,
        NetlinkMessage { msg_type: 33, flags: 1, sequence: 0, port: 0, payload: Payload::Rule(msg) }
    );
}

#[test]
fn creation_request_bytes() {
    let req = add_rule(false, key(Family::Inet, 100, 200)).unwrap();
    assert_eq!(
        encode_request(Endian::Little, &req),
        vec![
            52, 0, 0, 0, 32, 0, 0x01, 0x06, 0, 0, 0, 0, 0, 0, 0, 0, // header
            2, 0, 0, 0, 253, 0, 0, 1, 0, 0, 0, 0, // record
            5, 0, 2, 0, 0, 0, 0, 0, // source
            8, 0, 16, 0, 100, 0, 0, 0, // mark
            8, 0, 15, 0, 200, 0, 0, 0, // table
        ]
    );
    assert_eq!(
        encode_request(Endian::Big, &req),
        vec![
            0, 0, 0, 52, 0, 32, 0x06, 0x01, 0, 0, 0, 0, 0, 0, 0, 0, // header
            2, 0, 0, 0, 253, 0, 0, 1, 0, 0, 0, 0, // record
            0, 5, 0, 2, 0, 0, 0, 0, // source
            0, 8, 0, 16, 0, 0, 0, 100, // mark
            0, 8, 0, 15, 0, 0, 0, 200, // table
        ]
    );
}

fn config(known: &[&str], ipv6: bool) -> Config {
    Config {
        wireguard_interface: "wg0".to_string(),
        wlan_interface: "wlan0".to_string(),
        known_networks: known.iter().map(|s| s.to_string()).collect(),
        firewall_mark: 100,
        routing_table: 200,
        ipv6,
    }
}

#[test]
fn enabling_creates_ipv6_only_where_configured() {
    assert_eq!(enable_rules(&config(&[], false)), vec![key(Family::Inet, 100, 200)]);
    assert_eq!(
        enable_rules(&config(&[], true)),
        vec![key(Family::Inet, 100, 200), key(Family::Inet6, 100, 200)]
    );
}

#[test]
fn disabling_removes_both_families_always() {
    for ipv6 in [false, true] {
        assert_eq!(
            disable_rules(&config(&[], ipv6)),
            vec![key(Family::Inet, 100, 200), key(Family::Inet6, 100, 200)]
        );
    }
}

#[test]
fn rule_left_from_an_earlier_configuration_is_removed() {
    let mut kernel = Kernel::new(Endian::Little);
    for k in enable_rules(&config(&[], true)) {
        create(&mut kernel, k).unwrap();
    }
    assert_eq!(kernel.rules.len(), 2);
    for k in disable_rules(&config(&[], false)) {
        remove(&mut kernel, k).unwrap();
    }
    assert!(kernel.rules.is_empty());
}

fn new_interface_event(order: Endian, family: u16, ssid: &[u8]) -> Vec<u8> {
    let msg = NetlinkMessage {
        msg_type: family,
        flags: 0,
        sequence: 0,
        port: 0,
        payload: Payload::Genl(GenlMessage {
            cmd: u8::from(Nl80211Cmd::NewInterface),
            version: 1,
            attrs: vec![
                Attribute { kind: u16::from(Nl80211Attr::Ifindex), payload: vec![3, 0, 0, 0] },
                Attribute { kind: u16::from(Nl80211Attr::Ssid), payload: ssid.to_vec() },
            ],
        }),
    };
    encode_message(order, &msg).unwrap()
}

#[test]
fn unknown_network_enables_and_known_network_disables() {
    let order = Endian::Little;
    let config = config(&["Home"], false);
    let mut kernel = Kernel::new(order);
    let (mut monitor, _) = WifiMonitor::start(Some(3));

    // the interface joins "Office"
    let events = decode_messages(order, Protocol::Generic, &new_interface_event(order, 0x1c, b"Office")).unwrap();
    let actions = handle_messages(order, &mut monitor, &events, &config.known_networks);
    assert_eq!(actions, vec![MonitorAction::Publish(Msg::Enable)]);

    // the rule reconciler creates the IPv4 rule alone
    assert_eq!(react(Task::RuleReconciler, Msg::Enable), Reaction::Apply);
    for k in enable_rules(&config) {
        create(&mut kernel, k).unwrap();
    }
    assert_eq!(kernel.rules, vec![(2, 100, 200)]);
    assert_eq!(kernel.served, vec![RTM_GETRULE, RTM_NEWRULE]);

    // the port rotator asks once for a new port
    assert_eq!(react(Task::PortRotator, Msg::Enable), Reaction::Apply);
    let rotation = change_listen_port(order, 0x22, &config.wireguard_interface).unwrap();
    let sent = decode_messages(order, Protocol::Generic, &rotation).unwrap();
    assert_eq!(sent.len(), 1);
    assert_eq!(sent[0].msg_type, 0x22);
    assert_eq!(sent[0].flags, NLM_F_REQUEST);
    match &sent[0].payload {
        Payload::Genl(g) => {
            assert_eq!(WgCmd::from(g.cmd), WgCmd::CmdSetDevice);
            assert_eq!(
                attribute_payload(&g.attrs, u16::from(WgDeviceAttr::AttrListenPort)),
                Some(&[0u8, 0][..])
            );
            assert_eq!(
                attribute_payload(&g.attrs, u16::from(WgDeviceAttr::AttrIfname)),
                Some(&b"wg0\0"[..])
            );
        }
        other => panic!("no envelope: {:?}", other),
    }

    // the interface joins "Home"
    let events = decode_messages(order, Protocol::Generic, &new_interface_event(order, 0x1c, b"Home")).unwrap();
    let actions = handle_messages(order, &mut monitor, &events, &config.known_networks);
    assert_eq!(actions, vec![MonitorAction::Publish(Msg::Disable)]);
    assert_eq!(react(Task::PortRotator, Msg::Disable), Reaction::Nothing);

    // the rule reconciler removes both rules; for IPv6 there is none
    assert_eq!(react(Task::RuleReconciler, Msg::Disable), Reaction::Revert);
    kernel.served.clear();
    for k in disable_rules(&config) {
        remove(&mut kernel, k).unwrap();
    }
    assert!(kernel.rules.is_empty());
    assert_eq!(kernel.served, vec![RTM_GETRULE, RTM_DELRULE, RTM_GETRULE]);
}

fn done_message() -> NetlinkMessage {
    NetlinkMessage { msg_type: NLMSG_DONE, flags: NLM_F_MULTI, sequence: 0, port: 0, payload: Payload::Done }
}

#[test]
fn exchange_opens_with_the_query() {
    let k = key(Family::Inet, 100, 200);
    let (exchange, query) = Exchange::start(Intent::Create, k);
    assert_eq!(exchange, Exchange { intent: Intent::Create, key: k, phase: Phase::AwaitReply });
    assert_eq!(query, check_request(k));
}

#[test]
fn exchange_waits_for_the_terminator_before_it_decides() {
    let order = Endian::Little;
    let k = key(Family::Inet, 100, 200);
    let (mut exchange, _) = Exchange::start(Intent::Remove, k);
    assert_eq!(exchange.on_reply(order, &vec![rule_record(order, 200)]), Outcome::Receive);
    assert_eq!(exchange.phase, Phase::AwaitDone(true));
    assert_eq!(
        exchange.on_reply(order, &vec![done_message()]),
        Outcome::Finish(Some(RuleRequest { rtm: Rtm::Delrule, key: k, flags: 1 }))
    );
    assert_eq!(exchange.phase, Phase::Finished);
    // a finished exchange sends nothing more
    assert_eq!(exchange.on_reply(order, &vec![rule_record(order, 200)]), Outcome::Finish(None));
    assert_eq!(exchange.phase, Phase::Finished);
}

#[test]
fn exchange_decides_at_once_where_the_dump_is_closed() {
    let order = Endian::Little;
    let k = key(Family::Inet, 100, 200);
    let (mut exchange, _) = Exchange::start(Intent::Create, k);
    assert_eq!(
        exchange.on_reply(order, &vec![done_message()]),
        Outcome::Finish(Some(RuleRequest { rtm: Rtm::Newrule, key: k, flags: 0x601 }))
    );
    let (mut exchange, _) = Exchange::start(Intent::Create, k);
    assert_eq!(
        exchange.on_reply(order, &vec![rule_record(order, 200), done_message()]),
        Outcome::Finish(None)
    );
    let (mut exchange, _) = Exchange::start(Intent::Remove, k);
    assert_eq!(exchange.on_reply(order, &vec![done_message()]), Outcome::Finish(None));
}

#[test]
fn exchange_fails_without_the_terminator() {
    let order = Endian::Little;
    let k = key(Family::Inet, 100, 200);
    for next in [Vec::new(), vec![rule_record(order, 200)]] {
        let (mut exchange, _) = Exchange::start(Intent::Create, k);
        assert_eq!(exchange.on_reply(order, &vec![rule_record(order, 300)]), Outcome::Receive);
        assert_eq!(
            exchange.on_reply(order, &next),
            Outcome::Fail(NetlinkError::Protocol(ProtocolError::MissingDone))
        );
        assert_eq!(exchange.phase, Phase::Finished);
    }
}

#[test]
fn exchange_fails_on_a_rejection() {
    let order = Endian::Little;
    let k = key(Family::Inet, 100, 200);
    let rejected = NetlinkMessage { msg_type: NLMSG_ERROR, flags: 0, sequence: 0, port: 0, payload: Payload::Error(-1) };
    let (mut exchange, _) = Exchange::start(Intent::Create, k);
    assert_eq!(
        exchange.on_reply(order, &vec![rejected.clone()]),
        Outcome::Fail(NetlinkError::KernelRejection(-1))
    );
    assert_eq!(exchange.phase, Phase::Finished);
    let (mut exchange, _) = Exchange::start(Intent::Create, k);
    assert_eq!(exchange.on_reply(order, &vec![rule_record(order, 300)]), Outcome::Receive);
    assert_eq!(exchange.on_reply(order, &vec![rejected]), Outcome::Fail(NetlinkError::KernelRejection(-1)));
}

#[test]
fn intent_and_scan_decide_the_request() {
    let k = key(Family::Inet6, 7, 9);
    assert_eq!(decide(Intent::Create, false, k), add_rule(false, k));
    assert_eq!(decide(Intent::Create, true, k), None);
    assert_eq!(decide(Intent::Remove, true, k), remove_rule(true, k));
    assert_eq!(decide(Intent::Remove, false, k), None);
}

#[test]
fn enabling_then_disabling_restores_the_rule_table() {
    for ipv6 in [false, true] {
        for order in [Endian::Little, Endian::Big] {
            let mut kernel = Kernel::new(order);
            kernel.rules = vec![(2, 1, 254), (10, 100, 300), (2, 100, 255)];
            let before = kernel.rules.clone();
            for k in enable_rules(&config(&[], ipv6)) {
                create(&mut kernel, k).unwrap();
            }
            assert_eq!(kernel.rules.len(), if ipv6 { 5 } else { 4 });
            for k in disable_rules(&config(&[], !ipv6)) {
                remove(&mut kernel, k).unwrap();
            }
            assert_eq!(kernel.rules, before);
        }
    }
}
