use std::io::Cursor;

use autovpn::endian::Endian;
use autovpn::nl80211::{Nl80211Attr, Nl80211Cmd};
use autovpn::netlink::{
    decode_messages, Payload, Protocol, NLMSG_DONE, NLMSG_ERROR, NLMSG_NOOP, NLMSG_OVERRUN,
    NLM_F_ACK, NLM_F_CREATE, NLM_F_DUMP, NLM_F_EXCL, NLM_F_MATCH, NLM_F_MULTI, NLM_F_REQUEST,
    NLM_F_ROOT,
};
use autovpn::rtnl::{
    AF_INET, AF_INET6, RTA_MARK, RTA_SRC, RTA_TABLE, RTM_DELRULE, RTM_GETRULE, RTM_NEWRULE,
    RTN_UNICAST, RTPROT_UNSPEC, RT_SCOPE_UNIVERSE, RT_TABLE_DEFAULT,
};
use autovpn::rule::{
    add_rule, check_request, check_rule, check_rules, encode_request, remove_rule, Family, Rtm,
    RuleKey, RuleRequest,
};
use autovpn::wifi::{get_ifindex_request, get_ssid, NL80211_VERSION};
use autovpn::wireguard::change_listen_port;
use neli::consts::nl::{NlmF, NlmFFlags, Nlmsg};
use neli::consts::rtnl::{RtAddrFamily, RtScope, RtTable, Rta, RtmFFlags, Rtn, Rtprot};
use neli::genl::{Genlmsghdr, Nlattr};
use neli::nl::{NlPayload, Nlmsghdr};
use neli::rtnl::{Rtattr, Rtmsg};
use neli::types::{Buffer, GenlBuffer, RtBuffer};
use neli::{FromBytes, ToBytes};

fn neli_rule(
    family: RtAddrFamily,
    rtm: neli::consts::rtnl::Rtm,
    fwmark: u32,
    table: u32,
    flags: &[NlmF],
) -> Vec<u8> {
    let mut attrs = RtBuffer::new();
    attrs.push(Rtattr { rta_len: 5, rta_type: Rta::Src, rta_payload: Buffer::from(vec![0]) });
    attrs.push(Rtattr {
        rta_len: 8,
        rta_type: Rta::Mark,
        rta_payload: Buffer::from(fwmark.to_ne_bytes().to_vec()),
    });
    attrs.push(Rtattr {
        rta_len: 8,
        rta_type: Rta::Table,
        rta_payload: Buffer::from(table.to_ne_bytes().to_vec()),
    });
    let msg = Rtmsg {
        rtm_family: family,
        rtm_dst_len: 0,
        rtm_src_len: 0,
        rtm_tos: 0,
        rtm_table: RtTable::Default,
        rtm_protocol: Rtprot::Unspec,
        rtm_scope: RtScope::Universe,
        rtm_type: Rtn::Unicast,
        rtm_flags: RtmFFlags::new(&[]),
        rtattrs: attrs,
    };
    let header = Nlmsghdr::new(None, rtm, NlmFFlags::new(flags), None, None, NlPayload::Payload(msg));
    let mut buffer = Cursor::new(Vec::new());
    header.to_bytes(&mut buffer).unwrap();
    buffer.into_inner()
}

fn key(family: Family, fwmark: u32, table: u32) -> RuleKey {
    RuleKey { family, fwmark, table }
}

#[test]
fn creation_request_is_what_neli_writes() {
    let order = Endian::native();
    for (family, theirs) in [(Family::Inet, RtAddrFamily::Inet), (Family::Inet6, RtAddrFamily::Inet6)] {
        for (fwmark, table) in [(100u32, 200u32), (0, 0), (0xdead_beef, 1000), (u32::MAX, u32::MAX)] {
            let req = add_rule(false, key(family, fwmark, table)).unwrap();
            assert_eq!(
                encode_request(order, &req),
                neli_rule(
                    theirs,
                    neli::consts::rtnl::Rtm::Newrule,
                    fwmark,
                    table,
                    &[NlmF::Request, NlmF::Create, NlmF::Excl]
                )
            );
        }
    }
}

#[test]
fn deletion_request_is_what_neli_writes() {
    let order = Endian::native();
    let req = remove_rule(true, key(Family::Inet6, 51820, 1000)).unwrap();
    assert_eq!(
        encode_request(order, &req),
        neli_rule(RtAddrFamily::Inet6, neli::consts::rtnl::Rtm::Delrule, 51820, 1000, &[NlmF::Request])
    );
}

#[test]
fn query_is_a_dump_request() {
    let order = Endian::native();
    let req = check_request(key(Family::Inet, 100, 200));
    assert_eq!(req.rtm, Rtm::Getrule);
    assert_eq!(req.flags, 0x301);
    assert_eq!(
        encode_request(order, &req),
        neli_rule(
            RtAddrFamily::Inet,
            neli::consts::rtnl::Rtm::Getrule,
            100,
            200,
            &[NlmF::Request, NlmF::Dump]
        )
    );
}

#[test]
fn neli_reads_the_library_s_request() {
    let order = Endian::native();
    let req = RuleRequest { rtm: Rtm::Newrule, key: key(Family::Inet6, 7, 1000), flags: 0x601 };
    let bytes = encode_request(order, &req);
    let header = Nlmsghdr::<neli::consts::rtnl::Rtm, Rtmsg>::from_bytes(&mut Cursor::new(&bytes[..])).unwrap();
    assert_eq!(header.nl_len as usize, bytes.len());
    assert_eq!(header.nl_type, neli::consts::rtnl::Rtm::Newrule);
    assert!(header.nl_flags.contains(&NlmF::Request));
    assert!(header.nl_flags.contains(&NlmF::Create));
    assert!(header.nl_flags.contains(&NlmF::Excl));
    assert!(!header.nl_flags.contains(&NlmF::Multi));
    assert_eq!(header.nl_seq, 0);
    assert_eq!(header.nl_pid, 0);
    let msg = header.get_payload().unwrap();
    assert_eq!(msg.rtm_family, RtAddrFamily::Inet6);
    assert_eq!(msg.rtm_dst_len, 0);
    assert_eq!(msg.rtm_src_len, 0);
    assert_eq!(msg.rtm_tos, 0);
    assert_eq!(msg.rtm_table, RtTable::Default);
    assert_eq!(msg.rtm_protocol, Rtprot::Unspec);
    assert_eq!(msg.rtm_scope, RtScope::Universe);
    assert_eq!(msg.rtm_type, Rtn::Unicast);
    let attrs: Vec<(Rta, Vec<u8>)> =
        msg.rtattrs.iter().map(|a| (a.rta_type, a.rta_payload.as_ref().to_vec())).collect();
    assert_eq!(
        attrs,
        vec![
            (Rta::Src, vec![0]),
            (Rta::Mark, 7u32.to_ne_bytes().to_vec()),
            (Rta::Table, 1000u32.to_ne_bytes().to_vec()),
        ]
    );
}

#[test]
fn library_reads_neli_s_dump() {
    let order = Endian::native();
    let mut datagram = neli_rule(
        RtAddrFamily::Inet,
        neli::consts::rtnl::Rtm::Newrule,
        100,
        2000,
        &[NlmF::Multi],
    );
    datagram.extend(neli_rule(
        RtAddrFamily::Inet,
        neli::consts::rtnl::Rtm::Newrule,
        100,
        1000,
        &[NlmF::Multi],
    ));
    let msgs = decode_messages(order, Protocol::Route, &datagram).unwrap();
    assert_eq!(msgs.len(), 2);
    assert_eq!(msgs[0].msg_type, RTM_NEWRULE);
    assert_eq!(msgs[0].flags, NLM_F_MULTI);
    match &msgs[1].payload {
        Payload::Rule(rule) => {
            assert_eq!(rule.family, AF_INET);
            assert_eq!(rule.table, RT_TABLE_DEFAULT);
            assert_eq!(rule.kind, RTN_UNICAST);
            assert_eq!(rule.attrs.len(), 3);
            assert!(check_rule(order, rule, 1000));
            assert!(!check_rule(order, rule, 2000));
        }
        other => panic!("no rule record: {:?}", other),
    }
    let scan = check_rules(order, &msgs, 1000).unwrap();
    assert!(scan.rule_exists);
    assert!(scan.done_pending);
    assert!(!check_rules(order, &msgs, 3000).unwrap().rule_exists);
}

#[test]
fn ssid_query_is_what_neli_writes() {
    let order = Endian::native();
    let mut attrs = GenlBuffer::new();
    attrs.push(
        Nlattr::new(
            false,
            false,
            neli_wifi::Nl80211Attr::AttrIfindex,
            Buffer::from(3u32.to_ne_bytes().as_ref()),
        )
        .unwrap(),
    );
    let genl = Genlmsghdr::new(neli_wifi::Nl80211Cmd::CmdGetInterface, 1, attrs);
    let header =
        Nlmsghdr::new(None, 0x1cu16, NlmFFlags::new(&[NlmF::Request]), None, None, NlPayload::Payload(genl));
    let mut buffer = Cursor::new(Vec::new());
    header.to_bytes(&mut buffer).unwrap();
    assert_eq!(get_ssid(order, 0x1c, 3), buffer.into_inner());
    assert_eq!(NL80211_VERSION, neli_wifi::NL_80211_GENL_VERSION);
}

#[test]
fn interface_query_is_what_neli_writes() {
    let order = Endian::native();
    let attrs: GenlBuffer<neli_wifi::Nl80211Attr, Buffer> = GenlBuffer::new();
    let genl = Genlmsghdr::new(neli_wifi::Nl80211Cmd::CmdGetInterface, 1, attrs);
    let header = Nlmsghdr::new(
        None,
        0x1cu16,
        NlmFFlags::new(&[NlmF::Request, NlmF::Dump]),
        None,
        None,
        NlPayload::Payload(genl),
    );
    let mut buffer = Cursor::new(Vec::new());
    header.to_bytes(&mut buffer).unwrap();
    assert_eq!(get_ifindex_request(order, 0x1c), buffer.into_inner());
}

#[test]
fn port_rotation_is_what_neli_writes() {
    let order = Endian::native();
    for name in ["wg0", "w", "wg-home", "tunnel12"] {
        let mut terminated = name.as_bytes().to_vec();
        terminated.push(0);
        let mut attrs = GenlBuffer::new();
        attrs.push(Nlattr::new(false, false, 6u16, Buffer::from(0u16.to_ne_bytes().as_ref())).unwrap());
        attrs.push(Nlattr::new(false, false, 2u16, Buffer::from(terminated)).unwrap());
        let genl = Genlmsghdr::new(1u8, 1, attrs);
        let header = Nlmsghdr::new(
            None,
            0x22u16,
            NlmFFlags::new(&[NlmF::Request]),
            None,
            None,
            NlPayload::Payload(genl),
        );
        let mut buffer = Cursor::new(Vec::new());
        header.to_bytes(&mut buffer).unwrap();
        assert_eq!(change_listen_port(order, 0x22, name), Ok(buffer.into_inner()));
    }
}

#[test]
fn flag_values_are_neli_s() {
    assert_eq!(NLM_F_REQUEST, u16::from(NlmF::Request));
    assert_eq!(NLM_F_MULTI, u16::from(NlmF::Multi));
    assert_eq!(NLM_F_ACK, u16::from(NlmF::Ack));
    assert_eq!(NLM_F_ROOT, u16::from(NlmF::Root));
    assert_eq!(NLM_F_MATCH, u16::from(NlmF::Match));
    assert_eq!(NLM_F_DUMP, u16::from(NlmF::Dump));
    assert_eq!(NLM_F_EXCL, u16::from(NlmF::Excl));
    assert_eq!(NLM_F_CREATE, u16::from(NlmF::Create));
}

#[test]
fn type_and_attribute_codes_are_neli_s() {
    assert_eq!(NLMSG_NOOP, u16::from(Nlmsg::Noop));
    assert_eq!(NLMSG_ERROR, u16::from(Nlmsg::Error));
    assert_eq!(NLMSG_DONE, u16::from(Nlmsg::Done));
    assert_eq!(NLMSG_OVERRUN, u16::from(Nlmsg::Overrun));
    assert_eq!(RTM_NEWRULE, u16::from(neli::consts::rtnl::Rtm::Newrule));
    assert_eq!(RTM_DELRULE, u16::from(neli::consts::rtnl::Rtm::Delrule));
    assert_eq!(RTM_GETRULE, u16::from(neli::consts::rtnl::Rtm::Getrule));
    assert_eq!(Rtm::Newrule.code(), RTM_NEWRULE);
    assert_eq!(Rtm::Delrule.code(), RTM_DELRULE);
    assert_eq!(Rtm::Getrule.code(), RTM_GETRULE);
    assert_eq!(AF_INET, u8::from(RtAddrFamily::Inet));
    assert_eq!(AF_INET6, u8::from(RtAddrFamily::Inet6));
    assert_eq!(Family::Inet.code(), 2);
    assert_eq!(Family::Inet6.code(), 10);
    assert_eq!(RTA_SRC, u16::from(Rta::Src));
    assert_eq!(RTA_TABLE, u16::from(Rta::Table));
    assert_eq!(RTA_MARK, u16::from(Rta::Mark));
    assert_eq!(RT_TABLE_DEFAULT, u8::from(RtTable::Default));
    assert_eq!(RTPROT_UNSPEC, u8::from(Rtprot::Unspec));
    assert_eq!(RT_SCOPE_UNIVERSE, u8::from(RtScope::Universe));
    assert_eq!(RTN_UNICAST, u8::from(Rtn::Unicast));
}

#[test]
fn nl80211_codes_are_neli_wifi_s() {
    assert_eq!(u8::from(Nl80211Cmd::GetInterface), u8::from(neli_wifi::Nl80211Cmd::CmdGetInterface));
    assert_eq!(u8::from(Nl80211Cmd::NewInterface), u8::from(neli_wifi::Nl80211Cmd::CmdNewInterface));
    assert_eq!(u8::from(Nl80211Cmd::Connect), u8::from(neli_wifi::Nl80211Cmd::CmdConnect));
    assert_eq!(u8::from(Nl80211Cmd::Disconnect), u8::from(neli_wifi::Nl80211Cmd::CmdDisconnect));
    assert_eq!(u16::from(Nl80211Attr::Ifindex), u16::from(neli_wifi::Nl80211Attr::AttrIfindex));
    assert_eq!(u16::from(Nl80211Attr::Ifname), u16::from(neli_wifi::Nl80211Attr::AttrIfname));
    assert_eq!(u16::from(Nl80211Attr::Ssid), u16::from(neli_wifi::Nl80211Attr::AttrSsid));
    // both vocabularies name the same codes
    for code in 0u8..=100 {
        assert_eq!(
            Nl80211Cmd::from(code).is_unrecognized(),
            neli_wifi::Nl80211Cmd::from(code).is_unrecognized(),
            "command {}",
            code
        );
        assert_eq!(u8::from(Nl80211Cmd::from(code)), code);
    }
    for code in 0u16..=200 {
        assert_eq!(
            Nl80211Attr::from(code).is_unrecognized(),
            neli_wifi::Nl80211Attr::from(code).is_unrecognized(),
            "attribute {}",
            code
        );
        assert_eq!(u16::from(Nl80211Attr::from(code)), code);
    }
}
