use autovpn::endian::Endian;
use autovpn::error::ProtocolError;
use autovpn::netlink::{decode_messages, Payload, Protocol};
use autovpn::nl80211::{
    Nl80211Attr, Nl80211AuthType, Nl80211ChanWidth, Nl80211Cmd, Nl80211FeatureFlags,
    Nl80211Iftype, Nl80211MpathFlags, Nl80211RegRuleFlags, Nl80211StaFlags, PlinkActions,
};
use autovpn::text::{cstr_body, cstring, decode_lossy};
use autovpn::wireguard::change_listen_port;
use autovpn::wireguard::enums::{WgCmd, WgDeviceAttr};

#[test]
fn valid_utf8_is_decoded_as_it_stands() {
    assert_eq!(decode_lossy(b"Home"), "Home");
    assert_eq!(decode_lossy("caf\u{e9} \u{1f600}".as_bytes()), "caf\u{e9} \u{1f600}");
    assert_eq!(decode_lossy(b""), "");
}

#[test]
fn invalid_utf8_is_replaced() {
    assert_eq!(decode_lossy(&[b'a', 0xff, b'b']), "a\u{fffd}b");
    assert_eq!(decode_lossy(&[0xc3]), "\u{fffd}");
    assert_eq!(decode_lossy(&[0xe2, 0x82, b'x']), "\u{fffd}x");
    assert_eq!(decode_lossy(&[0xf0, 0x9f, 0x98, 0x80, 0x80]), "\u{1f600}\u{fffd}");
}

#[test]
fn zero_terminated_string_body() {
    assert_eq!(cstr_body(b"wlan0\0"), Ok(&b"wlan0"[..]));
    assert_eq!(cstr_body(b"\0"), Ok(&b""[..]));
    assert_eq!(cstr_body(b"wlan0"), Err(ProtocolError::MissingNul));
    assert_eq!(cstr_body(b""), Err(ProtocolError::MissingNul));
    assert_eq!(cstr_body(b"wl\0an0\0"), Err(ProtocolError::InteriorNul));
    assert_eq!(cstr_body(b"wlan0\0\0"), Err(ProtocolError::InteriorNul));
    assert_eq!(cstr_body(b"wl\0an0"), Err(ProtocolError::InteriorNul));
}

#[test]
fn zero_terminated_form_of_a_name() {
    assert_eq!(cstring(b"wg0"), Ok(b"wg0\0".to_vec()));
    assert_eq!(cstring(b""), Ok(vec![0]));
    assert_eq!(cstring(b"wg\x000"), Err(ProtocolError::InteriorNul));
    assert_eq!(cstring(b"wg0\0"), Err(ProtocolError::InteriorNul));
    let name = cstring(b"tunnel").unwrap();
    assert_eq!(cstr_body(&name), Ok(&b"tunnel"[..]));
}

#[test]
fn port_rotation_bytes() {
    assert_eq!(
        change_listen_port(Endian::Little, 0x22, "wg0"),
        Ok(vec![
            36, 0, 0, 0, 0x22, 0, 1, 0, 0, 0, 0, 0, 0, 0, 0, 0, // header
            1, 1, 0, 0, // set device, version 1
            6, 0, 6, 0, 0, 0, 0, 0, // listen port 0
            8, 0, 2, 0, b'w', b'g', b'0', 0, // name
        ])
    );
    assert_eq!(
        change_listen_port(Endian::Big, 0x22, "wg-vpn"),
        Ok(vec![
            0, 0, 0, 40, 0, 0x22, 0, 1, 0, 0, 0, 0, 0, 0, 0, 0, // header
            1, 1, 0, 0, // set device, version 1
            0, 6, 0, 6, 0, 0, 0, 0, // listen port 0
            0, 11, 0, 2, b'w', b'g', b'-', b'v', b'p', b'n', 0, 0, // name
        ])
    );
}

#[test]
fn port_rotation_names_the_device_and_port_zero() {
    let bytes = change_listen_port(Endian::Little, 0x22, "wg0").unwrap();
    let msgs = decode_messages(Endian::Little, Protocol::Generic, &bytes).unwrap();
    assert_eq!(msgs.len(), 1);
    match &msgs[0].payload {
        Payload::Genl(g) => {
            assert_eq!(g.cmd, 1);
            assert_eq!(g.version, 1);
            assert_eq!(g.attrs.len(), 2);
            assert_eq!(WgDeviceAttr::from(g.attrs[0].kind), WgDeviceAttr::AttrListenPort);
            assert_eq!(g.attrs[0].payload, vec![0, 0]);
            assert_eq!(WgDeviceAttr::from(g.attrs[1].kind), WgDeviceAttr::AttrIfname);
            assert_eq!(g.attrs[1].payload, b"wg0\0".to_vec());
        }
        other => panic!("no envelope: {:?}", other),
    }
}

#[test]
fn port_rotation_errors() {
    assert_eq!(change_listen_port(Endian::Little, 0x22, "wg\00"), Err(ProtocolError::InteriorNul));
    let longest = "x".repeat(65530);
    let bytes = change_listen_port(Endian::Little, 0x22, &longest).unwrap();
    assert_eq!(bytes.len(), 16 + 4 + 8 + 65536);
    let too_long = "x".repeat(65531);
    assert_eq!(change_listen_port(Endian::Little, 0x22, &too_long), Err(ProtocolError::TooLarge));
    // the zero byte is found before the length is looked at
    let both = format!("{}\0", too_long);
    assert_eq!(change_listen_port(Endian::Little, 0x22, &both), Err(ProtocolError::InteriorNul));
}

#[test]
fn wireguard_codes() {
    assert_eq!(u8::from(WgCmd::CmdGetDevice), 0);
    assert_eq!(u8::from(WgCmd::CmdSetDevice), 1);
    assert_eq!(WgCmd::from(1), WgCmd::CmdSetDevice);
    assert_eq!(WgCmd::from(2), WgCmd::UnrecognizedConst(2));
    assert!(WgCmd::from(2).is_unrecognized());
    assert!(!WgCmd::from(0).is_unrecognized());
    let attrs = [
        WgDeviceAttr::AttrUnspec,
        WgDeviceAttr::AttrIfindex,
        WgDeviceAttr::AttrIfname,
        WgDeviceAttr::AttrPrivateKey,
        WgDeviceAttr::AttrPublicKey,
        WgDeviceAttr::AttrFlags,
        WgDeviceAttr::AttrListenPort,
        WgDeviceAttr::AttrFwmark,
        WgDeviceAttr::AttrPeers,
    ];
    for (code, attr) in attrs.iter().enumerate() {
        assert_eq!(u16::from(*attr), code as u16);
        assert_eq!(WgDeviceAttr::from(code as u16), *attr);
    }
    assert_eq!(WgDeviceAttr::from(9), WgDeviceAttr::UnrecognizedConst(9));
}

#[test]
fn nl80211_codes_of_the_monitor() {
    assert_eq!(u8::from(Nl80211Cmd::GetInterface), 5);
    assert_eq!(u8::from(Nl80211Cmd::NewInterface), 7);
    assert_eq!(u8::from(Nl80211Cmd::Connect), 46);
    assert_eq!(u8::from(Nl80211Cmd::Disconnect), 48);
    assert_eq!(Nl80211Cmd::from(46), Nl80211Cmd::Connect);
    assert_eq!(Nl80211Cmd::from(48), Nl80211Cmd::Disconnect);
    assert_eq!(Nl80211Cmd::from(7), Nl80211Cmd::NewInterface);
    assert_eq!(u16::from(Nl80211Attr::Ifindex), 3);
    assert_eq!(u16::from(Nl80211Attr::Ifname), 4);
    assert_eq!(u16::from(Nl80211Attr::Ssid), 52);
    assert_eq!(Nl80211Attr::from(52), Nl80211Attr::Ssid);
}

#[test]
fn every_code_converts_back_to_itself() {
    for code in 0u8..=255 {
        assert_eq!(u8::from(Nl80211Cmd::from(code)), code);
        assert_eq!(u8::from(WgCmd::from(code)), code);
    }
    for code in 0u16..=u16::MAX {
        assert_eq!(u16::from(Nl80211Attr::from(code)), code);
        assert_eq!(u16::from(Nl80211Iftype::from(code)), code);
        assert_eq!(u16::from(Nl80211RegRuleFlags::from(code)), code);
        assert_eq!(u16::from(Nl80211FeatureFlags::from(code)), code);
        assert_eq!(u16::from(WgDeviceAttr::from(code)), code);
    }
}

#[test]
fn names_that_share_a_code_read_as_the_first() {
    assert_eq!(u8::from(Nl80211Cmd::StartAp), 15);
    assert_eq!(u8::from(Nl80211Cmd::NewBeacon), 15);
    assert_eq!(Nl80211Cmd::from(15), Nl80211Cmd::StartAp);
    assert_eq!(u8::from(Nl80211Cmd::Frame), 59);
    assert_eq!(u8::from(Nl80211Cmd::Action), 59);
    assert_eq!(Nl80211Cmd::from(59), Nl80211Cmd::Frame);
    assert_eq!(u16::from(Nl80211Iftype::IftypeNan), 12);
    assert_eq!(u16::from(Nl80211Iftype::IftypeMax), 12);
    assert_eq!(Nl80211Iftype::from(12), Nl80211Iftype::IftypeNan);
    assert_eq!(Nl80211StaFlags::from(7), Nl80211StaFlags::StaFlagAssociated);
    assert_eq!(u16::from(Nl80211StaFlags::StaFlagMax), 7);
}

#[test]
fn unnamed_codes_are_kept() {
    assert_eq!(Nl80211Cmd::from(200), Nl80211Cmd::UnrecognizedConst(200));
    assert!(Nl80211Cmd::from(200).is_unrecognized());
    assert!(!Nl80211Cmd::Connect.is_unrecognized());
    assert_eq!(u8::from(Nl80211Cmd::UnrecognizedConst(200)), 200);
    assert_eq!(Nl80211Attr::from(5000), Nl80211Attr::UnrecognizedConst(5000));
    assert_eq!(Nl80211Iftype::from(14), Nl80211Iftype::UnrecognizedConst(14));
    assert_eq!(PlinkActions::from(999), PlinkActions::UnrecognizedConst(999));
}

#[test]
fn flag_vocabularies_hold_single_bits() {
    assert_eq!(u16::from(Nl80211MpathFlags::MpathFlagActive), 1);
    assert_eq!(u16::from(Nl80211MpathFlags::MpathFlagResolved), 16);
    assert_eq!(u16::from(Nl80211RegRuleFlags::RrfNoOfdm), 1);
    assert_eq!(u16::from(Nl80211RegRuleFlags::RrfAutoBw), 2048);
    assert_eq!(u16::from(Nl80211RegRuleFlags::RrfNo80mhz), 32768);
    assert_eq!(Nl80211RegRuleFlags::from(32768), Nl80211RegRuleFlags::RrfNo80mhz);
    assert_eq!(Nl80211RegRuleFlags::from(3), Nl80211RegRuleFlags::UnrecognizedConst(3));
    assert_eq!(u16::from(Nl80211FeatureFlags::FeatureSae), 32);
}

#[test]
fn vocabulary_samples() {
    assert_eq!(u16::from(Nl80211Iftype::IftypeStation), 2);
    assert_eq!(u16::from(Nl80211ChanWidth::from(3)), 3);
    assert_eq!(Nl80211AuthType::from(0), Nl80211AuthType::AuthtypeOpenSystem);
    assert_eq!(u16::from(Nl80211Attr::Wiphy), 1);
    assert_eq!(u16::from(Nl80211Attr::Mac), 6);
    assert_eq!(u8::from(Nl80211Cmd::Unspec), 0);
    assert_eq!(u8::from(Nl80211Cmd::TriggerScan), 33);
}
