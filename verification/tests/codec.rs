use autovpn::attr::{
    attribute_payload, encode_attrs, find_attribute, padding, parse_attrs, put_zeros, Attribute,
    ATTR_MAX_PAYLOAD,
};
use autovpn::endian::{get_u16, get_u32, i32_bits, i32_from_bits, put_u16, put_u32, Endian};
use autovpn::error::ProtocolError;
use autovpn::genl::{decode_genl, encode_genl, GenlMessage};
use autovpn::netlink::{
    decode_messages, decode_payload, encode_message, encode_payload, flag_set, NetlinkMessage,
    Payload, Protocol, NLMSG_DONE, NLMSG_ERROR, NLMSG_NOOP, NLMSG_OVERRUN, NLM_F_DUMP,
    NLM_F_MULTI, NLM_F_REQUEST, NLM_F_ROOT,
};
use autovpn::rtnl::{decode_rule, encode_rule, RuleMessage, RTM_GETRULE, RTM_NEWRULE};

fn attr(kind: u16, payload: &[u8]) -> Attribute {
    Attribute { kind, payload: payload.to_vec() }
}

fn sample_rule() -> RuleMessage {
    RuleMessage {
        family: 2,
        dst_len: 0,
        src_len: 0,
        tos: 0,
        table: 253,
        protocol: 0,
        scope: 0,
        kind: 1,
        flags: 0x0102_0304,
        attrs: vec![attr(15, &[0xe8, 0x03, 0, 0])],
    }
}

#[test]
fn u16_bytes_in_both_orders() {
    let mut little = Vec::new();
    put_u16(Endian::Little, 0x1234, &mut little);
    assert_eq!(little, vec![0x34, 0x12]);
    let mut big = vec![0xff];
    put_u16(Endian::Big, 0x1234, &mut big);
    assert_eq!(big, vec![0xff, 0x12, 0x34]);
}

#[test]
fn u32_bytes_in_both_orders() {
    let mut little = Vec::new();
    put_u32(Endian::Little, 0x1234_5678, &mut little);
    assert_eq!(little, vec![0x78, 0x56, 0x34, 0x12]);
    let mut big = Vec::new();
    put_u32(Endian::Big, 0x1234_5678, &mut big);
    assert_eq!(big, vec![0x12, 0x34, 0x56, 0x78]);
}

#[test]
fn integers_read_back_at_an_offset() {
    let bytes = [0xaa, 0x78, 0x56, 0x34, 0x12, 0xbb];
    assert_eq!(get_u32(Endian::Little, &bytes, 1), 0x1234_5678);
    assert_eq!(get_u32(Endian::Big, &bytes, 1), 0x7856_3412);
    assert_eq!(get_u16(Endian::Little, &bytes, 4), 0xbb12);
    assert_eq!(get_u16(Endian::Big, &bytes, 4), 0x12bb);
}

#[test]
fn integers_match_std_in_both_orders() {
    for x in [0u32, 1, 255, 256, 65535, 65536, 1000, 0x00ff_ff00, 0x8000_0000, u32::MAX] {
        let mut little = Vec::new();
        put_u32(Endian::Little, x, &mut little);
        assert_eq!(little, x.to_le_bytes().to_vec());
        let mut big = Vec::new();
        put_u32(Endian::Big, x, &mut big);
        assert_eq!(big, x.to_be_bytes().to_vec());
        assert_eq!(get_u32(Endian::Little, &little, 0), x);
        assert_eq!(get_u32(Endian::Big, &big, 0), x);
    }
    for x in [0u16, 1, 255, 256, 0x8000, u16::MAX] {
        let mut little = Vec::new();
        put_u16(Endian::Little, x, &mut little);
        assert_eq!(little, x.to_le_bytes().to_vec());
        let mut big = Vec::new();
        put_u16(Endian::Big, x, &mut big);
        assert_eq!(big, x.to_be_bytes().to_vec());
    }
}

#[test]
fn native_order_is_the_order_of_std() {
    let mut out = Vec::new();
    put_u32(Endian::native(), 0x0102_0304, &mut out);
    assert_eq!(out, 0x0102_0304u32.to_ne_bytes().to_vec());
    let expected = if 1u16.to_ne_bytes()[0] == 1 { Endian::Little } else { Endian::Big };
    assert_eq!(Endian::native(), expected);
}

#[test]
fn probe_shows_the_order_that_laid_it_out() {
    assert_eq!(Endian::of_probe([1, 0]), Endian::Little);
    assert_eq!(Endian::of_probe([0, 1]), Endian::Big);
    assert_eq!(Endian::of_probe(1u16.to_le_bytes()), Endian::Little);
    assert_eq!(Endian::of_probe(1u16.to_be_bytes()), Endian::Big);
    assert_eq!(Endian::of_probe(1u16.to_ne_bytes()), Endian::native());
}

#[test]
fn signed_codes_are_twos_complement() {
    assert_eq!(i32_from_bits(0), 0);
    assert_eq!(i32_from_bits(0xffff_ffff), -1);
    assert_eq!(i32_from_bits(0xffff_ffef), -17);
    assert_eq!(i32_from_bits(0x8000_0000), i32::MIN);
    assert_eq!(i32_from_bits(0x7fff_ffff), i32::MAX);
    assert_eq!(i32_bits(-1), 0xffff_ffff);
    assert_eq!(i32_bits(-17), 0xffff_ffef);
    assert_eq!(i32_bits(i32::MIN), 0x8000_0000);
    assert_eq!(i32_bits(i32::MAX), 0x7fff_ffff);
}

#[test]
fn padding_reaches_the_next_multiple_of_four() {
    assert_eq!(padding(0), 0);
    assert_eq!(padding(1), 3);
    assert_eq!(padding(2), 2);
    assert_eq!(padding(3), 1);
    assert_eq!(padding(4), 0);
    assert_eq!(padding(5), 3);
    let mut out = vec![7u8];
    put_zeros(3, &mut out);
    assert_eq!(out, vec![7, 0, 0, 0]);
}

#[test]
fn attribute_is_length_type_payload_padding() {
    let attrs = vec![attr(3, &[1, 2, 3, 4, 5])];
    assert_eq!(
        encode_attrs(Endian::Little, &attrs),
        Ok(vec![9, 0, 3, 0, 1, 2, 3, 4, 5, 0, 0, 0])
    );
    assert_eq!(
        encode_attrs(Endian::Big, &attrs),
        Ok(vec![0, 9, 0, 3, 1, 2, 3, 4, 5, 0, 0, 0])
    );
}

#[test]
fn attributes_follow_each_other_aligned() {
    let attrs = vec![attr(2, &[0]), attr(16, &[100, 0, 0, 0]), attr(15, &[])];
    let bytes = encode_attrs(Endian::Little, &attrs).unwrap();
    assert_eq!(
        bytes,
        vec![5, 0, 2, 0, 0, 0, 0, 0, 8, 0, 16, 0, 100, 0, 0, 0, 4, 0, 15, 0]
    );
    assert_eq!(parse_attrs(Endian::Little, &bytes), Ok(attrs));
}

#[test]
fn empty_attribute_list_is_no_bytes() {
    assert_eq!(encode_attrs(Endian::Little, &Vec::new()), Ok(Vec::new()));
    assert_eq!(parse_attrs(Endian::Little, &[]), Ok(Vec::new()));
}

#[test]
fn attribute_too_large_is_refused() {
    let fits = vec![attr(1, &vec![0u8; ATTR_MAX_PAYLOAD])];
    let bytes = encode_attrs(Endian::Little, &fits).unwrap();
    assert_eq!(bytes.len(), 65536);
    assert_eq!(&bytes[..4], &[0xff, 0xff, 1, 0]);
    assert_eq!(parse_attrs(Endian::Little, &bytes), Ok(fits));
    let too_large = vec![attr(2, &[1]), attr(1, &vec![0u8; ATTR_MAX_PAYLOAD + 1])];
    assert_eq!(encode_attrs(Endian::Little, &too_large), Err(ProtocolError::TooLarge));
}

#[test]
fn attribute_parse_errors() {
    assert_eq!(parse_attrs(Endian::Little, &[8, 0, 1]), Err(ProtocolError::Truncated));
    assert_eq!(parse_attrs(Endian::Little, &[3, 0, 1, 0]), Err(ProtocolError::BadLength));
    assert_eq!(parse_attrs(Endian::Little, &[0, 0, 1, 0]), Err(ProtocolError::BadLength));
    assert_eq!(parse_attrs(Endian::Little, &[9, 0, 1, 0, 1, 2, 3, 4]), Err(ProtocolError::Overrun));
    // the second attribute is cut short
    assert_eq!(
        parse_attrs(Endian::Little, &[4, 0, 1, 0, 8, 0]),
        Err(ProtocolError::Truncated)
    );
    // read in the other order the length is 0x0800
    assert_eq!(
        parse_attrs(Endian::Big, &[8, 0, 1, 0, 1, 2, 3, 4]),
        Err(ProtocolError::Overrun)
    );
}

#[test]
fn last_attribute_may_lack_its_padding() {
    assert_eq!(
        parse_attrs(Endian::Little, &[5, 0, 7, 0, 0xaa]),
        Ok(vec![attr(7, &[0xaa])])
    );
    assert_eq!(
        parse_attrs(Endian::Little, &[5, 0, 7, 0, 0xaa, 0, 0]),
        Ok(vec![attr(7, &[0xaa])])
    );
}

#[test]
fn attribute_lookup_masks_the_flag_bits() {
    let attrs = vec![attr(4, &[1]), attr(0x8003, &[2]), attr(3, &[3]), attr(0x4004, &[4])];
    assert_eq!(find_attribute(&attrs, 3), Some(1));
    assert_eq!(find_attribute(&attrs, 4), Some(0));
    assert_eq!(find_attribute(&attrs, 5), None);
    assert_eq!(find_attribute(&attrs, 0x8003), None);
    assert_eq!(attribute_payload(&attrs, 3), Some(&[2u8][..]));
    assert_eq!(attribute_payload(&attrs, 52), None);
    assert_eq!(find_attribute(&Vec::new(), 0), None);
}

#[test]
fn genl_envelope_round_trip() {
    let msg = GenlMessage { cmd: 5, version: 1, attrs: vec![attr(3, &[3, 0, 0, 0])] };
    let bytes = encode_genl(Endian::Little, &msg).unwrap();
    assert_eq!(bytes, vec![5, 1, 0, 0, 8, 0, 3, 0, 3, 0, 0, 0]);
    assert_eq!(decode_genl(Endian::Little, &bytes), Ok(msg));
}

#[test]
fn genl_envelope_errors() {
    assert_eq!(decode_genl(Endian::Little, &[5, 1, 0]), Err(ProtocolError::Truncated));
    assert_eq!(decode_genl(Endian::Little, &[5, 1, 0, 0, 2, 0, 3, 0]), Err(ProtocolError::BadLength));
    assert_eq!(
        decode_genl(Endian::Little, &[5, 1, 9, 9]),
        Ok(GenlMessage { cmd: 5, version: 1, attrs: Vec::new() })
    );
    let too_large =
        GenlMessage { cmd: 1, version: 1, attrs: vec![attr(1, &vec![0u8; ATTR_MAX_PAYLOAD + 1])] };
    assert_eq!(encode_genl(Endian::Little, &too_large), Err(ProtocolError::TooLarge));
}

#[test]
fn rule_record_round_trip() {
    let msg = sample_rule();
    let little = encode_rule(Endian::Little, &msg).unwrap();
    assert_eq!(
        little,
        vec![2, 0, 0, 0, 253, 0, 0, 1, 4, 3, 2, 1, 8, 0, 15, 0, 0xe8, 0x03, 0, 0]
    );
    assert_eq!(decode_rule(Endian::Little, &little), Ok(msg.clone()));
    let big = encode_rule(Endian::Big, &msg).unwrap();
    assert_eq!(
        big,
        vec![2, 0, 0, 0, 253, 0, 0, 1, 1, 2, 3, 4, 0, 8, 0, 15, 0xe8, 0x03, 0, 0]
    );
    assert_eq!(decode_rule(Endian::Big, &big), Ok(msg));
}

#[test]
fn rule_record_errors() {
    assert_eq!(decode_rule(Endian::Little, &[2, 0, 0, 0, 253, 0, 0, 1, 0, 0, 0]), Err(ProtocolError::Truncated));
    let mut bytes = encode_rule(Endian::Little, &sample_rule()).unwrap();
    bytes.truncate(bytes.len() - 1);
    assert_eq!(decode_rule(Endian::Little, &bytes), Err(ProtocolError::Overrun));
    let mut too_large = sample_rule();
    too_large.attrs.push(attr(1, &vec![0u8; ATTR_MAX_PAYLOAD + 1]));
    assert_eq!(encode_rule(Endian::Little, &too_large), Err(ProtocolError::TooLarge));
}

#[test]
fn message_header_counts_itself_and_the_payload() {
    let msg = NetlinkMessage {
        msg_type: 0x1c,
        flags: NLM_F_REQUEST,
        sequence: 7,
        port: 9,
        payload: Payload::Genl(GenlMessage {
            cmd: 5,
            version: 1,
            attrs: vec![attr(3, &[3, 0, 0, 0])],
        }),
    };
    let bytes = encode_message(Endian::Little, &msg).unwrap();
    assert_eq!(
        bytes,
        vec![
            28, 0, 0, 0, 0x1c, 0, 1, 0, 7, 0, 0, 0, 9, 0, 0, 0, 5, 1, 0, 0, 8, 0, 3, 0, 3, 0, 0, 0
        ]
    );
    assert_eq!(decode_messages(Endian::Little, Protocol::Generic, &bytes), Ok(vec![msg]));
}

#[test]
fn control_payloads_round_trip() {
    for order in [Endian::Little, Endian::Big] {
        let msgs = vec![
            NetlinkMessage { msg_type: NLMSG_ERROR, flags: 0, sequence: 1, port: 2, payload: Payload::Ack },
            NetlinkMessage {
                msg_type: NLMSG_ERROR,
                flags: 0,
                sequence: 1,
                port: 2,
                payload: Payload::Error(-17),
            },
            NetlinkMessage {
                msg_type: NLMSG_DONE,
                flags: NLM_F_MULTI,
                sequence: 1,
                port: 2,
                payload: Payload::Done,
            },
        ];
        let mut bytes = Vec::new();
        for m in &msgs {
            bytes.extend(encode_message(order, m).unwrap());
        }
        assert_eq!(bytes.len(), 20 + 20 + 16);
        assert_eq!(decode_messages(order, Protocol::Route, &bytes), Ok(msgs.clone()));
        assert_eq!(decode_messages(order, Protocol::Generic, &bytes), Ok(msgs));
    }
}

#[test]
fn error_code_is_read_from_the_first_four_bytes() {
    // the code -2, then the request that the kernel echoes
    let mut body = vec![0xfe, 0xff, 0xff, 0xff];
    body.extend([0u8; 16]);
    assert_eq!(
        decode_payload(Endian::Little, Protocol::Route, NLMSG_ERROR, &body),
        Ok(Payload::Error(-2))
    );
    assert_eq!(
        decode_payload(Endian::Little, Protocol::Route, NLMSG_ERROR, &[0, 0, 0, 0, 1, 2]),
        Ok(Payload::Ack)
    );
    assert_eq!(
        decode_payload(Endian::Little, Protocol::Route, NLMSG_ERROR, &[0, 0, 0]),
        Err(ProtocolError::Truncated)
    );
    assert_eq!(encode_payload(Endian::Little, &Payload::Error(-2)), Ok(vec![0xfe, 0xff, 0xff, 0xff]));
    assert_eq!(encode_payload(Endian::Big, &Payload::Error(-2)), Ok(vec![0xff, 0xff, 0xff, 0xfe]));
    assert_eq!(encode_payload(Endian::Little, &Payload::Ack), Ok(vec![0, 0, 0, 0]));
    assert_eq!(encode_payload(Endian::Little, &Payload::Done), Ok(Vec::new()));
}

#[test]
fn done_payload_is_not_looked_at() {
    assert_eq!(
        decode_payload(Endian::Little, Protocol::Route, NLMSG_DONE, &[0, 0, 0, 0]),
        Ok(Payload::Done)
    );
    assert_eq!(decode_payload(Endian::Little, Protocol::Generic, NLMSG_DONE, &[]), Ok(Payload::Done));
}

#[test]
fn unexpected_types_are_refused() {
    for t in [0u16, NLMSG_NOOP, NLMSG_OVERRUN, 5, 15] {
        assert_eq!(
            decode_payload(Endian::Little, Protocol::Generic, t, &[1, 1, 0, 0]),
            Err(ProtocolError::UnexpectedType)
        );
        assert_eq!(
            decode_payload(Endian::Little, Protocol::Route, t, &[0; 12]),
            Err(ProtocolError::UnexpectedType)
        );
    }
    // a route socket takes the three rule types alone
    for t in [16u16, 24, 31, 35, 0x1c] {
        assert_eq!(
            decode_payload(Endian::Little, Protocol::Route, t, &[0; 12]),
            Err(ProtocolError::UnexpectedType)
        );
    }
    for t in [32u16, 33, 34] {
        assert!(matches!(
            decode_payload(Endian::Little, Protocol::Route, t, &[0; 12]),
            Ok(Payload::Rule(_))
        ));
    }
    // a generic socket takes every family type
    for t in [16u16, 32, 0x1c, u16::MAX] {
        assert!(matches!(
            decode_payload(Endian::Little, Protocol::Generic, t, &[1, 1, 0, 0]),
            Ok(Payload::Genl(_))
        ));
    }
}

#[test]
fn datagram_errors() {
    let order = Endian::Little;
    assert_eq!(decode_messages(order, Protocol::Route, &[]), Ok(Vec::new()));
    assert_eq!(decode_messages(order, Protocol::Route, &[16, 0, 0, 0, 3, 0]), Err(ProtocolError::Truncated));
    let mut short = vec![15, 0, 0, 0, 3, 0, 0, 0];
    short.extend([0u8; 8]);
    assert_eq!(decode_messages(order, Protocol::Route, &short), Err(ProtocolError::BadLength));
    let mut long = vec![17, 0, 0, 0, 3, 0, 0, 0];
    long.extend([0u8; 8]);
    assert_eq!(decode_messages(order, Protocol::Route, &long), Err(ProtocolError::Overrun));
    // a good message followed by a cut one
    let done = NetlinkMessage { msg_type: NLMSG_DONE, flags: 0, sequence: 0, port: 0, payload: Payload::Done };
    let mut bytes = encode_message(order, &done).unwrap();
    bytes.extend([16, 0, 0]);
    assert_eq!(decode_messages(order, Protocol::Route, &bytes), Err(ProtocolError::Truncated));
    // a payload that does not decode fails the datagram
    let mut bad = vec![20, 0, 0, 0, 32, 0, 0, 0];
    bad.extend([0u8; 12]);
    assert_eq!(decode_messages(order, Protocol::Route, &bad), Err(ProtocolError::Truncated));
}

#[test]
fn message_with_oversized_attribute_is_refused() {
    let msg = NetlinkMessage {
        msg_type: RTM_NEWRULE,
        flags: 0,
        sequence: 0,
        port: 0,
        payload: Payload::Rule(RuleMessage {
            attrs: vec![attr(1, &vec![0u8; ATTR_MAX_PAYLOAD + 1])],
            ..sample_rule()
        }),
    };
    assert_eq!(encode_message(Endian::Little, &msg), Err(ProtocolError::TooLarge));
    assert_eq!(encode_payload(Endian::Little, &msg.payload), Err(ProtocolError::TooLarge));
}

#[test]
fn batch_of_messages_round_trip() {
    for order in [Endian::Little, Endian::Big] {
        let msgs = vec![
            NetlinkMessage {
                msg_type: RTM_NEWRULE,
                flags: NLM_F_MULTI,
                sequence: 3,
                port: 4,
                payload: Payload::Rule(sample_rule()),
            },
            NetlinkMessage {
                msg_type: RTM_GETRULE,
                flags: NLM_F_REQUEST | NLM_F_DUMP,
                sequence: 5,
                port: 6,
                payload: Payload::Rule(RuleMessage { attrs: vec![attr(2, &[0])], ..sample_rule() }),
            },
            NetlinkMessage { msg_type: NLMSG_DONE, flags: NLM_F_MULTI, sequence: 0, port: 0, payload: Payload::Done },
        ];
        let mut bytes = Vec::new();
        for m in &msgs {
            let one = encode_message(order, m).unwrap();
            assert_eq!(one.len() % 4, 0);
            bytes.extend(one);
        }
        assert_eq!(decode_messages(order, Protocol::Route, &bytes), Ok(msgs));
    }
}

#[test]
fn flags_are_tested_bit_for_bit() {
    assert!(flag_set(NLM_F_REQUEST | NLM_F_MULTI, NLM_F_MULTI));
    assert!(!flag_set(NLM_F_REQUEST, NLM_F_MULTI));
    assert!(flag_set(0x301, NLM_F_DUMP));
    assert!(!flag_set(NLM_F_ROOT, NLM_F_DUMP));
    assert!(flag_set(0, 0));
}
