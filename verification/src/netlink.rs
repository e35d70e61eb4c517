//! Netlink messages: the sixteen-byte header, the typed payload under it,
//! and the batches of messages that one datagram carries.

use crate::attr::{pad_len, padded_stride, padding, put_zeros, zeros};
use crate::endian::{
    get_u16, get_u32, i32_bits, i32_from_bits, put_u16, put_u32, spec_i32_bits,
    spec_i32_from_bits, spec_u16_bytes, spec_u16_value, spec_u32_bytes, spec_u32_value, Endian,
};
use crate::error::ProtocolError;
use crate::genl::{
    decode_genl, encode_genl, spec_decode_genl, spec_encode_genl, GenlMessage, GenlMessageView,
};
use crate::rtnl::{
    decode_rule, encode_rule, is_rule_type, spec_decode_rule, spec_encode_rule, RuleMessage,
    RuleMessageView, RTM_DELRULE, RTM_GETRULE, RTM_NEWRULE,
};
use vstd::prelude::*;
use vstd::slice::slice_subrange;

verus! {

/// Bytes taken by the netlink header.
pub const NLMSG_HEADER_LEN: usize = 16;

/// Message type: nothing.
pub const NLMSG_NOOP: u16 = 1;

/// Message type: an error, or with code zero an acknowledgement.
pub const NLMSG_ERROR: u16 = 2;

/// Message type: the end of a multi-part reply.
pub const NLMSG_DONE: u16 = 3;

/// Message type: data was lost.
pub const NLMSG_OVERRUN: u16 = 4;

/// The least message type that a protocol family may use for itself.
pub const NLMSG_MIN_TYPE: u16 = 16;

/// Flag: the message is a request.
pub const NLM_F_REQUEST: u16 = 0x1;

/// Flag: the message is one part of a multi-part reply.
pub const NLM_F_MULTI: u16 = 0x2;

/// Flag: an acknowledgement is asked for.
pub const NLM_F_ACK: u16 = 0x4;

/// Flag of a query: return the whole table.
pub const NLM_F_ROOT: u16 = 0x100;

/// Flag of a query: return all entries that match.
pub const NLM_F_MATCH: u16 = 0x200;

/// Flags of a query: dump, that is root and match together.
pub const NLM_F_DUMP: u16 = 0x300;

/// Flag of a creation: fail if the entry exists.
pub const NLM_F_EXCL: u16 = 0x200;

/// Flag of a creation: create the entry if it does not exist.
pub const NLM_F_CREATE: u16 = 0x400;

/// Which kind of payload the socket carries under family message types.
#[derive(Clone, Copy, Debug, PartialEq, Eq, Structural)]
pub enum Protocol {
    /// Generic netlink: every family type carries a generic envelope.
    Generic,
    /// Route netlink: the three rule types carry a rule record.
    Route,
}

/// What a message carries under its header.
#[derive(Clone, Debug, PartialEq, Eq)]
pub enum Payload {
    /// The kernel acknowledges a request.
    Ack,
    /// The kernel rejects a request with this code.
    Error(i32),
    /// A multi-part reply ends here.
    Done,
    /// A generic-netlink envelope.
    Genl(GenlMessage),
    /// A route-netlink rule record.
    Rule(RuleMessage),
}

/// What a payload is in contracts.
pub enum PayloadView {
    Ack,
    Error(i32),
    Done,
    Genl(GenlMessageView),
    Rule(RuleMessageView),
}

impl View for Payload {
    type V = PayloadView;

    open spec fn view(&self) -> PayloadView {
        match self {
            Payload::Ack => PayloadView::Ack,
            Payload::Error(code) => PayloadView::Error(*code),
            Payload::Done => PayloadView::Done,
            Payload::Genl(g) => PayloadView::Genl(g@),
            Payload::Rule(r) => PayloadView::Rule(r@),
        }
    }
}

/// One netlink message.
#[derive(Clone, Debug, PartialEq, Eq)]
pub struct NetlinkMessage {
    pub msg_type: u16,
    pub flags: u16,
    pub sequence: u32,
    pub port: u32,
    pub payload: Payload,
}

/// What a netlink message is in contracts.
pub struct NetlinkMessageView {
    pub msg_type: u16,
    pub flags: u16,
    pub sequence: u32,
    pub port: u32,
    pub payload: PayloadView,
}

impl View for NetlinkMessage {
    type V = NetlinkMessageView;

    open spec fn view(&self) -> NetlinkMessageView {
        NetlinkMessageView {
            msg_type: self.msg_type,
            flags: self.flags,
            sequence: self.sequence,
            port: self.port,
            payload: self.payload@,
        }
    }
}

/// The views of a list of messages, in order.
pub open spec fn msgs_view(msgs: Seq<NetlinkMessage>) -> Seq<NetlinkMessageView> {
    Seq::new(msgs.len(), |i: int| msgs[i]@)
}

/// Whether all bits of `flag` are set in `flags`.
pub open spec fn has_flag(flags: u16, flag: u16) -> bool {
    flags & flag == flag
}

/// Whether all bits of `flag` are set in `flags`.
pub fn flag_set(flags: u16, flag: u16) -> (r: bool)
    ensures
        r == has_flag(flags, flag),
{
    flags & flag == flag
}

/// Whether every attribute of the payload fits in its length field.
pub open spec fn payload_fits(p: PayloadView) -> bool {
    match p {
        PayloadView::Genl(g) => crate::attr::attrs_fit(g.attrs),
        PayloadView::Rule(r) => crate::attr::attrs_fit(r.attrs),
        _ => true,
    }
}

/// The wire form of a payload. An error carries its code alone: the request
/// that the kernel echoes behind the code is not modelled.
pub open spec fn spec_encode_payload(order: Endian, p: PayloadView) -> Seq<u8> {
    match p {
        PayloadView::Ack => spec_u32_bytes(order, 0),
        PayloadView::Error(code) => spec_u32_bytes(order, spec_i32_bits(code)),
        PayloadView::Done => Seq::empty(),
        PayloadView::Genl(g) => spec_encode_genl(order, g),
        PayloadView::Rule(r) => spec_encode_rule(order, r),
    }
}

/// Whether the message can be put on the wire: its attributes fit, and its
/// length fits in 32 bits.
pub open spec fn message_fits(order: Endian, m: NetlinkMessageView) -> bool {
    payload_fits(m.payload) && NLMSG_HEADER_LEN + spec_encode_payload(order, m.payload).len()
        <= u32::MAX
}

/// The wire form of the header.
pub open spec fn spec_encode_header(
    order: Endian,
    len: u32,
    msg_type: u16,
    flags: u16,
    sequence: u32,
    port: u32,
) -> Seq<u8> {
    spec_u32_bytes(order, len) + spec_u16_bytes(order, msg_type) + spec_u16_bytes(order, flags)
        + spec_u32_bytes(order, sequence) + spec_u32_bytes(order, port)
}

/// A header, the body it announces, and zero bytes up to a multiple of four.
#[verifier::opaque]
pub open spec fn spec_frame(
    order: Endian,
    msg_type: u16,
    flags: u16,
    sequence: u32,
    port: u32,
    body: Seq<u8>,
) -> Seq<u8> {
    spec_encode_header(
        order,
        (NLMSG_HEADER_LEN + body.len()) as u32,
        msg_type,
        flags,
        sequence,
        port,
    ) + body + zeros(pad_len(body.len() as int))
}

/// The wire form of a message: the header, whose length counts itself and
/// the payload, the payload, and zero bytes up to a multiple of four.
pub open spec fn spec_encode_message(order: Endian, m: NetlinkMessageView) -> Seq<u8> {
    spec_frame(
        order,
        m.msg_type,
        m.flags,
        m.sequence,
        m.port,
        spec_encode_payload(order, m.payload),
    )
}

/// The wire form of a list of messages: one after the other.
pub open spec fn spec_encode_messages(order: Endian, msgs: Seq<NetlinkMessageView>) -> Seq<u8>
    decreases msgs.len(),
{
    if msgs.len() == 0 {
        Seq::empty()
    } else {
        spec_encode_message(order, msgs[0]) + spec_encode_messages(order, msgs.skip(1))
    }
}

/// The payload that the bytes under a header of type `msg_type` hold.
///
/// An error message needs its four-byte code, which makes it an
/// acknowledgement when zero. The end of a dump holds nothing that is read.
/// Other types below `NLMSG_MIN_TYPE` are `UnexpectedType`, and so is, on a
/// route socket, a type that is none of the three rule types.
#[verifier::opaque]
pub open spec fn spec_decode_payload(
    order: Endian,
    protocol: Protocol,
    msg_type: u16,
    b: Seq<u8>,
) -> Result<PayloadView, ProtocolError> {
    if msg_type == NLMSG_ERROR {
        if b.len() < 4 {
            Err(ProtocolError::Truncated)
        } else {
            let code = spec_i32_from_bits(spec_u32_value(order, b.subrange(0, 4)));
            if code == 0 {
                Ok(PayloadView::Ack)
            } else {
                Ok(PayloadView::Error(code))
            }
        }
    } else if msg_type == NLMSG_DONE {
        Ok(PayloadView::Done)
    } else if msg_type < NLMSG_MIN_TYPE {
        Err(ProtocolError::UnexpectedType)
    } else {
        match protocol {
            Protocol::Generic => match spec_decode_genl(order, b) {
                Ok(g) => Ok(PayloadView::Genl(g)),
                Err(e) => Err(e),
            },
            Protocol::Route => if is_rule_type(msg_type) {
                match spec_decode_rule(order, b) {
                    Ok(r) => Ok(PayloadView::Rule(r)),
                    Err(e) => Err(e),
                }
            } else {
                Err(ProtocolError::UnexpectedType)
            },
        }
    }
}

/// Puts `head` in front of a decoding result.
pub open spec fn prepend_msgs(
    head: Seq<NetlinkMessageView>,
    tail: Result<Seq<NetlinkMessageView>, ProtocolError>,
) -> Result<Seq<NetlinkMessageView>, ProtocolError> {
    match tail {
        Ok(rest) => Ok(head + rest),
        Err(e) => Err(e),
    }
}

/// The messages that a datagram holds, or the first thing wrong with it.
///
/// Fewer than sixteen bytes left over are `Truncated`; a length below
/// sixteen is `BadLength`; a length that reaches past the end is `Overrun`;
/// then whatever is wrong with the payload. The last message may come
/// without its padding.
#[verifier::opaque]
pub open spec fn spec_decode_messages(order: Endian, protocol: Protocol, b: Seq<u8>) -> Result<
    Seq<NetlinkMessageView>,
    ProtocolError,
>
    decreases b.len(),
{
    if b.len() == 0 {
        Ok(Seq::empty())
    } else if b.len() < NLMSG_HEADER_LEN {
        Err(ProtocolError::Truncated)
    } else {
        let len = spec_u32_value(order, b.subrange(0, 4)) as int;
        let msg_type = spec_u16_value(order, b.subrange(4, 6));
        if len < NLMSG_HEADER_LEN {
            Err(ProtocolError::BadLength)
        } else if len > b.len() {
            Err(ProtocolError::Overrun)
        } else {
            match spec_decode_payload(order, protocol, msg_type, b.subrange(16, len)) {
                Err(e) => Err(e),
                Ok(payload) => prepend_msgs(
                    seq![
                        NetlinkMessageView {
                            msg_type,
                            flags: spec_u16_value(order, b.subrange(6, 8)),
                            sequence: spec_u32_value(order, b.subrange(8, 12)),
                            port: spec_u32_value(order, b.subrange(12, 16)),
                            payload,
                        },
                    ],
                    spec_decode_messages(
                        order,
                        protocol,
                        b.skip(padded_stride(len, b.len() as int)),
                    ),
                ),
            }
        }
    }
}

/// Whether the message's type and payload go together on a socket of the
/// given protocol, so that decoding finds the payload again.
pub open spec fn well_typed(protocol: Protocol, m: NetlinkMessageView) -> bool {
    match m.payload {
        PayloadView::Ack => m.msg_type == NLMSG_ERROR,
        PayloadView::Error(code) => m.msg_type == NLMSG_ERROR && code != 0,
        PayloadView::Done => m.msg_type == NLMSG_DONE,
        PayloadView::Genl(_) => protocol == Protocol::Generic && m.msg_type >= NLMSG_MIN_TYPE,
        PayloadView::Rule(_) => protocol == Protocol::Route && is_rule_type(m.msg_type),
    }
}

/// Whether a list of messages can be put on the wire and found again.
pub open spec fn batch_ok(order: Endian, protocol: Protocol, msgs: Seq<NetlinkMessageView>)
    -> bool {
    forall|i: int|
        0 <= i < msgs.len() ==> message_fits(order, #[trigger] msgs[i]) && well_typed(
            protocol,
            msgs[i],
        )
}

/// Decoding the wire form of a payload gives the payload back.
pub proof fn law_payload_round_trip(order: Endian, protocol: Protocol, m: NetlinkMessageView)
    requires
        payload_fits(m.payload),
        well_typed(protocol, m),
    ensures
        spec_decode_payload(order, protocol, m.msg_type, spec_encode_payload(order, m.payload))
            == Ok::<PayloadView, ProtocolError>(m.payload),
{
    let b = spec_encode_payload(order, m.payload);
    reveal(spec_decode_payload);
    match m.payload {
        PayloadView::Ack => {
            crate::endian::law_u32_round_trip(order, 0);
            assert(b.subrange(0, 4) =~= b);
        },
        PayloadView::Error(code) => {
            crate::endian::law_u32_round_trip(order, spec_i32_bits(code));
            assert(b.subrange(0, 4) =~= b);
        },
        PayloadView::Done => {},
        PayloadView::Genl(g) => {
            crate::genl::law_genl_round_trip(order, g);
        },
        PayloadView::Rule(r) => {
            crate::rtnl::law_rule_round_trip(order, r);
        },
    }
}

/// A frame is a multiple of four bytes long.
pub proof fn lemma_frame_len(
    order: Endian,
    msg_type: u16,
    flags: u16,
    sequence: u32,
    port: u32,
    body: Seq<u8>,
)
    ensures
        spec_frame(order, msg_type, flags, sequence, port, body).len() == NLMSG_HEADER_LEN
            + body.len() + pad_len(body.len() as int),
        spec_frame(order, msg_type, flags, sequence, port, body).len() % 4 == 0,
        0 <= pad_len(body.len() as int) < 4,
{
    reveal(spec_frame);
}

/// What the fields of a frame read back as, with other bytes behind it.
pub proof fn lemma_frame_fields(
    order: Endian,
    msg_type: u16,
    flags: u16,
    sequence: u32,
    port: u32,
    body: Seq<u8>,
    rest: Seq<u8>,
)
    requires
        NLMSG_HEADER_LEN + body.len() <= u32::MAX,
    ensures
        ({
            let frame = spec_frame(order, msg_type, flags, sequence, port, body);
            let b = frame + rest;
            let len = NLMSG_HEADER_LEN + body.len();
            &&& b.len() >= len
            &&& spec_u32_value(order, b.subrange(0, 4)) == len
            &&& spec_u16_value(order, b.subrange(4, 6)) == msg_type
            &&& spec_u16_value(order, b.subrange(6, 8)) == flags
            &&& spec_u32_value(order, b.subrange(8, 12)) == sequence
            &&& spec_u32_value(order, b.subrange(12, 16)) == port
            &&& b.subrange(16, len) == body
            &&& padded_stride(len, b.len() as int) == frame.len()
            &&& b.skip(frame.len() as int) == rest
        }),
{
    let n = body.len() as int;
    let len = NLMSG_HEADER_LEN + n;
    let frame = spec_frame(order, msg_type, flags, sequence, port, body);
    let b = frame + rest;
    let l = spec_u32_bytes(order, len as u32);
    let t = spec_u16_bytes(order, msg_type);
    let f = spec_u16_bytes(order, flags);
    let q = spec_u32_bytes(order, sequence);
    let p = spec_u32_bytes(order, port);
    reveal(spec_frame);
    lemma_frame_len(order, msg_type, flags, sequence, port, body);
    crate::endian::law_u32_round_trip(order, len as u32);
    crate::endian::law_u16_round_trip(order, msg_type);
    crate::endian::law_u16_round_trip(order, flags);
    crate::endian::law_u32_round_trip(order, sequence);
    crate::endian::law_u32_round_trip(order, port);
    assert(frame =~= l + t + f + q + p + body + zeros(pad_len(n)));
    assert(b.subrange(0, 4) =~= l);
    assert(b.subrange(4, 6) =~= t);
    assert(b.subrange(6, 8) =~= f);
    assert(b.subrange(8, 12) =~= q);
    assert(b.subrange(12, 16) =~= p);
    assert(b.subrange(16, len) =~= body);
    assert(pad_len(len) == pad_len(n));
    assert(padded_stride(len, b.len() as int) == frame.len());
    assert(b.skip(frame.len() as int) =~= rest);
}

/// A frame in front of other bytes is decoded off them, if its body
/// decodes.
pub proof fn lemma_decode_frame_step(
    order: Endian,
    protocol: Protocol,
    m: NetlinkMessageView,
    body: Seq<u8>,
    rest: Seq<u8>,
)
    requires
        NLMSG_HEADER_LEN + body.len() <= u32::MAX,
        spec_decode_payload(order, protocol, m.msg_type, body) == Ok::<PayloadView, ProtocolError>(
            m.payload,
        ),
    ensures
        spec_decode_messages(
            order,
            protocol,
            spec_frame(order, m.msg_type, m.flags, m.sequence, m.port, body) + rest,
        ) == prepend_msgs(seq![m], spec_decode_messages(order, protocol, rest)),
{
    reveal_with_fuel(spec_decode_messages, 1);
    lemma_frame_fields(order, m.msg_type, m.flags, m.sequence, m.port, body, rest);
}

/// A message in front of other bytes is decoded off them.
pub proof fn lemma_decode_message_step(
    order: Endian,
    protocol: Protocol,
    m: NetlinkMessageView,
    rest: Seq<u8>,
)
    requires
        message_fits(order, m),
        well_typed(protocol, m),
    ensures
        spec_decode_messages(order, protocol, spec_encode_message(order, m) + rest)
            == prepend_msgs(seq![m], spec_decode_messages(order, protocol, rest)),
{
    law_payload_round_trip(order, protocol, m);
    lemma_decode_frame_step(order, protocol, m, spec_encode_payload(order, m.payload), rest);
}

/// Decoding the wire form of a list of messages gives the list back.
pub proof fn law_messages_round_trip(
    order: Endian,
    protocol: Protocol,
    msgs: Seq<NetlinkMessageView>,
)
    requires
        batch_ok(order, protocol, msgs),
    ensures
        spec_decode_messages(order, protocol, spec_encode_messages(order, msgs)) == Ok::<
            Seq<NetlinkMessageView>,
            ProtocolError,
        >(msgs),
    decreases msgs.len(),
{
    if msgs.len() == 0 {
        reveal_with_fuel(spec_decode_messages, 1);
        assert(msgs =~= Seq::<NetlinkMessageView>::empty());
    } else {
        let m = msgs[0];
        let tail = msgs.skip(1);
        assert(batch_ok(order, protocol, tail)) by {
            assert forall|i: int| 0 <= i < tail.len() implies message_fits(
                order,
                #[trigger] tail[i],
            ) && well_typed(protocol, tail[i]) by {
                assert(tail[i] == msgs[i + 1]);
            }
        }
        law_messages_round_trip(order, protocol, tail);
        lemma_decode_message_step(order, protocol, m, spec_encode_messages(order, tail));
        assert(seq![m] + tail =~= msgs);
    }
}

/// The wire form of a payload.
///
/// Fails with `TooLarge` exactly when an attribute's payload does not fit.
pub fn encode_payload(order: Endian, payload: &Payload) -> (r: Result<Vec<u8>, ProtocolError>)
    ensures
        match r {
            Ok(bytes) => payload_fits(payload@) && bytes@ == spec_encode_payload(order, payload@),
            Err(e) => e == ProtocolError::TooLarge && !payload_fits(payload@),
        },
{
    match payload {
        Payload::Ack => {
            let mut out: Vec<u8> = Vec::new();
            put_u32(order, 0, &mut out);
            assert(out@ =~= spec_u32_bytes(order, 0));
            Ok(out)
        },
        Payload::Error(code) => {
            let mut out: Vec<u8> = Vec::new();
            put_u32(order, i32_bits(*code), &mut out);
            assert(out@ =~= spec_u32_bytes(order, spec_i32_bits(*code)));
            Ok(out)
        },
        Payload::Done => Ok(Vec::new()),
        Payload::Genl(g) => encode_genl(order, g),
        Payload::Rule(r) => encode_rule(order, r),
    }
}

/// The wire form of a message.
///
/// Fails with `TooLarge` exactly when the message does not fit: an
/// attribute's payload is too long, or the whole is longer than 32 bits
/// can say.
pub fn encode_message(order: Endian, msg: &NetlinkMessage) -> (r: Result<Vec<u8>, ProtocolError>)
    ensures
        match r {
            Ok(bytes) => message_fits(order, msg@) && bytes@ == spec_encode_message(order, msg@),
            Err(e) => e == ProtocolError::TooLarge && !message_fits(order, msg@),
        },
{
    let body = match encode_payload(order, &msg.payload) {
        Ok(body) => body,
        Err(e) => {
            return Err(e);
        },
    };
    let n = body.len();
    if n > 0xffff_ffff - NLMSG_HEADER_LEN {
        return Err(ProtocolError::TooLarge);
    }
    let mut out: Vec<u8> = Vec::new();
    put_u32(order, (NLMSG_HEADER_LEN + n) as u32, &mut out);
    put_u16(order, msg.msg_type, &mut out);
    put_u16(order, msg.flags, &mut out);
    put_u32(order, msg.sequence, &mut out);
    put_u32(order, msg.port, &mut out);
    out.extend_from_slice(body.as_slice());
    put_zeros(padding(n), &mut out);
    assert(out@ =~= spec_encode_message(order, msg@)) by {
        reveal(spec_frame);
    }
    Ok(out)
}

/// The payload that the bytes under a header of type `msg_type` hold.
pub fn decode_payload(order: Endian, protocol: Protocol, msg_type: u16, bytes: &[u8]) -> (r:
    Result<Payload, ProtocolError>)
    ensures
        match r {
            Ok(p) => spec_decode_payload(order, protocol, msg_type, bytes@) == Ok::<
                PayloadView,
                ProtocolError,
            >(p@),
            Err(e) => spec_decode_payload(order, protocol, msg_type, bytes@) == Err::<
                PayloadView,
                ProtocolError,
            >(e),
        },
{
    reveal(spec_decode_payload);
    if msg_type == NLMSG_ERROR {
        if bytes.len() < 4 {
            return Err(ProtocolError::Truncated);
        }
        let code = i32_from_bits(get_u32(order, bytes, 0));
        if code == 0 {
            Ok(Payload::Ack)
        } else {
            Ok(Payload::Error(code))
        }
    } else if msg_type == NLMSG_DONE {
        Ok(Payload::Done)
    } else if msg_type < NLMSG_MIN_TYPE {
        Err(ProtocolError::UnexpectedType)
    } else {
        match protocol {
            Protocol::Generic => match decode_genl(order, bytes) {
                Ok(g) => Ok(Payload::Genl(g)),
                Err(e) => Err(e),
            },
            Protocol::Route => {
                if msg_type == RTM_NEWRULE || msg_type == RTM_DELRULE || msg_type == RTM_GETRULE {
                    match decode_rule(order, bytes) {
                        Ok(r) => Ok(Payload::Rule(r)),
                        Err(e) => Err(e),
                    }
                } else {
                    Err(ProtocolError::UnexpectedType)
                }
            },
        }
    }
}

/// The view of a decoding result.
pub open spec fn msgs_result_view(r: Result<Vec<NetlinkMessage>, ProtocolError>) -> Result<
    Seq<NetlinkMessageView>,
    ProtocolError,
> {
    match r {
        Ok(v) => Ok(msgs_view(v@)),
        Err(e) => Err(e),
    }
}

/// The first message of a datagram, and how many bytes it takes.
fn decode_first(order: Endian, protocol: Protocol, bytes: &[u8]) -> (r: Result<
    (NetlinkMessage, usize),
    ProtocolError,
>)
    requires
        bytes.len() > 0,
    ensures
        match r {
            Ok((msg, step)) => 0 < step <= bytes.len() && spec_decode_messages(
                order,
                protocol,
                bytes@,
            ) == prepend_msgs(
                seq![msg@],
                spec_decode_messages(order, protocol, bytes@.skip(step as int)),
            ),
            Err(e) => spec_decode_messages(order, protocol, bytes@) == Err::<
                Seq<NetlinkMessageView>,
                ProtocolError,
            >(e),
        },
{
    reveal_with_fuel(spec_decode_messages, 1);
    let total = bytes.len();
    if total < NLMSG_HEADER_LEN {
        return Err(ProtocolError::Truncated);
    }
    let len = get_u32(order, bytes, 0) as usize;
    let msg_type = get_u16(order, bytes, 4);
    let flags = get_u16(order, bytes, 6);
    let sequence = get_u32(order, bytes, 8);
    let port = get_u32(order, bytes, 12);
    if len < NLMSG_HEADER_LEN {
        return Err(ProtocolError::BadLength);
    }
    if len > total {
        return Err(ProtocolError::Overrun);
    }
    let body = slice_subrange(bytes, NLMSG_HEADER_LEN, len);
    let payload = match decode_payload(order, protocol, msg_type, body) {
        Ok(payload) => payload,
        Err(e) => {
            return Err(e);
        },
    };
    let pad = padding(len);
    let step = if pad <= total - len {
        len + pad
    } else {
        total
    };
    Ok((NetlinkMessage { msg_type, flags, sequence, port, payload }, step))
}

/// The messages that one datagram holds.
pub fn decode_messages(order: Endian, protocol: Protocol, bytes: &[u8]) -> (r: Result<
    Vec<NetlinkMessage>,
    ProtocolError,
>)
    ensures
        msgs_result_view(r) == spec_decode_messages(order, protocol, bytes@),
{
    let mut out: Vec<NetlinkMessage> = Vec::new();
    let mut pos: usize = 0;
    proof {
        assert(bytes@.skip(0) =~= bytes@);
        if let Ok(t) = spec_decode_messages(order, protocol, bytes@) {
            assert(msgs_view(out@) + t =~= t);
        }
    }
    while pos < bytes.len()
        invariant
            pos <= bytes.len(),
            spec_decode_messages(order, protocol, bytes@) == prepend_msgs(
                msgs_view(out@),
                spec_decode_messages(order, protocol, bytes@.skip(pos as int)),
            ),
        decreases bytes.len() - pos,
    {
        let ghost seen = msgs_view(out@);
        let rest = slice_subrange(bytes, pos, bytes.len());
        assert(rest@ =~= bytes@.skip(pos as int));
        let (msg, step) = match decode_first(order, protocol, rest) {
            Ok(found) => found,
            Err(e) => {
                return Err(e);
            },
        };
        proof {
            assert(rest@.skip(step as int) =~= bytes@.skip(pos + step));
            assert(msgs_view(out@.push(msg)) =~= seen + seq![msg@]);
            if let Ok(t) = spec_decode_messages(order, protocol, bytes@.skip(pos + step)) {
                assert(seen + (seq![msg@] + t) =~= (seen + seq![msg@]) + t);
            }
        }
        out.push(msg);
        pos = pos + step;
    }
    proof {
        let end = bytes@.skip(pos as int);
        assert(spec_decode_messages(order, protocol, end) == Ok::<
            Seq<NetlinkMessageView>,
            ProtocolError,
        >(Seq::empty())) by {
            reveal_with_fuel(spec_decode_messages, 1);
        }
        assert(msgs_view(out@) + Seq::<NetlinkMessageView>::empty() =~= msgs_view(out@));
    }
    Ok(out)
}

} // verus!
