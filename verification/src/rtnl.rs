//! The route-netlink rule record: a fixed header and attributes.

use crate::attr::{
    attrs_fit, attrs_view, encode_attrs, parse_attrs, spec_encode_attrs, spec_parse_attrs,
    Attribute, AttributeView,
};
use crate::endian::{get_u32, put_u32, spec_u32_bytes, spec_u32_value, Endian};
use crate::error::ProtocolError;
use vstd::prelude::*;
use vstd::slice::slice_subrange;

verus! {

/// Bytes taken by the fixed fields of a rule record.
pub const RULE_HEADER_LEN: usize = 12;

/// Message type: a rule is created, or reported in a dump.
pub const RTM_NEWRULE: u16 = 32;

/// Message type: a rule is deleted.
pub const RTM_DELRULE: u16 = 33;

/// Message type: the rules are asked for.
pub const RTM_GETRULE: u16 = 34;

/// Address family: IPv4.
pub const AF_INET: u8 = 2;

/// Address family: IPv6.
pub const AF_INET6: u8 = 10;

/// Attribute: the source selector.
pub const RTA_SRC: u16 = 2;

/// Attribute: the routing table id.
pub const RTA_TABLE: u16 = 15;

/// Attribute: the firewall mark.
pub const RTA_MARK: u16 = 16;

/// Table field: the default table.
pub const RT_TABLE_DEFAULT: u8 = 253;

/// Protocol field: unspecified.
pub const RTPROT_UNSPEC: u8 = 0;

/// Scope field: everywhere.
pub const RT_SCOPE_UNIVERSE: u8 = 0;

/// Type field: a unicast route.
pub const RTN_UNICAST: u8 = 1;

/// A rule record below the netlink header.
#[derive(Clone, Debug, PartialEq, Eq)]
pub struct RuleMessage {
    pub family: u8,
    pub dst_len: u8,
    pub src_len: u8,
    pub tos: u8,
    pub table: u8,
    pub protocol: u8,
    pub scope: u8,
    pub kind: u8,
    pub flags: u32,
    pub attrs: Vec<Attribute>,
}

/// What a rule record is in contracts.
pub struct RuleMessageView {
    pub family: u8,
    pub dst_len: u8,
    pub src_len: u8,
    pub tos: u8,
    pub table: u8,
    pub protocol: u8,
    pub scope: u8,
    pub kind: u8,
    pub flags: u32,
    pub attrs: Seq<AttributeView>,
}

impl View for RuleMessage {
    type V = RuleMessageView;

    open spec fn view(&self) -> RuleMessageView {
        RuleMessageView {
            family: self.family,
            dst_len: self.dst_len,
            src_len: self.src_len,
            tos: self.tos,
            table: self.table,
            protocol: self.protocol,
            scope: self.scope,
            kind: self.kind,
            flags: self.flags,
            attrs: attrs_view(self.attrs@),
        }
    }
}

/// Whether a message type is one of the three that carry a rule record.
pub open spec fn is_rule_type(msg_type: u16) -> bool {
    msg_type == RTM_NEWRULE || msg_type == RTM_DELRULE || msg_type == RTM_GETRULE
}

/// The wire form: eight one-byte fields, the flags, the attributes.
pub open spec fn spec_encode_rule(order: Endian, r: RuleMessageView) -> Seq<u8> {
    seq![r.family, r.dst_len, r.src_len, r.tos, r.table, r.protocol, r.scope, r.kind]
        + spec_u32_bytes(order, r.flags) + spec_encode_attrs(order, r.attrs)
}

/// The rule record that a payload holds.
pub open spec fn spec_decode_rule(order: Endian, b: Seq<u8>) -> Result<
    RuleMessageView,
    ProtocolError,
> {
    if b.len() < RULE_HEADER_LEN {
        Err(ProtocolError::Truncated)
    } else {
        match spec_parse_attrs(order, b.skip(RULE_HEADER_LEN as int)) {
            Ok(attrs) => Ok(
                RuleMessageView {
                    family: b[0],
                    dst_len: b[1],
                    src_len: b[2],
                    tos: b[3],
                    table: b[4],
                    protocol: b[5],
                    scope: b[6],
                    kind: b[7],
                    flags: spec_u32_value(order, b.subrange(8, 12)),
                    attrs,
                },
            ),
            Err(e) => Err(e),
        }
    }
}

/// Decoding the wire form of a rule record gives the record back.
pub proof fn law_rule_round_trip(order: Endian, r: RuleMessageView)
    requires
        attrs_fit(r.attrs),
    ensures
        spec_decode_rule(order, spec_encode_rule(order, r)) == Ok::<
            RuleMessageView,
            ProtocolError,
        >(r),
        spec_encode_rule(order, r).len() % 4 == 0,
{
    let b = spec_encode_rule(order, r);
    crate::attr::law_attrs_round_trip(order, r.attrs);
    crate::attr::lemma_encode_attrs_aligned(order, r.attrs);
    crate::endian::law_u32_round_trip(order, r.flags);
    assert(b.skip(RULE_HEADER_LEN as int) =~= spec_encode_attrs(order, r.attrs));
    assert(b.subrange(8, 12) =~= spec_u32_bytes(order, r.flags));
}

/// The wire form of a rule record.
///
/// Fails with `TooLarge` exactly when an attribute's payload does not fit.
pub fn encode_rule(order: Endian, msg: &RuleMessage) -> (r: Result<Vec<u8>, ProtocolError>)
    ensures
        match r {
            Ok(bytes) => attrs_fit(msg@.attrs) && bytes@ == spec_encode_rule(order, msg@),
            Err(e) => e == ProtocolError::TooLarge && !attrs_fit(msg@.attrs),
        },
{
    let mut out: Vec<u8> = Vec::new();
    out.push(msg.family);
    out.push(msg.dst_len);
    out.push(msg.src_len);
    out.push(msg.tos);
    out.push(msg.table);
    out.push(msg.protocol);
    out.push(msg.scope);
    out.push(msg.kind);
    put_u32(order, msg.flags, &mut out);
    match encode_attrs(order, &msg.attrs) {
        Ok(attrs) => {
            out.extend_from_slice(attrs.as_slice());
            assert(out@ =~= spec_encode_rule(order, msg@));
            Ok(out)
        },
        Err(e) => Err(e),
    }
}

/// The rule record that a netlink payload holds.
pub fn decode_rule(order: Endian, bytes: &[u8]) -> (r: Result<RuleMessage, ProtocolError>)
    ensures
        match r {
            Ok(msg) => spec_decode_rule(order, bytes@) == Ok::<RuleMessageView, ProtocolError>(
                msg@,
            ),
            Err(e) => spec_decode_rule(order, bytes@) == Err::<RuleMessageView, ProtocolError>(e),
        },
{
    if bytes.len() < RULE_HEADER_LEN {
        return Err(ProtocolError::Truncated);
    }
    let rest = slice_subrange(bytes, RULE_HEADER_LEN, bytes.len());
    assert(rest@ =~= bytes@.skip(RULE_HEADER_LEN as int));
    let flags = get_u32(order, bytes, 8);
    match parse_attrs(order, rest) {
        Ok(attrs) => Ok(
            RuleMessage {
                family: bytes[0],
                dst_len: bytes[1],
                src_len: bytes[2],
                tos: bytes[3],
                table: bytes[4],
                protocol: bytes[5],
                scope: bytes[6],
                kind: bytes[7],
                flags,
                attrs,
            },
        ),
        Err(e) => Err(e),
    }
}

} // verus!
