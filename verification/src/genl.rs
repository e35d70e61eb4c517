//! The generic-netlink envelope: a command, a version and attributes.

use crate::attr::{
    attrs_fit, attrs_view, encode_attrs, parse_attrs, spec_encode_attrs, spec_parse_attrs,
    Attribute, AttributeView,
};
use crate::endian::Endian;
use crate::error::ProtocolError;
use vstd::prelude::*;
use vstd::slice::slice_subrange;

verus! {

/// Bytes taken by the command, the version and the reserved field.
pub const GENL_HEADER_LEN: usize = 4;

/// A generic-netlink message below the netlink header.
#[derive(Clone, Debug, PartialEq, Eq)]
pub struct GenlMessage {
    pub cmd: u8,
    pub version: u8,
    pub attrs: Vec<Attribute>,
}

/// What a generic-netlink message is in contracts.
pub struct GenlMessageView {
    pub cmd: u8,
    pub version: u8,
    pub attrs: Seq<AttributeView>,
}

impl View for GenlMessage {
    type V = GenlMessageView;

    open spec fn view(&self) -> GenlMessageView {
        GenlMessageView { cmd: self.cmd, version: self.version, attrs: attrs_view(self.attrs@) }
    }
}

/// The wire form: command, version, two reserved zero bytes, attributes.
pub open spec fn spec_encode_genl(order: Endian, g: GenlMessageView) -> Seq<u8> {
    seq![g.cmd, g.version, 0u8, 0u8] + spec_encode_attrs(order, g.attrs)
}

/// The message that a payload holds; the reserved field is not looked at.
pub open spec fn spec_decode_genl(order: Endian, b: Seq<u8>) -> Result<
    GenlMessageView,
    ProtocolError,
> {
    if b.len() < GENL_HEADER_LEN {
        Err(ProtocolError::Truncated)
    } else {
        match spec_parse_attrs(order, b.skip(GENL_HEADER_LEN as int)) {
            Ok(attrs) => Ok(GenlMessageView { cmd: b[0], version: b[1], attrs }),
            Err(e) => Err(e),
        }
    }
}

/// Decoding the wire form of a message gives the message back.
pub proof fn law_genl_round_trip(order: Endian, g: GenlMessageView)
    requires
        attrs_fit(g.attrs),
    ensures
        spec_decode_genl(order, spec_encode_genl(order, g)) == Ok::<
            GenlMessageView,
            ProtocolError,
        >(g),
        spec_encode_genl(order, g).len() % 4 == 0,
{
    let b = spec_encode_genl(order, g);
    crate::attr::law_attrs_round_trip(order, g.attrs);
    crate::attr::lemma_encode_attrs_aligned(order, g.attrs);
    assert(b.skip(GENL_HEADER_LEN as int) =~= spec_encode_attrs(order, g.attrs));
}

/// The wire form of a generic-netlink message.
///
/// Fails with `TooLarge` exactly when an attribute's payload does not fit.
pub fn encode_genl(order: Endian, msg: &GenlMessage) -> (r: Result<Vec<u8>, ProtocolError>)
    ensures
        match r {
            Ok(bytes) => attrs_fit(msg@.attrs) && bytes@ == spec_encode_genl(order, msg@),
            Err(e) => e == ProtocolError::TooLarge && !attrs_fit(msg@.attrs),
        },
{
    let mut out: Vec<u8> = Vec::new();
    out.push(msg.cmd);
    out.push(msg.version);
    out.push(0u8);
    out.push(0u8);
    match encode_attrs(order, &msg.attrs) {
        Ok(attrs) => {
            out.extend_from_slice(attrs.as_slice());
            assert(out@ =~= spec_encode_genl(order, msg@));
            Ok(out)
        },
        Err(e) => Err(e),
    }
}

/// The generic-netlink message that a netlink payload holds.
pub fn decode_genl(order: Endian, bytes: &[u8]) -> (r: Result<GenlMessage, ProtocolError>)
    ensures
        match r {
            Ok(msg) => spec_decode_genl(order, bytes@) == Ok::<GenlMessageView, ProtocolError>(
                msg@,
            ),
            Err(e) => spec_decode_genl(order, bytes@) == Err::<GenlMessageView, ProtocolError>(e),
        },
{
    if bytes.len() < GENL_HEADER_LEN {
        return Err(ProtocolError::Truncated);
    }
    let rest = slice_subrange(bytes, GENL_HEADER_LEN, bytes.len());
    assert(rest@ =~= bytes@.skip(GENL_HEADER_LEN as int));
    match parse_attrs(order, rest) {
        Ok(attrs) => Ok(GenlMessage { cmd: bytes[0], version: bytes[1], attrs }),
        Err(e) => Err(e),
    }
}

} // verus!
