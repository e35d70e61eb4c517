//! The VPN port rotator: on every enable the tunnel is asked to listen on a
//! new port, because a network may block the one used before.

use crate::attr::{attrs_view, Attribute, AttributeView, ATTR_MAX_PAYLOAD};
use crate::endian::{put_u16, spec_u16_bytes, Endian};
use crate::error::ProtocolError;
use crate::genl::{GenlMessage, GenlMessageView};
use crate::netlink::{
    encode_message, spec_encode_message, NetlinkMessage, NetlinkMessageView, Payload,
    PayloadView, NLM_F_REQUEST,
};
use crate::text::{cstring, spec_cstring};
use vstd::prelude::*;
use vstd::string::StringSliceAdditionalSpecFns;

pub mod enums;

use enums::{WgCmd, WgDeviceAttr};

verus! {

/// The version of the generic-netlink envelope that requests carry.
pub const WG_VERSION: u8 = 1;

/// The port that asks the kernel to pick a free one.
pub const ANY_PORT: u16 = 0;

/// The request that sets the listen port of the device whose
/// zero-terminated name is `name`.
pub open spec fn spec_set_device(order: Endian, family: u16, name: Seq<u8>) -> NetlinkMessageView {
    NetlinkMessageView {
        msg_type: family,
        flags: NLM_F_REQUEST,
        sequence: 0,
        port: 0,
        payload: PayloadView::Genl(
            GenlMessageView {
                cmd: WgCmd::CmdSetDevice.spec_code(),
                version: WG_VERSION,
                attrs: seq![
                    AttributeView {
                        kind: WgDeviceAttr::AttrListenPort.spec_code(),
                        payload: spec_u16_bytes(order, ANY_PORT),
                    },
                    AttributeView { kind: WgDeviceAttr::AttrIfname.spec_code(), payload: name },
                ],
            },
        ),
    }
}

/// The datagram that rotates the listen port of the device named by the
/// bytes `ifname`.
///
/// A name with a zero byte is `InteriorNul`; a name that with its
/// terminator is too long for an attribute is `TooLarge`.
pub open spec fn spec_change_listen_port(order: Endian, family: u16, ifname: Seq<u8>) -> Result<
    Seq<u8>,
    ProtocolError,
> {
    match spec_cstring(ifname) {
        Err(e) => Err(e),
        Ok(name) => if name.len() > ATTR_MAX_PAYLOAD {
            Err(ProtocolError::TooLarge)
        } else {
            Ok(spec_encode_message(order, spec_set_device(order, family, name)))
        },
    }
}

/// The datagram that asks the WireGuard family with id `family` to move the
/// device `ifname` to a new listen port.
pub fn change_listen_port(order: Endian, family: u16, ifname: &str) -> (r: Result<
    Vec<u8>,
    ProtocolError,
>)
    ensures
        match r {
            Ok(bytes) => spec_change_listen_port(order, family, ifname.spec_bytes()) == Ok::<
                Seq<u8>,
                ProtocolError,
            >(bytes@),
            Err(e) => spec_change_listen_port(order, family, ifname.spec_bytes()) == Err::<
                Seq<u8>,
                ProtocolError,
            >(e),
        },
{
    let name = match cstring(ifname.as_bytes()) {
        Ok(name) => name,
        Err(e) => {
            return Err(e);
        },
    };
    let ghost name_bytes = name@;
    let mut port: Vec<u8> = Vec::new();
    put_u16(order, ANY_PORT, &mut port);
    let mut attrs: Vec<Attribute> = Vec::new();
    attrs.push(Attribute { kind: u16::from(WgDeviceAttr::AttrListenPort), payload: port });
    attrs.push(Attribute { kind: u16::from(WgDeviceAttr::AttrIfname), payload: name });
    let msg = NetlinkMessage {
        msg_type: family,
        flags: NLM_F_REQUEST,
        sequence: 0,
        port: 0,
        payload: Payload::Genl(
            GenlMessage { cmd: u8::from(WgCmd::CmdSetDevice), version: WG_VERSION, attrs },
        ),
    };
    proof {
        let want = spec_set_device(order, family, name_bytes);
        let list = want.payload->Genl_0.attrs;
        assert(msg@.payload->Genl_0.attrs[0].payload =~= spec_u16_bytes(order, ANY_PORT));
        assert(msg@.payload->Genl_0.attrs =~= list);
        assert(msg@ == want);
        if name_bytes.len() <= ATTR_MAX_PAYLOAD {
            assert(crate::attr::attrs_fit(list));
            crate::attr::lemma_encode_attrs_bound(order, list);
        } else {
            assert(!crate::attr::attr_fits(list[1]));
        }
    }
    encode_message(order, &msg)
}

} // verus!
