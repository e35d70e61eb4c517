//! The WireGuard vocabulary: commands and device attributes, each with its
//! code on the wire.

use vstd::prelude::*;
use vstd::std_specs::convert::FromSpecImpl;

verus! {

/// The commands of the WireGuard generic-netlink family.
#[derive(Clone, Copy, Debug, PartialEq, Eq, PartialOrd, Ord, Hash, Structural)]
pub enum WgCmd {
    CmdGetDevice,
    CmdSetDevice,
    UnrecognizedConst(u8),
}

impl WgCmd {
    /// The value that a code stands for; where two names share a code, the
    /// first of them.
    pub open spec fn spec_from_code(code: u8) -> Self {
        match code {
            0 => WgCmd::CmdGetDevice,
            1 => WgCmd::CmdSetDevice,
            _ => WgCmd::UnrecognizedConst(code),
        }
    }

    /// The code of a value.
    pub open spec fn spec_code(self) -> u8 {
        match self {
            WgCmd::CmdGetDevice => 0,
            WgCmd::CmdSetDevice => 1,
            WgCmd::UnrecognizedConst(code) => code,
        }
    }

    /// Whether the value is none that the vocabulary names.
    pub fn is_unrecognized(&self) -> (r: bool)
        ensures
            r == (*self is UnrecognizedConst),
    {
        match self {
            WgCmd::UnrecognizedConst(_) => true,
            _ => false,
        }
    }

    /// Every code is the code of the value it stands for.
    pub proof fn lemma_code_round_trip(code: u8)
        ensures
            Self::spec_from_code(code).spec_code() == code,
    {
    }
}

impl From<u8> for WgCmd {
    fn from(code: u8) -> (value: Self) {
        match code {
            0 => WgCmd::CmdGetDevice,
            1 => WgCmd::CmdSetDevice,
            _ => WgCmd::UnrecognizedConst(code),
        }
    }
}

impl FromSpecImpl<u8> for WgCmd {
    open spec fn obeys_from_spec() -> bool {
        true
    }

    open spec fn from_spec(code: u8) -> Self {
        Self::spec_from_code(code)
    }
}

impl From<WgCmd> for u8 {
    fn from(value: WgCmd) -> (code: u8) {
        match value {
            WgCmd::CmdGetDevice => 0,
            WgCmd::CmdSetDevice => 1,
            WgCmd::UnrecognizedConst(code) => code,
        }
    }
}

impl FromSpecImpl<WgCmd> for u8 {
    open spec fn obeys_from_spec() -> bool {
        true
    }

    open spec fn from_spec(value: WgCmd) -> u8 {
        value.spec_code()
    }
}

/// The attributes of a WireGuard device.
#[derive(Clone, Copy, Debug, PartialEq, Eq, PartialOrd, Ord, Hash, Structural)]
pub enum WgDeviceAttr {
    AttrUnspec,
    AttrIfindex,
    AttrIfname,
    AttrPrivateKey,
    AttrPublicKey,
    AttrFlags,
    AttrListenPort,
    AttrFwmark,
    AttrPeers,
    UnrecognizedConst(u16),
}

impl WgDeviceAttr {
    /// The value that a code stands for; where two names share a code, the
    /// first of them.
    pub open spec fn spec_from_code(code: u16) -> Self {
        match code {
            0 => WgDeviceAttr::AttrUnspec,
            1 => WgDeviceAttr::AttrIfindex,
            2 => WgDeviceAttr::AttrIfname,
            3 => WgDeviceAttr::AttrPrivateKey,
            4 => WgDeviceAttr::AttrPublicKey,
            5 => WgDeviceAttr::AttrFlags,
            6 => WgDeviceAttr::AttrListenPort,
            7 => WgDeviceAttr::AttrFwmark,
            8 => WgDeviceAttr::AttrPeers,
            _ => WgDeviceAttr::UnrecognizedConst(code),
        }
    }

    /// The code of a value.
    pub open spec fn spec_code(self) -> u16 {
        match self {
            WgDeviceAttr::AttrUnspec => 0,
            WgDeviceAttr::AttrIfindex => 1,
            WgDeviceAttr::AttrIfname => 2,
            WgDeviceAttr::AttrPrivateKey => 3,
            WgDeviceAttr::AttrPublicKey => 4,
            WgDeviceAttr::AttrFlags => 5,
            WgDeviceAttr::AttrListenPort => 6,
            WgDeviceAttr::AttrFwmark => 7,
            WgDeviceAttr::AttrPeers => 8,
            WgDeviceAttr::UnrecognizedConst(code) => code,
        }
    }

    /// Whether the value is none that the vocabulary names.
    pub fn is_unrecognized(&self) -> (r: bool)
        ensures
            r == (*self is UnrecognizedConst),
    {
        match self {
            WgDeviceAttr::UnrecognizedConst(_) => true,
            _ => false,
        }
    }

    /// Every code is the code of the value it stands for.
    pub proof fn lemma_code_round_trip(code: u16)
        ensures
            Self::spec_from_code(code).spec_code() == code,
    {
    }
}

impl From<u16> for WgDeviceAttr {
    fn from(code: u16) -> (value: Self) {
        match code {
            0 => WgDeviceAttr::AttrUnspec,
            1 => WgDeviceAttr::AttrIfindex,
            2 => WgDeviceAttr::AttrIfname,
            3 => WgDeviceAttr::AttrPrivateKey,
            4 => WgDeviceAttr::AttrPublicKey,
            5 => WgDeviceAttr::AttrFlags,
            6 => WgDeviceAttr::AttrListenPort,
            7 => WgDeviceAttr::AttrFwmark,
            8 => WgDeviceAttr::AttrPeers,
            _ => WgDeviceAttr::UnrecognizedConst(code),
        }
    }
}

impl FromSpecImpl<u16> for WgDeviceAttr {
    open spec fn obeys_from_spec() -> bool {
        true
    }

    open spec fn from_spec(code: u16) -> Self {
        Self::spec_from_code(code)
    }
}

impl From<WgDeviceAttr> for u16 {
    fn from(value: WgDeviceAttr) -> (code: u16) {
        match value {
            WgDeviceAttr::AttrUnspec => 0,
            WgDeviceAttr::AttrIfindex => 1,
            WgDeviceAttr::AttrIfname => 2,
            WgDeviceAttr::AttrPrivateKey => 3,
            WgDeviceAttr::AttrPublicKey => 4,
            WgDeviceAttr::AttrFlags => 5,
            WgDeviceAttr::AttrListenPort => 6,
            WgDeviceAttr::AttrFwmark => 7,
            WgDeviceAttr::AttrPeers => 8,
            WgDeviceAttr::UnrecognizedConst(code) => code,
        }
    }
}

impl FromSpecImpl<WgDeviceAttr> for u16 {
    open spec fn obeys_from_spec() -> bool {
        true
    }

    open spec fn from_spec(value: WgDeviceAttr) -> u16 {
        value.spec_code()
    }
}

} // verus!
