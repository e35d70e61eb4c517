//! What can go wrong in a netlink exchange.

use vstd::prelude::*;

verus! {

/// A malformed or unexpected netlink exchange.
#[derive(Clone, Copy, Debug, PartialEq, Eq, Structural)]
pub enum ProtocolError {
    /// The bytes end before a header does.
    Truncated,
    /// A length field is smaller than the header it belongs to.
    BadLength,
    /// A length field reaches past the end of the bytes.
    Overrun,
    /// The message type is none that the exchange expects.
    UnexpectedType,
    /// A multi-part reply was not closed by its terminator.
    MissingDone,
    /// A string attribute does not end in a zero byte.
    MissingNul,
    /// A string holds a zero byte before its end.
    InteriorNul,
    /// An integer attribute is not as wide as its type.
    BadWidth,
    /// A payload is too long for its length field.
    TooLarge,
}

/// Why an exchange with the kernel failed.
#[derive(Clone, Copy, Debug, PartialEq, Eq, Structural)]
pub enum NetlinkError {
    /// The exchange was malformed.
    Protocol(ProtocolError),
    /// The kernel answered the request with this error code.
    KernelRejection(i32),
}

} // verus!
