//! Replies in several parts: what a scan of one has to look for besides
//! its payloads, and the terminator that closes it.

use crate::error::{NetlinkError, ProtocolError};
use crate::netlink::{
    has_flag, NetlinkMessage, NetlinkMessageView, Payload, PayloadView, NLM_F_MULTI,
};
use vstd::prelude::*;

verus! {

/// The code of the first message by which the kernel rejects the request.
pub open spec fn first_error(msgs: Seq<NetlinkMessageView>) -> Option<i32>
    decreases msgs.len(),
{
    if msgs.len() == 0 {
        None
    } else {
        match msgs[0].payload {
            PayloadView::Error(code) => Some(code),
            _ => first_error(msgs.skip(1)),
        }
    }
}

/// Whether one of the messages is flagged as part of a multi-part reply.
pub open spec fn any_multi(msgs: Seq<NetlinkMessageView>) -> bool {
    exists|i: int| 0 <= i < msgs.len() && has_flag((#[trigger] msgs[i]).flags, NLM_F_MULTI)
}

/// Whether one of the messages ends a multi-part reply.
pub open spec fn any_done(msgs: Seq<NetlinkMessageView>) -> bool {
    exists|i: int| 0 <= i < msgs.len() && (#[trigger] msgs[i]).payload is Done
}

/// Whether the terminator of a multi-part reply is still to come: a
/// message is flagged multi-part, and none of them is the terminator.
pub open spec fn done_pending(msgs: Seq<NetlinkMessageView>) -> bool {
    any_multi(msgs) && !any_done(msgs)
}

/// What the message after a multi-part reply must be: its terminator.
///
/// No message, or another message, is `MissingDone`; a rejection by the
/// kernel fails with its code.
pub open spec fn spec_expect_done(next: Option<NetlinkMessageView>) -> Result<(), NetlinkError> {
    match next {
        Some(m) => match m.payload {
            PayloadView::Done => Ok(()),
            PayloadView::Error(code) => Err(NetlinkError::KernelRejection(code)),
            _ => Err(NetlinkError::Protocol(ProtocolError::MissingDone)),
        },
        None => Err(NetlinkError::Protocol(ProtocolError::MissingDone)),
    }
}

/// Checks that the message after a multi-part reply is its terminator.
pub fn expect_done(next: Option<&NetlinkMessage>) -> (r: Result<(), NetlinkError>)
    ensures
        r == spec_expect_done(
            match next {
                Some(m) => Some(m@),
                None => None,
            },
        ),
{
    match next {
        Some(m) => match &m.payload {
            Payload::Done => Ok(()),
            Payload::Error(code) => Err(NetlinkError::KernelRejection(*code)),
            _ => Err(NetlinkError::Protocol(ProtocolError::MissingDone)),
        },
        None => Err(NetlinkError::Protocol(ProtocolError::MissingDone)),
    }
}

} // verus!
