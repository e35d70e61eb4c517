//! The WiFi monitor: a state machine over the kernel's station events that
//! decides when the tunnel is to be enabled and when disabled.
//!
//! The caller owns the socket. At the start it sends the query of
//! `get_ifindex_request`, scans the reply with `get_ifindex` and ends the
//! query with `finish_interface_scan`. Then it hands each batch of decoded
//! events to `handle_messages` and performs the actions that come back: it
//! sends the query of `get_ssid` for a `QuerySsid`, and publishes the
//! message of a `Publish` on the event bus.

use crate::attr::{attribute_payload, attrs_view, spec_attr_payload, Attribute, AttributeView};
use crate::dump::{done_pending, expect_done, spec_expect_done};
use crate::endian::{get_u32, put_u32, spec_u32_bytes, spec_u32_value, Endian};
use crate::error::{NetlinkError, ProtocolError};
use crate::genl::{GenlMessage, GenlMessageView};
use crate::netlink::{
    encode_message, flag_set, has_flag, message_fits, msgs_view, spec_encode_message,
    NetlinkMessage, NetlinkMessageView, Payload, PayloadView, NLM_F_DUMP, NLM_F_MULTI,
    NLM_F_REQUEST,
};
use crate::nl80211::{Nl80211Attr, Nl80211Cmd};
use crate::text::{cstr_body, decode_lossy, spec_cstr_body, utf8_lossy};
use crate::Msg;
use vstd::prelude::*;

verus! {

/// The version of the generic-netlink envelope that requests carry.
pub const NL80211_VERSION: u8 = 1;

/// Where the monitored interface stands.
#[derive(Clone, Copy, Debug, PartialEq, Eq)]
pub enum LinkState {
    /// On no network.
    Unassociated,
    /// Connected; the network's name has been asked for.
    ResolvingSsid(u32),
    /// On a network whose name has been classified.
    Associated,
}

/// The monitor's state: the index of the one interface it follows, once
/// known, and where that interface stands.
#[derive(Clone, Copy, Debug, PartialEq, Eq)]
pub struct WifiMonitor {
    pub ifindex: Option<u32>,
    pub state: LinkState,
}

/// What the caller is to do after an event.
#[derive(Clone, Copy, Debug, PartialEq, Eq)]
pub enum MonitorAction {
    /// Nothing.
    Ignore,
    /// Ask the kernel for the network name of this interface.
    QuerySsid(u32),
    /// Publish this message on the event bus.
    Publish(Msg),
}

/// The names of a list of networks, in order.
pub open spec fn names_view(names: Seq<String>) -> Seq<Seq<char>> {
    Seq::new(names.len(), |i: int| names[i]@)
}

/// The decision for a network: a known network needs no tunnel, any other
/// network does.
pub open spec fn spec_classify(known: Seq<Seq<char>>, ssid: Seq<char>) -> Msg {
    if known.contains(ssid) {
        Msg::Disable
    } else {
        Msg::Enable
    }
}

/// Classifies a network name against the known networks, by exact match.
pub fn classify(known_networks: &Vec<String>, ssid: &String) -> (msg: Msg)
    ensures
        msg == spec_classify(names_view(known_networks@), ssid@),
        msg == Msg::Disable <==> names_view(known_networks@).contains(ssid@),
        msg == Msg::Enable <==> !names_view(known_networks@).contains(ssid@),
{
    let ghost known = names_view(known_networks@);
    let mut i: usize = 0;
    while i < known_networks.len()
        invariant
            i <= known_networks.len(),
            known == names_view(known_networks@),
            forall|j: int| 0 <= j < i ==> known[j] != ssid@,
        decreases known_networks.len() - i,
    {
        if known_networks[i] == *ssid {
            assert(known[i as int] == ssid@);
            return Msg::Disable;
        }
        i = i + 1;
    }
    Msg::Enable
}

/// The interface index that four bytes hold, in the byte order of this
/// machine.
pub fn parse_ifindex(bytes: &[u8]) -> (index: u32)
    requires
        bytes.len() == 4,
    ensures
        index == spec_u32_value(Endian::Little, bytes@) || index == spec_u32_value(
            Endian::Big,
            bytes@,
        ),
{
    let order = Endian::native();
    assert(bytes@.subrange(0, 4) =~= bytes@);
    get_u32(order, bytes, 0)
}

/// The interface index that an attribute's payload holds.
pub open spec fn spec_ifindex(order: Endian, payload: Seq<u8>) -> Result<u32, ProtocolError> {
    if payload.len() == 4 {
        Ok(spec_u32_value(order, payload))
    } else {
        Err(ProtocolError::BadWidth)
    }
}

/// The interface index that an attribute's payload holds.
///
/// Fails with `BadWidth` exactly when the payload is not four bytes long.
pub fn read_ifindex(order: Endian, payload: &[u8]) -> (r: Result<u32, ProtocolError>)
    ensures
        r == spec_ifindex(order, payload@),
{
    if payload.len() == 4 {
        assert(payload@.subrange(0, 4) =~= payload@);
        Ok(get_u32(order, payload, 0))
    } else {
        Err(ProtocolError::BadWidth)
    }
}

/// The message of an nl80211 request.
pub open spec fn spec_nl80211_header(
    cmd: Nl80211Cmd,
    attrs: Seq<AttributeView>,
    id: u16,
    flags: u16,
) -> NetlinkMessageView {
    NetlinkMessageView {
        msg_type: id,
        flags,
        sequence: 0,
        port: 0,
        payload: PayloadView::Genl(
            GenlMessageView { cmd: cmd.spec_code(), version: NL80211_VERSION, attrs },
        ),
    }
}

/// The message of an nl80211 request to the family with id `id`.
pub fn gen_nl80211_header(cmd: Nl80211Cmd, attrs: Vec<Attribute>, id: u16, flags: u16) -> (msg:
    NetlinkMessage)
    ensures
        msg@ == spec_nl80211_header(cmd, attrs_view(attrs@), id, flags),
{
    NetlinkMessage {
        msg_type: id,
        flags,
        sequence: 0,
        port: 0,
        payload: Payload::Genl(
            GenlMessage { cmd: u8::from(cmd), version: NL80211_VERSION, attrs },
        ),
    }
}

/// The query for the network name of an interface.
pub open spec fn spec_ssid_query(order: Endian, family: u16, ifindex: u32) -> NetlinkMessageView {
    spec_nl80211_header(
        Nl80211Cmd::GetInterface,
        seq![
            AttributeView {
                kind: Nl80211Attr::Ifindex.spec_code(),
                payload: spec_u32_bytes(order, ifindex),
            },
        ],
        family,
        NLM_F_REQUEST,
    )
}

/// The datagram that asks for the network name of an interface.
pub fn get_ssid(order: Endian, family: u16, ifindex: u32) -> (bytes: Vec<u8>)
    ensures
        bytes@ == spec_encode_message(order, spec_ssid_query(order, family, ifindex)),
{
    let mut payload: Vec<u8> = Vec::new();
    put_u32(order, ifindex, &mut payload);
    let mut attrs: Vec<Attribute> = Vec::new();
    attrs.push(Attribute { kind: u16::from(Nl80211Attr::Ifindex), payload });
    proof {
        let want = seq![
            AttributeView {
                kind: Nl80211Attr::Ifindex.spec_code(),
                payload: spec_u32_bytes(order, ifindex),
            },
        ];
        assert(attrs@[0]@.payload =~= spec_u32_bytes(order, ifindex));
        assert(attrs_view(attrs@) =~= want);
        assert(crate::attr::attrs_fit(want));
        crate::attr::lemma_encode_attrs_bound(order, want);
    }
    let msg = gen_nl80211_header(Nl80211Cmd::GetInterface, attrs, family, NLM_F_REQUEST);
    match encode_message(order, &msg) {
        Ok(bytes) => bytes,
        // not reached: a query of this shape fits
        Err(_) => Vec::new(),
    }
}

/// The query for all interfaces: a dump request without attributes.
pub open spec fn spec_interface_query(family: u16) -> NetlinkMessageView {
    spec_nl80211_header(
        Nl80211Cmd::GetInterface,
        Seq::empty(),
        family,
        NLM_F_REQUEST | NLM_F_DUMP,
    )
}

/// The datagram that asks for all interfaces.
pub fn get_ifindex_request(order: Endian, family: u16) -> (bytes: Vec<u8>)
    ensures
        bytes@ == spec_encode_message(order, spec_interface_query(family)),
{
    let attrs: Vec<Attribute> = Vec::new();
    proof {
        assert(attrs_view(attrs@) =~= Seq::<AttributeView>::empty());
        crate::attr::lemma_encode_attrs_bound(order, Seq::<AttributeView>::empty());
    }
    let msg = gen_nl80211_header(
        Nl80211Cmd::GetInterface,
        attrs,
        family,
        NLM_F_REQUEST | NLM_F_DUMP,
    );
    match encode_message(order, &msg) {
        Ok(bytes) => bytes,
        // not reached: a query of this shape fits
        Err(_) => Vec::new(),
    }
}

/// The interface index that an event carries, if it carries a well-formed
/// one.
pub open spec fn event_ifindex(order: Endian, g: GenlMessageView) -> Option<u32> {
    match spec_attr_payload(g.attrs, Nl80211Attr::Ifindex.spec_code()) {
        Some(p) => match spec_ifindex(order, p) {
            Ok(index) => Some(index),
            Err(_) => None,
        },
        None => None,
    }
}

/// The network name that an event carries, decoded permissively.
pub open spec fn event_ssid(g: GenlMessageView) -> Option<Seq<char>> {
    match spec_attr_payload(g.attrs, Nl80211Attr::Ssid.spec_code()) {
        Some(p) => Some(utf8_lossy(p)),
        None => None,
    }
}

/// The monitor before any event: with an interface index from the initial
/// dump it asks for the current network at once, so that a restart
/// reconciles the tunnel instead of waiting for the next transition.
pub open spec fn spec_start(ifindex: Option<u32>) -> (WifiMonitor, MonitorAction) {
    match ifindex {
        Some(index) => (
            WifiMonitor { ifindex: Some(index), state: LinkState::ResolvingSsid(index) },
            MonitorAction::QuerySsid(index),
        ),
        None => (
            WifiMonitor { ifindex: None, state: LinkState::Unassociated },
            MonitorAction::Ignore,
        ),
    }
}

/// What a connect event does, given the interface index it carries.
///
/// Without an index the event is ignored. The first index seen is adopted.
/// An event for another interface than the adopted one is ignored: the
/// state stays, and nothing is asked or published. Otherwise the network
/// name of the interface is asked for.
pub open spec fn spec_cmd_connect(m: WifiMonitor, seen: Option<u32>) -> (
    WifiMonitor,
    MonitorAction,
) {
    match seen {
        None => (m, MonitorAction::Ignore),
        Some(current) => {
            let adopted = match m.ifindex {
                Some(cached) => cached,
                None => current,
            };
            if adopted != current {
                (m, MonitorAction::Ignore)
            } else {
                (
                    WifiMonitor {
                        ifindex: Some(adopted),
                        state: LinkState::ResolvingSsid(adopted),
                    },
                    MonitorAction::QuerySsid(adopted),
                )
            }
        },
    }
}

/// What a new-interface event does, given the network name it carries:
/// without a name it is ignored, with one the decision for that network is
/// published.
pub open spec fn spec_cmd_new_interface(
    m: WifiMonitor,
    ssid: Option<Seq<char>>,
    known: Seq<Seq<char>>,
) -> (WifiMonitor, MonitorAction) {
    match ssid {
        None => (m, MonitorAction::Ignore),
        Some(name) => (
            WifiMonitor { ifindex: m.ifindex, state: LinkState::Associated },
            MonitorAction::Publish(spec_classify(known, name)),
        ),
    }
}

/// What an event does. A disconnect always publishes `Disable`; commands
/// other than connect, disconnect and new-interface are ignored.
pub open spec fn spec_handle_payload(
    order: Endian,
    m: WifiMonitor,
    g: GenlMessageView,
    known: Seq<Seq<char>>,
) -> (WifiMonitor, MonitorAction) {
    match Nl80211Cmd::spec_from_code(g.cmd) {
        Nl80211Cmd::Connect => spec_cmd_connect(m, event_ifindex(order, g)),
        Nl80211Cmd::Disconnect => (
            WifiMonitor { ifindex: m.ifindex, state: LinkState::Unassociated },
            MonitorAction::Publish(Msg::Disable),
        ),
        Nl80211Cmd::NewInterface => spec_cmd_new_interface(m, event_ssid(g), known),
        _ => (m, MonitorAction::Ignore),
    }
}

/// What a message does: requests are skipped, and so is all that is no
/// generic-netlink envelope.
pub open spec fn spec_handle_message(
    order: Endian,
    m: WifiMonitor,
    msg: NetlinkMessageView,
    known: Seq<Seq<char>>,
) -> (WifiMonitor, MonitorAction) {
    if has_flag(msg.flags, NLM_F_REQUEST) {
        (m, MonitorAction::Ignore)
    } else {
        match msg.payload {
            PayloadView::Genl(g) => spec_handle_payload(order, m, g, known),
            _ => (m, MonitorAction::Ignore),
        }
    }
}

/// What a batch of messages does: each in turn, from the state that the
/// one before left, with one action for each.
pub open spec fn spec_handle_messages(
    order: Endian,
    m: WifiMonitor,
    msgs: Seq<NetlinkMessageView>,
    known: Seq<Seq<char>>,
) -> (WifiMonitor, Seq<MonitorAction>)
    decreases msgs.len(),
{
    if msgs.len() == 0 {
        (m, Seq::empty())
    } else {
        let (next, action) = spec_handle_message(order, m, msgs[0], known);
        let (last, rest) = spec_handle_messages(order, next, msgs.skip(1), known);
        (last, seq![action] + rest)
    }
}

/// One message keeps the monitor well formed, never changes an interface
/// index once it is set, and asks for a name on that interface alone.
pub proof fn law_message_keeps_monitor(
    order: Endian,
    m: WifiMonitor,
    msg: NetlinkMessageView,
    known: Seq<Seq<char>>,
)
    requires
        m.wf(),
    ensures
        spec_handle_message(order, m, msg, known).0.wf(),
        m.ifindex is Some ==> spec_handle_message(order, m, msg, known).0.ifindex == m.ifindex,
        spec_handle_message(order, m, msg, known).1 matches MonitorAction::QuerySsid(index)
            ==> spec_handle_message(order, m, msg, known).0.ifindex == Some(index),
{
}

/// A batch of messages gives one action for each message.
pub proof fn lemma_one_action_each(
    order: Endian,
    m: WifiMonitor,
    msgs: Seq<NetlinkMessageView>,
    known: Seq<Seq<char>>,
)
    ensures
        spec_handle_messages(order, m, msgs, known).1.len() == msgs.len(),
    decreases msgs.len(),
{
    if msgs.len() > 0 {
        let next = spec_handle_message(order, m, msgs[0], known).0;
        lemma_one_action_each(order, next, msgs.skip(1), known);
    }
}

/// A batch of messages keeps the monitor well formed and never changes an
/// interface index once it is set: events of other interfaces do not move
/// the monitor to them.
pub proof fn law_ifindex_is_set_once(
    order: Endian,
    m: WifiMonitor,
    msgs: Seq<NetlinkMessageView>,
    known: Seq<Seq<char>>,
)
    requires
        m.wf(),
    ensures
        spec_handle_messages(order, m, msgs, known).0.wf(),
        m.ifindex is Some ==> spec_handle_messages(order, m, msgs, known).0.ifindex == m.ifindex,
    decreases msgs.len(),
{
    if msgs.len() > 0 {
        let next = spec_handle_message(order, m, msgs[0], known).0;
        law_message_keeps_monitor(order, m, msgs[0], known);
        law_ifindex_is_set_once(order, next, msgs.skip(1), known);
    }
}

impl WifiMonitor {
    /// Whether the state is one that the monitor can be in: a name is asked
    /// for on the interface that the monitor follows, and on no other.
    pub open spec fn wf(self) -> bool {
        match self.state {
            LinkState::ResolvingSsid(index) => self.ifindex == Some(index),
            _ => true,
        }
    }

    /// The monitor before any event, and what it does first.
    pub fn start(ifindex: Option<u32>) -> (r: (WifiMonitor, MonitorAction))
        ensures
            r == spec_start(ifindex),
            r.0.wf(),
    {
        match ifindex {
            Some(index) => (
                WifiMonitor { ifindex: Some(index), state: LinkState::ResolvingSsid(index) },
                MonitorAction::QuerySsid(index),
            ),
            None => (
                WifiMonitor { ifindex: None, state: LinkState::Unassociated },
                MonitorAction::Ignore,
            ),
        }
    }
}

/// Handles a connect event.
pub fn cmd_connect(order: Endian, monitor: &mut WifiMonitor, header: &GenlMessage) -> (action:
    MonitorAction)
    ensures
        (*final(monitor), action) == spec_cmd_connect(
            *old(monitor),
            event_ifindex(order, header@),
        ),
        old(monitor).ifindex is Some && event_ifindex(order, header@) is Some
            && old(monitor).ifindex != event_ifindex(order, header@) ==> action
            == MonitorAction::Ignore && *final(monitor) == *old(monitor),
        old(monitor).wf() ==> final(monitor).wf(),
{
    let seen = match attribute_payload(&header.attrs, u16::from(Nl80211Attr::Ifindex)) {
        Some(payload) => match read_ifindex(order, payload) {
            Ok(index) => Some(index),
            Err(_) => None,
        },
        None => None,
    };
    match seen {
        None => MonitorAction::Ignore,
        Some(current) => {
            let adopted = match monitor.ifindex {
                Some(cached) => cached,
                None => current,
            };
            if adopted != current {
                MonitorAction::Ignore
            } else {
                monitor.ifindex = Some(adopted);
                monitor.state = LinkState::ResolvingSsid(adopted);
                MonitorAction::QuerySsid(adopted)
            }
        },
    }
}

/// Handles a new-interface event.
pub fn cmd_new_interface(
    monitor: &mut WifiMonitor,
    header: &GenlMessage,
    known_networks: &Vec<String>,
) -> (action: MonitorAction)
    ensures
        (*final(monitor), action) == spec_cmd_new_interface(
            *old(monitor),
            event_ssid(header@),
            names_view(known_networks@),
        ),
        old(monitor).wf() ==> final(monitor).wf(),
{
    match attribute_payload(&header.attrs, u16::from(Nl80211Attr::Ssid)) {
        Some(payload) => {
            let ssid = decode_lossy(payload);
            monitor.state = LinkState::Associated;
            MonitorAction::Publish(classify(known_networks, &ssid))
        },
        None => MonitorAction::Ignore,
    }
}

/// Handles one event.
pub fn handle_payload(
    order: Endian,
    monitor: &mut WifiMonitor,
    payload: &GenlMessage,
    known_networks: &Vec<String>,
) -> (action: MonitorAction)
    ensures
        (*final(monitor), action) == spec_handle_payload(
            order,
            *old(monitor),
            payload@,
            names_view(known_networks@),
        ),
        Nl80211Cmd::spec_from_code(payload@.cmd) == Nl80211Cmd::Disconnect ==> action
            == MonitorAction::Publish(Msg::Disable),
        Nl80211Cmd::spec_from_code(payload@.cmd) == Nl80211Cmd::Connect && old(monitor).ifindex
            is Some && event_ifindex(order, payload@) is Some && old(monitor).ifindex
            != event_ifindex(order, payload@) ==> action == MonitorAction::Ignore && *final(monitor)
            == *old(monitor),
        old(monitor).wf() ==> final(monitor).wf(),
{
    match Nl80211Cmd::from(payload.cmd) {
        Nl80211Cmd::Connect => cmd_connect(order, monitor, payload),
        Nl80211Cmd::Disconnect => {
            monitor.state = LinkState::Unassociated;
            MonitorAction::Publish(Msg::Disable)
        },
        Nl80211Cmd::NewInterface => cmd_new_interface(monitor, payload, known_networks),
        _ => MonitorAction::Ignore,
    }
}

/// Handles one message of the event stream.
pub fn handle_message(
    order: Endian,
    monitor: &mut WifiMonitor,
    msg: &NetlinkMessage,
    known_networks: &Vec<String>,
) -> (action: MonitorAction)
    ensures
        (*final(monitor), action) == spec_handle_message(
            order,
            *old(monitor),
            msg@,
            names_view(known_networks@),
        ),
        old(monitor).wf() ==> final(monitor).wf(),
{
    if flag_set(msg.flags, NLM_F_REQUEST) {
        return MonitorAction::Ignore;
    }
    match &msg.payload {
        Payload::Genl(g) => handle_payload(order, monitor, g, known_networks),
        _ => MonitorAction::Ignore,
    }
}

/// Handles a batch of messages of the event stream, in order, and gives the
/// action of each.
pub fn handle_messages(
    order: Endian,
    monitor: &mut WifiMonitor,
    messages: &Vec<NetlinkMessage>,
    known_networks: &Vec<String>,
) -> (actions: Vec<MonitorAction>)
    ensures
        (*final(monitor), actions@) == spec_handle_messages(
            order,
            *old(monitor),
            msgs_view(messages@),
            names_view(known_networks@),
        ),
        actions.len() == messages.len(),
        old(monitor).wf() ==> final(monitor).wf(),
        old(monitor).wf() && old(monitor).ifindex is Some ==> final(monitor).ifindex
            == old(monitor).ifindex,
{
    let ghost all = msgs_view(messages@);
    let ghost known = names_view(known_networks@);
    let ghost goal = spec_handle_messages(order, *monitor, all, known);
    let mut actions: Vec<MonitorAction> = Vec::new();
    let mut i: usize = 0;
    proof {
        assert(all.skip(0) =~= all);
        assert(actions@ + goal.1 =~= goal.1);
    }
    while i < messages.len()
        invariant
            i <= messages.len(),
            all == msgs_view(messages@),
            known == names_view(known_networks@),
            goal.0 == spec_handle_messages(order, *monitor, all.skip(i as int), known).0,
            goal.1 == actions@ + spec_handle_messages(order, *monitor, all.skip(i as int), known).1,
        decreases messages.len() - i,
    {
        let ghost before = *monitor;
        let ghost done = actions@;
        let action = handle_message(order, monitor, &messages[i], known_networks);
        proof {
            let rest = all.skip(i as int);
            assert(rest[0] == messages[i as int]@);
            assert(rest.skip(1) =~= all.skip(i + 1));
            let tail = spec_handle_messages(order, *monitor, all.skip(i + 1), known);
            assert(spec_handle_messages(order, before, rest, known) == (
                tail.0,
                seq![action] + tail.1,
            ));
            assert(done + (seq![action] + tail.1) =~= done.push(action) + tail.1);
        }
        actions.push(action);
        i = i + 1;
    }
    proof {
        assert(all.skip(i as int).len() == 0);
        assert(actions@ + Seq::<MonitorAction>::empty() =~= actions@);
        lemma_one_action_each(order, *old(monitor), all, known);
        if old(monitor).wf() {
            law_ifindex_is_set_once(order, *old(monitor), all, known);
        }
    }
    actions
}

/// What a scan of the interface dump found.
#[derive(Clone, Copy, Debug, PartialEq, Eq)]
pub struct InterfaceScan {
    /// The index of the interface with the name looked for.
    pub ifindex: Option<u32>,
    /// The reply is multi-part and its terminator has not been seen yet.
    pub done_pending: bool,
}

/// What one message of the interface dump adds to what was found before.
///
/// A rejection by the kernel fails the scan with its code. An interface
/// name that is no zero-terminated string fails it, and so does an index of
/// the wrong width on the interface looked for. An interface of that name
/// replaces what was found, also where it carries no index.
pub open spec fn spec_scan_interface(
    order: Endian,
    m: NetlinkMessageView,
    ifname: Seq<char>,
    found: Option<u32>,
) -> Result<Option<u32>, NetlinkError> {
    match m.payload {
        PayloadView::Error(code) => Err(NetlinkError::KernelRejection(code)),
        PayloadView::Genl(g) => match spec_attr_payload(g.attrs, Nl80211Attr::Ifname.spec_code()) {
            None => Ok(found),
            Some(raw) => match spec_cstr_body(raw) {
                Err(e) => Err(NetlinkError::Protocol(e)),
                Ok(name) => spec_pick_interface(order, g, utf8_lossy(name), ifname, found),
            },
        },
        _ => Ok(found),
    }
}

/// What the messages of the interface dump add, one after the other, to
/// what was found before; the first failure ends the scan.
pub open spec fn spec_scan_interfaces(
    order: Endian,
    msgs: Seq<NetlinkMessageView>,
    ifname: Seq<char>,
    found: Option<u32>,
) -> Result<Option<u32>, NetlinkError>
    decreases msgs.len(),
{
    if msgs.len() == 0 {
        Ok(found)
    } else {
        match spec_scan_interface(order, msgs[0], ifname, found) {
            Err(e) => Err(e),
            Ok(next) => spec_scan_interfaces(order, msgs.skip(1), ifname, next),
        }
    }
}

/// What a scan of the interface dump finds.
pub open spec fn spec_get_ifindex(order: Endian, msgs: Seq<NetlinkMessageView>, ifname: Seq<char>)
    -> Result<InterfaceScan, NetlinkError> {
    match spec_scan_interfaces(order, msgs, ifname, None) {
        Err(e) => Err(e),
        Ok(found) => Ok(InterfaceScan { ifindex: found, done_pending: done_pending(msgs) }),
    }
}

/// What an interface of the dump adds to what was found before, given its
/// name: nothing unless it is the interface looked for, and else its
/// index, which has to be four bytes wide where it is there.
pub open spec fn spec_pick_interface(
    order: Endian,
    g: GenlMessageView,
    name: Seq<char>,
    ifname: Seq<char>,
    found: Option<u32>,
) -> Result<Option<u32>, NetlinkError> {
    if name == ifname {
        match spec_attr_payload(g.attrs, Nl80211Attr::Ifindex.spec_code()) {
            None => Ok(None),
            Some(p) => match spec_ifindex(order, p) {
                Ok(index) => Ok(Some(index)),
                Err(e) => Err(NetlinkError::Protocol(e)),
            },
        }
    } else {
        Ok(found)
    }
}

/// Adds an interface of the dump, whose decoded name is `name`, to what
/// was found before.
pub fn pick_interface(
    order: Endian,
    interface: &GenlMessage,
    name: &String,
    ifname: &String,
    found: Option<u32>,
) -> (r: Result<Option<u32>, NetlinkError>)
    ensures
        r == spec_pick_interface(order, interface@, name@, ifname@, found),
{
    if *name == *ifname {
        match attribute_payload(&interface.attrs, u16::from(Nl80211Attr::Ifindex)) {
            None => Ok(None),
            Some(p) => match read_ifindex(order, p) {
                Ok(index) => Ok(Some(index)),
                Err(e) => Err(NetlinkError::Protocol(e)),
            },
        }
    } else {
        Ok(found)
    }
}

/// Adds one message of the interface dump to what was found before.
fn scan_interface(order: Endian, msg: &NetlinkMessage, ifname: &String, found: Option<u32>) -> (r:
    Result<Option<u32>, NetlinkError>)
    ensures
        r == spec_scan_interface(order, msg@, ifname@, found),
{
    match &msg.payload {
        Payload::Error(code) => Err(NetlinkError::KernelRejection(*code)),
        Payload::Genl(g) => {
            let raw = match attribute_payload(&g.attrs, u16::from(Nl80211Attr::Ifname)) {
                Some(raw) => raw,
                None => {
                    return Ok(found);
                },
            };
            match cstr_body(raw) {
                Ok(body) => {
                    let name = decode_lossy(body);
                    pick_interface(order, g, &name, ifname, found)
                },
                Err(e) => Err(NetlinkError::Protocol(e)),
            }
        },
        _ => Ok(found),
    }
}

/// Scans the reply to the interface query for the interface named
/// `ifname`.
pub fn get_ifindex(order: Endian, msgs: &Vec<NetlinkMessage>, ifname: &String) -> (r: Result<
    InterfaceScan,
    NetlinkError,
>)
    ensures
        r == spec_get_ifindex(order, msgs_view(msgs@), ifname@),
{
    let ghost all = msgs_view(msgs@);
    let mut found: Option<u32> = None;
    let mut multi = false;
    let mut done = false;
    let mut i: usize = 0;
    assert(all.skip(0) =~= all);
    while i < msgs.len()
        invariant
            i <= msgs.len(),
            all == msgs_view(msgs@),
            spec_scan_interfaces(order, all, ifname@, None) == spec_scan_interfaces(
                order,
                all.skip(i as int),
                ifname@,
                found,
            ),
            multi == (exists|j: int|
                0 <= j < i && has_flag((#[trigger] all[j]).flags, NLM_F_MULTI)),
            done == (exists|j: int| 0 <= j < i && (#[trigger] all[j]).payload is Done),
        decreases msgs.len() - i,
    {
        let msg = &msgs[i];
        proof {
            let rest = all.skip(i as int);
            assert(rest[0] == msg@);
            assert(all[i as int] == msg@);
            assert(rest.skip(1) =~= all.skip(i + 1));
        }
        if flag_set(msg.flags, NLM_F_MULTI) {
            multi = true;
        }
        if let Payload::Done = &msg.payload {
            done = true;
        }
        found = match scan_interface(order, msg, ifname, found) {
            Ok(next) => next,
            Err(e) => {
                return Err(e);
            },
        };
        i = i + 1;
    }
    assert(all.skip(i as int).len() == 0);
    Ok(InterfaceScan { ifindex: found, done_pending: multi && !done })
}

/// What the interface query gives once its reply is complete: where the
/// scan asks for the terminator, the next message has to be it, or the
/// query fails and gives no index.
pub open spec fn spec_finish_interface_scan(
    scan: InterfaceScan,
    next: Option<NetlinkMessageView>,
) -> Result<Option<u32>, NetlinkError> {
    if scan.done_pending {
        match spec_expect_done(next) {
            Ok(_) => Ok(scan.ifindex),
            Err(e) => Err(e),
        }
    } else {
        Ok(scan.ifindex)
    }
}

/// Ends the interface query: `next` is the message received after the
/// scanned reply, which is looked at only where the scan asks for the
/// terminator.
pub fn finish_interface_scan(scan: InterfaceScan, next: Option<&NetlinkMessage>) -> (r: Result<
    Option<u32>,
    NetlinkError,
>)
    ensures
        r == spec_finish_interface_scan(
            scan,
            match next {
                Some(m) => Some(m@),
                None => None,
            },
        ),
{
    if scan.done_pending {
        match expect_done(next) {
            Ok(_) => Ok(scan.ifindex),
            Err(e) => Err(e),
        }
    } else {
        Ok(scan.ifindex)
    }
}

} // verus!
