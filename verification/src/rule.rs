//! The rule reconciler: policy-routing rules that send marked traffic to the
//! tunnel's routing table, created and removed without duplicates.
//!
//! An exchange with the kernel runs in steps that the caller drives: it
//! sends the query that `Exchange::start` gives, hands each datagram of
//! the reply to `Exchange::on_reply`, and at the end sends what the
//! exchange has decided. Nothing is created or removed before the existing
//! rules have been looked at.

use crate::attr::{attrs_view, Attribute, AttributeView};
use crate::dump::{done_pending, expect_done, first_error, spec_expect_done};
use crate::endian::{get_u32, put_u32, spec_u32_bytes, spec_u32_value, Endian};
use crate::error::{NetlinkError, ProtocolError};
use crate::netlink::{
    batch_ok, encode_message, flag_set, has_flag, law_messages_round_trip, message_fits,
    msgs_view, spec_decode_messages, spec_encode_message, spec_encode_messages, NetlinkMessage,
    NetlinkMessageView, Payload, PayloadView, Protocol, NLM_F_CREATE, NLM_F_DUMP, NLM_F_EXCL,
    NLM_F_MULTI, NLM_F_REQUEST,
};
use crate::rtnl::{
    RuleMessage, RuleMessageView, AF_INET, AF_INET6, RTA_MARK, RTA_SRC, RTA_TABLE, RTM_DELRULE,
    RTM_GETRULE, RTM_NEWRULE, RTN_UNICAST, RTPROT_UNSPEC, RT_SCOPE_UNIVERSE, RT_TABLE_DEFAULT,
};
use crate::Config;
use vstd::prelude::*;

verus! {

/// The address family that a rule applies to.
#[derive(Clone, Copy, Debug, PartialEq, Eq, Structural)]
pub enum Family {
    Inet,
    Inet6,
}

impl Family {
    /// The family's number on the wire.
    pub open spec fn spec_code(self) -> u8 {
        match self {
            Family::Inet => AF_INET,
            Family::Inet6 => AF_INET6,
        }
    }

    /// The family's number on the wire.
    #[verifier::when_used_as_spec(spec_code)]
    pub fn code(self) -> (c: u8)
        ensures
            c == self.spec_code(),
    {
        match self {
            Family::Inet => AF_INET,
            Family::Inet6 => AF_INET6,
        }
    }
}

/// What a rule message asks for.
#[derive(Clone, Copy, Debug, PartialEq, Eq, Structural)]
pub enum Rtm {
    Newrule,
    Delrule,
    Getrule,
}

impl Rtm {
    /// The message type on the wire.
    pub open spec fn spec_code(self) -> u16 {
        match self {
            Rtm::Newrule => RTM_NEWRULE,
            Rtm::Delrule => RTM_DELRULE,
            Rtm::Getrule => RTM_GETRULE,
        }
    }

    /// The message type on the wire.
    #[verifier::when_used_as_spec(spec_code)]
    pub fn code(self) -> (c: u16)
        ensures
            c == self.spec_code(),
    {
        match self {
            Rtm::Newrule => RTM_NEWRULE,
            Rtm::Delrule => RTM_DELRULE,
            Rtm::Getrule => RTM_GETRULE,
        }
    }
}

/// What identifies a policy-routing rule: the family, the firewall mark that
/// selects packets, and the table they are routed by.
#[derive(Clone, Copy, Debug, PartialEq, Eq, Structural)]
pub struct RuleKey {
    pub family: Family,
    pub fwmark: u32,
    pub table: u32,
}

/// A request to the kernel about one rule.
#[derive(Clone, Copy, Debug, PartialEq, Eq, Structural)]
pub struct RuleRequest {
    pub rtm: Rtm,
    pub key: RuleKey,
    pub flags: u16,
}

/// What a scan of a rule dump found.
#[derive(Clone, Copy, Debug, PartialEq, Eq, Structural)]
pub struct RuleScan {
    /// A rule for the table is there.
    pub rule_exists: bool,
    /// The reply is multi-part and its terminator has not been seen yet.
    pub done_pending: bool,
}

/// The attributes of a rule: a source selector of one zero byte, which with
/// a prefix length of zero matches every source, the mark and the table.
pub open spec fn spec_rtattrs(order: Endian, fwmark: u32, table: u32) -> Seq<AttributeView> {
    seq![
        AttributeView { kind: RTA_SRC, payload: seq![0u8] },
        AttributeView { kind: RTA_MARK, payload: spec_u32_bytes(order, fwmark) },
        AttributeView { kind: RTA_TABLE, payload: spec_u32_bytes(order, table) },
    ]
}

/// The rule record for a key: no prefix lengths, no TOS, unicast, universe
/// scope, and the rule's attributes.
pub open spec fn spec_rule_msg(order: Endian, family: Family, fwmark: u32, table: u32)
    -> RuleMessageView {
    RuleMessageView {
        family: family.spec_code(),
        dst_len: 0,
        src_len: 0,
        tos: 0,
        table: RT_TABLE_DEFAULT,
        protocol: RTPROT_UNSPEC,
        scope: RT_SCOPE_UNIVERSE,
        kind: RTN_UNICAST,
        flags: 0,
        attrs: spec_rtattrs(order, fwmark, table),
    }
}

/// The netlink message that carries the rule record for a key.
pub open spec fn spec_msg_header(
    order: Endian,
    family: Family,
    rtm: Rtm,
    fwmark: u32,
    table: u32,
    flags: u16,
) -> NetlinkMessageView {
    NetlinkMessageView {
        msg_type: rtm.spec_code(),
        flags,
        sequence: 0,
        port: 0,
        payload: PayloadView::Rule(spec_rule_msg(order, family, fwmark, table)),
    }
}

/// The message of a request.
pub open spec fn spec_request_msg(order: Endian, req: RuleRequest) -> NetlinkMessageView {
    spec_msg_header(order, req.key.family, req.rtm, req.key.fwmark, req.key.table, req.flags)
}

/// The attributes of a rule with the given mark and table.
pub fn generate_rtattrs(order: Endian, fwmark: u32, table: u32) -> (attrs: Vec<Attribute>)
    ensures
        attrs_view(attrs@) == spec_rtattrs(order, fwmark, table),
{
    let mut src: Vec<u8> = Vec::new();
    src.push(0u8);
    let mut mark: Vec<u8> = Vec::new();
    put_u32(order, fwmark, &mut mark);
    let mut tbl: Vec<u8> = Vec::new();
    put_u32(order, table, &mut tbl);
    let mut attrs: Vec<Attribute> = Vec::new();
    attrs.push(Attribute { kind: RTA_SRC, payload: src });
    attrs.push(Attribute { kind: RTA_MARK, payload: mark });
    attrs.push(Attribute { kind: RTA_TABLE, payload: tbl });
    proof {
        assert(attrs@[0]@.payload =~= seq![0u8]);
        assert(attrs@[1]@.payload =~= spec_u32_bytes(order, fwmark));
        assert(attrs@[2]@.payload =~= spec_u32_bytes(order, table));
        assert(attrs_view(attrs@) =~= spec_rtattrs(order, fwmark, table));
    }
    attrs
}

/// The rule record for a key.
pub fn generate_rule_msg(order: Endian, family: Family, fwmark: u32, table: u32) -> (msg:
    RuleMessage)
    ensures
        msg@ == spec_rule_msg(order, family, fwmark, table),
{
    RuleMessage {
        family: family.code(),
        dst_len: 0,
        src_len: 0,
        tos: 0,
        table: RT_TABLE_DEFAULT,
        protocol: RTPROT_UNSPEC,
        scope: RT_SCOPE_UNIVERSE,
        kind: RTN_UNICAST,
        flags: 0,
        attrs: generate_rtattrs(order, fwmark, table),
    }
}

/// The netlink message that carries the rule record for a key.
pub fn generate_msg_header(
    order: Endian,
    family: Family,
    rtm: Rtm,
    fwmark: u32,
    table: u32,
    flags: u16,
) -> (msg: NetlinkMessage)
    ensures
        msg@ == spec_msg_header(order, family, rtm, fwmark, table, flags),
{
    NetlinkMessage {
        msg_type: rtm.code(),
        flags,
        sequence: 0,
        port: 0,
        payload: Payload::Rule(generate_rule_msg(order, family, fwmark, table)),
    }
}

/// A rule message for a key always fits on the wire.
pub proof fn lemma_request_fits(
    order: Endian,
    family: Family,
    rtm: Rtm,
    fwmark: u32,
    table: u32,
    flags: u16,
)
    ensures
        message_fits(order, spec_msg_header(order, family, rtm, fwmark, table, flags)),
{
    let attrs = spec_rtattrs(order, fwmark, table);
    assert(crate::attr::attrs_fit(attrs));
    crate::attr::lemma_encode_attrs_bound(order, attrs);
}

/// What is sent about a rule reads back as it was meant: decoding the
/// datagram of a request gives the request's message, and nothing else.
pub proof fn law_request_round_trip(order: Endian, req: RuleRequest)
    ensures
        spec_decode_messages(
            order,
            Protocol::Route,
            spec_encode_message(order, spec_request_msg(order, req)),
        ) == Ok::<Seq<NetlinkMessageView>, ProtocolError>(seq![spec_request_msg(order, req)]),
{
    let msg = spec_request_msg(order, req);
    let bytes = spec_encode_message(order, msg);
    lemma_request_fits(order, req.key.family, req.rtm, req.key.fwmark, req.key.table, req.flags);
    assert(batch_ok(order, Protocol::Route, seq![msg]));
    assert(seq![msg].skip(1) =~= Seq::<NetlinkMessageView>::empty());
    assert(spec_encode_messages(order, seq![msg]) =~= bytes) by {
        reveal_with_fuel(spec_encode_messages, 2);
    }
    law_messages_round_trip(order, Protocol::Route, seq![msg]);
}

/// The datagram of a request.
pub fn encode_request(order: Endian, req: &RuleRequest) -> (bytes: Vec<u8>)
    ensures
        bytes@ == spec_encode_message(order, spec_request_msg(order, *req)),
{
    let msg = generate_msg_header(
        order,
        req.key.family,
        req.rtm,
        req.key.fwmark,
        req.key.table,
        req.flags,
    );
    proof {
        lemma_request_fits(
            order,
            req.key.family,
            req.rtm,
            req.key.fwmark,
            req.key.table,
            req.flags,
        );
    }
    match encode_message(order, &msg) {
        Ok(bytes) => bytes,
        // not reached: a rule message fits
        Err(_) => Vec::new(),
    }
}

/// Whether an attribute says that the rule routes by `table`.
pub open spec fn attr_is_table(order: Endian, a: AttributeView, table: u32) -> bool {
    a.kind == RTA_TABLE && a.payload.len() == 4 && spec_u32_value(order, a.payload) == table
}

/// An attribute says that the rule routes by `table` exactly when it is a
/// table attribute whose payload is the encoding of `table`.
pub proof fn law_table_attr_is_encoding(order: Endian, a: AttributeView, table: u32)
    ensures
        attr_is_table(order, a, table) <==> a.kind == RTA_TABLE && a.payload == spec_u32_bytes(
            order,
            table,
        ),
{
    crate::endian::law_u32_round_trip(order, table);
    if a.payload.len() == 4 {
        crate::endian::law_u32_bytes_of_value(order, a.payload);
    }
}

/// Whether a rule record routes by `table`: one of its attributes says so.
pub open spec fn spec_check_rule(order: Endian, msg: RuleMessageView, table: u32) -> bool {
    exists|i: int| 0 <= i < msg.attrs.len() && attr_is_table(order, #[trigger] msg.attrs[i], table)
}

/// Whether a rule record routes by `table`.
pub fn check_rule(order: Endian, msg: &RuleMessage, table: u32) -> (found: bool)
    ensures
        found == spec_check_rule(order, msg@, table),
{
    let mut i: usize = 0;
    while i < msg.attrs.len()
        invariant
            i <= msg.attrs.len(),
            forall|j: int| 0 <= j < i ==> !attr_is_table(order, #[trigger] msg@.attrs[j], table),
        decreases msg.attrs.len() - i,
    {
        let attr = &msg.attrs[i];
        assert(msg@.attrs[i as int] == attr@);
        if attr.kind == RTA_TABLE && attr.payload.len() == 4 {
            let value = get_u32(order, attr.payload.as_slice(), 0);
            assert(attr.payload@.subrange(0, 4) =~= attr.payload@);
            if value == table {
                return true;
            }
        }
        i = i + 1;
    }
    false
}

/// Whether a message carries a rule record that routes by `table`.
pub open spec fn msg_has_rule(order: Endian, m: NetlinkMessageView, table: u32) -> bool {
    match m.payload {
        PayloadView::Rule(r) => spec_check_rule(order, r, table),
        _ => false,
    }
}

/// Whether one of the messages carries a rule record that routes by `table`.
pub open spec fn any_rule(order: Endian, msgs: Seq<NetlinkMessageView>, table: u32) -> bool {
    exists|i: int| 0 <= i < msgs.len() && msg_has_rule(order, #[trigger] msgs[i], table)
}

/// What a scan of the reply to a rule query finds.
///
/// A message by which the kernel rejects the query fails the scan with its
/// code. Otherwise the rule exists when a record routes by `table`, and the
/// terminator is still to come when a message is flagged multi-part and none
/// of them is the terminator.
pub open spec fn spec_check_rules(order: Endian, msgs: Seq<NetlinkMessageView>, table: u32)
    -> Result<RuleScan, NetlinkError> {
    match first_error(msgs) {
        Some(code) => Err(NetlinkError::KernelRejection(code)),
        None => Ok(
            RuleScan {
                rule_exists: any_rule(order, msgs, table),
                done_pending: done_pending(msgs),
            },
        ),
    }
}

/// The query for the rules of the key's family: a dump request.
pub open spec fn spec_check_request(key: RuleKey) -> RuleRequest {
    RuleRequest { rtm: Rtm::Getrule, key, flags: NLM_F_REQUEST | NLM_F_DUMP }
}

/// The query for the rules of the key's family.
pub fn check_request(key: RuleKey) -> (req: RuleRequest)
    ensures
        req == spec_check_request(key),
{
    RuleRequest { rtm: Rtm::Getrule, key, flags: NLM_F_REQUEST | NLM_F_DUMP }
}

/// Scans the reply to a rule query for a rule that routes by `table`.
pub fn check_rules(order: Endian, msgs: &Vec<NetlinkMessage>, table: u32) -> (r: Result<
    RuleScan,
    NetlinkError,
>)
    ensures
        r == spec_check_rules(order, msgs_view(msgs@), table),
{
    let ghost all = msgs_view(msgs@);
    let mut rule_exists = false;
    let mut multi = false;
    let mut done = false;
    let mut i: usize = 0;
    assert(all.skip(0) =~= all);
    while i < msgs.len()
        invariant
            i <= msgs.len(),
            all == msgs_view(msgs@),
            first_error(all) == first_error(all.skip(i as int)),
            rule_exists == (exists|j: int|
                0 <= j < i && msg_has_rule(order, #[trigger] all[j], table)),
            multi == (exists|j: int|
                0 <= j < i && has_flag((#[trigger] all[j]).flags, NLM_F_MULTI)),
            done == (exists|j: int| 0 <= j < i && (#[trigger] all[j]).payload is Done),
        decreases msgs.len() - i,
    {
        let msg = &msgs[i];
        proof {
            let rest = all.skip(i as int);
            assert(rest[0] == msg@);
            assert(all[i as int] == msg@);
            assert(rest.skip(1) =~= all.skip(i + 1));
        }
        if flag_set(msg.flags, NLM_F_MULTI) {
            multi = true;
        }
        match &msg.payload {
            Payload::Error(code) => {
                return Err(NetlinkError::KernelRejection(*code));
            },
            Payload::Rule(rule) => {
                if check_rule(order, rule, table) {
                    rule_exists = true;
                }
            },
            Payload::Done => {
                done = true;
            },
            _ => {},
        }
        i = i + 1;
    }
    assert(first_error(all.skip(i as int)) == None::<i32>);
    Ok(RuleScan { rule_exists, done_pending: multi && !done })
}

/// What creating a rule sends: nothing when the rule exists, and otherwise
/// an exclusive creation.
pub open spec fn spec_add_rule(rule_exists: bool, key: RuleKey) -> Option<RuleRequest> {
    if rule_exists {
        None
    } else {
        Some(
            RuleRequest {
                rtm: Rtm::Newrule,
                key,
                flags: NLM_F_REQUEST | NLM_F_CREATE | NLM_F_EXCL,
            },
        )
    }
}

/// What removing a rule sends: a deletion when the rule exists, and
/// otherwise nothing.
pub open spec fn spec_remove_rule(rule_exists: bool, key: RuleKey) -> Option<RuleRequest> {
    if rule_exists {
        Some(RuleRequest { rtm: Rtm::Delrule, key, flags: NLM_F_REQUEST })
    } else {
        None
    }
}

/// Decides what creating the rule sends, given what the scan found.
pub fn add_rule(rule_exists: bool, key: RuleKey) -> (req: Option<RuleRequest>)
    ensures
        req == spec_add_rule(rule_exists, key),
{
    if rule_exists {
        None
    } else {
        Some(
            RuleRequest {
                rtm: Rtm::Newrule,
                key,
                flags: NLM_F_REQUEST | NLM_F_CREATE | NLM_F_EXCL,
            },
        )
    }
}

/// Decides what removing the rule sends, given what the scan found.
pub fn remove_rule(rule_exists: bool, key: RuleKey) -> (req: Option<RuleRequest>)
    ensures
        req == spec_remove_rule(rule_exists, key),
{
    if rule_exists {
        Some(RuleRequest { rtm: Rtm::Delrule, key, flags: NLM_F_REQUEST })
    } else {
        None
    }
}

/// The rules that enabling creates: the IPv4 rule, and the IPv6 rule where
/// the configuration asks for it.
pub open spec fn spec_enable_rules(fwmark: u32, table: u32, ipv6: bool) -> Seq<RuleKey> {
    if ipv6 {
        seq![
            RuleKey { family: Family::Inet, fwmark, table },
            RuleKey { family: Family::Inet6, fwmark, table },
        ]
    } else {
        seq![RuleKey { family: Family::Inet, fwmark, table }]
    }
}

/// The rules that disabling removes: both, whatever the configuration says
/// of IPv6, because a rule may be left from an earlier configuration.
pub open spec fn spec_disable_rules(fwmark: u32, table: u32) -> Seq<RuleKey> {
    seq![
        RuleKey { family: Family::Inet, fwmark, table },
        RuleKey { family: Family::Inet6, fwmark, table },
    ]
}

/// The rules to create on `Enable`, in order.
pub fn enable_rules(config: &Config) -> (keys: Vec<RuleKey>)
    ensures
        keys@ == spec_enable_rules(config.firewall_mark, config.routing_table, config.ipv6),
{
    let fwmark = config.firewall_mark;
    let table = config.routing_table;
    let mut keys: Vec<RuleKey> = Vec::new();
    keys.push(RuleKey { family: Family::Inet, fwmark, table });
    if config.ipv6 {
        keys.push(RuleKey { family: Family::Inet6, fwmark, table });
    }
    assert(keys@ =~= spec_enable_rules(fwmark, table, config.ipv6));
    keys
}

/// The rules to remove on `Disable`, in order.
pub fn disable_rules(config: &Config) -> (keys: Vec<RuleKey>)
    ensures
        keys@ == spec_disable_rules(config.firewall_mark, config.routing_table),
{
    let fwmark = config.firewall_mark;
    let table = config.routing_table;
    let mut keys: Vec<RuleKey> = Vec::new();
    keys.push(RuleKey { family: Family::Inet, fwmark, table });
    keys.push(RuleKey { family: Family::Inet6, fwmark, table });
    assert(keys@ =~= spec_disable_rules(fwmark, table));
    keys
}

/// What an exchange is to bring about.
#[derive(Clone, Copy, Debug, PartialEq, Eq)]
pub enum Intent {
    /// The rule is to exist.
    Create,
    /// The rule is to be gone.
    Remove,
}

/// How far an exchange has come.
#[derive(Clone, Copy, Debug, PartialEq, Eq)]
pub enum Phase {
    /// The query is sent; its reply is to be scanned.
    AwaitReply,
    /// The reply is scanned and has found the rule or not; its terminator
    /// is to come.
    AwaitDone(bool),
    /// Nothing is left to do.
    Finished,
}

/// One exchange with the kernel about one rule: the existing rules are
/// queried before anything is created or removed.
#[derive(Clone, Copy, Debug, PartialEq, Eq)]
pub struct Exchange {
    pub intent: Intent,
    pub key: RuleKey,
    pub phase: Phase,
}

/// What the caller is to do after it has handed in a datagram.
#[derive(Clone, Copy, Debug, PartialEq, Eq)]
pub enum Outcome {
    /// Receive the next datagram and hand it in.
    Receive,
    /// Send the request, if there is one; the exchange is over.
    Finish(Option<RuleRequest>),
    /// The exchange has failed; nothing is sent.
    Fail(NetlinkError),
}

/// What an exchange sends once it knows whether the rule exists.
pub open spec fn spec_decide(intent: Intent, rule_exists: bool, key: RuleKey) -> Option<
    RuleRequest,
> {
    match intent {
        Intent::Create => spec_add_rule(rule_exists, key),
        Intent::Remove => spec_remove_rule(rule_exists, key),
    }
}

/// The first of a list of messages, if there is one.
pub open spec fn first_message(msgs: Seq<NetlinkMessageView>) -> Option<NetlinkMessageView> {
    if msgs.len() > 0 {
        Some(msgs[0])
    } else {
        None
    }
}

/// What a datagram does to an exchange.
///
/// The reply to the query is scanned. A failed scan fails the exchange.
/// Where the scan asks for the terminator, the next datagram has to hold
/// it, or the exchange fails. Then the exchange is over, with what the
/// intent and the scan decide. A finished exchange stays finished.
pub open spec fn spec_on_reply(order: Endian, ex: Exchange, msgs: Seq<NetlinkMessageView>) -> (
    Exchange,
    Outcome,
) {
    let over = Exchange { intent: ex.intent, key: ex.key, phase: Phase::Finished };
    match ex.phase {
        Phase::AwaitReply => match spec_check_rules(order, msgs, ex.key.table) {
            Err(e) => (over, Outcome::Fail(e)),
            Ok(scan) => if scan.done_pending {
                (
                    Exchange {
                        intent: ex.intent,
                        key: ex.key,
                        phase: Phase::AwaitDone(scan.rule_exists),
                    },
                    Outcome::Receive,
                )
            } else {
                (over, Outcome::Finish(spec_decide(ex.intent, scan.rule_exists, ex.key)))
            },
        },
        Phase::AwaitDone(rule_exists) => match spec_expect_done(first_message(msgs)) {
            Err(e) => (over, Outcome::Fail(e)),
            Ok(_) => (over, Outcome::Finish(spec_decide(ex.intent, rule_exists, ex.key))),
        },
        Phase::Finished => (over, Outcome::Finish(None)),
    }
}

impl Exchange {
    /// A new exchange, and the query that opens it.
    pub fn start(intent: Intent, key: RuleKey) -> (r: (Exchange, RuleRequest))
        ensures
            r.0 == (Exchange { intent, key, phase: Phase::AwaitReply }),
            r.1 == spec_check_request(key),
    {
        (Exchange { intent, key, phase: Phase::AwaitReply }, check_request(key))
    }

    /// Hands the messages of the next datagram to the exchange.
    pub fn on_reply(&mut self, order: Endian, msgs: &Vec<NetlinkMessage>) -> (out: Outcome)
        ensures
            (*final(self), out) == spec_on_reply(order, *old(self), msgs_view(msgs@)),
    {
        let phase = self.phase;
        self.phase = Phase::Finished;
        match phase {
            Phase::AwaitReply => match check_rules(order, msgs, self.key.table) {
                Err(e) => Outcome::Fail(e),
                Ok(scan) => {
                    if scan.done_pending {
                        self.phase = Phase::AwaitDone(scan.rule_exists);
                        Outcome::Receive
                    } else {
                        Outcome::Finish(decide(self.intent, scan.rule_exists, self.key))
                    }
                },
            },
            Phase::AwaitDone(rule_exists) => {
                let next = if msgs.len() > 0 {
                    assert(msgs_view(msgs@)[0] == msgs[0]@);
                    Some(&msgs[0])
                } else {
                    None
                };
                match expect_done(next) {
                    Err(e) => Outcome::Fail(e),
                    Ok(_) => Outcome::Finish(decide(self.intent, rule_exists, self.key)),
                }
            },
            Phase::Finished => Outcome::Finish(None),
        }
    }
}

/// Decides what an exchange sends once it knows whether the rule exists.
pub fn decide(intent: Intent, rule_exists: bool, key: RuleKey) -> (req: Option<RuleRequest>)
    ensures
        req == spec_decide(intent, rule_exists, key),
{
    match intent {
        Intent::Create => add_rule(rule_exists, key),
        Intent::Remove => remove_rule(rule_exists, key),
    }
}

} // verus!
