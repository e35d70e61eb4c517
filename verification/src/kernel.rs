//! A model of the kernel's rule table, and what the reconciler's exchanges
//! do to it.
//!
//! The model answers a rule query with one multi-part record for each rule
//! of the family asked for and then with the terminator, creates a rule
//! unless the same rule is there, and deletes the first rule equal to the
//! one named.

use crate::dump::{any_done, any_multi, first_error, spec_expect_done};
use crate::endian::{law_u32_round_trip, Endian};
use crate::error::{NetlinkError, ProtocolError};
use crate::netlink::{
    has_flag, law_messages_round_trip, message_fits, spec_decode_messages,
    spec_encode_messages, well_typed, NetlinkMessageView, PayloadView, Protocol, NLMSG_DONE,
    NLM_F_MULTI,
};
use crate::rtnl::{RTA_MARK, RTA_SRC, RTA_TABLE};
use crate::rule::{
    any_rule, attr_is_table, first_message, lemma_request_fits, msg_has_rule, spec_check_rule,
    spec_check_rules, spec_decide, spec_disable_rules, spec_enable_rules, spec_msg_header,
    spec_on_reply, spec_rtattrs, spec_rule_msg, Exchange, Family, Intent, Outcome, Phase, Rtm,
    RuleKey, RuleRequest, RuleScan,
};
use vstd::prelude::*;

verus! {

/// The record by which a dump reports a rule.
pub open spec fn dump_entry(order: Endian, key: RuleKey) -> NetlinkMessageView {
    spec_msg_header(order, key.family, Rtm::Newrule, key.fwmark, key.table, NLM_F_MULTI)
}

/// The records by which the kernel answers a query for the rules of
/// `family`: one for each such rule, in the table's order.
pub open spec fn kernel_dump(order: Endian, rules: Seq<RuleKey>, family: Family) -> Seq<
    NetlinkMessageView,
>
    decreases rules.len(),
{
    if rules.len() == 0 {
        Seq::empty()
    } else {
        let before = kernel_dump(order, rules.drop_last(), family);
        if rules.last().family == family {
            before.push(dump_entry(order, rules.last()))
        } else {
            before
        }
    }
}

/// How many rules of `family` route by `table`.
pub open spec fn rule_count(rules: Seq<RuleKey>, family: Family, table: u32) -> nat
    decreases rules.len(),
{
    if rules.len() == 0 {
        0
    } else {
        let before = rule_count(rules.drop_last(), family, table);
        if rules.last().family == family && rules.last().table == table {
            before + 1
        } else {
            before
        }
    }
}

/// Whether the table holds a rule of `family`.
pub open spec fn has_family(rules: Seq<RuleKey>, family: Family) -> bool {
    exists|i: int| 0 <= i < rules.len() && (#[trigger] rules[i]).family == family
}

/// Whether the table holds a rule of `family` that routes by `table`.
pub open spec fn has_rule(rules: Seq<RuleKey>, family: Family, table: u32) -> bool {
    exists|i: int|
        0 <= i < rules.len() && (#[trigger] rules[i]).family == family && rules[i].table == table
}

/// The rule table after the kernel has served a request.
pub open spec fn kernel_after(rules: Seq<RuleKey>, req: RuleRequest) -> Seq<RuleKey> {
    match req.rtm {
        Rtm::Newrule => if rules.contains(req.key) {
            rules
        } else {
            rules.push(req.key)
        },
        Rtm::Delrule => match rules.index_of_first(req.key) {
            Some(at) => rules.remove(at),
            None => rules,
        },
        Rtm::Getrule => rules,
    }
}

/// The message that ends a dump.
pub open spec fn done_message() -> NetlinkMessageView {
    NetlinkMessageView {
        msg_type: NLMSG_DONE,
        flags: NLM_F_MULTI,
        sequence: 0,
        port: 0,
        payload: PayloadView::Done,
    }
}

/// The first datagram by which the kernel answers a query for the rules
/// of `family`: the dump's records, or the terminator alone where there
/// are none.
pub open spec fn first_reply(order: Endian, rules: Seq<RuleKey>, family: Family) -> Seq<
    NetlinkMessageView,
> {
    if kernel_dump(order, rules, family).len() == 0 {
        seq![done_message()]
    } else {
        kernel_dump(order, rules, family)
    }
}

/// The rule table after an exchange has run against the kernel: the
/// kernel answers the query with the dump, then with the terminator where
/// the exchange asks for another datagram, and serves what the exchange
/// sends at the end. A failed exchange sends nothing and gives its error.
pub open spec fn after_exchange(order: Endian, rules: Seq<RuleKey>, intent: Intent, key: RuleKey)
    -> Result<Seq<RuleKey>, NetlinkError> {
    let opened = Exchange { intent, key, phase: Phase::AwaitReply };
    let (waiting, first) = spec_on_reply(order, opened, first_reply(order, rules, key.family));
    let last = match first {
        Outcome::Receive => spec_on_reply(order, waiting, seq![done_message()]).1,
        _ => first,
    };
    match last {
        Outcome::Finish(Some(req)) => Ok(kernel_after(rules, req)),
        Outcome::Finish(None) => Ok(rules),
        Outcome::Fail(e) => Err(e),
        Outcome::Receive => Err(NetlinkError::Protocol(ProtocolError::MissingDone)),
    }
}

/// The rule table after the reconciler has been asked to create the rule.
pub open spec fn after_add(order: Endian, rules: Seq<RuleKey>, key: RuleKey) -> Result<
    Seq<RuleKey>,
    NetlinkError,
> {
    after_exchange(order, rules, Intent::Create, key)
}

/// The rule table after the reconciler has been asked to remove the rule.
pub open spec fn after_remove(order: Endian, rules: Seq<RuleKey>, key: RuleKey) -> Result<
    Seq<RuleKey>,
    NetlinkError,
> {
    after_exchange(order, rules, Intent::Remove, key)
}

/// A dump record routes by `table` exactly when its rule does; it is one
/// part of a multi-part reply, and neither a rejection nor a terminator.
pub proof fn lemma_entry_has_rule(order: Endian, key: RuleKey, table: u32)
    ensures
        msg_has_rule(order, dump_entry(order, key), table) == (key.table == table),
        has_flag(dump_entry(order, key).flags, NLM_F_MULTI),
        !(dump_entry(order, key).payload is Error),
        !(dump_entry(order, key).payload is Done),
{
    let attrs = spec_rtattrs(order, key.fwmark, key.table);
    let record = spec_rule_msg(order, key.family, key.fwmark, key.table);
    law_u32_round_trip(order, key.table);
    assert(has_flag(NLM_F_MULTI, NLM_F_MULTI)) by (bit_vector);
    assert(dump_entry(order, key).payload == PayloadView::Rule(record));
    assert(record.attrs == attrs);
    assert(attrs.len() == 3);
    assert(attrs[0].kind == RTA_SRC && attrs[1].kind == RTA_MARK && attrs[2].kind == RTA_TABLE);
    assert(attrs[2].payload.len() == 4);
    if key.table == table {
        assert(attr_is_table(order, attrs[2], table));
        assert(spec_check_rule(order, record, table));
    } else {
        assert forall|i: int| 0 <= i < attrs.len() implies !attr_is_table(
            order,
            #[trigger] attrs[i],
            table,
        ) by {
            if i == 0 {
            } else if i == 1 {
            } else {
                assert(i == 2);
            }
        }
        assert(!spec_check_rule(order, record, table));
    }
}

/// Every record of a dump is one part of a multi-part reply, and neither a
/// rejection nor a terminator; it fits on the wire of a route socket. The
/// dump holds a record exactly when the table holds a rule of the family.
pub proof fn lemma_dump_shape(order: Endian, rules: Seq<RuleKey>, family: Family)
    ensures
        forall|j: int|
            0 <= j < kernel_dump(order, rules, family).len() ==> {
                let m = #[trigger] kernel_dump(order, rules, family)[j];
                &&& has_flag(m.flags, NLM_F_MULTI)
                &&& !(m.payload is Error)
                &&& !(m.payload is Done)
                &&& message_fits(order, m)
                &&& well_typed(Protocol::Route, m)
            },
        (kernel_dump(order, rules, family).len() > 0) == has_family(rules, family),
    decreases rules.len(),
{
    let dump = kernel_dump(order, rules, family);
    if rules.len() > 0 {
        let init = rules.drop_last();
        let before = kernel_dump(order, init, family);
        let last = rules.len() - 1;
        let key = rules[last];
        lemma_dump_shape(order, init, family);
        lemma_entry_has_rule(order, key, 0);
        lemma_request_fits(order, key.family, Rtm::Newrule, key.fwmark, key.table, NLM_F_MULTI);
        assert forall|j: int| 0 <= j < dump.len() implies {
            let m = #[trigger] dump[j];
            &&& has_flag(m.flags, NLM_F_MULTI)
            &&& !(m.payload is Error)
            &&& !(m.payload is Done)
            &&& message_fits(order, m)
            &&& well_typed(Protocol::Route, m)
        } by {
            if j < before.len() {
                assert(dump[j] == before[j]);
            }
        }
        if has_family(init, family) {
            let i = choose|i: int| 0 <= i < init.len() && (#[trigger] init[i]).family == family;
            assert(rules[i] == init[i]);
        }
        if rules[last].family != family && has_family(rules, family) {
            let i = choose|i: int| 0 <= i < rules.len() && (#[trigger] rules[i]).family == family;
            assert(init[i] == rules[i]);
        }
    }
}

/// A dump holds a record that routes by `table` exactly when the table
/// holds such a rule of the family.
pub proof fn lemma_dump_any_rule(order: Endian, rules: Seq<RuleKey>, family: Family, table: u32)
    ensures
        any_rule(order, kernel_dump(order, rules, family), table) == has_rule(
            rules,
            family,
            table,
        ),
    decreases rules.len(),
{
    let dump = kernel_dump(order, rules, family);
    if rules.len() > 0 {
        let init = rules.drop_last();
        let before = kernel_dump(order, init, family);
        let last = rules.len() - 1;
        lemma_dump_any_rule(order, init, family, table);
        lemma_entry_has_rule(order, rules[last], table);
        let hit = rules[last].family == family && rules[last].table == table;
        if any_rule(order, before, table) {
            let j = choose|j: int|
                0 <= j < before.len() && msg_has_rule(order, #[trigger] before[j], table);
            assert(dump[j] == before[j]);
            assert(any_rule(order, dump, table));
            let i = choose|i: int|
                0 <= i < init.len() && (#[trigger] init[i]).family == family && init[i].table
                    == table;
            assert(rules[i] == init[i]);
            assert(has_rule(rules, family, table));
        } else if hit {
            assert(dump[before.len() as int] == dump_entry(order, rules[last]));
            assert(any_rule(order, dump, table));
            assert(has_rule(rules, family, table));
        } else {
            if any_rule(order, dump, table) {
                let j = choose|j: int|
                    0 <= j < dump.len() && msg_has_rule(order, #[trigger] dump[j], table);
                if j < before.len() {
                    assert(dump[j] == before[j]);
                }
                assert(false);
            }
            if has_rule(rules, family, table) {
                let i = choose|i: int|
                    0 <= i < rules.len() && (#[trigger] rules[i]).family == family
                        && rules[i].table == table;
                assert(init[i] == rules[i]);
                assert(false);
            }
        }
    }
}

/// Messages of which none is a rejection hold no first rejection.
pub proof fn lemma_no_error(msgs: Seq<NetlinkMessageView>)
    requires
        forall|j: int| 0 <= j < msgs.len() ==> !((#[trigger] msgs[j]).payload is Error),
    ensures
        first_error(msgs) == None::<i32>,
    decreases msgs.len(),
{
    if msgs.len() > 0 {
        let tail = msgs.skip(1);
        assert forall|j: int| 0 <= j < tail.len() implies !((#[trigger] tail[j]).payload
            is Error) by {
            assert(tail[j] == msgs[j + 1]);
        }
        lemma_no_error(tail);
        assert(!(msgs[0].payload is Error));
    }
}

/// `rule_count` is positive exactly when a rule is there.
pub proof fn lemma_count_has(rules: Seq<RuleKey>, family: Family, table: u32)
    ensures
        (rule_count(rules, family, table) > 0) == has_rule(rules, family, table),
    decreases rules.len(),
{
    if rules.len() > 0 {
        let init = rules.drop_last();
        let last = rules.len() - 1;
        lemma_count_has(init, family, table);
        if has_rule(init, family, table) {
            let i = choose|i: int|
                0 <= i < init.len() && (#[trigger] init[i]).family == family && init[i].table
                    == table;
            assert(rules[i] == init[i]);
        }
        if rules[last].family == family && rules[last].table == table {
        } else if has_rule(rules, family, table) {
            let i = choose|i: int|
                0 <= i < rules.len() && (#[trigger] rules[i]).family == family && rules[i].table
                    == table;
            assert(init[i] == rules[i]);
        }
    }
}

/// What the scan of a dump finds: the rule exactly when the table holds one,
/// and a terminator to come exactly when the dump holds a record.
pub proof fn lemma_scan_of_dump(order: Endian, rules: Seq<RuleKey>, family: Family, table: u32)
    ensures
        spec_check_rules(order, kernel_dump(order, rules, family), table) == Ok::<
            RuleScan,
            NetlinkError,
        >(
            RuleScan {
                rule_exists: has_rule(rules, family, table),
                done_pending: has_family(rules, family),
            },
        ),
{
    let dump = kernel_dump(order, rules, family);
    lemma_dump_shape(order, rules, family);
    lemma_dump_any_rule(order, rules, family, table);
    lemma_no_error(dump);
    assert(!any_done(dump));
    if dump.len() > 0 {
        assert(has_flag(dump[0].flags, NLM_F_MULTI));
        assert(any_multi(dump));
    }
}

/// An exchange against the kernel never fails, and sends what its intent
/// decides for a rule that exists exactly when the rule table holds one of
/// the family that routes by the table.
pub proof fn lemma_exchange(order: Endian, rules: Seq<RuleKey>, intent: Intent, key: RuleKey)
    ensures
        after_exchange(order, rules, intent, key) == Ok::<Seq<RuleKey>, NetlinkError>(
            match spec_decide(intent, has_rule(rules, key.family, key.table), key) {
                Some(req) => kernel_after(rules, req),
                None => rules,
            },
        ),
{
    let dump = kernel_dump(order, rules, key.family);
    let done = seq![done_message()];
    lemma_scan_of_dump(order, rules, key.family, key.table);
    lemma_dump_shape(order, rules, key.family);
    assert(spec_expect_done(first_message(done)) == Ok::<(), NetlinkError>(()));
    if dump.len() == 0 {
        assert(has_flag(NLM_F_MULTI, NLM_F_MULTI)) by (bit_vector);
        assert(done[0].payload is Done);
        assert(any_done(done));
        lemma_no_error(done);
        assert(!any_rule(order, done, key.table));
        if has_rule(rules, key.family, key.table) {
            let i = choose|i: int|
                0 <= i < rules.len() && (#[trigger] rules[i]).family == key.family
                    && rules[i].table == key.table;
            assert(has_family(rules, key.family));
        }
    }
}

/// A rule query finds the rule through the wire: decoding the datagram of
/// a dump gives the dump's records back, and their scan finds a rule for
/// `table` exactly when the rule table holds one for the family.
pub proof fn law_scan_of_encoded_dump(
    order: Endian,
    rules: Seq<RuleKey>,
    family: Family,
    table: u32,
)
    ensures
        spec_decode_messages(
            order,
            Protocol::Route,
            spec_encode_messages(order, kernel_dump(order, rules, family)),
        ) == Ok::<Seq<NetlinkMessageView>, ProtocolError>(kernel_dump(order, rules, family)),
        spec_check_rules(order, kernel_dump(order, rules, family), table) == Ok::<
            RuleScan,
            NetlinkError,
        >(
            RuleScan {
                rule_exists: has_rule(rules, family, table),
                done_pending: has_family(rules, family),
            },
        ),
{
    lemma_dump_shape(order, rules, family);
    law_messages_round_trip(order, Protocol::Route, kernel_dump(order, rules, family));
    lemma_scan_of_dump(order, rules, family, table);
}

/// Creating a rule twice leaves what creating it once leaves: the second
/// exchange finds the rule and sends nothing. Where no rule of the family
/// routed by the table before, exactly one does afterwards; where some did,
/// they are left as they were.
pub proof fn law_add_rule_idempotent(order: Endian, rules: Seq<RuleKey>, key: RuleKey)
    ensures
        after_add(order, rules, key) is Ok,
        after_add(order, after_add(order, rules, key)->Ok_0, key) == after_add(order, rules, key),
        rule_count(after_add(order, rules, key)->Ok_0, key.family, key.table) == if rule_count(
            rules,
            key.family,
            key.table,
        ) == 0 {
            1nat
        } else {
            rule_count(rules, key.family, key.table)
        },
{
    lemma_exchange(order, rules, Intent::Create, key);
    lemma_count_has(rules, key.family, key.table);
    let once = after_add(order, rules, key)->Ok_0;
    if has_rule(rules, key.family, key.table) {
        assert(once == rules);
    } else {
        if rules.contains(key) {
            let i = choose|i: int| 0 <= i < rules.len() && rules[i] == key;
            assert(rules[i].family == key.family);
            assert(false);
        }
        assert(once == rules.push(key));
        assert(once.drop_last() =~= rules);
        assert(once[rules.len() as int] == key);
        assert(has_rule(once, key.family, key.table));
    }
    lemma_exchange(order, once, Intent::Create, key);
}

/// Removing a rule that is not there changes nothing and fails nothing.
pub proof fn law_remove_absent_is_noop(order: Endian, rules: Seq<RuleKey>, key: RuleKey)
    requires
        rule_count(rules, key.family, key.table) == 0,
    ensures
        after_remove(order, rules, key) == Ok::<Seq<RuleKey>, NetlinkError>(rules),
{
    lemma_exchange(order, rules, Intent::Remove, key);
    lemma_count_has(rules, key.family, key.table);
}

/// Removing a rule deletes its first occurrence in the rule table.
pub proof fn lemma_after_remove_at(order: Endian, rules: Seq<RuleKey>, key: RuleKey, at: int)
    requires
        0 <= at < rules.len(),
        rules[at] == key,
        forall|j: int| 0 <= j < at ==> rules[j] != key,
    ensures
        after_remove(order, rules, key) == Ok::<Seq<RuleKey>, NetlinkError>(rules.remove(at)),
{
    lemma_exchange(order, rules, Intent::Remove, key);
    assert(rules[at].family == key.family && rules[at].table == key.table);
    assert(has_rule(rules, key.family, key.table));
    rules.index_of_first_ensures(key);
    assert(rules.contains(key));
    let first = rules.index_of_first(key)->Some_0;
    if first < at {
        assert(rules[first] != key);
    }
    if at < first {
        assert(rules[at] != key);
    }
}

/// Creating a rule where no rule of the family routes by the table adds it
/// at the end of the rule table.
pub proof fn lemma_after_add_absent(order: Endian, rules: Seq<RuleKey>, key: RuleKey)
    requires
        rule_count(rules, key.family, key.table) == 0,
    ensures
        after_add(order, rules, key) == Ok::<Seq<RuleKey>, NetlinkError>(rules.push(key)),
        forall|j: int| 0 <= j < rules.len() ==> rules[j] != key,
        forall|family: Family, table: u32|
            #[trigger] rule_count(rules.push(key), family, table) == rule_count(
                rules,
                family,
                table,
            ) + (if key.family == family && key.table == table {
                1nat
            } else {
                0nat
            }),
{
    lemma_exchange(order, rules, Intent::Create, key);
    lemma_count_has(rules, key.family, key.table);
    assert forall|j: int| 0 <= j < rules.len() implies rules[j] != key by {
        if rules[j] == key {
            assert(rules[j].family == key.family && rules[j].table == key.table);
        }
    }
    if rules.contains(key) {
        let i = choose|i: int| 0 <= i < rules.len() && rules[i] == key;
        assert(rules[i] != key);
    }
    assert(rules.push(key).drop_last() =~= rules);
}

/// Removing a rule after creating it, where none was there before, gives
/// the rule table back as it was.
pub proof fn law_remove_undoes_add(order: Endian, rules: Seq<RuleKey>, key: RuleKey)
    requires
        rule_count(rules, key.family, key.table) == 0,
    ensures
        after_add(order, rules, key) == Ok::<Seq<RuleKey>, NetlinkError>(rules.push(key)),
        after_remove(order, rules.push(key), key) == Ok::<Seq<RuleKey>, NetlinkError>(rules),
{
    lemma_after_add_absent(order, rules, key);
    let once = rules.push(key);
    lemma_after_remove_at(order, once, key, rules.len() as int);
    assert(once.remove(rules.len() as int) =~= rules);
}

/// The rule table after the reconciler has been asked to create each of
/// the rules, in order; the first failure ends the run.
pub open spec fn after_adds(order: Endian, rules: Seq<RuleKey>, keys: Seq<RuleKey>) -> Result<
    Seq<RuleKey>,
    NetlinkError,
>
    decreases keys.len(),
{
    if keys.len() == 0 {
        Ok(rules)
    } else {
        match after_add(order, rules, keys[0]) {
            Err(e) => Err(e),
            Ok(next) => after_adds(order, next, keys.skip(1)),
        }
    }
}

/// The rule table after the reconciler has been asked to remove each of
/// the rules, in order; the first failure ends the run.
pub open spec fn after_removes(order: Endian, rules: Seq<RuleKey>, keys: Seq<RuleKey>) -> Result<
    Seq<RuleKey>,
    NetlinkError,
>
    decreases keys.len(),
{
    if keys.len() == 0 {
        Ok(rules)
    } else {
        match after_remove(order, rules, keys[0]) {
            Err(e) => Err(e),
            Ok(next) => after_removes(order, next, keys.skip(1)),
        }
    }
}

/// Disabling undoes enabling, whatever the two configurations say of IPv6:
/// where no rule routed by the table before, enabling and then disabling
/// leaves the rule table as it was. A rule created under one configuration
/// does not outlive a change of it.
pub proof fn law_disable_undoes_enable(
    order: Endian,
    rules: Seq<RuleKey>,
    fwmark: u32,
    table: u32,
    ipv6: bool,
)
    requires
        rule_count(rules, Family::Inet, table) == 0,
        rule_count(rules, Family::Inet6, table) == 0,
    ensures
        after_adds(order, rules, spec_enable_rules(fwmark, table, ipv6)) is Ok,
        after_removes(
            order,
            after_adds(order, rules, spec_enable_rules(fwmark, table, ipv6))->Ok_0,
            spec_disable_rules(fwmark, table),
        ) == Ok::<Seq<RuleKey>, NetlinkError>(rules),
{
    reveal_with_fuel(after_adds, 3);
    reveal_with_fuel(after_removes, 3);
    let k4 = RuleKey { family: Family::Inet, fwmark, table };
    let k6 = RuleKey { family: Family::Inet6, fwmark, table };
    let on = spec_enable_rules(fwmark, table, ipv6);
    let off = spec_disable_rules(fwmark, table);
    let with4 = rules.push(k4);
    lemma_after_add_absent(order, rules, k4);
    assert(off[0] == k4 && off.skip(1)[0] == k6 && off.skip(1).skip(1).len() == 0);
    assert(on[0] == k4);
    if ipv6 {
        let both = with4.push(k6);
        assert(on.skip(1)[0] == k6 && on.skip(1).skip(1).len() == 0);
        assert(rule_count(with4, Family::Inet6, table) == 0);
        lemma_after_add_absent(order, with4, k6);
        assert(after_adds(order, with4, on.skip(1)) == Ok::<Seq<RuleKey>, NetlinkError>(both));
        assert(after_adds(order, rules, on) == Ok::<Seq<RuleKey>, NetlinkError>(both));
        assert forall|j: int| 0 <= j < rules.len() implies both[j] != k4 by {
            assert(both[j] == rules[j]);
        }
        lemma_after_remove_at(order, both, k4, rules.len() as int);
        let with6 = rules.push(k6);
        assert(both.remove(rules.len() as int) =~= with6);
        lemma_after_add_absent(order, rules, k6);
        lemma_after_remove_at(order, with6, k6, rules.len() as int);
        assert(with6.remove(rules.len() as int) =~= rules);
        assert(after_removes(order, with6, off.skip(1)) == Ok::<Seq<RuleKey>, NetlinkError>(
            rules,
        ));
    } else {
        assert(on.skip(1).len() == 0);
        assert(after_adds(order, rules, on) == Ok::<Seq<RuleKey>, NetlinkError>(with4));
        lemma_after_remove_at(order, with4, k4, rules.len() as int);
        assert(with4.remove(rules.len() as int) =~= rules);
        law_remove_absent_is_noop(order, rules, k6);
        assert(after_removes(order, rules, off.skip(1)) == Ok::<Seq<RuleKey>, NetlinkError>(
            rules,
        ));
    }
}

} // verus!
