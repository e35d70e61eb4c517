//! The event bus protocol: how each subscriber reacts to a control
//! message, and the order in which a shutdown is carried out.

use crate::Msg;
use vstd::prelude::*;

verus! {

/// The tasks that the coordinator runs.
#[derive(Clone, Copy, Debug, PartialEq, Eq, Structural)]
pub enum Task {
    /// Watches the WiFi events and publishes the decisions.
    WifiMonitor,
    /// Creates and removes the policy-routing rules.
    RuleReconciler,
    /// Sets and clears the tunnel's DNS search domains.
    DnsToggle,
    /// Moves the tunnel to a new listen port.
    PortRotator,
}

/// What a subscriber does with a message.
#[derive(Clone, Copy, Debug, PartialEq, Eq, Structural)]
pub enum Reaction {
    /// Bring about what `Enable` asks of it.
    Apply,
    /// Undo it.
    Revert,
    /// Leave the receive loop.
    Stop,
    /// Nothing.
    Nothing,
}

/// One step of a shutdown.
#[derive(Clone, Copy, Debug, PartialEq, Eq, Structural)]
pub enum ShutdownStep {
    /// Cancel the task at once.
    Abort(Task),
    /// Publish the message on the bus.
    Publish(Msg),
    /// Wait until the task has left its receive loop.
    Join(Task),
}

/// Whether a task holds state that a shutdown has to revert.
pub open spec fn reverts(task: Task) -> bool {
    task == Task::RuleReconciler || task == Task::DnsToggle
}

/// Whether a task listens on the bus. The WiFi monitor publishes and does
/// not listen.
pub open spec fn subscribes(task: Task) -> bool {
    task != Task::WifiMonitor
}

/// How a task reacts to a message.
///
/// The rule reconciler and the DNS toggle apply on `Enable`, revert on
/// `Disable` and stop on `Quit`. The port rotator acts on `Enable`, has
/// nothing to undo on `Disable`, and stops on `Quit` like every subscriber.
/// The WiFi monitor publishes and does not listen.
pub open spec fn spec_react(task: Task, msg: Msg) -> Reaction {
    match task {
        Task::RuleReconciler | Task::DnsToggle => match msg {
            Msg::Enable => Reaction::Apply,
            Msg::Disable => Reaction::Revert,
            Msg::Quit => Reaction::Stop,
        },
        Task::PortRotator => match msg {
            Msg::Enable => Reaction::Apply,
            Msg::Disable => Reaction::Nothing,
            Msg::Quit => Reaction::Stop,
        },
        Task::WifiMonitor => Reaction::Nothing,
    }
}

/// How a task reacts to a message.
pub fn react(task: Task, msg: Msg) -> (r: Reaction)
    ensures
        r == spec_react(task, msg),
        subscribes(task) ==> (r == Reaction::Stop <==> msg == Msg::Quit),
{
    match task {
        Task::RuleReconciler | Task::DnsToggle => match msg {
            Msg::Enable => Reaction::Apply,
            Msg::Disable => Reaction::Revert,
            Msg::Quit => Reaction::Stop,
        },
        Task::PortRotator => match msg {
            Msg::Enable => Reaction::Apply,
            Msg::Disable => Reaction::Nothing,
            Msg::Quit => Reaction::Stop,
        },
        Task::WifiMonitor => Reaction::Nothing,
    }
}

/// What a receive on the bus gives a subscriber.
#[derive(Clone, Copy, Debug, PartialEq, Eq, Structural)]
pub enum Received {
    /// The next message.
    Message(Msg),
    /// The subscriber fell behind the buffer and has missed the oldest
    /// messages; the next receive gives the oldest that is left.
    Lagged,
    /// Every publisher is gone.
    Closed,
}

/// What a subscriber does after a receive: it reacts to a message, goes on
/// after it has missed messages, and stops when the bus is closed.
pub open spec fn spec_on_receive(task: Task, received: Received) -> Reaction {
    match received {
        Received::Message(msg) => spec_react(task, msg),
        Received::Lagged => Reaction::Nothing,
        Received::Closed => Reaction::Stop,
    }
}

/// What a subscriber does after a receive.
pub fn on_receive(task: Task, received: Received) -> (out: Reaction)
    ensures
        out == spec_on_receive(task, received),
{
    match received {
        Received::Message(msg) => react(task, msg),
        Received::Lagged => Reaction::Nothing,
        Received::Closed => Reaction::Stop,
    }
}

/// What a subscriber does with the messages it receives, in order, up to
/// and with the one at which it stops.
pub open spec fn spec_run(task: Task, msgs: Seq<Msg>) -> Seq<Reaction>
    decreases msgs.len(),
{
    if msgs.len() == 0 {
        Seq::empty()
    } else if spec_react(task, msgs[0]) == Reaction::Stop {
        seq![Reaction::Stop]
    } else {
        seq![spec_react(task, msgs[0])] + spec_run(task, msgs.skip(1))
    }
}

/// The steps of a shutdown: the tasks that hold nothing to revert are
/// cancelled, `Disable` and then `Quit` are published, and the tasks that
/// revert are waited for.
pub open spec fn spec_shutdown_sequence() -> Seq<ShutdownStep> {
    seq![
        ShutdownStep::Abort(Task::WifiMonitor),
        ShutdownStep::Abort(Task::PortRotator),
        ShutdownStep::Publish(Msg::Disable),
        ShutdownStep::Publish(Msg::Quit),
        ShutdownStep::Join(Task::DnsToggle),
        ShutdownStep::Join(Task::RuleReconciler),
    ]
}

/// The messages that a sequence of steps publishes, in order.
pub open spec fn published(steps: Seq<ShutdownStep>) -> Seq<Msg>
    decreases steps.len(),
{
    if steps.len() == 0 {
        Seq::empty()
    } else {
        match steps[0] {
            ShutdownStep::Publish(msg) => seq![msg] + published(steps.skip(1)),
            _ => published(steps.skip(1)),
        }
    }
}

/// The steps of a shutdown, in the order in which they are carried out.
pub fn shutdown_sequence() -> (steps: Vec<ShutdownStep>)
    ensures
        steps@ == spec_shutdown_sequence(),
{
    let mut steps: Vec<ShutdownStep> = Vec::new();
    steps.push(ShutdownStep::Abort(Task::WifiMonitor));
    steps.push(ShutdownStep::Abort(Task::PortRotator));
    steps.push(ShutdownStep::Publish(Msg::Disable));
    steps.push(ShutdownStep::Publish(Msg::Quit));
    steps.push(ShutdownStep::Join(Task::DnsToggle));
    steps.push(ShutdownStep::Join(Task::RuleReconciler));
    assert(steps@ =~= spec_shutdown_sequence());
    steps
}

/// A shutdown publishes `Disable` and then `Quit`, and nothing else.
pub proof fn lemma_shutdown_publishes()
    ensures
        published(spec_shutdown_sequence()) == seq![Msg::Disable, Msg::Quit],
{
    let s0 = spec_shutdown_sequence();
    let s1 = s0.skip(1);
    let s2 = s1.skip(1);
    let s3 = s2.skip(1);
    let s4 = s3.skip(1);
    let s5 = s4.skip(1);
    let s6 = s5.skip(1);
    assert(s6.len() == 0);
    assert(published(s6) =~= Seq::<Msg>::empty());
    assert(published(s5) == published(s6));
    assert(published(s4) == published(s5));
    assert(published(s3) =~= seq![Msg::Quit]);
    assert(published(s2) =~= seq![Msg::Disable, Msg::Quit]);
    assert(published(s1) == published(s2));
    assert(published(s0) == published(s1));
}

/// A subscriber that has not been told to quit reacts to each message.
pub proof fn lemma_run_without_quit(task: Task, msgs: Seq<Msg>)
    requires
        forall|i: int| 0 <= i < msgs.len() ==> msgs[i] != Msg::Quit,
    ensures
        spec_run(task, msgs).len() == msgs.len(),
        forall|i: int|
            0 <= i < msgs.len() ==> (#[trigger] spec_run(task, msgs)[i]) == spec_react(
                task,
                msgs[i],
            ),
    decreases msgs.len(),
{
    if msgs.len() > 0 {
        let tail = msgs.skip(1);
        assert(msgs[0] != Msg::Quit);
        assert forall|i: int| 0 <= i < tail.len() implies tail[i] != Msg::Quit by {
            assert(tail[i] == msgs[i + 1]);
        }
        lemma_run_without_quit(task, tail);
        assert forall|i: int| 0 <= i < msgs.len() implies (#[trigger] spec_run(task, msgs)[i])
            == spec_react(task, msgs[i]) by {
            if i > 0 {
                assert(spec_run(task, msgs)[i] == spec_run(task, tail)[i - 1]);
                assert(tail[i - 1] == msgs[i]);
            }
        }
    }
}

/// What a subscriber does with messages that hold no `Quit`, followed by
/// others, is what it does with the first and then with the others.
pub proof fn lemma_run_append(task: Task, before: Seq<Msg>, after: Seq<Msg>)
    requires
        forall|i: int| 0 <= i < before.len() ==> before[i] != Msg::Quit,
    ensures
        spec_run(task, before + after) == spec_run(task, before) + spec_run(task, after),
    decreases before.len(),
{
    if before.len() == 0 {
        assert(before + after =~= after);
        assert(spec_run(task, before) + spec_run(task, after) =~= spec_run(task, after));
    } else {
        let tail = before.skip(1);
        assert(before[0] != Msg::Quit);
        assert forall|i: int| 0 <= i < tail.len() implies tail[i] != Msg::Quit by {
            assert(tail[i] == before[i + 1]);
        }
        lemma_run_append(task, tail, after);
        assert((before + after)[0] == before[0]);
        assert((before + after).skip(1) =~= tail + after);
        assert(seq![spec_react(task, before[0])] + (spec_run(task, tail) + spec_run(task, after))
            =~= (seq![spec_react(task, before[0])] + spec_run(task, tail)) + spec_run(
            task,
            after,
        ));
    }
}

/// `Quit` ends every subscriber: whatever it was sent before, it reacts to
/// each of those messages and then leaves its loop.
pub proof fn law_quit_stops_every_subscriber(task: Task, before: Seq<Msg>)
    requires
        subscribes(task),
        forall|i: int| 0 <= i < before.len() ==> before[i] != Msg::Quit,
    ensures
        spec_run(task, before + seq![Msg::Quit]) == spec_run(task, before) + seq![Reaction::Stop],
        spec_run(task, before).len() == before.len(),
{
    let last = seq![Msg::Quit];
    lemma_run_without_quit(task, before);
    lemma_run_append(task, before, last);
    assert(spec_run(task, last) =~= seq![Reaction::Stop]);
}

/// Whatever was published before, a shutdown makes each task that holds
/// state revert it and then stop: the task sees `Disable` before `Quit`,
/// reverts as the last thing it does, and leaves its loop, so that the
/// wait for it at the end of the shutdown ends.
pub proof fn law_shutdown_reverts_then_stops(task: Task, before: Seq<Msg>)
    requires
        reverts(task),
        forall|i: int| 0 <= i < before.len() ==> before[i] != Msg::Quit,
    ensures
        spec_run(task, before + published(spec_shutdown_sequence())) == spec_run(task, before)
            + seq![Reaction::Revert, Reaction::Stop],
        spec_run(task, before).len() == before.len(),
        exists|i: int, j: int|
            0 <= i < j < spec_shutdown_sequence().len() && spec_shutdown_sequence()[i]
                == ShutdownStep::Publish(Msg::Quit) && spec_shutdown_sequence()[j]
                == ShutdownStep::Join(task),
{
    let last = seq![Msg::Disable, Msg::Quit];
    lemma_shutdown_publishes();
    lemma_run_without_quit(task, before);
    lemma_run_append(task, before, last);
    assert(last.skip(1) =~= seq![Msg::Quit]);
    assert(spec_run(task, last.skip(1)) =~= seq![Reaction::Stop]);
    assert(spec_run(task, last) =~= seq![Reaction::Revert, Reaction::Stop]);
    let plan = spec_shutdown_sequence();
    if task == Task::DnsToggle {
        assert(plan[3] == ShutdownStep::Publish(Msg::Quit) && plan[4] == ShutdownStep::Join(task));
    } else {
        assert(plan[3] == ShutdownStep::Publish(Msg::Quit) && plan[5] == ShutdownStep::Join(task));
    }
}

} // verus!
