use autovpn::bus::{on_receive, react, shutdown_sequence, Reaction, Received, ShutdownStep, Task};
use autovpn::Msg;

/// What a subscriber does with what it receives, up to and with the
/// message at which it leaves its loop.
fn run(task: Task, msgs: &[Msg]) -> Vec<Reaction> {
    let mut done = Vec::new();
    for msg in msgs {
        let reaction = react(task, *msg);
        done.push(reaction);
        if reaction == Reaction::Stop {
            break;
        }
    }
    done
}

fn published(steps: &[ShutdownStep]) -> Vec<Msg> {
    steps
        .iter()
        .filter_map(|s| match s {
            ShutdownStep::Publish(msg) => Some(*msg),
            _ => None,
        })
        .collect()
}

#[test]
fn reverting_subscribers_apply_revert_and_stop() {
    for task in [Task::RuleReconciler, Task::DnsToggle] {
        assert_eq!(react(task, Msg::Enable), Reaction::Apply);
        assert_eq!(react(task, Msg::Disable), Reaction::Revert);
        assert_eq!(react(task, Msg::Quit), Reaction::Stop);
    }
}

#[test]
fn port_rotator_acts_on_enable_and_stops_on_quit() {
    assert_eq!(react(Task::PortRotator, Msg::Enable), Reaction::Apply);
    assert_eq!(react(Task::PortRotator, Msg::Disable), Reaction::Nothing);
    assert_eq!(react(Task::PortRotator, Msg::Quit), Reaction::Stop);
}

#[test]
fn every_subscriber_stops_on_quit_and_on_nothing_else() {
    for task in [Task::RuleReconciler, Task::DnsToggle, Task::PortRotator] {
        assert_eq!(react(task, Msg::Quit), Reaction::Stop);
        assert_ne!(react(task, Msg::Enable), Reaction::Stop);
        assert_ne!(react(task, Msg::Disable), Reaction::Stop);
        assert_eq!(run(task, &[Msg::Enable, Msg::Disable, Msg::Quit, Msg::Enable]).len(), 3);
    }
}

#[test]
fn port_rotator_rotates_once_for_each_enable_until_quit() {
    let done = run(Task::PortRotator, &[Msg::Enable, Msg::Disable, Msg::Enable, Msg::Quit, Msg::Enable]);
    assert_eq!(
        done,
        vec![Reaction::Apply, Reaction::Nothing, Reaction::Apply, Reaction::Stop]
    );
}

#[test]
fn lagging_subscriber_goes_on_and_closed_bus_stops_it() {
    for task in [Task::RuleReconciler, Task::DnsToggle, Task::PortRotator] {
        assert_eq!(on_receive(task, Received::Lagged), Reaction::Nothing);
        assert_eq!(on_receive(task, Received::Closed), Reaction::Stop);
        for msg in [Msg::Enable, Msg::Disable, Msg::Quit] {
            assert_eq!(on_receive(task, Received::Message(msg)), react(task, msg));
        }
    }
    assert_eq!(on_receive(Task::RuleReconciler, Received::Message(Msg::Disable)), Reaction::Revert);
    assert_eq!(on_receive(Task::PortRotator, Received::Message(Msg::Quit)), Reaction::Stop);
}

#[test]
fn monitor_does_not_listen() {
    for msg in [Msg::Enable, Msg::Disable, Msg::Quit] {
        assert_eq!(react(Task::WifiMonitor, msg), Reaction::Nothing);
    }
}

#[test]
fn shutdown_steps_in_order() {
    assert_eq!(
        shutdown_sequence(),
        vec![
            ShutdownStep::Abort(Task::WifiMonitor),
            ShutdownStep::Abort(Task::PortRotator),
            ShutdownStep::Publish(Msg::Disable),
            ShutdownStep::Publish(Msg::Quit),
            ShutdownStep::Join(Task::DnsToggle),
            ShutdownStep::Join(Task::RuleReconciler),
        ]
    );
}

#[test]
fn shutdown_publishes_disable_strictly_before_quit() {
    let steps = shutdown_sequence();
    assert_eq!(published(&steps), vec![Msg::Disable, Msg::Quit]);
    let disable = steps.iter().position(|s| *s == ShutdownStep::Publish(Msg::Disable)).unwrap();
    let quit = steps.iter().position(|s| *s == ShutdownStep::Publish(Msg::Quit)).unwrap();
    assert!(disable < quit);
    for task in [Task::RuleReconciler, Task::DnsToggle] {
        let join = steps.iter().position(|s| *s == ShutdownStep::Join(task)).unwrap();
        assert!(quit < join);
    }
    // what is cancelled is cancelled before anything is published
    for task in [Task::WifiMonitor, Task::PortRotator] {
        let abort = steps.iter().position(|s| *s == ShutdownStep::Abort(task)).unwrap();
        assert!(abort < disable);
    }
}

#[test]
fn shutdown_reverts_whatever_came_before() {
    let histories: Vec<Vec<Msg>> = vec![
        vec![],
        vec![Msg::Enable],
        vec![Msg::Enable, Msg::Disable, Msg::Enable],
        vec![Msg::Disable, Msg::Disable],
    ];
    for before in histories {
        for task in [Task::RuleReconciler, Task::DnsToggle] {
            let mut all = before.clone();
            all.extend(published(&shutdown_sequence()));
            let done = run(task, &all);
            assert_eq!(done.len(), before.len() + 2);
            assert_eq!(done[done.len() - 2], Reaction::Revert);
            assert_eq!(done[done.len() - 1], Reaction::Stop);
            for (i, msg) in before.iter().enumerate() {
                assert_eq!(done[i], react(task, *msg));
            }
        }
    }
}

#[test]
fn nothing_is_done_after_quit() {
    let done = run(Task::RuleReconciler, &[Msg::Enable, Msg::Quit, Msg::Enable, Msg::Disable]);
    assert_eq!(done, vec![Reaction::Apply, Reaction::Stop]);
}
