use parrun::runner::{should_kill, CommandSpec, RaceEvent};

#[test]
fn prefix_rendered_only_with_label_and_enabled() {
    let labeled = CommandSpec::new("[web]:npm start", 0);
    let bare = CommandSpec::new("npm start", 1);
    assert!(labeled.render_prefix(false).is_some());
    assert!(labeled.render_prefix(true).is_none());
    assert!(bare.render_prefix(false).is_none());
    assert!(bare.render_prefix(true).is_none());
}

#[test]
fn rendered_prefix_carries_the_label() {
    let labeled = CommandSpec::new("[web]:npm start", 0);
    let prefix = labeled.render_prefix(false).unwrap();
    assert!(prefix.contains("web"));
}

#[test]
fn cancellation_forces_kill() {
    assert!(should_kill(&RaceEvent::Cancelled));
}

#[test]
fn natural_exit_takes_no_termination_action() {
    assert!(!should_kill(&RaceEvent::NaturalExit));
}

#[test]
fn drained_streams_take_no_termination_action() {
    assert!(!should_kill(&RaceEvent::StdoutClosed));
    assert!(!should_kill(&RaceEvent::StderrClosed));
}
