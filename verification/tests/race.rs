use parrun::control::TaskControl;
use parrun::lines::LineBuffer;
use parrun::runner::{should_kill, RaceEvent};

fn shell(command: &str) -> tokio::process::Command {
    let mut cmd = tokio::process::Command::new("bash");
    cmd.args(["-c", command]);
    cmd
}

#[test]
fn kill_on_cancel_ends_sleeping_child() {
    let rt = tokio::runtime::Runtime::new().unwrap();
    rt.block_on(async {
        let mut child = shell("sleep 600").spawn().unwrap();
        let mut control = TaskControl::new();
        control.stop();
        // The broadcaster won the race against a child that sleeps far
        // longer than the test's patience; the decision must be to kill.
        let event = if control.is_stopped() {
            RaceEvent::Cancelled
        } else {
            RaceEvent::NaturalExit
        };
        assert!(should_kill(&event));
        child.kill().await.unwrap();
        let status = child.wait().await.unwrap();
        assert!(!status.success());
    });
}

#[test]
fn natural_exit_takes_precedence() {
    let rt = tokio::runtime::Runtime::new().unwrap();
    rt.block_on(async {
        let mut child = shell("true").spawn().unwrap();
        let status = child.wait().await.unwrap();
        // Stop was never signaled: the natural exit wins the race and no
        // termination action is taken.
        let control = TaskControl::new();
        let event = if control.is_stopped() {
            RaceEvent::Cancelled
        } else {
            RaceEvent::NaturalExit
        };
        assert!(!should_kill(&event));
        assert!(status.success());
    });
}

#[test]
fn spawn_failure_leaves_sibling_intact() {
    let rt = tokio::runtime::Runtime::new().unwrap();
    rt.block_on(async {
        let broken = tokio::process::Command::new("no-such-shell-anywhere-y6k")
            .arg("-c")
            .arg("echo lost")
            .spawn();
        assert!(broken.is_err());

        let out = shell("echo ok").output().await.unwrap();
        let mut buffer = LineBuffer::new();
        let lines = buffer.feed(&out.stdout);
        assert_eq!(lines, vec![b"ok".to_vec()]);
    });
}
