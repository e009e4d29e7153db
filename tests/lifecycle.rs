use cargo_devserver::coordinator::{Action, BuildOutcome, BuildReport, Coordinator, Phase};
use cargo_devserver::event::{event_for_change, event_for_signal, Event, SignalKind};
use cargo_devserver::supervisor::{
    decide_on_exit, ChildState, ChildSupervisor, ExitDecision, DEFAULT_EXIT_CODE,
};

const SIGTERM: i32 = 15;

#[test]
fn every_rebuild_runs_one_build() {
    let mut c = Coordinator::new(SIGTERM);
    let mut builds = 0;
    for _ in 0..3 {
        let a = c.handle(Event::Rebuild, 100);
        assert_eq!(a, Action::Build);
        assert!(c.is_building());
        builds += 1;
        assert_eq!(c.finish_build(BuildOutcome::Succeeded), BuildReport::LogOutput);
        assert!(!c.is_building());
    }
    assert_eq!(builds, 3);
}

#[test]
fn signal_goes_to_the_current_pid() {
    let mut c = Coordinator::new(SIGTERM);
    assert_eq!(c.handle(Event::Signal, 100), Action::SignalChild { pid: 100, signal: SIGTERM });
    // the handle changed between two events
    assert_eq!(c.handle(Event::Signal, 205), Action::SignalChild { pid: 205, signal: SIGTERM });
    assert_eq!(c.phase(), Phase::Running);
}

#[test]
fn source_change_then_artifact_change_restarts_child() {
    let artifact = "/tmp/app";
    let mut c = Coordinator::new(SIGTERM);
    let e = event_for_change(&Some(String::from("/proj/src/main.rs")), artifact).unwrap();
    assert_eq!(e, Event::Rebuild);
    assert_eq!(c.handle(e, 4242), Action::Build);
    assert_eq!(c.finish_build(BuildOutcome::Succeeded), BuildReport::LogOutput);
    let e = event_for_change(&Some(String::from("/tmp/app")), artifact).unwrap();
    assert_eq!(e, Event::Signal);
    assert_eq!(c.handle(e, 4242), Action::SignalChild { pid: 4242, signal: SIGTERM });
}

#[test]
fn interrupt_shuts_down_without_respawn() {
    let mut c = Coordinator::new(SIGTERM);
    let mut child = ChildSupervisor::new(3, 77);
    let e = event_for_signal(SignalKind::Interrupt);
    assert_eq!(c.handle(e, child.pid()), Action::BeginShutdown);
    assert_eq!(c.phase(), Phase::ShuttingDown);
    let shutdown = true;
    assert_eq!(child.on_exit(shutdown, Some(0)), ExitDecision::Terminate { code: 0 });
    assert_eq!(child.state(), ChildState::Terminated);
}

#[test]
fn shutdown_is_requested_once() {
    let mut c = Coordinator::new(SIGTERM);
    assert_eq!(c.handle(Event::Shutdown, 1), Action::BeginShutdown);
    assert_eq!(c.handle(Event::Shutdown, 1), Action::Idle);
    assert_eq!(c.phase(), Phase::ShuttingDown);
}

#[test]
fn events_after_shutdown_are_still_processed() {
    let mut c = Coordinator::new(SIGTERM);
    c.handle(Event::Shutdown, 9);
    assert_eq!(c.handle(Event::Rebuild, 9), Action::Build);
    assert_eq!(c.finish_build(BuildOutcome::Failed), BuildReport::SurfaceStderr);
    assert_eq!(c.handle(Event::Signal, 9), Action::SignalChild { pid: 9, signal: SIGTERM });
    assert_eq!(c.phase(), Phase::ShuttingDown);
}

#[test]
fn failed_build_leaves_the_child_alone() {
    let mut c = Coordinator::new(SIGTERM);
    let child = ChildSupervisor::new(3, 555);
    assert_eq!(c.handle(Event::Rebuild, child.pid()), Action::Build);
    assert_eq!(c.finish_build(BuildOutcome::Failed), BuildReport::SurfaceStderr);
    assert_eq!(c.phase(), Phase::Running);
    assert!(!c.is_building());
    assert_eq!(child.pid(), 555);
    assert_eq!(child.state(), ChildState::Live);
}

#[test]
fn build_that_cannot_launch_is_logged() {
    let mut c = Coordinator::new(SIGTERM);
    c.handle(Event::Rebuild, 1);
    assert_eq!(c.finish_build(BuildOutcome::NotLaunched), BuildReport::LogLaunchError);
    assert_eq!(c.phase(), Phase::Running);
}

#[test]
fn exit_after_shutdown_terminates_with_child_code() {
    assert_eq!(decide_on_exit(true, Some(7)), ExitDecision::Terminate { code: 7 });
    assert_eq!(decide_on_exit(true, None), ExitDecision::Terminate { code: DEFAULT_EXIT_CODE });
    assert_ne!(DEFAULT_EXIT_CODE, 0);
}

#[test]
fn exit_while_running_respawns() {
    assert_eq!(decide_on_exit(false, Some(0)), ExitDecision::Respawn);
    assert_eq!(decide_on_exit(false, Some(101)), ExitDecision::Respawn);
    assert_eq!(decide_on_exit(false, None), ExitDecision::Respawn);
}

#[test]
fn socket_is_kept_across_restarts() {
    let mut child = ChildSupervisor::new(3, 10);
    let env = child.child_env();
    assert_eq!(
        env,
        vec![
            (String::from("LISTEN_FD"), String::from("3")),
            (String::from("CARGO_DEVSERVER"), String::from("true")),
        ]
    );
    for pid in 11..16u32 {
        assert_eq!(child.on_exit(false, None), ExitDecision::Respawn);
        assert_eq!(child.state(), ChildState::AwaitingRespawn);
        child.on_respawn(pid);
        assert_eq!(child.pid(), pid);
        assert_eq!(child.state(), ChildState::Live);
        assert_eq!(child.socket_fd(), 3);
        assert_eq!(child.child_env(), env);
    }
}

#[test]
fn socket_number_is_written_in_decimal() {
    let child = ChildSupervisor::new(1027, 1);
    assert_eq!(child.child_env()[0].1, "1027");
}
