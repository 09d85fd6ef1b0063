//! Tests of the supervisor state machine: guards, spawn idempotence,
//! restart strategy and follow-up, the wait steps, and stop decisions.

use backend_supervisor::supervisor::{
    attempts_graceful_restart, auto_start_disabled, graceful_restart_accepted, restart_followup,
    restart_strategy, sanitize_auth_token, startup_decision, stop_for_bridge_decision,
    wait_for_backend_step, wait_for_graceful_restart_step, AtomicFlagGuard, BridgeStopDecision,
    ChildPoll, GracefulRestartOutcome, GracefulWaitStep, Platform, RestartFollowUp,
    RestartStrategy, StartupDecision, StartupWaitStep, StopOutcome, SupervisorState,
};

#[test]
fn new_supervisor_is_idle() {
    let s = SupervisorState::new("http://127.0.0.1:6185/");
    assert!(!s.has_managed_child());
    assert!(!s.is_quitting());
    assert!(!s.is_backend_action_in_progress());
    assert_eq!(s.backend_url, "http://127.0.0.1:6185/");
    assert!(s.restart_auth_token.is_none());
}

#[test]
fn spawn_twice_keeps_one_child() {
    let mut s = SupervisorState::new("http://127.0.0.1:6185/");
    assert!(s.record_spawn(41));
    assert!(s.has_managed_child());
    // A second spawn without an intervening stop records nothing.
    assert!(!s.record_spawn(42));
    assert_eq!(s.child, Some(41));
}

#[test]
fn concurrent_actions_exactly_one_proceeds() {
    let mut s = SupervisorState::new("http://127.0.0.1:6185/");
    let first = s.try_begin_action();
    let second = s.try_begin_action();
    assert!(first);
    assert!(!second);
    s.end_action();
    assert!(!s.spawning);
    assert!(!s.restarting);
}

#[test]
fn action_rejected_while_spawning() {
    let mut s = SupervisorState::new("http://127.0.0.1:6185/");
    s.begin_spawn();
    assert!(!s.try_begin_action());
    s.end_spawn();
    assert!(s.try_begin_action());
    s.end_action();
}

#[test]
fn flag_guard_sets_and_clears() {
    let mut flag = false;
    let guard = AtomicFlagGuard::set(&mut flag);
    assert!(flag);
    guard.release(&mut flag);
    assert!(!flag);
}

#[test]
fn sanitize_trims_and_drops_empty() {
    assert_eq!(sanitize_auth_token(Some("  token-1  ")), Some("token-1".to_string()));
    assert_eq!(sanitize_auth_token(Some("   ")), None);
    assert_eq!(sanitize_auth_token(Some("")), None);
    assert_eq!(sanitize_auth_token(None), None);
}

#[test]
fn token_set_and_choose() {
    let mut s = SupervisorState::new("http://127.0.0.1:6185/");
    s.set_restart_auth_token(Some(" abc "));
    assert_eq!(s.get_restart_auth_token(), Some("abc".to_string()));
    // A supplied token wins and is persisted.
    assert_eq!(s.choose_restart_token(Some("xyz")), Some("xyz".to_string()));
    assert_eq!(s.get_restart_auth_token(), Some("xyz".to_string()));
    // Without one, the persisted token is reused.
    assert_eq!(s.choose_restart_token(None), Some("xyz".to_string()));
    assert_eq!(s.choose_restart_token(Some("  ")), Some("xyz".to_string()));
}

#[test]
fn strategy_by_platform_and_mode() {
    assert_eq!(
        restart_strategy(Platform::Windows, true, true),
        RestartStrategy::ManagedSkipGraceful
    );
    assert_eq!(
        restart_strategy(Platform::Windows, false, true),
        RestartStrategy::ManagedWithGracefulFallback
    );
    assert_eq!(
        restart_strategy(Platform::MacOs, true, true),
        RestartStrategy::ManagedWithGracefulFallback
    );
    assert_eq!(
        restart_strategy(Platform::OtherUnix, false, false),
        RestartStrategy::UnmanagedWithGracefulProbe
    );
    assert!(!attempts_graceful_restart(RestartStrategy::ManagedSkipGraceful));
    assert!(attempts_graceful_restart(RestartStrategy::ManagedWithGracefulFallback));
    assert!(attempts_graceful_restart(RestartStrategy::UnmanagedWithGracefulProbe));
}

#[test]
fn acceptance_is_2xx_or_no_status() {
    assert!(graceful_restart_accepted(Some(200)));
    assert!(graceful_restart_accepted(Some(204)));
    assert!(graceful_restart_accepted(Some(299)));
    assert!(!graceful_restart_accepted(Some(300)));
    assert!(!graceful_restart_accepted(Some(199)));
    assert!(!graceful_restart_accepted(Some(500)));
    // Connection accepted, closed without a response: optimistic accept.
    assert!(graceful_restart_accepted(None));
}

#[test]
fn rejected_graceful_with_managed_child_falls_back() {
    // An HTTP 500 answer is a rejection...
    assert!(!graceful_restart_accepted(Some(500)));
    // ...and with a managed child the follow-up is the managed restart.
    assert_eq!(
        restart_followup(
            RestartStrategy::ManagedWithGracefulFallback,
            GracefulRestartOutcome::RequestRejected
        ),
        RestartFollowUp::ProceedToManagedRestart
    );
}

#[test]
fn rejected_graceful_without_child_is_fatal() {
    assert_eq!(
        restart_followup(
            RestartStrategy::UnmanagedWithGracefulProbe,
            GracefulRestartOutcome::RequestRejected
        ),
        RestartFollowUp::FailNotManaged
    );
    assert_eq!(
        restart_followup(
            RestartStrategy::UnmanagedWithGracefulProbe,
            GracefulRestartOutcome::WaitFailed(20000)
        ),
        RestartFollowUp::ProceedToManagedRestart
    );
    assert_eq!(
        restart_followup(
            RestartStrategy::ManagedWithGracefulFallback,
            GracefulRestartOutcome::Completed
        ),
        RestartFollowUp::CompletedGracefully
    );
}

#[test]
fn changed_marker_completes_wait_immediately() {
    // Identity marker 1000 before, 2000 after: success the moment the
    // second value is observed, far below the timeout.
    let (step, _) = wait_for_graceful_restart_step(Some(1000), false, true, Some(2000), 350, 20000);
    assert_eq!(step, GracefulWaitStep::Completed);
    // Even past the ceiling, a changed marker still completes.
    let (late, _) = wait_for_graceful_restart_step(Some(1000), false, true, Some(2000), 99999, 20000);
    assert_eq!(late, GracefulWaitStep::Completed);
}

#[test]
fn unchanged_marker_keeps_waiting_then_times_out() {
    let (step, saw) = wait_for_graceful_restart_step(Some(1000), false, true, Some(1000), 350, 20000);
    assert_eq!(step, GracefulWaitStep::KeepWaiting);
    assert!(!saw);
    let (down, saw_down) = wait_for_graceful_restart_step(Some(1000), false, false, None, 350, 20000);
    assert_eq!(down, GracefulWaitStep::KeepWaiting);
    assert!(saw_down);
    let (timed, _) = wait_for_graceful_restart_step(Some(1000), false, true, Some(1000), 20000, 20000);
    assert_eq!(timed, GracefulWaitStep::TimedOut);
}

#[test]
fn no_marker_needs_down_then_up() {
    // No pre-restart marker: being reachable again after a down period
    // counts as completion.
    let (step, _) = wait_for_graceful_restart_step(None, true, true, None, 350, 20000);
    assert_eq!(step, GracefulWaitStep::Completed);
    // Reachable but never seen down: not yet.
    let (not_yet, _) = wait_for_graceful_restart_step(None, false, true, None, 350, 20000);
    assert_eq!(not_yet, GracefulWaitStep::KeepWaiting);
}

#[test]
fn startup_wait_steps() {
    assert_eq!(
        wait_for_backend_step(true, ChildPoll::Running, 0, Some(20000)),
        StartupWaitStep::Ready
    );
    assert_eq!(
        wait_for_backend_step(false, ChildPoll::Exited, 0, Some(20000)),
        StartupWaitStep::ExitedBeforeReady
    );
    assert_eq!(
        wait_for_backend_step(false, ChildPoll::PollFailed, 0, Some(20000)),
        StartupWaitStep::PollFailed
    );
    assert_eq!(
        wait_for_backend_step(false, ChildPoll::Missing, 0, Some(20000)),
        StartupWaitStep::NotRunning
    );
    assert_eq!(
        wait_for_backend_step(false, ChildPoll::Running, 20000, Some(20000)),
        StartupWaitStep::TimedOut
    );
    assert_eq!(
        wait_for_backend_step(false, ChildPoll::Running, 600, Some(20000)),
        StartupWaitStep::KeepWaiting
    );
    // Zero configured timeout means wait forever.
    assert_eq!(
        wait_for_backend_step(false, ChildPoll::Running, u64::MAX, None),
        StartupWaitStep::KeepWaiting
    );
}

#[test]
fn startup_first_decision() {
    assert_eq!(startup_decision(true, false), StartupDecision::AlreadyReachable);
    assert_eq!(startup_decision(false, true), StartupDecision::AutoStartDisabled);
    assert_eq!(startup_decision(false, false), StartupDecision::SpawnAndWait);
    assert!(auto_start_disabled(Some("0")));
    assert!(!auto_start_disabled(Some("1")));
    assert!(!auto_start_disabled(Some("no")));
    assert!(!auto_start_disabled(None));
}

#[test]
fn stop_transition() {
    let mut s = SupervisorState::new("http://127.0.0.1:6185/");
    assert_eq!(s.stop_backend_update(true), StopOutcome::NoChild);
    s.record_spawn(7);
    s.start_log_rotation_worker();
    assert_eq!(s.stop_backend_update(false), StopOutcome::StopTimedOut);
    assert!(s.has_managed_child());
    assert!(!s.log_rotation_active);
    assert_eq!(s.stop_backend_update(true), StopOutcome::Stopped);
    assert!(!s.has_managed_child());
}

#[test]
fn bridge_stop_decisions() {
    assert_eq!(stop_for_bridge_decision(true, true), BridgeStopDecision::StopChild);
    assert_eq!(stop_for_bridge_decision(true, false), BridgeStopDecision::StopChild);
    assert_eq!(stop_for_bridge_decision(false, true), BridgeStopDecision::RefuseUnmanaged);
    assert_eq!(stop_for_bridge_decision(false, false), BridgeStopDecision::NothingToStop);
}

#[test]
fn bridge_state_reports_fields() {
    let mut s = SupervisorState::new("http://127.0.0.1:6185/");
    let idle = s.bridge_state(false, false);
    assert!(!idle.running && !idle.spawning && !idle.restarting && !idle.can_manage);
    let resolvable = s.bridge_state(true, true);
    assert!(resolvable.running && resolvable.can_manage);
    s.record_spawn(3);
    let owned = s.bridge_state(false, false);
    assert!(owned.can_manage);
}

#[test]
fn rotation_worker_liveness_check() {
    let mut s = SupervisorState::new("http://127.0.0.1:6185/");
    s.record_spawn(11);
    assert!(s.rotation_worker_should_continue(11, false, true));
    assert!(!s.rotation_worker_should_continue(11, true, true));
    assert!(!s.rotation_worker_should_continue(12, false, true));
    assert!(!s.rotation_worker_should_continue(11, false, false));
    s.clear_child();
    assert!(!s.rotation_worker_should_continue(11, false, true));
}

#[test]
fn quitting_mark() {
    let mut s = SupervisorState::new("http://127.0.0.1:6185/");
    assert!(!s.is_quitting());
    s.mark_quitting();
    assert!(s.is_quitting());
}
