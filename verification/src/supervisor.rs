//! The supervisor's state machine: the single process-wide state object,
//! the in-progress guards that serialize child-mutating actions, and the
//! decision logic of startup, stop, and the graceful-vs-managed restart
//! protocol. Every transition is a verified function from the old state
//! (and the observed event) to the new state and the action to take; the
//! I/O those actions stand for happens outside the library.

use vstd::prelude::*;
use crate::text::trim_str;
use crate::text::trimmed;
use crate::urls::normalize_backend_url;
use crate::urls::normalize_backend_url_spec;

verus! {

/// The platform the supervisor runs on, as far as its decisions care.
#[derive(PartialEq, Eq, Structural, Clone, Copy, Debug)]
pub enum Platform {
    Windows,
    MacOs,
    OtherUnix,
    Unknown,
}

/// How one restart request proceeds, derived per call from platform,
/// packaging mode, and whether a managed child exists.
#[derive(PartialEq, Eq, Structural, Clone, Copy, Debug)]
pub enum RestartStrategy {
    /// Managed child on the platform that cannot reliably signal an
    /// in-place restart: skip the cooperative path entirely.
    ManagedSkipGraceful,
    /// Managed child elsewhere: try the cooperative path, fall back to
    /// stop-and-spawn.
    ManagedWithGracefulFallback,
    /// No managed child: the cooperative path is all there is.
    UnmanagedWithGracefulProbe,
}

/// The transient result of one cooperative restart attempt.
#[derive(PartialEq, Eq, Structural, Clone, Copy, Debug)]
pub enum GracefulRestartOutcome {
    /// The backend confirmed its restart.
    Completed,
    /// The request was accepted but no completion signal arrived within
    /// the ceiling (milliseconds) carried here.
    WaitFailed(u64),
    /// The restart endpoint answered with a non-2xx status.
    RequestRejected,
}

/// The single process-wide supervisor state.
pub struct SupervisorState {
    /// Process id of the owned child, where one is owned. At most one
    /// child is ever owned.
    pub child: Option<u32>,
    /// Normalized base URL of the child's HTTP surface; fixed at
    /// construction.
    pub backend_url: String,
    /// Bearer token for graceful-restart requests; settable
    /// independently of restart calls.
    pub restart_auth_token: Option<String>,
    /// A log-rotation worker runs for the current child.
    pub log_rotation_active: bool,
    /// The application is shutting down.
    pub quitting: bool,
    /// A spawn is in flight.
    pub spawning: bool,
    /// An exclusive child-mutating action (a restart or a stop) is in
    /// flight.
    pub restarting: bool,
}

/// An `Option<&str>` seen as an optional character sequence.
pub open spec fn opt_str_view(s: Option<&str>) -> Option<Seq<char>> {
    match s {
        Some(t) => Some(t@),
        None => None,
    }
}

/// An `Option<String>` seen as an optional character sequence.
pub open spec fn opt_string_view(s: Option<String>) -> Option<Seq<char>> {
    match s {
        Some(t) => Some(t@),
        None => None,
    }
}

/// A sanitized token: trimmed, and absent where that leaves nothing.
pub open spec fn sanitize_auth_token_spec(tok: Option<Seq<char>>) -> Option<Seq<char>> {
    match tok {
        Some(t) => if trimmed(t).len() == 0 {
            None
        } else {
            Some(trimmed(t))
        },
        None => None,
    }
}

impl SupervisorState {
    /// A fresh supervisor: no child, no token, no action in flight; the
    /// endpoint is the configured URL, normalized.
    pub fn new(raw_backend_url: &str) -> (s: Self)
        ensures
            s.child is None,
            s.backend_url@ == normalize_backend_url_spec(raw_backend_url@),
            s.restart_auth_token is None,
            !s.log_rotation_active,
            !s.quitting,
            !s.spawning,
            !s.restarting,
    {
        SupervisorState {
            child: None,
            backend_url: normalize_backend_url(raw_backend_url),
            restart_auth_token: None,
            log_rotation_active: false,
            quitting: false,
            spawning: false,
            restarting: false,
        }
    }

    /// Whether this supervisor owns a live child handle.
    pub fn has_managed_child(&self) -> (r: bool)
        ensures
            r == (self.child is Some),
    {
        self.child.is_some()
    }

    pub fn mark_quitting(&mut self)
        ensures
            *final(self) == (SupervisorState { quitting: true, ..*old(self) }),
    {
        self.quitting = true;
    }

    pub fn is_quitting(&self) -> (r: bool)
        ensures
            r == self.quitting,
    {
        self.quitting
    }

    /// Whether a spawn or restart is already in flight — the condition
    /// on which bridge commands are rejected synchronously.
    pub fn is_backend_action_in_progress(&self) -> (r: bool)
        ensures
            r == (self.spawning || self.restarting),
    {
        self.spawning || self.restarting
    }

    /// Stores a sanitized token, replacing the previous one. Only the
    /// token changes.
    pub fn set_restart_auth_token(&mut self, provided: Option<&str>)
        ensures
            opt_string_view(final(self).restart_auth_token) == sanitize_auth_token_spec(
                opt_str_view(provided),
            ),
            final(self).child == old(self).child,
            final(self).backend_url == old(self).backend_url,
            final(self).log_rotation_active == old(self).log_rotation_active,
            final(self).quitting == old(self).quitting,
            final(self).spawning == old(self).spawning,
            final(self).restarting == old(self).restarting,
    {
        self.restart_auth_token = sanitize_auth_token(provided);
    }

    /// The stored token, as the restart path reads it back.
    pub fn get_restart_auth_token(&self) -> (r: Option<String>)
        ensures
            r == self.restart_auth_token,
    {
        match &self.restart_auth_token {
            Some(t) => Some(t.clone()),
            None => None,
        }
    }

    /// The token one restart uses: a caller-supplied token is sanitized
    /// and persisted, and wins; with none supplied, the last persisted
    /// token is reused and nothing changes.
    pub fn choose_restart_token(&mut self, provided: Option<&str>) -> (r: Option<String>)
        ensures
            sanitize_auth_token_spec(opt_str_view(provided)) matches Some(t) ==> {
                &&& opt_string_view(r) == Some(t)
                &&& opt_string_view(final(self).restart_auth_token) == Some(t)
            },
            sanitize_auth_token_spec(opt_str_view(provided)) is None ==> {
                &&& *final(self) == *old(self)
                &&& r == old(self).restart_auth_token
            },
            final(self).child == old(self).child,
            final(self).backend_url == old(self).backend_url,
            final(self).log_rotation_active == old(self).log_rotation_active,
            final(self).quitting == old(self).quitting,
            final(self).spawning == old(self).spawning,
            final(self).restarting == old(self).restarting,
    {
        let normalized = sanitize_auth_token(provided);
        match normalized {
            Some(t) => {
                self.restart_auth_token = Some(t.clone());
                Some(t)
            },
            None => self.get_restart_auth_token(),
        }
    }

    /// Records that a fresh child was spawned. A supervisor that already
    /// owns a child records nothing and is left unchanged: a spawn must
    /// observe "no live child" first or is a no-op.
    pub fn record_spawn(&mut self, pid: u32) -> (did_spawn: bool)
        ensures
            (*final(self), did_spawn) == record_spawn_spec(*old(self), pid),
    {
        if self.child.is_some() {
            return false;
        }
        self.child = Some(pid);
        true
    }

    /// Releases the child handle (it exited, or was observed gone).
    pub fn clear_child(&mut self)
        ensures
            *final(self) == (SupervisorState { child: None, ..*old(self) }),
    {
        self.child = None;
    }

    /// Claims the exclusive right to run a child-mutating action. The
    /// claim is rejected — with no state change — while a spawn or
    /// another action is in flight; two concurrent requests never both
    /// proceed.
    pub fn try_begin_action(&mut self) -> (accepted: bool)
        ensures
            (*final(self), accepted) == try_begin_action_spec(*old(self)),
    {
        if self.spawning || self.restarting {
            return false;
        }
        self.restarting = true;
        true
    }

    /// Ends the claimed action, clearing its flag unconditionally: every
    /// exit path, success or failure, runs this.
    pub fn end_action(&mut self)
        ensures
            *final(self) == end_action_spec(*old(self)),
    {
        self.restarting = false;
    }

    /// Marks a spawn in flight.
    pub fn begin_spawn(&mut self)
        ensures
            *final(self) == (SupervisorState { spawning: true, ..*old(self) }),
    {
        self.spawning = true;
    }

    /// Clears the spawn-in-flight mark, on every exit path.
    pub fn end_spawn(&mut self)
        ensures
            *final(self) == (SupervisorState { spawning: false, ..*old(self) }),
    {
        self.spawning = false;
    }

    /// Notes that a log-rotation worker now runs for the current child.
    pub fn start_log_rotation_worker(&mut self)
        ensures
            *final(self) == (SupervisorState { log_rotation_active: true, ..*old(self) }),
    {
        self.log_rotation_active = true;
    }

    /// Cancels the log-rotation worker.
    pub fn stop_log_rotation_worker(&mut self)
        ensures
            *final(self) == (SupervisorState { log_rotation_active: false, ..*old(self) }),
    {
        self.log_rotation_active = false;
    }

    /// Whether the rotation worker keyed to `worker_pid` keeps running:
    /// it must not be canceled, and its child must still be the
    /// supervised, still-alive child — a stale worker never rotates a
    /// log that no longer belongs to a live child.
    pub fn rotation_worker_should_continue(
        &self,
        worker_pid: u32,
        cancel_requested: bool,
        child_alive: bool,
    ) -> (r: bool)
        ensures
            r == (!cancel_requested && self.child == Some(worker_pid) && child_alive),
    {
        if cancel_requested {
            return false;
        }
        match self.child {
            Some(pid) => pid == worker_pid && child_alive,
            None => false,
        }
    }

    /// Stopping the managed child, as a transition: the rotation worker
    /// always stops first; without a child there is nothing to do; a
    /// child gone within the grace period is released; one that kept
    /// running stays owned and the stop reports its timeout.
    pub fn stop_backend_update(&mut self, child_exited: bool) -> (r: StopOutcome)
        ensures
            (*final(self), r) == stop_backend_spec(*old(self), child_exited),
    {
        self.log_rotation_active = false;
        if self.child.is_none() {
            return StopOutcome::NoChild;
        }
        if child_exited {
            self.child = None;
            return StopOutcome::Stopped;
        }
        StopOutcome::StopTimedOut
    }

    /// The state reported to the embedding application. `running` is a
    /// live probe's result; the supervisor can manage the backend when
    /// it owns a child or a launch plan currently resolves.
    pub fn bridge_state(&self, running: bool, plan_resolvable: bool) -> (r: BackendBridgeState)
        ensures
            r.running == running,
            r.spawning == self.spawning,
            r.restarting == self.restarting,
            r.can_manage == (self.child is Some || plan_resolvable),
    {
        BackendBridgeState {
            running,
            spawning: self.spawning,
            restarting: self.restarting,
            can_manage: self.child.is_some() || plan_resolvable,
        }
    }
}

/// Recording one spawn: a no-op when a child is already owned.
pub open spec fn record_spawn_spec(s: SupervisorState, pid: u32) -> (SupervisorState, bool) {
    if s.child is Some {
        (s, false)
    } else {
        (SupervisorState { child: Some(pid), ..s }, true)
    }
}

/// Claiming the exclusive action right: rejected while a spawn or
/// another action is in flight, else the in-progress flag is raised.
pub open spec fn try_begin_action_spec(s: SupervisorState) -> (SupervisorState, bool) {
    if s.spawning || s.restarting {
        (s, false)
    } else {
        (SupervisorState { restarting: true, ..s }, true)
    }
}

/// Ending the claimed action clears its flag unconditionally.
pub open spec fn end_action_spec(s: SupervisorState) -> SupervisorState {
    SupervisorState { restarting: false, ..s }
}

/// Stopping the managed child, as a transition on the state.
pub open spec fn stop_backend_spec(s: SupervisorState, child_exited: bool) -> (
    SupervisorState,
    StopOutcome,
) {
    let s1 = SupervisorState { log_rotation_active: false, ..s };
    if s.child is None {
        (s1, StopOutcome::NoChild)
    } else if child_exited {
        (SupervisorState { child: None, ..s1 }, StopOutcome::Stopped)
    } else {
        (s1, StopOutcome::StopTimedOut)
    }
}

/// How a stop attempt ended.
#[derive(PartialEq, Eq, Structural, Clone, Copy, Debug)]
pub enum StopOutcome {
    /// No child was owned; stopping is a no-op, not an error.
    NoChild,
    /// The child exited within the grace period and was released.
    Stopped,
    /// The child outlived the grace period and is still owned.
    StopTimedOut,
}

/// What `get_state` hands to the embedding application.
#[derive(PartialEq, Eq, Structural, Clone, Copy, Debug)]
pub struct BackendBridgeState {
    pub running: bool,
    pub spawning: bool,
    pub restarting: bool,
    pub can_manage: bool,
}

/// Sanitizes a bearer token: trims it, and drops it entirely where
/// trimming leaves nothing.
pub fn sanitize_auth_token(auth_token: Option<&str>) -> (r: Option<String>)
    ensures
        opt_string_view(r) == sanitize_auth_token_spec(opt_str_view(auth_token)),
{
    match auth_token {
        Some(t) => {
            let tt = trim_str(t);
            if tt.unicode_len() == 0 {
                None
            } else {
                Some(tt.to_owned())
            }
        },
        None => None,
    }
}

/// The restart strategy for one request. The platform that needs hard
/// restarts, in packaged mode, with a managed child, skips the
/// cooperative path; any other managed child falls back to it; with no
/// managed child the cooperative path is all there is.
pub open spec fn restart_strategy_spec(
    platform: Platform,
    packaged_mode: bool,
    has_managed_child: bool,
) -> RestartStrategy {
    if platform is Windows && packaged_mode && has_managed_child {
        RestartStrategy::ManagedSkipGraceful
    } else if has_managed_child {
        RestartStrategy::ManagedWithGracefulFallback
    } else {
        RestartStrategy::UnmanagedWithGracefulProbe
    }
}

/// Computes the strategy of one restart request.
pub fn restart_strategy(platform: Platform, packaged_mode: bool, has_managed_child: bool) -> (r:
    RestartStrategy)
    ensures
        r == restart_strategy_spec(platform, packaged_mode, has_managed_child),
{
    let on_windows = matches!(platform, Platform::Windows);
    if on_windows && packaged_mode && has_managed_child {
        RestartStrategy::ManagedSkipGraceful
    } else if has_managed_child {
        RestartStrategy::ManagedWithGracefulFallback
    } else {
        RestartStrategy::UnmanagedWithGracefulProbe
    }
}

/// Whether the strategy tries the cooperative path at all.
pub open spec fn attempts_graceful_spec(strategy: RestartStrategy) -> bool {
    !(strategy is ManagedSkipGraceful)
}

pub fn attempts_graceful_restart(strategy: RestartStrategy) -> (r: bool)
    ensures
        r == attempts_graceful_spec(strategy),
{
    !matches!(strategy, RestartStrategy::ManagedSkipGraceful)
}

/// Whether the restart POST counts as accepted: any 2xx status, or no
/// status at all — a connection accepted and closed without a response
/// is a deliberate leniency, confirmed afterwards by polling. Any other
/// status is a rejection.
pub open spec fn graceful_restart_accepted_spec(status: Option<u16>) -> bool {
    match status {
        Some(code) => 200 <= code < 300,
        None => true,
    }
}

pub fn graceful_restart_accepted(status: Option<u16>) -> (r: bool)
    ensures
        r == graceful_restart_accepted_spec(status),
{
    match status {
        Some(code) => 200 <= code && code < 300,
        None => true,
    }
}

/// What follows one cooperative attempt.
#[derive(PartialEq, Eq, Structural, Clone, Copy, Debug)]
pub enum RestartFollowUp {
    /// Done: no process-level restart happens.
    CompletedGracefully,
    /// Stop the child and spawn a fresh one from the plan.
    ProceedToManagedRestart,
    /// Fatal: the request was rejected and no child exists to fall back
    /// to killing.
    FailNotManaged,
}

/// The follow-up to one cooperative attempt, per strategy: completion
/// ends the restart; a failed wait falls back to the managed path; a
/// rejected request falls back too where a child is owned, and is fatal
/// where none is.
pub open spec fn restart_followup_spec(
    strategy: RestartStrategy,
    outcome: GracefulRestartOutcome,
) -> RestartFollowUp {
    match outcome {
        GracefulRestartOutcome::Completed => RestartFollowUp::CompletedGracefully,
        GracefulRestartOutcome::WaitFailed(_) => RestartFollowUp::ProceedToManagedRestart,
        GracefulRestartOutcome::RequestRejected => if strategy is UnmanagedWithGracefulProbe {
            RestartFollowUp::FailNotManaged
        } else {
            RestartFollowUp::ProceedToManagedRestart
        },
    }
}

pub fn restart_followup(strategy: RestartStrategy, outcome: GracefulRestartOutcome) -> (r:
    RestartFollowUp)
    ensures
        r == restart_followup_spec(strategy, outcome),
{
    match outcome {
        GracefulRestartOutcome::Completed => RestartFollowUp::CompletedGracefully,
        GracefulRestartOutcome::WaitFailed(_) => RestartFollowUp::ProceedToManagedRestart,
        GracefulRestartOutcome::RequestRejected => {
            if matches!(strategy, RestartStrategy::UnmanagedWithGracefulProbe) {
                RestartFollowUp::FailNotManaged
            } else {
                RestartFollowUp::ProceedToManagedRestart
            }
        },
    }
}

/// One step of the poll that waits out a graceful restart.
#[derive(PartialEq, Eq, Structural, Clone, Copy, Debug)]
pub enum GracefulWaitStep {
    /// The backend confirmed its restart.
    Completed,
    /// The ceiling elapsed without a completion signal.
    TimedOut,
    /// Poll again after the fixed interval.
    KeepWaiting,
}

/// One polling step while waiting out a graceful restart. Completion is
/// signaled by a changed identity marker, or — where no pre-restart
/// marker was obtainable — by the backend having been seen down and now
/// reachable again. An unreachable backend is noted, never an error.
/// Completion is checked before the deadline, so a late signal still
/// wins; past the ceiling the wait fails.
pub open spec fn graceful_wait_step_spec(
    previous_marker: Option<i64>,
    saw_backend_down: bool,
    reachable: bool,
    current_marker: Option<i64>,
    elapsed_ms: u64,
    max_wait_ms: u64,
) -> (GracefulWaitStep, bool) {
    let saw_down = saw_backend_down || !reachable;
    let completed = reachable && ((previous_marker matches Some(prev) && current_marker
        matches Some(cur) && prev != cur) || (previous_marker is None && saw_backend_down));
    if completed {
        (GracefulWaitStep::Completed, saw_down)
    } else if elapsed_ms >= max_wait_ms {
        (GracefulWaitStep::TimedOut, saw_down)
    } else {
        (GracefulWaitStep::KeepWaiting, saw_down)
    }
}

/// Decides one step of the graceful-restart wait; the second component
/// is the updated saw-backend-down note.
pub fn wait_for_graceful_restart_step(
    previous_marker: Option<i64>,
    saw_backend_down: bool,
    reachable: bool,
    current_marker: Option<i64>,
    elapsed_ms: u64,
    max_wait_ms: u64,
) -> (r: (GracefulWaitStep, bool))
    ensures
        r == graceful_wait_step_spec(
            previous_marker,
            saw_backend_down,
            reachable,
            current_marker,
            elapsed_ms,
            max_wait_ms,
        ),
{
    let saw_down = saw_backend_down || !reachable;
    let marker_changed = match (previous_marker, current_marker) {
        (Some(prev), Some(cur)) => prev != cur,
        _ => false,
    };
    let completed = reachable && (marker_changed || (previous_marker.is_none()
        && saw_backend_down));
    if completed {
        (GracefulWaitStep::Completed, saw_down)
    } else if elapsed_ms >= max_wait_ms {
        (GracefulWaitStep::TimedOut, saw_down)
    } else {
        (GracefulWaitStep::KeepWaiting, saw_down)
    }
}

/// What polling the child handle observed.
#[derive(PartialEq, Eq, Structural, Clone, Copy, Debug)]
pub enum ChildPoll {
    /// Still running.
    Running,
    /// Exited already.
    Exited,
    /// The status poll itself failed.
    PollFailed,
    /// No child handle is owned.
    Missing,
}

/// One step of the wait for a fresh child to become reachable.
#[derive(PartialEq, Eq, Structural, Clone, Copy, Debug)]
pub enum StartupWaitStep {
    /// Reachable: startup succeeded.
    Ready,
    /// The child exited before ever becoming reachable.
    ExitedBeforeReady,
    /// The child's status could not be polled.
    PollFailed,
    /// No child is owned while waiting.
    NotRunning,
    /// The startup deadline elapsed.
    TimedOut,
    /// Poll again after the fixed interval.
    KeepWaiting,
}

/// One polling step while waiting for the spawned child to become
/// reachable: reachability wins; a dead, missing, or unpollable child
/// ends the wait with its own error; the deadline — `None` waits forever
/// — ends it with a timeout.
pub open spec fn wait_for_backend_step_spec(
    reachable: bool,
    child: ChildPoll,
    elapsed_ms: u64,
    timeout_ms: Option<u64>,
) -> StartupWaitStep {
    if reachable {
        StartupWaitStep::Ready
    } else if child is Exited {
        StartupWaitStep::ExitedBeforeReady
    } else if child is PollFailed {
        StartupWaitStep::PollFailed
    } else if child is Missing {
        StartupWaitStep::NotRunning
    } else if timeout_ms matches Some(limit) && elapsed_ms >= limit {
        StartupWaitStep::TimedOut
    } else {
        StartupWaitStep::KeepWaiting
    }
}

/// Decides one step of the startup wait.
pub fn wait_for_backend_step(
    reachable: bool,
    child: ChildPoll,
    elapsed_ms: u64,
    timeout_ms: Option<u64>,
) -> (r: StartupWaitStep)
    ensures
        r == wait_for_backend_step_spec(reachable, child, elapsed_ms, timeout_ms),
{
    if reachable {
        return StartupWaitStep::Ready;
    }
    match child {
        ChildPoll::Exited => StartupWaitStep::ExitedBeforeReady,
        ChildPoll::PollFailed => StartupWaitStep::PollFailed,
        ChildPoll::Missing => StartupWaitStep::NotRunning,
        ChildPoll::Running => {
            match timeout_ms {
                Some(limit) => {
                    if elapsed_ms >= limit {
                        StartupWaitStep::TimedOut
                    } else {
                        StartupWaitStep::KeepWaiting
                    }
                },
                None => StartupWaitStep::KeepWaiting,
            }
        },
    }
}

/// The first decision of the startup path.
#[derive(PartialEq, Eq, Structural, Clone, Copy, Debug)]
pub enum StartupDecision {
    /// The backend already answers; no spawn happens.
    AlreadyReachable,
    /// The operator disabled auto-start; startup fails without a spawn.
    AutoStartDisabled,
    /// Resolve a plan, spawn, and wait for reachability.
    SpawnAndWait,
}

/// What starting up does: a reachable backend needs no spawn; disabled
/// auto-start is an error; otherwise a fresh child is spawned.
pub open spec fn startup_decision_spec(reachable: bool, auto_start_disabled: bool)
    -> StartupDecision {
    if reachable {
        StartupDecision::AlreadyReachable
    } else if auto_start_disabled {
        StartupDecision::AutoStartDisabled
    } else {
        StartupDecision::SpawnAndWait
    }
}

pub fn startup_decision(reachable: bool, auto_start_disabled: bool) -> (r: StartupDecision)
    ensures
        r == startup_decision_spec(reachable, auto_start_disabled),
{
    if reachable {
        StartupDecision::AlreadyReachable
    } else if auto_start_disabled {
        StartupDecision::AutoStartDisabled
    } else {
        StartupDecision::SpawnAndWait
    }
}

/// Whether the auto-start override forbids spawning: only the exact
/// value `0` does.
pub fn auto_start_disabled(env_value: Option<&str>) -> (r: bool)
    ensures
        r == (opt_str_view(env_value) matches Some(v) && v == "0"@),
{
    match env_value {
        Some(v) => crate::text::str_eq(v, "0"),
        None => false,
    }
}

/// What the stop command does.
#[derive(PartialEq, Eq, Structural, Clone, Copy, Debug)]
pub enum BridgeStopDecision {
    /// A managed child exists: stop it.
    StopChild,
    /// The backend answers but is not ours: refuse to touch it.
    RefuseUnmanaged,
    /// Nothing is running and nothing is owned: succeed doing nothing.
    NothingToStop,
}

/// The stop command's decision. Reachability is only consulted where no
/// child is owned.
pub open spec fn stop_for_bridge_spec(has_child: bool, reachable: bool) -> BridgeStopDecision {
    if has_child {
        BridgeStopDecision::StopChild
    } else if reachable {
        BridgeStopDecision::RefuseUnmanaged
    } else {
        BridgeStopDecision::NothingToStop
    }
}

pub fn stop_for_bridge_decision(has_child: bool, reachable: bool) -> (r: BridgeStopDecision)
    ensures
        r == stop_for_bridge_spec(has_child, reachable),
{
    if has_child {
        BridgeStopDecision::StopChild
    } else if reachable {
        BridgeStopDecision::RefuseUnmanaged
    } else {
        BridgeStopDecision::NothingToStop
    }
}

/// An RAII-style mark on an in-progress flag: `set` raises the flag and
/// hands back the guard; `release` consumes it and clears the flag. A
/// path that holds the guard and ends — success or failure — releases
/// it, so no "in progress" state outlives its action.
pub struct AtomicFlagGuard {}

impl AtomicFlagGuard {
    /// Raises the flag.
    pub fn set(flag: &mut bool) -> (g: AtomicFlagGuard)
        ensures
            *final(flag),
    {
        *flag = true;
        AtomicFlagGuard {  }
    }

    /// Clears the flag unconditionally.
    pub fn release(self, flag: &mut bool)
        ensures
            !*final(flag),
    {
        *flag = false;
    }
}

/// Law: spawning twice without an intervening stop leaves exactly one
/// owned child — the first spawn's — and the second attempt records no
/// spawn and changes nothing.
pub proof fn lemma_spawn_idempotent(s: SupervisorState, pid1: u32, pid2: u32)
    requires
        s.child is None,
    ensures
        ({
            let (s1, did1) = record_spawn_spec(s, pid1);
            let (s2, did2) = record_spawn_spec(s1, pid2);
            did1 && !did2 && s2 == s1 && s1.child == Some(pid1)
        }),
{
}

/// Law: of two exclusive child-mutating actions issued concurrently (a
/// restart and a stop, in whichever order their claims serialize),
/// exactly one proceeds and the other is rejected synchronously; once
/// the accepted action ends, neither in-progress flag is left set.
pub proof fn lemma_concurrent_actions_exclusive(s: SupervisorState)
    requires
        !s.spawning,
        !s.restarting,
    ensures
        ({
            let (s1, first_accepted) = try_begin_action_spec(s);
            let (s2, second_accepted) = try_begin_action_spec(s1);
            let s3 = end_action_spec(s2);
            first_accepted && !second_accepted && !s3.spawning && !s3.restarting
        }),
{
}

/// Law: with a managed child, a graceful-restart request answered with
/// any non-2xx status (an HTTP 500, say) is a rejection, and its
/// follow-up is the managed stop-and-spawn fallback — not a reported
/// failure.
pub proof fn lemma_rejected_graceful_falls_back(status: u16)
    requires
        !(200 <= status < 300),
    ensures
        !graceful_restart_accepted_spec(Some(status)),
        restart_followup_spec(
            RestartStrategy::ManagedWithGracefulFallback,
            GracefulRestartOutcome::RequestRejected,
        ) == RestartFollowUp::ProceedToManagedRestart,
{
}

/// Law: a changed identity marker completes the graceful wait the
/// moment it is observed, whatever time has elapsed and whatever
/// reachability was seen before.
pub proof fn lemma_identity_marker_completion(
    prev: i64,
    cur: i64,
    saw_backend_down: bool,
    elapsed_ms: u64,
    max_wait_ms: u64,
)
    requires
        prev != cur,
    ensures
        graceful_wait_step_spec(
            Some(prev),
            saw_backend_down,
            true,
            Some(cur),
            elapsed_ms,
            max_wait_ms,
        ).0 is Completed,
{
}

} // verus!
