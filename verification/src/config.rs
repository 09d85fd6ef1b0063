//! Timing configuration: the startup-timeout rules and the probe-timeout
//! overrides, plus the fixed intervals and ceilings the supervisor runs
//! on. Environment values come in as plain optional strings.

use vstd::prelude::*;
use crate::supervisor::opt_str_view;
use crate::text::{parse_u64, parse_u64_spec, trim_str, trimmed};

verus! {

/// Default timeout of a probe connection, milliseconds.
pub const DEFAULT_BACKEND_PING_TIMEOUT_MS: u64 = 800;

/// Timeout of the graceful-restart POST, milliseconds.
pub const GRACEFUL_RESTART_REQUEST_TIMEOUT_MS: u64 = 2500;

/// Timeout of one identity-marker fetch, milliseconds.
pub const GRACEFUL_RESTART_START_TIME_TIMEOUT_MS: u64 = 1800;

/// Interval between graceful-restart polls, milliseconds.
pub const GRACEFUL_RESTART_POLL_INTERVAL_MS: u64 = 350;

/// Grace period of a child stop, milliseconds.
pub const GRACEFUL_STOP_TIMEOUT_MS: u64 = 10000;

/// Interval between startup reachability polls, milliseconds.
pub const STARTUP_POLL_INTERVAL_MS: u64 = 600;

/// Interval between child exit-status polls, milliseconds.
pub const CHILD_EXIT_POLL_INTERVAL_MS: u64 = 120;

/// Size ceiling of the child's log file.
pub const BACKEND_LOG_MAX_BYTES: u64 = 20 * 1024 * 1024;

/// Size ceiling of the supervisor's own operational log.
pub const DESKTOP_LOG_MAX_BYTES: u64 = 5 * 1024 * 1024;

/// How many numbered log backups are kept.
pub const LOG_BACKUP_COUNT: usize = 5;

/// Interval between rotation checks of the child's log, milliseconds.
pub const BACKEND_LOG_ROTATION_CHECK_INTERVAL_MS: u64 = 20000;

/// The fallback startup timeout of packaged mode, where "wait forever"
/// is capped rather than honored, milliseconds.
pub const PACKAGED_BACKEND_TIMEOUT_FALLBACK_MS: u64 = 5 * 60 * 1000;

/// The startup timeout: the override where it parses, else the per-mode
/// default — development mode waits a bounded window, packaged mode asks
/// for `0`, "wait forever". A zero is `None` (no deadline) in
/// development mode, and the large fallback in packaged mode.
pub open spec fn resolve_backend_timeout_ms_spec(
    packaged_mode: bool,
    env_value: Option<Seq<char>>,
) -> Option<u64> {
    let default_ms: u64 = if packaged_mode {
        0
    } else {
        20000
    };
    let parsed = match env_value {
        Some(v) => match parse_u64_spec(trimmed(v)) {
            Some(x) => x,
            None => default_ms,
        },
        None => default_ms,
    };
    if parsed > 0 {
        Some(parsed)
    } else if packaged_mode {
        Some(PACKAGED_BACKEND_TIMEOUT_FALLBACK_MS)
    } else {
        None
    }
}

/// Resolves the startup timeout from the mode and the override.
pub fn resolve_backend_timeout_ms(packaged_mode: bool, env_value: Option<&str>) -> (r: Option<u64>)
    ensures
        r == resolve_backend_timeout_ms_spec(packaged_mode, opt_str_view(env_value)),
{
    let default_ms: u64 = if packaged_mode {
        0
    } else {
        20000
    };
    let parsed: u64 = match env_value {
        Some(v) => match parse_u64(trim_str(v)) {
            Some(x) => x,
            None => default_ms,
        },
        None => default_ms,
    };
    if parsed > 0 {
        Some(parsed)
    } else if packaged_mode {
        Some(PACKAGED_BACKEND_TIMEOUT_FALLBACK_MS)
    } else {
        None
    }
}

/// The ceiling on the graceful-restart wait: the startup timeout, with
/// "no deadline" capped at the development default.
pub fn backend_wait_timeout(packaged_mode: bool, env_value: Option<&str>) -> (r: u64)
    ensures
        r == (match resolve_backend_timeout_ms_spec(packaged_mode, opt_str_view(env_value)) {
            Some(ms) => ms,
            None => 20000u64,
        }),
{
    match resolve_backend_timeout_ms(packaged_mode, env_value) {
        Some(ms) => ms,
        None => 20000,
    }
}

/// A probe-timeout override: a positive number wins, anything else falls
/// back.
pub open spec fn ping_timeout_spec(raw: Seq<char>, fallback_ms: u64) -> u64 {
    match parse_u64_spec(trimmed(raw)) {
        Some(v) => if v > 0 {
            v
        } else {
            fallback_ms
        },
        None => fallback_ms,
    }
}

/// Reads a probe-timeout override.
pub fn parse_ping_timeout_env(raw: &str, fallback_ms: u64) -> (r: u64)
    ensures
        r == ping_timeout_spec(raw@, fallback_ms),
{
    match parse_u64(trim_str(raw)) {
        Some(v) => {
            if v > 0 {
                v
            } else {
                fallback_ms
            }
        },
        None => fallback_ms,
    }
}

} // verus!
