//! Verified core of a backend-process supervisor.
//!
//! The library holds the supervisor's decision logic: launch-plan
//! resolution, the restart state machine and its concurrency guards,
//! minimal HTTP request construction and response parsing, and
//! size-based log rotation. All I/O (process control, sockets, the
//! filesystem) lives outside the library and hands plain values in.

pub mod config;
pub mod http;
pub mod locale;
pub mod json;
pub mod plan;
pub mod request;
pub mod rotation;
pub mod supervisor;
pub mod text;
pub mod urls;
