//! Startup sequencing and plugin lifecycle supervision for a host-driven
//! request router.
//!
//! The host owns the request pipeline; this library owns the extension-side
//! machinery around it: resolving each plugin's configuration against its
//! declared defaults, supervising fallible construction with guaranteed,
//! idempotent teardown, keeping the process-wide plugin registration table,
//! and sequencing startup so that the host's main loop never begins when the
//! registry pre-flight check has failed.

pub mod app_deployments;
pub mod config;
pub mod errors;
pub mod lifecycle;
pub mod registry;
pub mod sequencer;
