//! Coordination layer between a desktop shell and its sidecar backend
//! process: typed runtime settings, the health-readiness poll, the
//! supervisor's start/stop logic with escalating termination, and the
//! local control protocol for window-state commands.

mod text;

pub mod config;
pub mod poller;
pub mod supervisor;
pub mod window;
pub mod socket_server;
pub mod shutdown;
