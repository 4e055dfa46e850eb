//! OS service manager states, and the fallback when no service manager is available.

use vstd::prelude::*;

verus! {

/// Whether the daemon service is installed and active.
#[derive(Debug, Clone, Copy, PartialEq, Eq, Structural)]
pub enum ServiceState {
    /// Service is running.
    Running,
    /// Service is installed but not running.
    Stopped,
    /// No service manager integration on this platform.
    Unsupported,
}

/// What starting the daemon takes.
#[derive(Debug, Clone, Copy, PartialEq, Eq, Structural)]
pub enum StartAction {
    /// The daemon already runs: nothing to do.
    AlreadyRunning,
    /// Spawn a detached daemon process.
    SpawnDetached,
}

/// Service manager stub for unsupported platforms and CI.
pub struct UnsupportedService;

impl UnsupportedService {
    /// Installing needs nothing here.
    pub fn install(&self) -> (res: Result<(), crate::error::VaultError>)
        ensures
            res is Ok,
    {
        Ok(())
    }

    /// Ensuring the daemon runs: nothing when it already does, a detached spawn otherwise.
    pub fn ensure_running(&self, daemon_running: bool) -> (res: StartAction)
        ensures
            daemon_running ==> res == StartAction::AlreadyRunning,
            !daemon_running ==> res == StartAction::SpawnDetached,
    {
        if daemon_running {
            StartAction::AlreadyRunning
        } else {
            StartAction::SpawnDetached
        }
    }

    /// There is no service manager integration.
    pub fn state(&self) -> (res: ServiceState)
        ensures
            res == ServiceState::Unsupported,
    {
        ServiceState::Unsupported
    }
}

} // verus!
