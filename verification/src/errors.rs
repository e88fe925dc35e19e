//! Error taxonomy of the orchestrator.
//!
//! Every failure is an explicit result value.  The variants follow the
//! conditions the orchestrator can report: a bad or mismatched provider or an
//! unparsable configuration value, a failed provisioning call, an unavailable
//! readiness table, an unknown resource kind, and a failed setup command.

use vstd::prelude::*;

verus! {

/// Errors reported by the orchestrator.  Each variant carries a message with
/// the context of the failure (the resource or value concerned).
#[derive(Clone, Debug)]
pub enum OrchestratorError {
    /// A resource operation failed or a prerequisite was not met.
    ResourceError(String),
    /// A resource could not be provisioned on the backing store.
    ResourceSetupError(String),
    /// The cloud provider variant does not match what a resource requires.
    InvalidCloudProviderError(String),
    /// A setup command failed, e.g. an unparsable numeric configuration value.
    SetupCommandError(String),
    /// A required configuration value is missing or malformed.
    ConfigError(String),
}

/// Result alias used across the orchestrator.
pub type OrchestratorResult<T> = Result<T, OrchestratorError>;

} // verus!
