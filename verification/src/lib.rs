//! Resource-provisioning orchestrator for a proving pipeline.
//!
//! The library holds the decision logic of the orchestrator: the closed set of
//! resource kinds, the queue/trigger catalogs, the idempotent provisioning
//! algorithms expressed as step machines, the bounded readiness poll, and
//! the shared readiness table.  Cloud calls themselves are network I/O and live
//! outside the library; a driver feeds their answers back into the machines.

pub mod catalog;
pub mod cloud_setup;
pub mod cron_setup;
pub mod env_cfg;
pub mod errors;
pub mod factory;
pub mod jobs;
pub mod kinds;
pub mod naming;
pub mod params;
pub mod poll;
pub mod queue_setup;
pub mod registry;
pub mod simple_setup;
pub mod store;
pub mod text;
