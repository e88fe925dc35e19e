//! Per-kind configuration inputs.  They are validated and supplied from
//! outside; the orchestrator only reads them.

use vstd::prelude::*;

verus! {

/// Arguments of queue provisioning: every queue of the catalog is named
/// `{prefix}_{name}_{suffix}` and probed under `{queue_base_url}/{name}`.
#[derive(Clone, Debug, PartialEq, Eq)]
pub struct QueueArgs {
    pub prefix: String,
    pub suffix: String,
    pub queue_base_url: String,
}

/// Arguments of storage provisioning.
#[derive(Clone, Debug, PartialEq, Eq)]
pub struct StorageArgs {
    pub bucket_name: String,
}

/// Arguments of notification-topic provisioning.
#[derive(Clone, Debug, PartialEq, Eq)]
pub struct AlertArgs {
    pub endpoint: String,
}

/// Which scheduling flavour the trigger layer uses.
#[derive(Clone, Copy, PartialEq, Eq, Structural, Debug)]
pub enum EventBridgeType {
    Rule,
    Schedule,
}

/// Arguments of scheduled-trigger provisioning.  `cron_time` is textual and
/// parsed to a period in seconds; an unparsable value is a configuration
/// error.
#[derive(Clone, Debug, PartialEq, Eq)]
pub struct CronArgs {
    pub target_queue_name: String,
    pub trigger_role_name: String,
    pub trigger_policy_name: String,
    pub trigger_rule_name: String,
    pub event_bridge_type: EventBridgeType,
    pub cron_time: String,
}

/// Shared knobs of the readiness gate: the fixed interval between checks and
/// the deadline, both in seconds.
#[derive(Clone, Copy, Debug)]
pub struct MiscellaneousArgs {
    pub poll_interval: u64,
    pub timeout: u64,
}

/// Whether two queue-argument values carry the same text.
pub open spec fn queue_args_match(a: QueueArgs, b: QueueArgs) -> bool {
    a.prefix@ == b.prefix@ && a.suffix@ == b.suffix@ && a.queue_base_url@ == b.queue_base_url@
}

/// Whether two storage-argument values carry the same text.
pub open spec fn storage_args_match(a: StorageArgs, b: StorageArgs) -> bool {
    a.bucket_name@ == b.bucket_name@
}

/// Whether two alert-argument values carry the same text.
pub open spec fn alert_args_match(a: AlertArgs, b: AlertArgs) -> bool {
    a.endpoint@ == b.endpoint@
}

/// Whether two trigger-argument values carry the same text and flavour.
pub open spec fn cron_args_match(a: CronArgs, b: CronArgs) -> bool {
    &&& a.target_queue_name@ == b.target_queue_name@
    &&& a.trigger_role_name@ == b.trigger_role_name@
    &&& a.trigger_policy_name@ == b.trigger_policy_name@
    &&& a.trigger_rule_name@ == b.trigger_rule_name@
    &&& a.event_bridge_type == b.event_bridge_type
    &&& a.cron_time@ == b.cron_time@
}

/// A field-wise copy of queue arguments.
pub fn clone_queue_args(a: &QueueArgs) -> (r: QueueArgs)
    ensures
        queue_args_match(r, *a),
{
    QueueArgs {
        prefix: a.prefix.clone(),
        suffix: a.suffix.clone(),
        queue_base_url: a.queue_base_url.clone(),
    }
}

/// A field-wise copy of storage arguments.
pub fn clone_storage_args(a: &StorageArgs) -> (r: StorageArgs)
    ensures
        storage_args_match(r, *a),
{
    StorageArgs { bucket_name: a.bucket_name.clone() }
}

/// A field-wise copy of alert arguments.
pub fn clone_alert_args(a: &AlertArgs) -> (r: AlertArgs)
    ensures
        alert_args_match(r, *a),
{
    AlertArgs { endpoint: a.endpoint.clone() }
}

/// A field-wise copy of trigger arguments.
pub fn clone_cron_args(a: &CronArgs) -> (r: CronArgs)
    ensures
        cron_args_match(r, *a),
{
    CronArgs {
        target_queue_name: a.target_queue_name.clone(),
        trigger_role_name: a.trigger_role_name.clone(),
        trigger_policy_name: a.trigger_policy_name.clone(),
        trigger_rule_name: a.trigger_rule_name.clone(),
        event_bridge_type: a.event_bridge_type,
        cron_time: a.cron_time.clone(),
    }
}

} // verus!
