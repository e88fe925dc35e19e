//! Scheduled-trigger provisioning: create the base scheduling infrastructure
//! once, observe a settle delay, then attach each worker trigger's queue to
//! the shared rule at the configured cadence.  The textual cron period is
//! parsed up front; an unparsable value is a fatal configuration error, and
//! each failed attachment is fatal to the whole trigger setup.

use crate::errors::OrchestratorError;
use crate::kinds::{worker_trigger_catalog, worker_triggers, WorkerTriggerType};
use crate::params::{CronArgs, EventBridgeType};
use crate::text::{parse_u64, parse_uint_model};
use vstd::prelude::*;
use vstd::string::*;

verus! {

/// The settle delay between creating the base infrastructure and attaching
/// the triggers, in seconds.  The provisioning interface offers no existence
/// check for this step, so readiness here is a bounded wait.
pub const CRON_SETTLE_SECONDS: u64 = 15;

/// One call the session asks for.
pub enum CronCommand {
    /// Create the rule or schedule with its supporting role and policy.
    CreateCron {
        target_queue_name: String,
        trigger_role_name: String,
        trigger_policy_name: String,
    },
    /// Wait this many seconds for the base infrastructure to settle.
    Settle { seconds: u64 },
    /// Attach one worker trigger's queue to the shared rule.
    AttachTrigger {
        trigger: WorkerTriggerType,
        trigger_rule_name: String,
        event_bridge_type: EventBridgeType,
        period_seconds: u64,
    },
    /// Every trigger is attached.
    Done,
    /// Setup failed.
    Fail(OrchestratorError),
}

/// The answer to the previous command.
pub enum CronEvent {
    /// Answer to `CreateCron`.
    CronCreated(Result<(), String>),
    /// The settle delay is over.
    Settled,
    /// Answer to `AttachTrigger`.
    Attached(Result<(), String>),
}

/// Where the session stands.
pub enum CronPhase {
    CreatingBase,
    Settling,
    Attaching,
    Finished,
    Failed,
}

/// The trigger-setup session: the phase, the position in the fixed worker
/// catalog, and the parsed cadence.
pub struct CronSetupSession {
    pub phase: CronPhase,
    pub trigger_index: usize,
    pub period_seconds: u64,
}

impl CronSetupSession {
    /// Whether the session still runs.
    pub open spec fn in_progress(&self) -> bool {
        !(self.phase is Finished || self.phase is Failed)
    }

    /// Session validity: the catalog position is in range while triggers are
    /// being attached.
    pub open spec fn wf(&self) -> bool {
        self.phase is Attaching ==> (self.trigger_index as int) < worker_trigger_catalog().len()
    }

    /// Which answer the session expects next.
    pub open spec fn expects(&self, event: &CronEvent) -> bool {
        match self.phase {
            CronPhase::CreatingBase => event is CronCreated,
            CronPhase::Settling => event is Settled,
            CronPhase::Attaching => event is Attached,
            CronPhase::Finished => false,
            CronPhase::Failed => false,
        }
    }

    /// Starts the session: the cron period is parsed first, and an
    /// unparsable value fails at once as a configuration error; otherwise
    /// the base infrastructure is created.
    pub fn start(args: &CronArgs) -> (r: (CronSetupSession, CronCommand))
        ensures
            r.0.wf(),
            parse_uint_model(args.cron_time@, u64::MAX as int) is None ==> r.0.phase is Failed && (
            r.1 matches CronCommand::Fail(OrchestratorError::SetupCommandError(m)) && m@
                == "Failed to parse the cron time: "@ + args.cron_time@),
            parse_uint_model(args.cron_time@, u64::MAX as int) matches Some(p) ==> r.0.phase
                is CreatingBase && r.0.period_seconds as int == p && (r.1 matches
            CronCommand::CreateCron { target_queue_name, trigger_role_name, trigger_policy_name }
                && target_queue_name@ == args.target_queue_name@ && trigger_role_name@
                == args.trigger_role_name@ && trigger_policy_name@ == args.trigger_policy_name@),
    {
        match parse_u64(args.cron_time.as_str()) {
            Some(p) => {
                let session = CronSetupSession {
                    phase: CronPhase::CreatingBase,
                    trigger_index: 0,
                    period_seconds: p,
                };
                let cmd = CronCommand::CreateCron {
                    target_queue_name: args.target_queue_name.clone(),
                    trigger_role_name: args.trigger_role_name.clone(),
                    trigger_policy_name: args.trigger_policy_name.clone(),
                };
                (session, cmd)
            },
            None => {
                let mut m = String::new();
                m.append("Failed to parse the cron time: ");
                m.append(args.cron_time.as_str());
                let session = CronSetupSession {
                    phase: CronPhase::Failed,
                    trigger_index: 0,
                    period_seconds: 0,
                };
                (session, CronCommand::Fail(OrchestratorError::SetupCommandError(m)))
            },
        }
    }

    /// Feeds the answer in.  The created base is left to settle; after the
    /// settle delay the worker triggers are attached in catalog order; the
    /// first failure of any stage is fatal to the whole trigger setup.
    pub fn step(&mut self, args: &CronArgs, event: CronEvent) -> (cmd: CronCommand)
        requires
            old(self).wf(),
            old(self).in_progress(),
            old(self).expects(&event),
        ensures
            final(self).wf(),
            final(self).period_seconds == old(self).period_seconds,
            old(self).phase is CreatingBase ==> (event matches CronEvent::CronCreated(res) ==> (res
                is Ok ==> final(self).phase is Settling && (cmd matches CronCommand::Settle {
                seconds,
            } && seconds == CRON_SETTLE_SECONDS))),
            old(self).phase is CreatingBase ==> (event matches CronEvent::CronCreated(res) ==> (res
            matches Err(e) ==> final(self).phase is Failed && (cmd matches CronCommand::Fail(
                OrchestratorError::SetupCommandError(m),
            ) && m@ == "Failed to create cron: "@ + e@))),
            old(self).phase is Settling ==> (event is Settled ==> final(self).phase is Attaching
                && final(self).trigger_index == 0 && attach_cmd(cmd, *args, 0, old(self).period_seconds)),
            old(self).phase is Attaching ==> (event matches CronEvent::Attached(res) ==> (res is Ok
                ==> (old(self).trigger_index as int + 1 < worker_trigger_catalog().len() ==> final(self).phase is Attaching && final(self).trigger_index == old(self).trigger_index + 1
                && attach_cmd(cmd, *args, old(self).trigger_index as int + 1, old(self).period_seconds)))),
            old(self).phase is Attaching ==> (event matches CronEvent::Attached(res) ==> (res is Ok
                ==> (old(self).trigger_index as int + 1 >= worker_trigger_catalog().len() ==> final(self).phase is Finished && cmd is Done))),
            old(self).phase is Attaching ==> (event matches CronEvent::Attached(res) ==> (res
            matches Err(e) ==> final(self).phase is Failed && (cmd matches CronCommand::Fail(
                OrchestratorError::SetupCommandError(m),
            ) && m@ == "Failed to add cron target queue: "@ + e@))),
    {
        match event {
            CronEvent::CronCreated(res) => match res {
                Ok(_) => {
                    self.phase = CronPhase::Settling;
                    CronCommand::Settle { seconds: CRON_SETTLE_SECONDS }
                },
                Err(e) => {
                    let mut m = String::new();
                    m.append("Failed to create cron: ");
                    m.append(e.as_str());
                    self.phase = CronPhase::Failed;
                    CronCommand::Fail(OrchestratorError::SetupCommandError(m))
                },
            },
            CronEvent::Settled => {
                self.phase = CronPhase::Attaching;
                self.trigger_index = 0;
                self.attach_command(args)
            },
            CronEvent::Attached(res) => match res {
                Ok(_) => {
                    if self.trigger_index < 3 {
                        self.trigger_index = self.trigger_index + 1;
                        self.attach_command(args)
                    } else {
                        self.phase = CronPhase::Finished;
                        CronCommand::Done
                    }
                },
                Err(e) => {
                    let mut m = String::new();
                    m.append("Failed to add cron target queue: ");
                    m.append(e.as_str());
                    self.phase = CronPhase::Failed;
                    CronCommand::Fail(OrchestratorError::SetupCommandError(m))
                },
            },
        }
    }

    /// Builds the attach command for the trigger at the current position.
    fn attach_command(&self, args: &CronArgs) -> (cmd: CronCommand)
        requires
            (self.trigger_index as int) < worker_trigger_catalog().len(),
        ensures
            attach_cmd(cmd, *args, self.trigger_index as int, self.period_seconds),
    {
        let triggers = worker_triggers();
        CronCommand::AttachTrigger {
            trigger: triggers[self.trigger_index],
            trigger_rule_name: args.trigger_rule_name.clone(),
            event_bridge_type: args.event_bridge_type,
            period_seconds: self.period_seconds,
        }
    }
}

/// An attach command for the trigger at one catalog position, carrying the
/// shared rule name, the scheduling flavour and the parsed cadence.
pub open spec fn attach_cmd(cmd: CronCommand, args: CronArgs, i: int, period: u64) -> bool {
    cmd matches CronCommand::AttachTrigger {
        trigger,
        trigger_rule_name,
        event_bridge_type,
        period_seconds,
    } && trigger == worker_trigger_catalog()[i] && trigger_rule_name@ == args.trigger_rule_name@
        && event_bridge_type == args.event_bridge_type && period_seconds == period
}

} // verus!
