use orchestrator::cron_setup::{
    CronCommand, CronEvent, CronSetupSession, CRON_SETTLE_SECONDS,
};
use orchestrator::errors::OrchestratorError;
use orchestrator::kinds::WorkerTriggerType;
use orchestrator::params::{CronArgs, EventBridgeType};

fn args(cron_time: &str) -> CronArgs {
    CronArgs {
        target_queue_name: "orch_worker_trigger_queue".to_string(),
        trigger_role_name: "orch-role".to_string(),
        trigger_policy_name: "orch-policy".to_string(),
        trigger_rule_name: "orch-rule".to_string(),
        event_bridge_type: EventBridgeType::Rule,
        cron_time: cron_time.to_string(),
    }
}

#[test]
fn an_unparsable_cron_time_is_a_fatal_configuration_error() {
    let (_, cmd) = CronSetupSession::start(&args("every minute"));
    assert!(matches!(
        cmd,
        CronCommand::Fail(OrchestratorError::SetupCommandError(_))
    ));
}

#[test]
fn triggers_are_attached_in_catalog_order_after_the_settle_delay() {
    let a = args("60");
    let (mut session, cmd) = CronSetupSession::start(&a);
    match cmd {
        CronCommand::CreateCron {
            target_queue_name,
            trigger_role_name,
            trigger_policy_name,
        } => {
            assert_eq!(target_queue_name, "orch_worker_trigger_queue");
            assert_eq!(trigger_role_name, "orch-role");
            assert_eq!(trigger_policy_name, "orch-policy");
        }
        other => panic!("unexpected command: {:?}", kind_of(&other)),
    }

    let cmd = session.step(&a, CronEvent::CronCreated(Ok(())));
    assert!(matches!(cmd, CronCommand::Settle { seconds } if seconds == CRON_SETTLE_SECONDS));

    let expected = [
        WorkerTriggerType::Snos,
        WorkerTriggerType::Proving,
        WorkerTriggerType::DataSubmission,
        WorkerTriggerType::UpdateState,
    ];
    let mut cmd = session.step(&a, CronEvent::Settled);
    for (i, want) in expected.iter().enumerate() {
        match &cmd {
            CronCommand::AttachTrigger {
                trigger,
                trigger_rule_name,
                event_bridge_type,
                period_seconds,
            } => {
                assert_eq!(trigger, want);
                assert_eq!(trigger_rule_name, "orch-rule");
                assert_eq!(*event_bridge_type, EventBridgeType::Rule);
                assert_eq!(*period_seconds, 60);
            }
            other => panic!("attachment {} missing: {}", i, kind_of(other)),
        }
        cmd = session.step(&a, CronEvent::Attached(Ok(())));
    }
    assert!(matches!(cmd, CronCommand::Done));
}

#[test]
fn a_failed_attachment_is_fatal_to_the_whole_trigger_setup() {
    let a = args("60");
    let (mut session, _) = CronSetupSession::start(&a);
    session.step(&a, CronEvent::CronCreated(Ok(())));
    session.step(&a, CronEvent::Settled);
    let cmd = session.step(&a, CronEvent::Attached(Err("denied".to_string())));
    assert!(matches!(
        cmd,
        CronCommand::Fail(OrchestratorError::SetupCommandError(_))
    ));
}

#[test]
fn a_failed_base_creation_is_fatal() {
    let a = args("60");
    let (mut session, _) = CronSetupSession::start(&a);
    let cmd = session.step(&a, CronEvent::CronCreated(Err("denied".to_string())));
    assert!(matches!(
        cmd,
        CronCommand::Fail(OrchestratorError::SetupCommandError(_))
    ));
}

fn kind_of(cmd: &CronCommand) -> &'static str {
    match cmd {
        CronCommand::CreateCron { .. } => "create",
        CronCommand::Settle { .. } => "settle",
        CronCommand::AttachTrigger { .. } => "attach",
        CronCommand::Done => "done",
        CronCommand::Fail(_) => "fail",
    }
}
