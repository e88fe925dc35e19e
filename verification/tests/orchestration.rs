use orchestrator::errors::OrchestratorError;
use orchestrator::factory::{
    CheckTask, ResourceFactory, SetupCommand, SetupEvent, SetupStage, SetupTask,
};
use orchestrator::kinds::ResourceType;
use orchestrator::params::{
    AlertArgs, CronArgs, EventBridgeType, MiscellaneousArgs, QueueArgs, StorageArgs,
};
use orchestrator::registry::CloudProvider;

fn queue_args() -> QueueArgs {
    QueueArgs {
        prefix: "orch".to_string(),
        suffix: "q1".to_string(),
        queue_base_url: "https://q.example".to_string(),
    }
}

fn cron_args() -> CronArgs {
    CronArgs {
        target_queue_name: "orch_worker_trigger_queue".to_string(),
        trigger_role_name: "orch-role".to_string(),
        trigger_policy_name: "orch-policy".to_string(),
        trigger_rule_name: "orch-rule".to_string(),
        event_bridge_type: EventBridgeType::Rule,
        cron_time: "60".to_string(),
    }
}

fn storage_args() -> StorageArgs {
    StorageArgs { bucket_name: "bucket".to_string() }
}

fn alert_args() -> AlertArgs {
    AlertArgs { endpoint: "alerts".to_string() }
}

fn factory(poll_interval: u64, timeout: u64) -> ResourceFactory {
    ResourceFactory::new_with_aws(
        CloudProvider::Aws,
        queue_args(),
        cron_args(),
        storage_args(),
        alert_args(),
        MiscellaneousArgs { poll_interval, timeout },
    )
}

fn ok() -> Result<(), OrchestratorError> {
    Ok(())
}

#[test]
fn status_of_an_unrecorded_kind_is_false_without_error() {
    let f = factory(1, 2);
    assert_eq!(f.get_resource_status(ResourceType::Queue).unwrap(), false);
    assert_eq!(f.get_resource_status(ResourceType::Cron).unwrap(), false);
}

#[test]
fn recorded_status_is_read_back() {
    let mut f = factory(1, 2);
    f.update_resource_status(ResourceType::Queue, true).unwrap();
    assert_eq!(f.get_resource_status(ResourceType::Queue).unwrap(), true);
    assert_eq!(f.get_resource_status(ResourceType::Storage).unwrap(), false);
    f.update_resource_status(ResourceType::Queue, false).unwrap();
    assert_eq!(f.get_resource_status(ResourceType::Queue).unwrap(), false);
}

#[test]
fn setup_walks_the_kinds_in_fixed_order_with_their_own_configuration() {
    let mut f = factory(1, 2);
    let (mut run, cmd) = f.setup_resource_begin();
    assert_eq!(cmd, SetupCommand::Create(ResourceType::Storage));

    let cmd = f.setup_resource_step(&mut run, SetupEvent::Created(ok()));
    assert_eq!(cmd, SetupCommand::RunSetup(SetupTask::Storage(storage_args())));
    let cmd = f.setup_resource_step(&mut run, SetupEvent::SetupDone(ok()));
    assert_eq!(
        cmd,
        SetupCommand::PollReadiness(CheckTask::Storage { bucket_name: "bucket".to_string() })
    );
    let cmd = f.setup_resource_step(&mut run, SetupEvent::Polled(true));
    assert_eq!(cmd, SetupCommand::Create(ResourceType::Queue));

    let cmd = f.setup_resource_step(&mut run, SetupEvent::Created(ok()));
    assert_eq!(cmd, SetupCommand::RunSetup(SetupTask::Queue(queue_args())));
    let cmd = f.setup_resource_step(&mut run, SetupEvent::SetupDone(ok()));
    assert_eq!(
        cmd,
        SetupCommand::PollReadiness(CheckTask::Queue {
            queue_base_url: "https://q.example".to_string(),
            args: queue_args(),
        })
    );
    let cmd = f.setup_resource_step(&mut run, SetupEvent::Polled(true));
    assert_eq!(cmd, SetupCommand::Create(ResourceType::Notification));

    let cmd = f.setup_resource_step(&mut run, SetupEvent::Created(ok()));
    assert_eq!(cmd, SetupCommand::RunSetup(SetupTask::Notification(alert_args())));
    let cmd = f.setup_resource_step(&mut run, SetupEvent::SetupDone(ok()));
    assert_eq!(
        cmd,
        SetupCommand::PollReadiness(CheckTask::Notification { endpoint: "alerts".to_string() })
    );
    let cmd = f.setup_resource_step(&mut run, SetupEvent::Polled(true));
    assert_eq!(cmd, SetupCommand::Create(ResourceType::Cron));

    // The queue is ready, so the trigger setup runs at once, with the
    // factory's trigger configuration.
    let cmd = f.setup_resource_step(&mut run, SetupEvent::Created(ok()));
    assert_eq!(cmd, SetupCommand::RunSetup(SetupTask::Cron(cron_args())));
    let cmd = f.setup_resource_step(&mut run, SetupEvent::SetupDone(ok()));
    assert_eq!(cmd, SetupCommand::Finished);
    assert_eq!(run.stage, SetupStage::Done);
    assert!(run.failures.is_empty());
}

#[test]
fn cron_is_skipped_with_an_error_when_queue_readiness_never_comes() {
    let mut f = factory(1, 2);
    let (mut run, _) = f.setup_resource_begin();

    // Storage succeeds.
    f.setup_resource_step(&mut run, SetupEvent::Created(ok()));
    f.setup_resource_step(&mut run, SetupEvent::SetupDone(ok()));
    f.setup_resource_step(&mut run, SetupEvent::Polled(true));
    // The queue layer never becomes ready.
    f.setup_resource_step(&mut run, SetupEvent::Created(ok()));
    f.setup_resource_step(&mut run, SetupEvent::SetupDone(ok()));
    f.setup_resource_step(&mut run, SetupEvent::Polled(false));
    // Notifications succeed.
    f.setup_resource_step(&mut run, SetupEvent::Created(ok()));
    f.setup_resource_step(&mut run, SetupEvent::SetupDone(ok()));
    f.setup_resource_step(&mut run, SetupEvent::Polled(true));

    // The trigger kind waits out the whole two-second window, one
    // one-second sleep at a time, and is then skipped with an error.
    let cmd = f.setup_resource_step(&mut run, SetupEvent::Created(ok()));
    assert_eq!(cmd, SetupCommand::Sleep);
    let cmd = f.setup_resource_step(&mut run, SetupEvent::Slept);
    assert_eq!(cmd, SetupCommand::Sleep);
    let cmd = f.setup_resource_step(&mut run, SetupEvent::Slept);
    assert_eq!(cmd, SetupCommand::Finished);
    assert_eq!(run.stage, SetupStage::Done);

    assert_eq!(run.failures.len(), 1);
    assert_eq!(run.failures[0].0, ResourceType::Cron);
    assert!(matches!(
        run.failures[0].1,
        OrchestratorError::ResourceError(_)
    ));
    // The readiness outcomes of the other kinds still stand.
    assert_eq!(f.get_resource_status(ResourceType::Storage).unwrap(), true);
    assert_eq!(f.get_resource_status(ResourceType::Queue).unwrap(), false);
    assert_eq!(
        f.get_resource_status(ResourceType::Notification).unwrap(),
        true
    );
    assert_eq!(f.get_resource_status(ResourceType::Cron).unwrap(), false);
}

#[test]
fn a_failed_kind_is_recorded_and_siblings_continue() {
    let mut f = factory(1, 2);
    let (mut run, _) = f.setup_resource_begin();

    let boom = Err(OrchestratorError::ResourceSetupError("control plane refused".to_string()));
    let cmd = f.setup_resource_step(&mut run, SetupEvent::Created(boom));
    // The failed storage kind is recorded and the run moves to queues.
    assert_eq!(cmd, SetupCommand::Create(ResourceType::Queue));
    assert_eq!(run.failures.len(), 1);
    assert_eq!(run.failures[0].0, ResourceType::Storage);
}
