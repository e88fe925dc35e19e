//! The orchestrator: per-kind configuration, the shared readiness table, and
//! the setup run that sequences the kinds in a fixed priority order —
//! storage, queues, notifications, and scheduled triggers last, the last
//! held back until queue readiness is confirmed.

use crate::errors::{OrchestratorError, OrchestratorResult};
use crate::kinds::ResourceType;
use crate::params::{
    alert_args_match, clone_alert_args, clone_cron_args, clone_queue_args, clone_storage_args,
    cron_args_match, queue_args_match, storage_args_match, AlertArgs, CronArgs, MiscellaneousArgs,
    QueueArgs, StorageArgs,
};
use crate::poll::PollGate;
use crate::registry::{
    no_creator_msg, unknown_kind_msg, CloudProvider, CreatorTable, EventBridgeResourceCreator,
    RegisteredCreator, ResourceWrapper, S3ResourceCreator, SNSResourceCreator, SQSResourceCreator,
};
use vstd::prelude::*;
use vstd::string::*;

verus! {

/// The shared readiness table: one slot per kind, unset until the kind's
/// readiness was polled.  A kind never recorded reads as not ready.
pub struct ResourceStatusTable {
    pub queue: Option<bool>,
    pub storage: Option<bool>,
    pub cron: Option<bool>,
    pub notification: Option<bool>,
}

impl ResourceStatusTable {
    /// The recorded entry of one kind, if any.
    pub open spec fn spec_recorded(&self, resource_type: ResourceType) -> Option<bool> {
        match resource_type {
            ResourceType::Queue => self.queue,
            ResourceType::Storage => self.storage,
            ResourceType::Cron => self.cron,
            ResourceType::Notification => self.notification,
        }
    }

    /// The readiness of one kind: its recorded value, or false when none was
    /// recorded.
    pub open spec fn spec_status(&self, resource_type: ResourceType) -> bool {
        match self.spec_recorded(resource_type) {
            Some(b) => b,
            None => false,
        }
    }

    /// An empty table: nothing recorded.
    pub fn new() -> (r: ResourceStatusTable)
        ensures
            forall|t: ResourceType| #[trigger] r.spec_recorded(t) is None,
    {
        ResourceStatusTable { queue: None, storage: None, cron: None, notification: None }
    }

    /// Records the readiness of one kind, replacing any earlier entry.
    pub fn set(&mut self, resource_type: ResourceType, is_ready: bool)
        ensures
            final(self).spec_recorded(resource_type) == Some(is_ready),
            forall|t: ResourceType|
                t != resource_type ==> #[trigger] final(self).spec_recorded(t) == old(self).spec_recorded(t),
    {
        match resource_type {
            ResourceType::Queue => {
                self.queue = Some(is_ready);
            },
            ResourceType::Storage => {
                self.storage = Some(is_ready);
            },
            ResourceType::Cron => {
                self.cron = Some(is_ready);
            },
            ResourceType::Notification => {
                self.notification = Some(is_ready);
            },
        }
    }

    /// Reads the readiness of one kind; a kind never recorded is not ready.
    pub fn get(&self, resource_type: ResourceType) -> (r: bool)
        ensures
            r == self.spec_status(resource_type),
    {
        let slot = match resource_type {
            ResourceType::Queue => &self.queue,
            ResourceType::Storage => &self.storage,
            ResourceType::Cron => &self.cron,
            ResourceType::Notification => &self.notification,
        };
        match slot {
            Some(b) => *b,
            None => false,
        }
    }
}

/// The kind that follows one kind in the fixed priority order: storage,
/// queues, notifications, scheduled triggers.
pub open spec fn next_kind(k: ResourceType) -> Option<ResourceType> {
    match k {
        ResourceType::Storage => Some(ResourceType::Queue),
        ResourceType::Queue => Some(ResourceType::Notification),
        ResourceType::Notification => Some(ResourceType::Cron),
        ResourceType::Cron => None,
    }
}

/// One kind's setup together with the configuration it runs with.
#[derive(Debug, PartialEq, Eq)]
pub enum SetupTask {
    Storage(StorageArgs),
    Queue(QueueArgs),
    Notification(AlertArgs),
    Cron(CronArgs),
}

/// One kind's readiness check together with its check arguments: the bucket
/// name for storage, the base URL and queue arguments for queues, the topic
/// endpoint for notifications.  The trigger kind is never polled.
#[derive(Debug, PartialEq, Eq)]
pub enum CheckTask {
    Storage { bucket_name: String },
    Queue { queue_base_url: String, args: QueueArgs },
    Notification { endpoint: String },
}

/// One action the setup run asks its runner to take.
#[derive(Debug, PartialEq, Eq)]
pub enum SetupCommand {
    /// Build the resource of this kind from the provider handle.
    Create(ResourceType),
    /// Run one kind's setup with the factory's configuration for it.
    RunSetup(SetupTask),
    /// Poll one kind's readiness with the factory's check arguments for it.
    PollReadiness(CheckTask),
    /// Sleep one poll interval; the run re-reads the queue readiness after.
    Sleep,
    /// The run is over.
    Finished,
}

/// The runner's answer to the previous action.
pub enum SetupEvent {
    /// The resource was built, or failed to.
    Created(Result<(), OrchestratorError>),
    /// The kind's setup finished, or failed.
    SetupDone(Result<(), OrchestratorError>),
    /// The kind's readiness poll answered.
    Polled(bool),
    /// The sleep is over.
    Slept,
}

/// Where the setup run stands.
#[derive(Clone, Copy, PartialEq, Eq, Structural, Debug)]
pub enum SetupStage {
    /// A `Create` is out for this kind.
    Creating(ResourceType),
    /// A `RunSetup` is out for this kind.
    SettingUp(ResourceType),
    /// A `PollReadiness` is out for this kind.
    Polling(ResourceType),
    /// The trigger layer waits for queue readiness: a `Sleep` is out.
    AwaitingQueue,
    /// The run is over.
    Done,
}

/// One setup run: the stage, the bounded wait on queue readiness, and the
/// failures recorded so far.  A failure is local to its kind: the run
/// records it and moves on.
pub struct SetupRun {
    pub stage: SetupStage,
    pub gate: PollGate,
    pub failures: Vec<(ResourceType, OrchestratorError)>,
}

impl SetupRun {
    /// Whether the run still goes.
    pub open spec fn in_progress(&self) -> bool {
        !(self.stage is Done)
    }

    /// Which answer the run expects next.
    pub open spec fn expects(&self, event: &SetupEvent) -> bool {
        match self.stage {
            SetupStage::Creating(_) => event is Created,
            SetupStage::SettingUp(_) => event is SetupDone,
            SetupStage::Polling(_) => event is Polled,
            SetupStage::AwaitingQueue => event is Slept,
            SetupStage::Done => false,
        }
    }
}

/// What moving past a finished kind looks like: the next kind in the fixed
/// order is created, or the run finishes after the last one.
pub open spec fn moved_on(run: SetupRun, cmd: SetupCommand, k: ResourceType) -> bool {
    match next_kind(k) {
        Some(n) => run.stage == SetupStage::Creating(n) && cmd == SetupCommand::Create(n),
        None => run.stage is Done && cmd is Finished,
    }
}

/// The `RunSetup` command of one kind under a factory's configuration: the
/// task carries exactly the arguments the factory holds for the kind.
pub open spec fn run_setup_cmd_for(cmd: SetupCommand, k: ResourceType, f: ResourceFactory) -> bool {
    match k {
        ResourceType::Storage => cmd matches SetupCommand::RunSetup(SetupTask::Storage(a))
            && storage_args_match(a, f.storage_params),
        ResourceType::Queue => cmd matches SetupCommand::RunSetup(SetupTask::Queue(a))
            && queue_args_match(a, f.queue_params),
        ResourceType::Notification => cmd matches SetupCommand::RunSetup(
            SetupTask::Notification(a),
        ) && alert_args_match(a, f.alert_params),
        ResourceType::Cron => cmd matches SetupCommand::RunSetup(SetupTask::Cron(a))
            && cron_args_match(a, f.cron_params),
    }
}

/// The `PollReadiness` command of one kind under a factory's configuration:
/// the check carries exactly the kind's check arguments.
pub open spec fn poll_cmd_for(cmd: SetupCommand, k: ResourceType, f: ResourceFactory) -> bool {
    match k {
        ResourceType::Storage => cmd matches SetupCommand::PollReadiness(
            CheckTask::Storage { bucket_name },
        ) && bucket_name@ == f.storage_params.bucket_name@,
        ResourceType::Queue => cmd matches SetupCommand::PollReadiness(
            CheckTask::Queue { queue_base_url, args },
        ) && queue_base_url@ == f.queue_params.queue_base_url@ && queue_args_match(
            args,
            f.queue_params,
        ),
        ResourceType::Notification => cmd matches SetupCommand::PollReadiness(
            CheckTask::Notification { endpoint },
        ) && endpoint@ == f.alert_params.endpoint@,
        ResourceType::Cron => false,
    }
}

/// What leaving the queue-readiness wait looks like: with the queue ready
/// the trigger setup runs with the factory's trigger configuration; with the
/// deadline passed the trigger kind is skipped with a recorded error and the
/// run completes.
pub open spec fn await_verdict(
    f: ResourceFactory,
    run_before: SetupRun,
    run_after: SetupRun,
    cmd: SetupCommand,
) -> bool {
    if !run_before.gate.wants_check() {
        &&& run_after.stage is Done
        &&& cmd is Finished
        &&& run_after.failures@.len() == run_before.failures@.len() + 1
        &&& run_after.failures@.take(run_before.failures@.len() as int) == run_before.failures@
        &&& run_after.failures@.last().0 is Cron
        &&& (run_after.failures@.last().1 matches OrchestratorError::ResourceError(m) && m@
            == "Failed to setup cron because queues are not ready yet"@)
        &&& run_after.gate == run_before.gate
    } else if f.resource_status.spec_status(ResourceType::Queue) {
        &&& run_after.stage == SetupStage::SettingUp(ResourceType::Cron)
        &&& run_setup_cmd_for(cmd, ResourceType::Cron, f)
        &&& run_after.failures@ == run_before.failures@
        &&& run_after.gate == run_before.gate
    } else {
        &&& run_after.stage is AwaitingQueue
        &&& cmd is Sleep
        &&& run_after.failures@ == run_before.failures@
        &&& run_after.gate == run_before.gate
    }
}

/// The resource factory: the creator registry, the shared readiness table,
/// the provider handle and the per-kind configuration of one provisioning
/// run.
pub struct ResourceFactory {
    pub creators: CreatorTable,
    pub resource_status: ResourceStatusTable,
    pub cloud_provider: CloudProvider,
    pub queue_params: QueueArgs,
    pub cron_params: CronArgs,
    pub storage_params: StorageArgs,
    pub alert_params: AlertArgs,
    pub miscellaneous_params: MiscellaneousArgs,
}

impl ResourceFactory {
    /// A factory for the GCS provider, with no creator registered.
    pub fn new_with_gcs(
        cloud_provider: CloudProvider,
        queue_params: QueueArgs,
        cron_params: CronArgs,
        storage_params: StorageArgs,
        alert_params: AlertArgs,
        miscellaneous_params: MiscellaneousArgs,
    ) -> (r: ResourceFactory)
        ensures
            r.cloud_provider == cloud_provider,
            forall|t: ResourceType| #[trigger] r.creators.spec_get(t) is None,
            forall|t: ResourceType| #[trigger] r.resource_status.spec_recorded(t) is None,
            r.queue_params == queue_params,
            r.cron_params == cron_params,
            r.storage_params == storage_params,
            r.alert_params == alert_params,
            r.miscellaneous_params == miscellaneous_params,
    {
        ResourceFactory {
            creators: CreatorTable::empty(),
            resource_status: ResourceStatusTable::new(),
            cloud_provider,
            queue_params,
            cron_params,
            storage_params,
            alert_params,
            miscellaneous_params,
        }
    }

    /// A factory with the default AWS creators: each kind's slot holds
    /// exactly its own strategy.
    pub fn new_with_aws(
        cloud_provider: CloudProvider,
        queue_params: QueueArgs,
        cron_params: CronArgs,
        storage_params: StorageArgs,
        alert_params: AlertArgs,
        miscellaneous_params: MiscellaneousArgs,
    ) -> (r: ResourceFactory)
        ensures
            r.cloud_provider == cloud_provider,
            r.creators.spec_get(ResourceType::Storage) == Some(
                RegisteredCreator::S3(S3ResourceCreator),
            ),
            r.creators.spec_get(ResourceType::Queue) == Some(
                RegisteredCreator::Sqs(SQSResourceCreator),
            ),
            r.creators.spec_get(ResourceType::Cron) == Some(
                RegisteredCreator::EventBridge(EventBridgeResourceCreator),
            ),
            r.creators.spec_get(ResourceType::Notification) == Some(
                RegisteredCreator::Sns(SNSResourceCreator),
            ),
            forall|t: ResourceType| #[trigger] r.resource_status.spec_recorded(t) is None,
            r.queue_params == queue_params,
            r.cron_params == cron_params,
            r.storage_params == storage_params,
            r.alert_params == alert_params,
            r.miscellaneous_params == miscellaneous_params,
    {
        let mut creators = CreatorTable::empty();
        creators.put(ResourceType::Storage, RegisteredCreator::S3(S3ResourceCreator));
        creators.put(ResourceType::Queue, RegisteredCreator::Sqs(SQSResourceCreator));
        creators.put(
            ResourceType::Cron,
            RegisteredCreator::EventBridge(EventBridgeResourceCreator),
        );
        creators.put(ResourceType::Notification, RegisteredCreator::Sns(SNSResourceCreator));
        ResourceFactory {
            creators,
            resource_status: ResourceStatusTable::new(),
            cloud_provider,
            queue_params,
            cron_params,
            storage_params,
            alert_params,
            miscellaneous_params,
        }
    }

    /// Registers exactly the given creator for one kind, replacing any
    /// earlier one and leaving the other kinds' creators alone.
    pub fn register(&mut self, resource_type: ResourceType, creator: RegisteredCreator)
        ensures
            final(self).creators.spec_get(resource_type) == Some(creator),
            forall|t: ResourceType|
                t != resource_type ==> #[trigger] final(self).creators.spec_get(t) == old(self).creators.spec_get(t),
            final(self).resource_status == old(self).resource_status,
            final(self).cloud_provider == old(self).cloud_provider,
    {
        self.creators.put(resource_type, creator);
    }

    /// Builds a resource of the given kind with its registered creator: the
    /// creator's own contract decides success, and a kind with no registered
    /// creator fails with an error naming the kind.
    pub fn create_resource(
        &self,
        resource_type: ResourceType,
        cloud_provider: CloudProvider,
    ) -> (r: OrchestratorResult<ResourceWrapper>)
        ensures
            self.creators.spec_get(resource_type) matches Some(c) ==> {
                &&& r is Ok <==> c.accepts(cloud_provider)
                &&& (r matches Ok(w) ==> w.spec_kind() == c.kind() && w.spec_type() == c.kind()
                    && w.cloud_provider == cloud_provider)
                &&& (r matches Err(e) ==> e is InvalidCloudProviderError)
            },
            self.creators.spec_get(resource_type) is None ==> (r matches Err(
                OrchestratorError::ResourceError(m),
            ) && m@ == no_creator_msg(resource_type)),
    {
        match self.creators.get(resource_type) {
            Some(creator) => creator.create_resource(cloud_provider),
            None => Err(crate::registry::no_creator_error(resource_type)),
        }
    }

    /// Builds a resource for a kind given by name, mapping the name first:
    /// an unknown name fails with an error naming it, never falls back to a
    /// default kind.
    pub fn create_resource_from_str(
        &self,
        resource_type: &str,
        cloud_provider: CloudProvider,
    ) -> (r: OrchestratorResult<ResourceWrapper>)
        ensures
            crate::kinds::from_str_model(resource_type@) is None ==> (r matches Err(
                OrchestratorError::ResourceError(m),
            ) && m@ == unknown_kind_msg(resource_type@)),
            crate::kinds::from_str_model(resource_type@) matches Some(t) ==> (
            self.creators.spec_get(t) is None ==> (r matches Err(OrchestratorError::ResourceError(
                m,
            )) && m@ == no_creator_msg(t))),
            crate::kinds::from_str_model(resource_type@) matches Some(t) ==> (
            self.creators.spec_get(t) matches Some(c) ==> {
                &&& r is Ok <==> c.accepts(cloud_provider)
                &&& (r matches Ok(w) ==> w.spec_kind() == c.kind() && w.spec_type() == c.kind()
                    && w.cloud_provider == cloud_provider)
                &&& (r matches Err(e) ==> e is InvalidCloudProviderError)
            }),
    {
        match ResourceType::from_str(resource_type) {
            Some(rt) => self.create_resource(rt, cloud_provider),
            None => {
                let mut m = String::new();
                m.append("Unknown resource type: ");
                m.append(resource_type);
                Err(OrchestratorError::ResourceError(m))
            },
        }
    }

    /// Records the readiness of one kind in the shared table.
    pub fn update_resource_status(
        &mut self,
        resource_type: ResourceType,
        is_ready: bool,
    ) -> (r: OrchestratorResult<()>)
        ensures
            r is Ok,
            final(self).resource_status.spec_recorded(resource_type) == Some(is_ready),
            forall|t: ResourceType|
                t != resource_type ==> #[trigger] final(self).resource_status.spec_recorded(t)
                    == old(self).resource_status.spec_recorded(t),
            final(self).creators == old(self).creators,
            final(self).cloud_provider == old(self).cloud_provider,
    {
        self.resource_status.set(resource_type, is_ready);
        Ok(())
    }

    /// Reads the readiness of one kind: false when the kind was never
    /// recorded, never an error for that.
    pub fn get_resource_status(&self, resource_type: ResourceType) -> (r: OrchestratorResult<bool>)
        ensures
            r matches Ok(b) && b == self.resource_status.spec_status(resource_type),
    {
        Ok(self.resource_status.get(resource_type))
    }

    /// Begins a setup run: the first kind of the fixed priority order is
    /// created, the readiness poll is armed with the configured interval and
    /// deadline, and no failure is recorded yet.
    pub fn setup_resource_begin(&self) -> (r: (SetupRun, SetupCommand))
        ensures
            r.0.stage == SetupStage::Creating(ResourceType::Storage),
            r.1 == SetupCommand::Create(ResourceType::Storage),
            r.0.failures@.len() == 0,
            r.0.gate.interval == self.miscellaneous_params.poll_interval,
            r.0.gate.timeout == self.miscellaneous_params.timeout,
            r.0.gate.elapsed == 0,
    {
        let gate = PollGate::new(
            self.miscellaneous_params.poll_interval,
            self.miscellaneous_params.timeout,
        );
        let run = SetupRun {
            stage: SetupStage::Creating(ResourceType::Storage),
            gate,
            failures: Vec::new(),
        };
        (run, SetupCommand::Create(ResourceType::Storage))
    }

    /// Feeds the answer to the previous action in and returns the next one,
    /// binding each kind to its own configuration: a kind's setup runs with
    /// the factory's arguments for that kind, and its readiness poll with
    /// its check arguments.  A failed create or setup is recorded against
    /// its kind and the run moves to the next kind; a polled readiness is
    /// recorded in the shared table; the trigger kind waits on queue
    /// readiness under the deadline and is skipped with a recorded error
    /// when the deadline passes.
    pub fn setup_resource_step(&mut self, run: &mut SetupRun, event: SetupEvent) -> (cmd:
        SetupCommand)
        requires
            old(run).in_progress(),
            old(run).expects(&event),
        ensures
            // The shared table changes only on a poll answer; the rest of
            // the factory never changes.
            (forall|t: ResourceType|
                !(old(run).stage == SetupStage::Polling(t)) ==> #[trigger] final(self).resource_status.spec_recorded(t) == old(self).resource_status.spec_recorded(t)),
            final(self).creators == old(self).creators,
            final(self).cloud_provider == old(self).cloud_provider,
            final(self).miscellaneous_params == old(self).miscellaneous_params,
            final(self).queue_params == old(self).queue_params,
            final(self).cron_params == old(self).cron_params,
            final(self).storage_params == old(self).storage_params,
            final(self).alert_params == old(self).alert_params,
            // A built resource moves on to its setup, with its own
            // configuration.
            old(run).stage matches SetupStage::Creating(k) ==> (event matches SetupEvent::Created(
                res,
            ) ==> (res is Ok ==> (k is Cron ==> await_verdict(
                *old(self),
                *old(run),
                *final(run),
                cmd,
            )) && (!(k is Cron) ==> final(run).stage == SetupStage::SettingUp(k)
                && run_setup_cmd_for(cmd, k, *old(self)) && final(run).failures@ == old(run).failures@ && final(run).gate == old(run).gate))),
            // A failed build is recorded and the run moves to the next kind.
            old(run).stage matches SetupStage::Creating(k) ==> (event matches SetupEvent::Created(
                res,
            ) ==> (res matches Err(e) ==> moved_on(*final(run), cmd, k) && final(run).failures@
                == old(run).failures@.push((k, e)))),
            // A finished setup is polled with its own check arguments,
            // except for the trigger kind, which ends the run.
            old(run).stage matches SetupStage::SettingUp(k) ==> (event matches
                SetupEvent::SetupDone(res) ==> (res is Ok ==> (k is Cron ==> final(run).stage
                is Done && cmd is Finished && final(run).failures@ == old(run).failures@) && (!(k
                is Cron) ==> final(run).stage == SetupStage::Polling(k) && poll_cmd_for(
                cmd,
                k,
                *old(self),
            ) && final(run).failures@ == old(run).failures@))),
            // A failed setup is recorded and the run moves to the next kind.
            old(run).stage matches SetupStage::SettingUp(k) ==> (event matches
                SetupEvent::SetupDone(res) ==> (res matches Err(e) ==> moved_on(
                *final(run),
                cmd,
                k,
            ) && final(run).failures@ == old(run).failures@.push((k, e)))),
            // A poll answer is recorded in the shared table and the run
            // moves to the next kind.
            old(run).stage matches SetupStage::Polling(k) ==> (event matches SetupEvent::Polled(b)
                ==> moved_on(*final(run), cmd, k) && final(self).resource_status.spec_recorded(k)
                == Some(b) && final(run).failures@ == old(run).failures@),
            // The end of a sleep charges the wait and re-reads the table.
            old(run).stage is AwaitingQueue ==> (event is Slept ==> ({
                let charged = SetupRun {
                    gate: PollGate {
                        elapsed: (if old(run).gate.elapsed as int + old(run).gate.interval as int
                            > u64::MAX as int {
                            u64::MAX as u64
                        } else {
                            (old(run).gate.elapsed + old(run).gate.interval) as u64
                        }),
                        ..old(run).gate
                    },
                    ..*old(run)
                };
                await_verdict(*old(self), charged, *final(run), cmd)
            })),
    {
        match event {
            SetupEvent::Created(res) => {
                let k = match run.stage {
                    SetupStage::Creating(k) => k,
                    _ => {
                        proof {
                            assert(false);
                        }
                        ResourceType::Storage
                    },
                };
                match res {
                    Ok(_) => {
                        if k == ResourceType::Cron {
                            self.await_queue(run)
                        } else {
                            run.stage = SetupStage::SettingUp(k);
                            self.run_setup_command(k)
                        }
                    },
                    Err(e) => {
                        run.failures.push((k, e));
                        move_on(run, k)
                    },
                }
            },
            SetupEvent::SetupDone(res) => {
                let k = match run.stage {
                    SetupStage::SettingUp(k) => k,
                    _ => {
                        proof {
                            assert(false);
                        }
                        ResourceType::Storage
                    },
                };
                match res {
                    Ok(_) => {
                        if k == ResourceType::Cron {
                            run.stage = SetupStage::Done;
                            SetupCommand::Finished
                        } else {
                            run.stage = SetupStage::Polling(k);
                            self.poll_command(k)
                        }
                    },
                    Err(e) => {
                        run.failures.push((k, e));
                        move_on(run, k)
                    },
                }
            },
            SetupEvent::Polled(b) => {
                let k = match run.stage {
                    SetupStage::Polling(k) => k,
                    _ => {
                        proof {
                            assert(false);
                        }
                        ResourceType::Storage
                    },
                };
                self.resource_status.set(k, b);
                move_on(run, k)
            },
            SetupEvent::Slept => {
                run.gate.elapsed = match run.gate.elapsed.checked_add(run.gate.interval) {
                    Some(e) => e,
                    None => u64::MAX,
                };
                self.await_queue(run)
            },
        }
    }

    /// Builds the setup command of one kind with the factory's configuration
    /// for it.
    fn run_setup_command(&self, k: ResourceType) -> (cmd: SetupCommand)
        ensures
            run_setup_cmd_for(cmd, k, *self),
    {
        match k {
            ResourceType::Storage => SetupCommand::RunSetup(
                SetupTask::Storage(clone_storage_args(&self.storage_params)),
            ),
            ResourceType::Queue => SetupCommand::RunSetup(
                SetupTask::Queue(clone_queue_args(&self.queue_params)),
            ),
            ResourceType::Notification => SetupCommand::RunSetup(
                SetupTask::Notification(clone_alert_args(&self.alert_params)),
            ),
            ResourceType::Cron => SetupCommand::RunSetup(
                SetupTask::Cron(clone_cron_args(&self.cron_params)),
            ),
        }
    }

    /// Builds the readiness-poll command of one kind with the factory's
    /// check arguments for it.  The trigger kind is never polled.
    fn poll_command(&self, k: ResourceType) -> (cmd: SetupCommand)
        requires
            !(k is Cron),
        ensures
            poll_cmd_for(cmd, k, *self),
    {
        match k {
            ResourceType::Storage => SetupCommand::PollReadiness(
                CheckTask::Storage { bucket_name: self.storage_params.bucket_name.clone() },
            ),
            ResourceType::Queue => SetupCommand::PollReadiness(
                CheckTask::Queue {
                    queue_base_url: self.queue_params.queue_base_url.clone(),
                    args: clone_queue_args(&self.queue_params),
                },
            ),
            ResourceType::Notification => SetupCommand::PollReadiness(
                CheckTask::Notification { endpoint: self.alert_params.endpoint.clone() },
            ),
            ResourceType::Cron => {
                proof {
                    assert(false);
                }
                SetupCommand::Finished
            },
        }
    }

    /// Decides the queue-readiness wait: skip the trigger kind with an error
    /// once the deadline passed, run its setup with the factory's trigger
    /// configuration once the queue is ready, and sleep otherwise.
    fn await_queue(&self, run: &mut SetupRun) -> (cmd: SetupCommand)
        ensures
            await_verdict(*self, *old(run), *final(run), cmd),
    {
        if !run.gate.should_check() {
            let msg = String::from_str("Failed to setup cron because queues are not ready yet");
            let ghost before = run.failures@;
            run.failures.push((ResourceType::Cron, OrchestratorError::ResourceError(msg)));
            proof {
                assert(run.failures@.take(before.len() as int) =~= before);
            }
            run.stage = SetupStage::Done;
            SetupCommand::Finished
        } else if self.resource_status.get(ResourceType::Queue) {
            run.stage = SetupStage::SettingUp(ResourceType::Cron);
            self.run_setup_command(ResourceType::Cron)
        } else {
            run.stage = SetupStage::AwaitingQueue;
            SetupCommand::Sleep
        }
    }
}

/// Moves the run past one finished kind.
fn move_on(run: &mut SetupRun, k: ResourceType) -> (cmd: SetupCommand)
    ensures
        moved_on(*final(run), cmd, k),
        final(run).failures@ == old(run).failures@,
        final(run).gate == old(run).gate,
{
    match k {
        ResourceType::Storage => {
            run.stage = SetupStage::Creating(ResourceType::Queue);
            SetupCommand::Create(ResourceType::Queue)
        },
        ResourceType::Queue => {
            run.stage = SetupStage::Creating(ResourceType::Notification);
            SetupCommand::Create(ResourceType::Notification)
        },
        ResourceType::Notification => {
            run.stage = SetupStage::Creating(ResourceType::Cron);
            SetupCommand::Create(ResourceType::Cron)
        },
        ResourceType::Cron => {
            run.stage = SetupStage::Done;
            SetupCommand::Finished
        },
    }
}

} // verus!
