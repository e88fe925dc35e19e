//! The resource registry: a closed tagged union over the concrete resource
//! kinds, the wrapper binding an instance to its kind tag, and the creator
//! strategies that build wrapped resources from the cloud provider handle.
//! The registry itself is a compile-time table indexed by the closed kind
//! enumeration; only name-derived lookups keep a fallible path.

use crate::errors::{OrchestratorError, OrchestratorResult};
use crate::kinds::{kind_name, ResourceType};
use vstd::prelude::*;
use vstd::string::*;

verus! {

/// The opaque, variant-tagged cloud provider handle.  The authenticated
/// configuration itself lives with whoever makes the cloud calls; the
/// library only decides on the variant.
#[derive(Clone, Copy, PartialEq, Eq, Structural, Debug)]
pub enum CloudProvider {
    Aws,
    Gcs,
}

/// The lower-case name of a provider variant.
pub open spec fn provider_name(p: CloudProvider) -> Seq<char> {
    match p {
        CloudProvider::Aws => "aws"@,
        CloudProvider::Gcs => "gcs"@,
    }
}

impl CloudProvider {
    /// The lower-case label of a provider variant, for messages.
    pub fn label(&self) -> (r: &'static str)
        ensures
            r@ == provider_name(*self),
    {
        match self {
            CloudProvider::Aws => "aws",
            CloudProvider::Gcs => "gcs",
        }
    }
}

/// The queue resource instance: bound to at most one queue of its own.
#[derive(PartialEq, Eq, Debug)]
pub struct QueueResource {
    pub queue_url: Option<String>,
}

/// The storage resource instance.
#[derive(PartialEq, Eq, Debug)]
pub struct StorageResource {
    pub bucket_name: Option<String>,
}

/// The notification-topic resource instance.
#[derive(PartialEq, Eq, Debug)]
pub struct NotificationResource {
    pub topic_arn: Option<String>,
}

/// The scheduled-trigger resource instance.
#[derive(PartialEq, Eq, Debug)]
pub struct CronResource {
    pub rule_name: Option<String>,
}

/// One concrete resource, tagged by its variant.
#[derive(PartialEq, Eq, Debug)]
pub enum ResourceInstance {
    Queue(QueueResource),
    Storage(StorageResource),
    Cron(CronResource),
    Notification(NotificationResource),
}

/// The kind a concrete resource instance truly is.
pub open spec fn kind_of(inst: &ResourceInstance) -> ResourceType {
    match inst {
        ResourceInstance::Queue(_) => ResourceType::Queue,
        ResourceInstance::Storage(_) => ResourceType::Storage,
        ResourceInstance::Cron(_) => ResourceType::Cron,
        ResourceInstance::Notification(_) => ResourceType::Notification,
    }
}

/// Binds one concrete resource to its kind tag and the provider handle it
/// was built from.  A kind-specific unwrap that does not match the tag and
/// the true variant fails explicitly, never silently.
pub struct ResourceWrapper {
    pub resource: ResourceInstance,
    pub resource_type: ResourceType,
    pub cloud_provider: CloudProvider,
}

impl ResourceWrapper {
    /// The true variant of the held resource.
    pub open spec fn spec_kind(&self) -> ResourceType {
        kind_of(&self.resource)
    }

    /// The kind tag.
    pub open spec fn spec_type(&self) -> ResourceType {
        self.resource_type
    }

    /// Wraps a resource under a kind tag: the wrapper holds exactly the
    /// given resource, tag and provider handle.
    pub fn new(
        cloud_provider: CloudProvider,
        resource: ResourceInstance,
        resource_type: ResourceType,
    ) -> (r: ResourceWrapper)
        ensures
            r.resource == resource,
            r.resource_type == resource_type,
            r.cloud_provider == cloud_provider,
    {
        ResourceWrapper { cloud_provider, resource, resource_type }
    }

    /// The kind tag of the wrapper.
    pub fn get_type(&self) -> (r: &ResourceType)
        ensures
            *r == self.spec_type(),
    {
        &self.resource_type
    }

    /// The held resource, if it truly is of the expected kind and the tag
    /// agrees; nothing otherwise, never a wrong variant.
    pub fn downcast_ref(&self, expected: ResourceType) -> (r: Option<&ResourceInstance>)
        ensures
            r matches Some(inst) ==> *inst == self.resource && kind_of(inst) == expected
                && self.spec_type() == expected,
            r is None ==> !(self.spec_kind() == expected && self.spec_type() == expected),
    {
        if self.matches_kind(expected) {
            Some(&self.resource)
        } else {
            None
        }
    }

    /// The held resource for mutation, under the same matching rule as
    /// `downcast_ref`.
    pub fn downcast_mut(&mut self, expected: ResourceType) -> (r: Option<&mut ResourceInstance>)
        ensures
            old(self).spec_kind() == expected && old(self).spec_type() == expected ==> (r matches
                Some(inst) && *inst == old(self).resource && final(self).resource == *final(inst)),
            !(old(self).spec_kind() == expected && old(self).spec_type() == expected) ==> r is None
                && *final(self) == *old(self),
            final(self).spec_type() == old(self).spec_type(),
            final(self).cloud_provider == old(self).cloud_provider,
    {
        if self.matches_kind(expected) {
            Some(&mut self.resource)
        } else {
            None
        }
    }

    /// Whether the tag and the true variant both equal the expected kind.
    fn matches_kind(&self, expected: ResourceType) -> (r: bool)
        ensures
            r == (self.spec_kind() == expected && self.spec_type() == expected),
    {
        let tag_ok = self.resource_type == expected;
        let kind_ok = match &self.resource {
            ResourceInstance::Queue(_) => expected == ResourceType::Queue,
            ResourceInstance::Storage(_) => expected == ResourceType::Storage,
            ResourceInstance::Cron(_) => expected == ResourceType::Cron,
            ResourceInstance::Notification(_) => expected == ResourceType::Notification,
        };
        tag_ok && kind_ok
    }
}

/// A resource creation strategy: how to build a wrapped resource of one kind
/// from the provider handle.  Creation succeeds exactly on the providers the
/// strategy accepts; a mismatched provider yields a typed configuration
/// error, never a panic.
pub trait ResourceCreator {
    /// The kind this strategy builds.
    spec fn kind(&self) -> ResourceType;

    /// The provider variants this strategy can build from.
    spec fn accepts(&self, cloud_provider: CloudProvider) -> bool;

    /// Builds the wrapped resource from an accepted provider, or fails with
    /// a configuration error on any other.
    fn create_resource(&self, cloud_provider: CloudProvider) -> (r: OrchestratorResult<
        ResourceWrapper,
    >)
        ensures
            r is Ok <==> self.accepts(cloud_provider),
            r matches Ok(w) ==> w.spec_kind() == self.kind() && w.spec_type() == self.kind()
                && w.cloud_provider == cloud_provider,
            r matches Err(e) ==> e is InvalidCloudProviderError,
    ;
}

/// Builds storage resources on AWS.
#[derive(Clone, Copy, PartialEq, Eq, Structural, Debug)]
pub struct S3ResourceCreator;

impl ResourceCreator for S3ResourceCreator {
    open spec fn kind(&self) -> ResourceType {
        ResourceType::Storage
    }

    open spec fn accepts(&self, cloud_provider: CloudProvider) -> bool {
        cloud_provider is Aws
    }

    fn create_resource(&self, cloud_provider: CloudProvider) -> (r: OrchestratorResult<
        ResourceWrapper,
    >) {
        match cloud_provider {
            CloudProvider::Aws => Ok(
                ResourceWrapper::new(
                    cloud_provider,
                    ResourceInstance::Storage(StorageResource { bucket_name: None }),
                    ResourceType::Storage,
                ),
            ),
            _ => Err(
                OrchestratorError::InvalidCloudProviderError(
                    String::from_str("Mismatch Cloud Provider for S3Bucket resource"),
                ),
            ),
        }
    }
}

/// Builds queue resources on AWS.
#[derive(Clone, Copy, PartialEq, Eq, Structural, Debug)]
pub struct SQSResourceCreator;

impl ResourceCreator for SQSResourceCreator {
    open spec fn kind(&self) -> ResourceType {
        ResourceType::Queue
    }

    open spec fn accepts(&self, cloud_provider: CloudProvider) -> bool {
        cloud_provider is Aws
    }

    fn create_resource(&self, cloud_provider: CloudProvider) -> (r: OrchestratorResult<
        ResourceWrapper,
    >) {
        match cloud_provider {
            CloudProvider::Aws => Ok(
                ResourceWrapper::new(
                    cloud_provider,
                    ResourceInstance::Queue(QueueResource { queue_url: None }),
                    ResourceType::Queue,
                ),
            ),
            _ => Err(
                OrchestratorError::InvalidCloudProviderError(
                    String::from_str("Mismatch Cloud Provider for SQS resource"),
                ),
            ),
        }
    }
}

/// Builds notification-topic resources on AWS.
#[derive(Clone, Copy, PartialEq, Eq, Structural, Debug)]
pub struct SNSResourceCreator;

impl ResourceCreator for SNSResourceCreator {
    open spec fn kind(&self) -> ResourceType {
        ResourceType::Notification
    }

    open spec fn accepts(&self, cloud_provider: CloudProvider) -> bool {
        cloud_provider is Aws
    }

    fn create_resource(&self, cloud_provider: CloudProvider) -> (r: OrchestratorResult<
        ResourceWrapper,
    >) {
        match cloud_provider {
            CloudProvider::Aws => Ok(
                ResourceWrapper::new(
                    cloud_provider,
                    ResourceInstance::Notification(NotificationResource { topic_arn: None }),
                    ResourceType::Notification,
                ),
            ),
            _ => Err(
                OrchestratorError::InvalidCloudProviderError(
                    String::from_str("Mismatch Cloud Provider for SNS resource"),
                ),
            ),
        }
    }
}

/// Builds scheduled-trigger resources on AWS.
#[derive(Clone, Copy, PartialEq, Eq, Structural, Debug)]
pub struct EventBridgeResourceCreator;

impl ResourceCreator for EventBridgeResourceCreator {
    open spec fn kind(&self) -> ResourceType {
        ResourceType::Cron
    }

    open spec fn accepts(&self, cloud_provider: CloudProvider) -> bool {
        cloud_provider is Aws
    }

    fn create_resource(&self, cloud_provider: CloudProvider) -> (r: OrchestratorResult<
        ResourceWrapper,
    >) {
        match cloud_provider {
            CloudProvider::Aws => Ok(
                ResourceWrapper::new(
                    cloud_provider,
                    ResourceInstance::Cron(CronResource { rule_name: None }),
                    ResourceType::Cron,
                ),
            ),
            _ => Err(
                OrchestratorError::InvalidCloudProviderError(
                    String::from_str("Mismatch Cloud Provider for EventBridge resource"),
                ),
            ),
        }
    }
}

/// A registered creator strategy: one of the known kinds' strategies.  The
/// closed form keeps the registered value visible to the contracts; a
/// `dyn`-boxed strategy would not be.
#[derive(Clone, Copy, PartialEq, Eq, Structural, Debug)]
pub enum RegisteredCreator {
    S3(S3ResourceCreator),
    Sqs(SQSResourceCreator),
    Sns(SNSResourceCreator),
    EventBridge(EventBridgeResourceCreator),
}

impl RegisteredCreator {
    /// The kind the registered strategy builds.
    pub open spec fn kind(&self) -> ResourceType {
        match self {
            RegisteredCreator::S3(c) => c.kind(),
            RegisteredCreator::Sqs(c) => c.kind(),
            RegisteredCreator::Sns(c) => c.kind(),
            RegisteredCreator::EventBridge(c) => c.kind(),
        }
    }

    /// The provider variants the registered strategy can build from.
    pub open spec fn accepts(&self, cloud_provider: CloudProvider) -> bool {
        match self {
            RegisteredCreator::S3(c) => c.accepts(cloud_provider),
            RegisteredCreator::Sqs(c) => c.accepts(cloud_provider),
            RegisteredCreator::Sns(c) => c.accepts(cloud_provider),
            RegisteredCreator::EventBridge(c) => c.accepts(cloud_provider),
        }
    }

    /// Invokes the registered strategy, under the strategy contract.
    pub fn create_resource(&self, cloud_provider: CloudProvider) -> (r: OrchestratorResult<
        ResourceWrapper,
    >)
        ensures
            r is Ok <==> self.accepts(cloud_provider),
            r matches Ok(w) ==> w.spec_kind() == self.kind() && w.spec_type() == self.kind()
                && w.cloud_provider == cloud_provider,
            r matches Err(e) ==> e is InvalidCloudProviderError,
    {
        match self {
            RegisteredCreator::S3(c) => c.create_resource(cloud_provider),
            RegisteredCreator::Sqs(c) => c.create_resource(cloud_provider),
            RegisteredCreator::Sns(c) => c.create_resource(cloud_provider),
            RegisteredCreator::EventBridge(c) => c.create_resource(cloud_provider),
        }
    }
}

/// A compile-time creator table indexed by the closed kind enumeration.
pub struct CreatorTable {
    pub storage: Option<RegisteredCreator>,
    pub queue: Option<RegisteredCreator>,
    pub cron: Option<RegisteredCreator>,
    pub notification: Option<RegisteredCreator>,
}

impl CreatorTable {
    /// The slot of one kind.
    pub open spec fn spec_get(&self, resource_type: ResourceType) -> Option<RegisteredCreator> {
        match resource_type {
            ResourceType::Storage => self.storage,
            ResourceType::Queue => self.queue,
            ResourceType::Cron => self.cron,
            ResourceType::Notification => self.notification,
        }
    }

    /// An empty table.
    pub fn empty() -> (r: CreatorTable)
        ensures
            forall|t: ResourceType| #[trigger] r.spec_get(t) is None,
    {
        CreatorTable { storage: None, queue: None, cron: None, notification: None }
    }

    /// Puts exactly the given creator into the slot of one kind, leaving the
    /// other slots alone.
    pub fn put(&mut self, resource_type: ResourceType, creator: RegisteredCreator)
        ensures
            final(self).spec_get(resource_type) == Some(creator),
            forall|t: ResourceType|
                t != resource_type ==> #[trigger] final(self).spec_get(t) == old(self).spec_get(t),
    {
        match resource_type {
            ResourceType::Storage => {
                self.storage = Some(creator);
            },
            ResourceType::Queue => {
                self.queue = Some(creator);
            },
            ResourceType::Cron => {
                self.cron = Some(creator);
            },
            ResourceType::Notification => {
                self.notification = Some(creator);
            },
        }
    }

    /// The creator of one kind, if registered.
    pub fn get(&self, resource_type: ResourceType) -> (r: &Option<RegisteredCreator>)
        ensures
            *r == self.spec_get(resource_type),
    {
        match resource_type {
            ResourceType::Storage => &self.storage,
            ResourceType::Queue => &self.queue,
            ResourceType::Cron => &self.cron,
            ResourceType::Notification => &self.notification,
        }
    }
}

/// The message reported when a kind has no registered creator.
pub open spec fn no_creator_msg(resource_type: ResourceType) -> Seq<char> {
    "No creator registered for resource type "@ + kind_name(resource_type)
}

/// The message reported when a kind name maps to no kind.
pub open spec fn unknown_kind_msg(name: Seq<char>) -> Seq<char> {
    "Unknown resource type: "@ + name
}

/// Builds the no-creator error for one kind.
pub fn no_creator_error(resource_type: ResourceType) -> (r: OrchestratorError)
    ensures
        r matches OrchestratorError::ResourceError(m) && m@ == no_creator_msg(resource_type),
{
    let mut m = String::new();
    m.append("No creator registered for resource type ");
    m.append(resource_type.label());
    OrchestratorError::ResourceError(m)
}

/// The resource factory of the registry layer: creators per kind, bound to
/// one provider handle.
pub struct ResourceFactory {
    pub creators: CreatorTable,
    pub cloud_provider: CloudProvider,
}

impl ResourceFactory {
    /// A factory for the GCS provider.  No creator is registered for it.
    pub fn new_with_gcs(cloud_provider: CloudProvider) -> (r: ResourceFactory)
        ensures
            r.cloud_provider == cloud_provider,
            forall|t: ResourceType| #[trigger] r.creators.spec_get(t) is None,
    {
        ResourceFactory { creators: CreatorTable::empty(), cloud_provider }
    }

    /// A factory with the default AWS creators for storage and queues: the
    /// storage slot holds the S3 strategy and the queue slot the SQS
    /// strategy, the other slots are empty.
    pub fn new_with_aws(cloud_provider: CloudProvider) -> (r: ResourceFactory)
        ensures
            r.cloud_provider == cloud_provider,
            r.creators.spec_get(ResourceType::Storage) == Some(
                RegisteredCreator::S3(S3ResourceCreator),
            ),
            r.creators.spec_get(ResourceType::Queue) == Some(
                RegisteredCreator::Sqs(SQSResourceCreator),
            ),
            r.creators.spec_get(ResourceType::Cron) is None,
            r.creators.spec_get(ResourceType::Notification) is None,
    {
        let mut creators = CreatorTable::empty();
        creators.put(ResourceType::Storage, RegisteredCreator::S3(S3ResourceCreator));
        creators.put(ResourceType::Queue, RegisteredCreator::Sqs(SQSResourceCreator));
        ResourceFactory { creators, cloud_provider }
    }

    /// Registers exactly the given creator for one kind, replacing any
    /// earlier one and leaving the other kinds' creators alone.
    pub fn register(&mut self, resource_type: ResourceType, creator: RegisteredCreator)
        ensures
            final(self).creators.spec_get(resource_type) == Some(creator),
            forall|t: ResourceType|
                t != resource_type ==> #[trigger] final(self).creators.spec_get(t) == old(
                    self,
                ).creators.spec_get(t),
            final(self).cloud_provider == old(self).cloud_provider,
    {
        self.creators.put(resource_type, creator);
    }

    /// Builds a resource of the given kind with its registered creator: the
    /// creator's own contract decides success, and a kind with no registered
    /// creator fails with an error naming the kind.
    pub fn create_resource(
        &self,
        resource_type: ResourceType,
        cloud_provider: CloudProvider,
    ) -> (r: OrchestratorResult<ResourceWrapper>)
        ensures
            self.creators.spec_get(resource_type) matches Some(c) ==> {
                &&& r is Ok <==> c.accepts(cloud_provider)
                &&& (r matches Ok(w) ==> w.spec_kind() == c.kind() && w.spec_type() == c.kind()
                    && w.cloud_provider == cloud_provider)
                &&& (r matches Err(e) ==> e is InvalidCloudProviderError)
            },
            self.creators.spec_get(resource_type) is None ==> (r matches Err(
                OrchestratorError::ResourceError(m),
            ) && m@ == no_creator_msg(resource_type)),
    {
        match self.creators.get(resource_type) {
            Some(creator) => creator.create_resource(cloud_provider),
            None => Err(no_creator_error(resource_type)),
        }
    }

    /// Builds a resource for a kind given by name, mapping the name first:
    /// an unknown name fails with an error naming it, never falls back to a
    /// default kind.
    pub fn create_resource_from_str(
        &self,
        resource_type: &str,
        cloud_provider: CloudProvider,
    ) -> (r: OrchestratorResult<ResourceWrapper>)
        ensures
            crate::kinds::from_str_model(resource_type@) is None ==> (r matches Err(
                OrchestratorError::ResourceError(m),
            ) && m@ == unknown_kind_msg(resource_type@)),
            crate::kinds::from_str_model(resource_type@) matches Some(t) ==> (
            self.creators.spec_get(t) is None ==> (r matches Err(OrchestratorError::ResourceError(
                m,
            )) && m@ == no_creator_msg(t))),
            crate::kinds::from_str_model(resource_type@) matches Some(t) ==> (
            self.creators.spec_get(t) matches Some(c) ==> {
                &&& r is Ok <==> c.accepts(cloud_provider)
                &&& (r matches Ok(w) ==> w.spec_kind() == c.kind() && w.spec_type() == c.kind()
                    && w.cloud_provider == cloud_provider)
                &&& (r matches Err(e) ==> e is InvalidCloudProviderError)
            }),
    {
        match ResourceType::from_str(resource_type) {
            Some(rt) => self.create_resource(rt, cloud_provider),
            None => {
                let mut m = String::new();
                m.append("Unknown resource type: ");
                m.append(resource_type);
                Err(OrchestratorError::ResourceError(m))
            },
        }
    }
}

/// Prepares the resource set for a provisioning run: an AWS provider gets a
/// factory with the default creators; any other provider is rejected with a
/// configuration error naming it.
pub fn setup(cloud_provider: CloudProvider) -> (r: OrchestratorResult<Vec<ResourceWrapper>>)
    ensures
        cloud_provider is Aws ==> (r matches Ok(v) && v@.len() == 0),
        !(cloud_provider is Aws) ==> (r matches Err(
            OrchestratorError::InvalidCloudProviderError(m),
        ) && m@ == "Invalid cloud provider: "@ + provider_name(cloud_provider)),
{
    match cloud_provider {
        CloudProvider::Aws => {
            let factory = ResourceFactory::new_with_aws(cloud_provider);
            let setup_resources: Vec<ResourceWrapper> = Vec::new();
            Ok(setup_resources)
        },
        _ => {
            let mut m = String::new();
            m.append("Invalid cloud provider: ");
            m.append(cloud_provider.label());
            Err(OrchestratorError::InvalidCloudProviderError(m))
        },
    }
}

} // verus!
