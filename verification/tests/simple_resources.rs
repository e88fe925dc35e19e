use orchestrator::errors::OrchestratorError;
use orchestrator::kinds::ResourceType;
use orchestrator::registry::{
    setup, CloudProvider, EventBridgeResourceCreator, RegisteredCreator, ResourceCreator,
    ResourceFactory, ResourceInstance, ResourceWrapper, S3ResourceCreator, SNSResourceCreator,
    SQSResourceCreator, StorageResource,
};
use orchestrator::simple_setup::{setup_simple, NameStore};

#[test]
fn simple_setup_creates_when_absent_and_skips_when_present() {
    let mut store = NameStore::new();
    setup_simple(&mut store, "alerts").unwrap();
    assert_eq!(store.names.len(), 1);
    assert!(store.probe("alerts"));

    setup_simple(&mut store, "alerts").unwrap();
    assert_eq!(store.names.len(), 1);

    setup_simple(&mut store, "bucket").unwrap();
    assert_eq!(store.names.len(), 2);
    assert!(store.probe("bucket"));
    assert!(!store.probe("missing"));
}

#[test]
fn wrapper_holds_exactly_what_it_was_given() {
    let instance = ResourceInstance::Storage(StorageResource {
        bucket_name: Some("bucket".to_string()),
    });
    let w = ResourceWrapper::new(CloudProvider::Aws, instance, ResourceType::Storage);
    assert_eq!(w.cloud_provider, CloudProvider::Aws);
    let held = w.downcast_ref(ResourceType::Storage).unwrap();
    assert_eq!(
        *held,
        ResourceInstance::Storage(StorageResource { bucket_name: Some("bucket".to_string()) })
    );
}

#[test]
fn wrapper_unwraps_only_its_own_kind() {
    let instance = ResourceInstance::Storage(StorageResource { bucket_name: None });
    let mut w = ResourceWrapper::new(CloudProvider::Aws, instance, ResourceType::Storage);
    assert_eq!(*w.get_type(), ResourceType::Storage);
    assert!(w.downcast_ref(ResourceType::Storage).is_some());
    assert!(w.downcast_ref(ResourceType::Queue).is_none());
    assert!(w.downcast_mut(ResourceType::Storage).is_some());
    assert!(w.downcast_mut(ResourceType::Cron).is_none());
}

#[test]
fn a_mismatched_tag_never_unwraps() {
    let instance = ResourceInstance::Storage(StorageResource { bucket_name: None });
    let w = ResourceWrapper::new(CloudProvider::Aws, instance, ResourceType::Queue);
    assert!(w.downcast_ref(ResourceType::Storage).is_none());
    assert!(w.downcast_ref(ResourceType::Queue).is_none());
}

#[test]
fn creators_succeed_exactly_on_the_aws_provider() {
    assert!(matches!(
        S3ResourceCreator.create_resource(CloudProvider::Gcs),
        Err(OrchestratorError::InvalidCloudProviderError(_))
    ));
    assert!(matches!(
        SQSResourceCreator.create_resource(CloudProvider::Gcs),
        Err(OrchestratorError::InvalidCloudProviderError(_))
    ));
    assert!(matches!(
        SNSResourceCreator.create_resource(CloudProvider::Gcs),
        Err(OrchestratorError::InvalidCloudProviderError(_))
    ));
    assert!(matches!(
        EventBridgeResourceCreator.create_resource(CloudProvider::Gcs),
        Err(OrchestratorError::InvalidCloudProviderError(_))
    ));

    assert_eq!(
        *S3ResourceCreator.create_resource(CloudProvider::Aws).unwrap().get_type(),
        ResourceType::Storage
    );
    assert_eq!(
        *SQSResourceCreator.create_resource(CloudProvider::Aws).unwrap().get_type(),
        ResourceType::Queue
    );
    assert_eq!(
        *SNSResourceCreator.create_resource(CloudProvider::Aws).unwrap().get_type(),
        ResourceType::Notification
    );
    assert_eq!(
        *EventBridgeResourceCreator.create_resource(CloudProvider::Aws).unwrap().get_type(),
        ResourceType::Cron
    );
}

#[test]
fn factory_creates_by_kind_and_by_name() {
    let f = ResourceFactory::new_with_aws(CloudProvider::Aws);
    let w = f
        .create_resource(ResourceType::Storage, CloudProvider::Aws)
        .unwrap();
    assert_eq!(*w.get_type(), ResourceType::Storage);
    // No creator registered for the trigger kind in this registry: the
    // error names the kind.
    match f.create_resource(ResourceType::Cron, CloudProvider::Aws) {
        Err(OrchestratorError::ResourceError(m)) => {
            assert_eq!(m, "No creator registered for resource type cron");
        }
        other => panic!("unexpected result: {:?}", other.is_ok()),
    }

    let w = f
        .create_resource_from_str("QUEUE", CloudProvider::Aws)
        .unwrap();
    assert_eq!(*w.get_type(), ResourceType::Queue);
    match f.create_resource_from_str("database", CloudProvider::Aws) {
        Err(OrchestratorError::ResourceError(m)) => {
            assert_eq!(m, "Unknown resource type: database");
        }
        other => panic!("unexpected result: {:?}", other.is_ok()),
    }
}

#[test]
fn registering_a_creator_fills_exactly_its_slot() {
    let mut f = ResourceFactory::new_with_gcs(CloudProvider::Gcs);
    assert!(f.create_resource(ResourceType::Storage, CloudProvider::Gcs).is_err());
    f.register(ResourceType::Storage, RegisteredCreator::S3(S3ResourceCreator));
    // The registered creator is the one invoked: it still rejects the GCS
    // provider, while the other slots stay empty.
    assert!(matches!(
        f.create_resource(ResourceType::Storage, CloudProvider::Gcs),
        Err(OrchestratorError::InvalidCloudProviderError(_))
    ));
    assert!(matches!(
        f.create_resource(ResourceType::Queue, CloudProvider::Gcs),
        Err(OrchestratorError::ResourceError(_))
    ));
    assert_eq!(
        *f.create_resource(ResourceType::Storage, CloudProvider::Aws).unwrap().get_type(),
        ResourceType::Storage
    );
}

#[test]
fn run_setup_rejects_a_non_aws_provider() {
    assert!(setup(CloudProvider::Aws).is_ok());
    match setup(CloudProvider::Gcs) {
        Err(OrchestratorError::InvalidCloudProviderError(m)) => {
            assert_eq!(m, "Invalid cloud provider: gcs");
        }
        other => panic!("unexpected result: {:?}", other.is_ok()),
    }
}
