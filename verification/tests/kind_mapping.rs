use orchestrator::kinds::{worker_triggers, ResourceType, WorkerTriggerType};

#[test]
fn kind_names_map_to_their_kinds() {
    assert_eq!(ResourceType::from_str("queue"), Some(ResourceType::Queue));
    assert_eq!(ResourceType::from_str("storage"), Some(ResourceType::Storage));
    assert_eq!(ResourceType::from_str("cron"), Some(ResourceType::Cron));
    assert_eq!(
        ResourceType::from_str("notification"),
        Some(ResourceType::Notification)
    );
}

#[test]
fn kind_mapping_is_case_insensitive() {
    assert_eq!(ResourceType::from_str("Queue"), Some(ResourceType::Queue));
    assert_eq!(ResourceType::from_str("STORAGE"), Some(ResourceType::Storage));
    assert_eq!(ResourceType::from_str("CrOn"), Some(ResourceType::Cron));
    assert_eq!(
        ResourceType::from_str("NOTIFICATION"),
        Some(ResourceType::Notification)
    );
}

#[test]
fn unknown_kind_names_map_to_nothing() {
    assert_eq!(ResourceType::from_str("database"), None);
    assert_eq!(ResourceType::from_str(""), None);
    assert_eq!(ResourceType::from_str("queues"), None);
    assert_eq!(ResourceType::from_str(" queue"), None);
}

#[test]
fn worker_trigger_catalog_order_is_fixed() {
    let triggers = worker_triggers();
    assert_eq!(
        triggers,
        vec![
            WorkerTriggerType::Snos,
            WorkerTriggerType::Proving,
            WorkerTriggerType::DataSubmission,
            WorkerTriggerType::UpdateState,
        ]
    );
}
