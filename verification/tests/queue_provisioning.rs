use orchestrator::catalog::{DlqConfig, QueueSpec};
use orchestrator::naming::parse_redrive_policy;
use orchestrator::params::QueueArgs;
use orchestrator::queue_setup::{check_queues, setup_queues};
use orchestrator::registry::QueueResource;
use orchestrator::store::QueueStore;

fn args() -> QueueArgs {
    QueueArgs {
        prefix: "orch".to_string(),
        suffix: "q1".to_string(),
        queue_base_url: "https://q.example".to_string(),
    }
}

fn spec(name: &str, vis: u64, dlq: Option<u64>) -> QueueSpec {
    QueueSpec {
        name: name.to_string(),
        visibility_timeout: vis,
        dlq_config: dlq.map(|max_receive_count| DlqConfig { max_receive_count }),
    }
}

fn record_of<'a>(store: &QueueStore, name: &str) -> orchestrator::store::QueueRecord {
    let i = store.find_index_of_name(name).unwrap();
    store.record_at(i)
}

#[test]
fn setup_creates_one_queue_with_visibility_and_no_redrive() {
    let mut store = QueueStore::new("https://q.example".to_string());
    let catalog = vec![spec("jobs", 30, None)];
    let created = setup_queues(&mut store, &args(), &catalog).unwrap();
    assert_eq!(created, 1);
    assert_eq!(store.len(), 1);
    let rec = record_of(&store, "orch_jobs_q1");
    assert_eq!(rec.name, "orch_jobs_q1");
    assert_eq!(rec.url, "https://q.example/orch_jobs_q1");
    assert_eq!(rec.visibility_timeout, Some("30".to_string()));
    assert_eq!(rec.redrive_policy, None);
}

#[test]
fn setup_is_idempotent() {
    let mut store = QueueStore::new("https://q.example".to_string());
    let catalog = vec![spec("jobs", 30, None), spec("proofs", 60, Some(5))];
    let first = setup_queues(&mut store, &args(), &catalog).unwrap();
    assert_eq!(first, 2);
    let before: Vec<_> = (0..store.len()).map(|i| store.record_at(i)).collect();

    let second = setup_queues(&mut store, &args(), &catalog).unwrap();
    assert_eq!(second, 0);
    assert_eq!(store.len(), before.len());
    for (i, old) in before.iter().enumerate() {
        let now = store.record_at(i);
        assert_eq!(now.name, old.name);
        assert_eq!(now.url, old.url);
        assert_eq!(now.visibility_timeout, old.visibility_timeout);
        assert_eq!(now.redrive_policy, old.redrive_policy);
    }
}

#[test]
fn dlq_entries_get_a_parsable_redrive_attribute() {
    let mut store = QueueStore::new("https://q.example".to_string());
    let catalog = vec![spec("proofs", 60, Some(5))];
    setup_queues(&mut store, &args(), &catalog).unwrap();
    let rec = record_of(&store, "orch_proofs_q1");
    let payload = rec.redrive_policy.unwrap();
    let (arn, count) = parse_redrive_policy(payload.as_str()).unwrap();
    assert!(!arn.is_empty());
    assert_eq!(arn, rec.arn);
    assert_eq!(count, 5);
    assert_eq!(rec.visibility_timeout, Some("60".to_string()));
}

#[test]
fn check_is_a_conjunction_over_the_catalog() {
    let mut store = QueueStore::new("https://q.example".to_string());
    let catalog = vec![spec("jobs", 30, None), spec("proofs", 60, None)];
    assert!(!check_queues(&store, &args(), &catalog));

    let partial = vec![spec("jobs", 30, None)];
    setup_queues(&mut store, &args(), &partial).unwrap();
    assert!(!check_queues(&store, &args(), &catalog));

    setup_queues(&mut store, &args(), &catalog).unwrap();
    assert!(check_queues(&store, &args(), &catalog));
}

#[test]
fn teardown_removes_only_the_bound_queue() {
    let mut store = QueueStore::new("https://q.example".to_string());
    let catalog = vec![spec("jobs", 30, None), spec("proofs", 60, None)];
    setup_queues(&mut store, &args(), &catalog).unwrap();

    let bound = QueueResource {
        queue_url: Some("https://q.example/orch_jobs_q1".to_string()),
    };
    bound.teardown(&mut store).unwrap();
    assert_eq!(store.len(), 1);
    assert!(store.find_index_of_name("orch_jobs_q1").is_none());
    assert!(store.find_index_of_name("orch_proofs_q1").is_some());

    let unbound = QueueResource { queue_url: None };
    assert!(unbound.teardown(&mut store).is_err());
    assert_eq!(store.len(), 1);
}
