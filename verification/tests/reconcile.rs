use autocluster::json::JsonValue;
use autocluster::object::{extract_key, watched_identity, Label, WatchedObject};
use autocluster::reconcile::{
    dispatch, CreateError, CreateResult, QueryError, ReconcileError, ReconcileOutcome,
    ReconcilePhase, Reconciliation,
};

fn obj_with_labels(pairs: &[(&str, &str)]) -> WatchedObject {
    WatchedObject {
        name: "node-1".to_string(),
        namespace: None,
        labels: pairs
            .iter()
            .map(|(k, v)| Label { key: k.to_string(), value: v.to_string() })
            .collect(),
    }
}

fn field<'a>(v: &'a JsonValue, key: &str) -> &'a JsonValue {
    match v.get_field(key) {
        Some(inner) => inner,
        None => panic!("object has no field named {}", key),
    }
}

fn str_of(v: &JsonValue) -> &str {
    match v {
        JsonValue::Str(s) => s.as_str(),
        _ => panic!("not a string"),
    }
}

#[test]
fn unlabeled_object_is_dropped() {
    let obj = obj_with_labels(&[]);
    assert!(extract_key(&obj).is_none());
    assert!(dispatch(&obj).is_none());
}

#[test]
fn unrelated_labels_are_dropped() {
    let obj = obj_with_labels(&[("app", "demo"), ("tier", "edge")]);
    assert!(extract_key(&obj).is_none());
    assert!(dispatch(&obj).is_none());
}

#[test]
fn routing_label_yields_key() {
    let obj = obj_with_labels(&[("app", "demo"), ("autoClusterName", "east-1")]);
    assert_eq!(extract_key(&obj).unwrap(), "east-1");
    let run = dispatch(&obj).unwrap();
    assert_eq!(run.key, "east-1");
    assert!(matches!(run.phase, ReconcilePhase::Probing));
}

#[test]
fn existing_cluster_skips_creation() {
    let mut run = Reconciliation::start("east-1".to_string());
    let action = run.on_probe(Ok(2));
    assert!(action.is_none());
    let outcome = run.into_outcome().unwrap();
    assert!(matches!(outcome, ReconcileOutcome::AlreadySatisfied));
    assert!(!outcome.is_failure());
}

#[test]
fn query_error_fails_without_creation() {
    let mut run = Reconciliation::start("east-1".to_string());
    let action = run.on_probe(Err(QueryError { detail: "listing timed out".to_string() }));
    assert!(action.is_none());
    let outcome = run.into_outcome().unwrap();
    assert!(outcome.is_failure());
    match outcome {
        ReconcileOutcome::Failed(ReconcileError::Query(e)) => {
            assert_eq!(e.detail, "listing timed out");
        }
        _ => panic!("expected a query failure"),
    }
}

#[test]
fn absent_cluster_provisions_pair() {
    let mut run = Reconciliation::start("test-cluster".to_string());

    let query = run.existence_query();
    assert_eq!(query.kind, "Cluster");
    assert_eq!(query.name_equals, "test-cluster");

    let selector = run.on_probe(Ok(0)).expect("selector creation expected");
    assert_eq!(selector.object_name, "test-cluster");
    assert_eq!(selector.target_kind, "MachineInventorySelectorTemplate");
    assert_eq!(selector.target_namespace, "fleet_default");
    let match_label = field(
        &field(
            &field(&field(&field(&selector.payload, "spec"), "template"), "spec"),
            "selector",
        ),
        "matchLabels",
    );
    assert_eq!(str_of(field(match_label, "autoClusterName")), "test-cluster");

    let cluster = run.on_create(CreateResult::Created).expect("cluster creation expected");
    assert_eq!(cluster.object_name, "test-cluster");
    assert_eq!(cluster.target_kind, "Cluster");
    assert_eq!(cluster.target_group, "provisioning.cattle.io");
    let rke = field(&field(&cluster.payload, "spec"), "rkeConfig");
    let pools = match field(rke, "machinePools") {
        JsonValue::Arr(pools) => pools,
        _ => panic!("machinePools is not an array"),
    };
    assert_eq!(pools.len(), 1);
    let config_ref = field(&pools[0], "machineConfigRef");
    assert_eq!(str_of(field(config_ref, "name")), "test-cluster");
    match field(&pools[0], "quantity") {
        JsonValue::Int(n) => assert_eq!(*n, 5),
        _ => panic!("quantity is not a number"),
    }

    let done = run.on_create(CreateResult::Created);
    assert!(done.is_none());
    let outcome = run.into_outcome().unwrap();
    assert!(matches!(outcome, ReconcileOutcome::Provisioned));
}

#[test]
fn duplicate_key_second_run_conflicts_noop() {
    // Both runs observe "does not exist"; the second one's creation conflicts.
    let mut first = Reconciliation::start("east-1".to_string());
    assert!(first.on_probe(Ok(0)).is_some());
    assert!(first.on_create(CreateResult::Created).is_some());
    assert!(first.on_create(CreateResult::Created).is_none());
    assert!(matches!(first.into_outcome().unwrap(), ReconcileOutcome::Provisioned));

    let mut second = Reconciliation::start("east-1".to_string());
    assert!(second.on_probe(Ok(0)).is_some());
    let after_conflict = second.on_create(CreateResult::Conflict);
    assert!(after_conflict.is_none());
    let outcome = second.into_outcome().unwrap();
    assert!(matches!(outcome, ReconcileOutcome::ConflictSkipped));
    assert!(!outcome.is_failure());
}

#[test]
fn conflict_on_cluster_creation_is_noop() {
    let mut run = Reconciliation::start("east-1".to_string());
    assert!(run.on_probe(Ok(0)).is_some());
    assert!(run.on_create(CreateResult::Created).is_some());
    assert!(run.on_create(CreateResult::Conflict).is_none());
    let outcome = run.into_outcome().unwrap();
    assert!(matches!(outcome, ReconcileOutcome::ConflictSkipped));
    assert!(!outcome.is_failure());
}

#[test]
fn create_failure_is_reported() {
    let mut run = Reconciliation::start("east-1".to_string());
    assert!(run.on_probe(Ok(0)).is_some());
    let action = run.on_create(CreateResult::Failed(CreateError {
        detail: "forbidden".to_string(),
    }));
    assert!(action.is_none());
    let outcome = run.into_outcome().unwrap();
    assert!(outcome.is_failure());
    match outcome {
        ReconcileOutcome::Failed(ReconcileError::Create(e)) => assert_eq!(e.detail, "forbidden"),
        _ => panic!("expected a creation failure"),
    }
}

#[test]
fn redelivered_object_safe_after_reconnect() {
    // A reconnect redelivers the same still-existing object; reconciling its
    // key again is safe: the probe now finds the cluster object.
    let obj = obj_with_labels(&[("autoClusterName", "east-1")]);

    let mut first = dispatch(&obj).expect("labeled object must dispatch");
    assert!(first.on_probe(Ok(0)).is_some());
    assert!(first.on_create(CreateResult::Created).is_some());
    assert!(first.on_create(CreateResult::Created).is_none());
    assert!(matches!(first.into_outcome().unwrap(), ReconcileOutcome::Provisioned));

    let mut second = dispatch(&obj).expect("redelivered object must dispatch");
    assert_eq!(second.key, "east-1");
    assert!(second.on_probe(Ok(1)).is_none());
    assert!(matches!(second.into_outcome().unwrap(), ReconcileOutcome::AlreadySatisfied));
}

#[test]
fn empty_key_settles_as_invalid() {
    let mut run = Reconciliation::start(String::new());
    let action = run.on_probe(Ok(0));
    assert!(action.is_none());
    let outcome = run.into_outcome().unwrap();
    assert!(matches!(outcome, ReconcileOutcome::Failed(ReconcileError::InvalidKey)));
}

#[test]
fn unsettled_run_has_no_outcome() {
    let run = Reconciliation::start("east-1".to_string());
    assert!(!run.is_settled());
    assert!(run.into_outcome().is_none());
}

#[test]
fn existence_query_targets_cluster_by_name() {
    let run = Reconciliation::start("east-1".to_string());
    let query = run.existence_query();
    assert_eq!(query.group, "provisioning.cattle.io");
    assert_eq!(query.version, "v1");
    assert_eq!(query.kind, "Cluster");
    assert_eq!(query.namespace, "fleet_default");
    assert_eq!(query.field_selector(), "metadata.name=east-1");
}

#[test]
fn identity_defaults_and_overrides() {
    let d = watched_identity(None, None, None);
    assert_eq!(d.group, "elemental.cattle.io");
    assert_eq!(d.version, "v1beta1");
    assert_eq!(d.kind, "MachineInventory");

    let o = watched_identity(Some("example.io".to_string()), None, Some("Widget".to_string()));
    assert_eq!(o.group, "example.io");
    assert_eq!(o.version, "v1beta1");
    assert_eq!(o.kind, "Widget");
}
