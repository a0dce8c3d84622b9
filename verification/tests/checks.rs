use kdash::resources::{
    KubePVC, KubePod, KubeReplicaSet, PodCondition, PodStatus, PvcStatus, ReplicaSetStatus,
    Timestamp,
};
use kdash::troubleshoot::{DisplayFinding, ResourceKind, Severity};
use kdash::troubleshoot_pod::evaluate_pod_findings;
use kdash::troubleshoot_pvc::evaluate_pvc_findings;
use kdash::troubleshoot_rs::evaluate_rs_findings;

fn cond(reason: Option<&str>, message: Option<&str>, t: Option<(i64, u32)>) -> PodCondition {
    PodCondition {
        reason: reason.map(|s| s.to_string()),
        message: message.map(|s| s.to_string()),
        last_transition_time: t.map(|(seconds, nanos)| Timestamp { seconds, nanos }),
    }
}

fn pod(name: &str, phase: Option<&str>, conditions: Option<Vec<PodCondition>>) -> KubePod {
    KubePod {
        name: name.into(),
        namespace: "default".into(),
        age: "3d".into(),
        status: Some(PodStatus { phase: phase.map(|s| s.to_string()), reason: None, message: None, conditions }),
    }
}

#[test]
fn pod_findings_use_latest_condition() {
    let conds = vec![
        cond(Some("Old"), Some("old message"), Some((100, 0))),
        cond(Some("Newest"), Some("newest message"), Some((200, 5))),
        cond(Some("Tie"), Some("tie message"), Some((200, 5))),
        cond(Some("NoTime"), None, None),
    ];
    let found = evaluate_pod_findings(&[pod("p", Some("Pending"), Some(conds))]);
    assert_eq!(
        found,
        vec![DisplayFinding {
            severity: Severity::Info,
            reason: "Newest".into(),
            resource_kind: ResourceKind::Pod,
            namespace: Some("default".into()),
            resource_name: "p".into(),
            message: "newest message".into(),
            age: "3d".into(),
            describe_kind: "pod".into(),
            describe_name: "p".into(),
            describe_namespace: Some("default".into()),
        }]
    );
}

#[test]
fn pod_findings_without_conditions_say_not_available() {
    let found = evaluate_pod_findings(&[
        pod("ok", Some("Running"), None),
        pod("bad", Some("Failed"), None),
        pod("lost", None, Some(vec![cond(None, None, Some((1, 0)))])),
        pod("done", Some("Succeeded"), None),
    ]);
    assert_eq!(found.len(), 2);
    assert_eq!(found[0].resource_name, "bad");
    assert_eq!(found[0].severity, Severity::Critical);
    assert_eq!(found[0].reason, "N/A");
    assert_eq!(found[0].message, "N/A");
    assert_eq!(found[1].resource_name, "lost");
    assert_eq!(found[1].severity, Severity::Warn);
    assert_eq!(found[1].reason, "N/A");
}

#[test]
fn pod_condition_order_prefers_later_nanos() {
    let conds = vec![cond(Some("A"), None, Some((50, 1))), cond(Some("B"), None, Some((50, 2)))];
    let found = evaluate_pod_findings(&[pod("p", Some("Unknown"), Some(conds))]);
    assert_eq!(found[0].reason, "B");
    assert_eq!(found[0].message, "N/A");
}

fn pvc(name: &str, status: Option<PvcStatus>) -> KubePVC {
    KubePVC { name: name.into(), namespace: "data".into(), age: "7d".into(), status }
}

#[test]
fn pvc_findings_report_claims_not_bound() {
    let found = evaluate_pvc_findings(&[
        pvc("bound", Some(PvcStatus { phase: Some("Bound".into()) })),
        pvc("pending", Some(PvcStatus { phase: Some("Pending".into()) })),
        pvc("nostatus", None),
    ]);
    assert_eq!(
        found,
        vec![
            DisplayFinding {
                severity: Severity::Warn,
                reason: "Pending".into(),
                resource_kind: ResourceKind::Pvc,
                namespace: Some("data".into()),
                resource_name: "pending".into(),
                message: "PVC phase is Pending".into(),
                age: "7d".into(),
                describe_kind: "persistentvolumeclaim".into(),
                describe_name: "pending".into(),
                describe_namespace: Some("data".into()),
            },
            DisplayFinding {
                severity: Severity::Warn,
                reason: "Unknown".into(),
                resource_kind: ResourceKind::Pvc,
                namespace: Some("data".into()),
                resource_name: "nostatus".into(),
                message: "PVC phase is Unknown".into(),
                age: "7d".into(),
                describe_kind: "persistentvolumeclaim".into(),
                describe_name: "nostatus".into(),
                describe_namespace: Some("data".into()),
            },
        ]
    );
}

fn rs(name: &str, status: Option<ReplicaSetStatus>) -> KubeReplicaSet {
    KubeReplicaSet { name: name.into(), namespace: "apps".into(), age: "1h".into(), status }
}

#[test]
fn rs_findings_report_count_mismatch() {
    let found = evaluate_rs_findings(&[
        rs("steady", Some(ReplicaSetStatus { available_replicas: Some(3), fully_labeled_replicas: Some(3), ready_replicas: Some(3), replicas: 3 })),
        rs("rolling", Some(ReplicaSetStatus { available_replicas: Some(1), fully_labeled_replicas: None, ready_replicas: Some(2), replicas: 3 })),
        rs("empty", None),
        rs("zero", Some(ReplicaSetStatus { available_replicas: None, fully_labeled_replicas: None, ready_replicas: None, replicas: 0 })),
        rs("odd", Some(ReplicaSetStatus { available_replicas: Some(-1), fully_labeled_replicas: Some(i32::MIN), ready_replicas: Some(i32::MAX), replicas: 10 })),
    ]);
    assert_eq!(found.len(), 2);
    assert_eq!(
        found[0],
        DisplayFinding {
            severity: Severity::Warn,
            reason: "Replica counts differ".into(),
            resource_kind: ResourceKind::ReplicaSet,
            namespace: Some("apps".into()),
            resource_name: "rolling".into(),
            message: "ReplicaSet status mismatch: available=1, fully_labeled=0, ready=2, replicas=3".into(),
            age: "1h".into(),
            describe_kind: "replicaset".into(),
            describe_name: "rolling".into(),
            describe_namespace: Some("apps".into()),
        }
    );
    assert_eq!(
        found[1].message,
        "ReplicaSet status mismatch: available=-1, fully_labeled=-2147483648, ready=2147483647, replicas=10"
    );
}
