use kdash::models::{App, StatefulTable};
use kdash::resources::{KubePod, PodStatus};
use kdash::sorting::{finding_precedes, sort_findings};
use kdash::troubleshoot::{
    evaluate_findings, findings_count, severity_rank, update_findings, Category, Finding,
    ResourceKind, RowTone, Rule, RuleCheck, Ruleset, Scope, Severity, TaggedFinding,
};
use kdash::troubleshoot_rules::{built_in_rulesets, eval_pod_phase};

fn pod(name: &str, namespace: &str, phase: Option<&str>) -> KubePod {
    KubePod {
        name: name.into(),
        namespace: namespace.into(),
        age: "1m".into(),
        status: Some(PodStatus {
            phase: phase.map(|p| p.to_string()),
            reason: Some(format!("{}-reason", name)),
            message: Some(format!("{}-message", name)),
            conditions: None,
        }),
    }
}

fn finding(name: &str, severity: Severity, category: Category, namespace: Option<&str>) -> Finding {
    Finding {
        id: "id".into(),
        title: "title".into(),
        severity,
        category,
        scope: Scope::Namespace,
        namespace: namespace.map(|s| s.to_string()),
        resource_kind: ResourceKind::Pod,
        resource_name: name.into(),
        message: "msg".into(),
        age: "5m".into(),
        describe_kind: "pod".into(),
        describe_name: name.into(),
        describe_namespace: namespace.map(|s| s.to_string()),
    }
}

#[test]
fn resource_ref_joins_namespace_and_name() {
    let f = finding("web-1", Severity::Warn, Category::Workloads, Some("prod"));
    assert_eq!(f.resource_ref(), "prod/web-1");
}

#[test]
fn resource_ref_without_namespace_is_the_name() {
    let f = finding("node-a", Severity::Warn, Category::Nodes, None);
    assert_eq!(f.resource_ref(), "node-a");
    let g = finding("node-b", Severity::Warn, Category::Nodes, Some(""));
    assert_eq!(g.resource_ref(), "node-b");
}

#[test]
fn describe_target_returns_describe_fields() {
    let f = finding("web-1", Severity::Warn, Category::Workloads, Some("prod"));
    assert_eq!(f.describe_target(), ("pod", "web-1", Some("prod")));
    let g = finding("n", Severity::Info, Category::Nodes, None);
    assert_eq!(g.describe_target(), ("pod", "n", None));
    assert_eq!(f.get_name(), "web-1");
}

#[test]
fn display_names_of_the_enums() {
    assert_eq!(Severity::Critical.to_string(), "Critical");
    assert_eq!(Severity::Warn.to_string(), "Warn");
    assert_eq!(Severity::Info.to_string(), "Info");
    assert_eq!(Category::Workloads.to_string(), "Workloads");
    assert_eq!(Category::Nodes.to_string(), "Nodes");
    assert_eq!(Category::Storage.to_string(), "Storage");
    assert_eq!(Category::Networking.to_string(), "Networking");
    assert_eq!(Scope::Cluster.to_string(), "Cluster");
    assert_eq!(Scope::Namespace.to_string(), "Namespace");
    assert_eq!(ResourceKind::Pod.to_string(), "Pod");
    assert_eq!(ResourceKind::Deployment.to_string(), "Deployment");
    assert_eq!(ResourceKind::Node.to_string(), "Node");
    assert_eq!(ResourceKind::Pvc.to_string(), "PVC");
    assert_eq!(ResourceKind::ReplicaSet.to_string(), "ReplicaSet");
}

#[test]
fn severity_rank_puts_critical_first() {
    assert_eq!(severity_rank(&Severity::Critical), 0);
    assert_eq!(severity_rank(&Severity::Warn), 1);
    assert_eq!(severity_rank(&Severity::Info), 2);
}

#[test]
fn rule_new_is_enabled() {
    let r = Rule::new(
        "x.rule",
        "X",
        Severity::Info,
        Category::Storage,
        Scope::Cluster,
        vec![ResourceKind::Pvc],
        RuleCheck::PodPhase,
    );
    assert!(r.enabled);
    assert_eq!(r.id, "x.rule");
    assert_eq!(r.title, "X");
    assert_eq!(r.severity, Severity::Info);
    assert_eq!(r.category, Category::Storage);
    assert_eq!(r.scope, Scope::Cluster);
    assert_eq!(r.resources, vec![ResourceKind::Pvc]);
    assert_eq!(r.evaluate, RuleCheck::PodPhase);
}

#[test]
fn ruleset_builder_appends_rules() {
    let rs = Ruleset::new("set", "Set", "A set");
    assert!(rs.enabled);
    assert!(rs.rules.is_empty());
    assert_eq!((rs.id, rs.title, rs.description), ("set", "Set", "A set"));
    let mk = |id: &'static str| {
        Rule::new(id, "T", Severity::Warn, Category::Workloads, Scope::Namespace, vec![], RuleCheck::PodPhase)
    };
    let rs = rs.rule(mk("a")).rule(mk("b"));
    assert_eq!(rs.rules.len(), 2);
    assert_eq!(rs.rules[0].id, "a");
    assert_eq!(rs.rules[1].id, "b");
}

#[test]
fn ruleset_evaluate_respects_enabled_flags() {
    let app = App::new(vec![pod("p1", "ns", Some("Failed")), pod("p2", "ns", Some("Running"))]);
    let mk = || {
        Rule::new("pod.phase", "T", Severity::Critical, Category::Workloads, Scope::Namespace, vec![ResourceKind::Pod], RuleCheck::PodPhase)
    };
    let rs = Ruleset::new("s", "S", "D").rule(mk()).rule(mk());
    let found = rs.evaluate(&app);
    assert_eq!(found.len(), 2);
    assert_eq!(found[0].resource_name, "p1");
    assert_eq!(found[1].resource_name, "p1");

    let mut one_off = Ruleset::new("s", "S", "D").rule(mk()).rule(mk());
    one_off.rules[0].enabled = false;
    assert_eq!(one_off.evaluate(&app).len(), 1);

    let mut disabled = Ruleset::new("s", "S", "D").rule(mk());
    disabled.enabled = false;
    assert!(disabled.evaluate(&app).is_empty());
}

#[test]
fn built_in_rulesets_hold_the_pod_phase_rule() {
    let sets = built_in_rulesets();
    assert_eq!(sets.len(), 1);
    let s = &sets[0];
    assert_eq!(s.id, "kdash.core.workloads");
    assert_eq!(s.title, "Workload Health");
    assert_eq!(s.description, "Workload readiness and stability checks");
    assert!(s.enabled);
    assert_eq!(s.rules.len(), 1);
    let r = &s.rules[0];
    assert_eq!(r.id, "pod.phase");
    assert_eq!(r.title, "Pod unhealthy phase");
    assert_eq!(r.severity, Severity::Critical);
    assert_eq!(r.category, Category::Workloads);
    assert_eq!(r.scope, Scope::Namespace);
    assert_eq!(r.resources, vec![ResourceKind::Pod]);
    assert!(r.enabled);
}

#[test]
fn eval_pod_phase_reports_unhealthy_phases() {
    let app = App::new(vec![
        pod("a", "ns1", Some("Running")),
        pod("b", "ns1", Some("Failed")),
        pod("c", "ns2", Some("Succeeded")),
        pod("d", "ns2", Some("Pending")),
        pod("e", "ns3", Some("Unknown")),
        pod("f", "ns3", None),
        KubePod { name: "g".into(), namespace: "ns4".into(), age: "2h".into(), status: None },
    ]);
    let found = eval_pod_phase(&app);
    let names: Vec<&str> = found.iter().map(|f| f.resource_name.as_str()).collect();
    assert_eq!(names, vec!["b", "d", "e", "f", "g"]);
    assert_eq!(found[0].id, "pod.phase.failed");
    assert_eq!(found[0].severity, Severity::Critical);
    assert_eq!(found[0].title, "b-reason");
    assert_eq!(found[0].message, "b-message");
    assert_eq!(found[1].id, "pod.phase.pending");
    assert_eq!(found[1].severity, Severity::Info);
    assert_eq!(found[2].id, "pod.phase.unknown");
    assert_eq!(found[2].severity, Severity::Warn);
    assert_eq!(found[3].id, "pod.phase.unknown");
    let g = &found[4];
    assert_eq!(
        *g,
        Finding {
            id: "pod.phase.unknown".into(),
            title: "Unknown".into(),
            severity: Severity::Warn,
            category: Category::Workloads,
            scope: Scope::Namespace,
            namespace: Some("ns4".into()),
            resource_kind: ResourceKind::Pod,
            resource_name: "g".into(),
            message: "Unknown".into(),
            age: "2h".into(),
            describe_kind: "pod".into(),
            describe_name: "g".into(),
            describe_namespace: Some("ns4".into()),
        }
    );
}

#[test]
fn evaluate_findings_lists_critical_first() {
    let app = App::new(vec![
        pod("zeta", "ns", Some("Pending")),
        pod("beta", "ns", Some("Unknown")),
        pod("alpha", "ns", Some("Unknown")),
        pod("omega", "ns", Some("Failed")),
        pod("run", "ns", Some("Running")),
    ]);
    let found = evaluate_findings(&app);
    let names: Vec<&str> = found.iter().map(|f| f.resource_name.as_str()).collect();
    assert_eq!(names, vec!["omega", "alpha", "beta", "zeta"]);
    assert_eq!(findings_count(&app), 4);
}

#[test]
fn evaluate_findings_keeps_order_of_equal_keys() {
    let app = App::new(vec![pod("same", "ns-b", Some("Failed")), pod("same", "ns-a", Some("Failed"))]);
    let found = evaluate_findings(&app);
    assert_eq!(found.len(), 2);
    assert_eq!(found[0].namespace.as_deref(), Some("ns-b"));
    assert_eq!(found[1].namespace.as_deref(), Some("ns-a"));
}

#[test]
fn evaluate_findings_of_healthy_cluster_is_empty() {
    let app = App::new(vec![pod("a", "ns", Some("Running")), pod("b", "ns", Some("Succeeded"))]);
    assert!(evaluate_findings(&app).is_empty());
    assert_eq!(findings_count(&app), 0);
    assert_eq!(findings_count(&App::new(vec![])), 0);
}

#[test]
fn update_findings_fills_the_table() {
    let app = App::new(vec![pod("x", "ns", Some("Pending")), pod("y", "ns", Some("Failed"))]);
    let mut table: StatefulTable<Finding> = StatefulTable::new();
    update_findings(&app, &mut table);
    let names: Vec<&str> = table.items.iter().map(|f| f.resource_name.as_str()).collect();
    assert_eq!(names, vec!["y", "x"]);
}

#[test]
fn sort_orders_by_severity_category_then_name() {
    let v = vec![
        finding("b", Severity::Info, Category::Nodes, None),
        finding("a", Severity::Warn, Category::Workloads, None),
        finding("c", Severity::Warn, Category::Networking, None),
        finding("a", Severity::Warn, Category::Networking, None),
        finding("z", Severity::Critical, Category::Storage, None),
    ];
    let sorted = sort_findings(v);
    let keys: Vec<(Severity, Category, &str)> = sorted
        .iter()
        .map(|f| (f.severity, f.category, f.resource_name.as_str()))
        .collect();
    assert_eq!(
        keys,
        vec![
            (Severity::Critical, Category::Storage, "z"),
            (Severity::Warn, Category::Networking, "a"),
            (Severity::Warn, Category::Networking, "c"),
            (Severity::Warn, Category::Workloads, "a"),
            (Severity::Info, Category::Nodes, "b"),
        ]
    );
}

#[test]
fn categories_sort_by_name() {
    let n = finding("x", Severity::Warn, Category::Networking, None);
    let o = finding("x", Severity::Warn, Category::Nodes, None);
    let s = finding("x", Severity::Warn, Category::Storage, None);
    let w = finding("x", Severity::Warn, Category::Workloads, None);
    assert!(finding_precedes(&n, &o));
    assert!(finding_precedes(&o, &s));
    assert!(finding_precedes(&s, &w));
    assert!(!finding_precedes(&w, &n));
    assert!(!finding_precedes(&n, &n));
}

#[test]
fn finding_rows_and_tones() {
    let f = finding("web-1", Severity::Critical, Category::Workloads, Some("prod"));
    assert_eq!(
        f.table_row(),
        vec!["Critical", "Workloads", "Namespace", "Pod prod/web-1", "msg", "5m"]
    );
    assert_eq!(f.row_tone(), RowTone::Failure);
    assert_eq!(finding("a", Severity::Warn, Category::Nodes, None).row_tone(), RowTone::Warning);
    assert_eq!(finding("a", Severity::Info, Category::Nodes, None).row_tone(), RowTone::Primary);
    let d = f.clone();
    assert_eq!(d, f);
}

#[test]
fn tagged_findings_carry_severity() {
    let e = TaggedFinding::tag(Severity::Critical, 7u8);
    assert_eq!(e, TaggedFinding::Error(7));
    assert_eq!(e.severity_tag(), Severity::Critical);
    assert_eq!(e.into_inner(), 7);
    assert_eq!(TaggedFinding::Warn(1u8).severity_tag(), Severity::Warn);
    assert_eq!(TaggedFinding::Info(1u8).severity_tag(), Severity::Info);
    assert_eq!(TaggedFinding::tag(Severity::Info, 3u8), TaggedFinding::Info(3));
}

#[test]
fn built_in_findings_match_pod_phase_rule() {
    let app = App::new(vec![
        pod("b", "ns", Some("Pending")),
        pod("a", "ns", Some("Failed")),
        pod("c", "ns", Some("Running")),
    ]);
    let listed = evaluate_findings(&app);
    let reported = sort_findings(eval_pod_phase(&app));
    assert_eq!(listed, reported);
    assert_eq!(listed.len(), 2);
}
