//! The built-in rule sets, and the evaluation of the rules they hold.

use vstd::prelude::*;

use crate::models::App;
use crate::resources::KubePod;
use crate::text::str_eq;
use crate::troubleshoot::{
    findings_view, opt_seq, Category, Finding, FindingView, ResourceKind, Rule, RuleCheck,
    RuleView, Ruleset, RulesetView, Scope, Severity,
};
use crate::troubleshoot_pod::{pod_phase_meta, pod_phase_text};

verus! {

// ---------------------------------------------------------------------------
// Finding metadata of each reported pod phase
// ---------------------------------------------------------------------------

struct FindingMeta {
    id: &'static str,
    severity: Severity,
}

/// The finding id and severity of an unhealthy pod phase.  The pod phases are
/// Pending, Running, Succeeded, Failed and Unknown; Running and Succeeded are
/// healthy and have none.
fn pod_phase_findings_get(phase: &str) -> (r: Option<FindingMeta>)
    ensures
        match pod_phase_meta(phase@) {
            Some((id, severity)) => r is Some && r->0.id@ == id && r->0.severity == severity,
            None => r is None,
        },
{
    if str_eq(phase, "Failed") {
        Some(FindingMeta { id: "pod.phase.failed", severity: Severity::Critical })
    } else if str_eq(phase, "Unknown") {
        Some(FindingMeta { id: "pod.phase.unknown", severity: Severity::Warn })
    } else if str_eq(phase, "Pending") {
        Some(FindingMeta { id: "pod.phase.pending", severity: Severity::Info })
    } else {
        None
    }
}

// ---------------------------------------------------------------------------
// Ruleset registration
// ---------------------------------------------------------------------------

/// The rule sets that ship with the dashboard.
pub open spec fn built_in_rulesets_view() -> Seq<RulesetView> {
    seq![
        RulesetView {
            id: "kdash.core.workloads"@,
            title: "Workload Health"@,
            description: "Workload readiness and stability checks"@,
            enabled: true,
            rules: seq![
                RuleView {
                    id: "pod.phase"@,
                    title: "Pod unhealthy phase"@,
                    severity: Severity::Critical,
                    category: Category::Workloads,
                    scope: Scope::Namespace,
                    resources: seq![ResourceKind::Pod],
                    enabled: true,
                    evaluate: RuleCheck::PodPhase,
                },
            ],
        },
    ]
}

pub fn built_in_rulesets() -> (r: Vec<Ruleset>)
    ensures
        r@.map_values(|rs: Ruleset| rs@) == built_in_rulesets_view(),
{
    let mut resources: Vec<ResourceKind> = Vec::new();
    resources.push(ResourceKind::Pod);
    let rule = Rule::new(
        "pod.phase",
        "Pod unhealthy phase",
        Severity::Critical,
        Category::Workloads,
        Scope::Namespace,
        resources,
        RuleCheck::PodPhase,
    );
    let rs = Ruleset::new(
        "kdash.core.workloads",
        "Workload Health",
        "Workload readiness and stability checks",
    ).rule(rule);
    let mut r: Vec<Ruleset> = Vec::new();
    r.push(rs);
    proof {
        assert(rule@.resources =~= seq![ResourceKind::Pod]);
        assert(rs@.rules =~= built_in_rulesets_view()[0].rules);
        assert(r@.map_values(|rs: Ruleset| rs@) =~= built_in_rulesets_view());
    }
    r
}

// ---------------------------------------------------------------------------
// Pod phase evaluation: uses pod.status.phase from the Kubernetes API, not
// the synthesized display status that kubectl shows.
// ---------------------------------------------------------------------------

/// `pod.status.reason`, or `Unknown`.
pub open spec fn pod_reason_text(pod: KubePod) -> Seq<char> {
    match pod.status {
        Some(s) => match s.reason {
            Some(r) => r@,
            None => "Unknown"@,
        },
        None => "Unknown"@,
    }
}

/// `pod.status.message`, or `Unknown`.
pub open spec fn pod_message_text(pod: KubePod) -> Seq<char> {
    match pod.status {
        Some(s) => match s.message {
            Some(m) => m@,
            None => "Unknown"@,
        },
        None => "Unknown"@,
    }
}

/// The finding that the pod-phase rule reports of a pod, if any.
pub open spec fn pod_phase_rule_finding(pod: KubePod) -> Option<FindingView> {
    match pod_phase_meta(pod_phase_text(pod)) {
        Some((id, severity)) => Some(
            FindingView {
                id,
                title: pod_reason_text(pod),
                severity,
                category: Category::Workloads,
                scope: Scope::Namespace,
                namespace: Some(pod.namespace@),
                resource_kind: ResourceKind::Pod,
                resource_name: pod.name@,
                message: pod_message_text(pod),
                age: pod.age@,
                describe_kind: "pod"@,
                describe_name: pod.name@,
                describe_namespace: Some(pod.namespace@),
            },
        ),
        None => None,
    }
}

/// What the pod-phase rule reports of the pods, in their order.
pub open spec fn pod_phase_rule_findings(pods: Seq<KubePod>) -> Seq<FindingView>
    decreases pods.len(),
{
    if pods.len() == 0 {
        Seq::empty()
    } else {
        pod_phase_rule_findings(pods.drop_last()) + opt_seq(pod_phase_rule_finding(pods.last()))
    }
}

/// What a rule's check reports of the cached state.
pub open spec fn check_findings(check: RuleCheck, app: App) -> Seq<FindingView> {
    match check {
        RuleCheck::PodPhase => pod_phase_rule_findings(app.pods@),
    }
}

fn text_or_unknown(o: &Option<String>) -> (r: String)
    ensures
        r@ == match o {
            Some(s) => s@,
            None => "Unknown"@,
        },
{
    match o {
        Some(s) => s.clone(),
        None => String::from_str("Unknown"),
    }
}

fn pod_phase_finding(p: &KubePod) -> (r: Option<Finding>)
    ensures
        match pod_phase_rule_finding(*p) {
            Some(f) => r is Some && r->0@ == f,
            None => r is None,
        },
{
    let phase: &str = match &p.status {
        Some(s) => match &s.phase {
            Some(ph) => ph.as_str(),
            None => "Unknown",
        },
        None => "Unknown",
    };
    let (reason, message) = match &p.status {
        Some(s) => (text_or_unknown(&s.reason), text_or_unknown(&s.message)),
        None => (String::from_str("Unknown"), String::from_str("Unknown")),
    };
    let meta = match pod_phase_findings_get(phase) {
        Some(m) => m,
        None => {
            return None;
        },
    };
    Some(
        Finding {
            id: String::from_str(meta.id),
            title: reason,
            severity: meta.severity,
            category: Category::Workloads,
            scope: Scope::Namespace,
            namespace: Some(p.namespace.clone()),
            resource_kind: ResourceKind::Pod,
            resource_name: p.name.clone(),
            message,
            age: p.age.clone(),
            describe_kind: String::from_str("pod"),
            describe_name: p.name.clone(),
            describe_namespace: Some(p.namespace.clone()),
        },
    )
}

/// Reports every pod whose phase is Failed, Unknown or Pending.
pub fn eval_pod_phase(app: &App) -> (r: Vec<Finding>)
    ensures
        findings_view(r@) == pod_phase_rule_findings(app.pods@),
{
    let mut out: Vec<Finding> = Vec::new();
    let mut i: usize = 0;
    while i < app.pods.len()
        invariant
            i <= app.pods@.len(),
            findings_view(out@) == pod_phase_rule_findings(app.pods@.take(i as int)),
        decreases app.pods@.len() - i,
    {
        let ghost before = out@;
        match pod_phase_finding(&app.pods[i]) {
            Some(f) => {
                out.push(f);
            },
            None => {},
        }
        proof {
            assert(app.pods@.take(i + 1).drop_last() =~= app.pods@.take(i as int));
            assert(findings_view(out@) =~= findings_view(before) + opt_seq(
                pod_phase_rule_finding(app.pods@[i as int]),
            ));
        }
        i = i + 1;
    }
    proof {
        assert(app.pods@.take(app.pods@.len() as int) =~= app.pods@);
    }
    out
}

// ---------------------------------------------------------------------------
// Laws
// ---------------------------------------------------------------------------

/// The pod-phase rule reports a pod exactly when its phase (its
/// `status.phase`, or Unknown) is Failed, Unknown or Pending, at the severity
/// of that phase, as a namespaced workload finding about the pod whose title
/// is the pod's `status.reason` and whose message is its `status.message`
/// (each `Unknown` when missing).
pub proof fn lemma_pod_phase_rule_finding(pod: KubePod)
    ensures
        pod_phase_rule_finding(pod) is Some <==> pod_phase_meta(pod_phase_text(pod)) is Some,
        pod_phase_rule_finding(pod) is Some ==> {
            let f = pod_phase_rule_finding(pod)->0;
            let m = pod_phase_meta(pod_phase_text(pod))->0;
            &&& f.id == m.0
            &&& f.severity == m.1
            &&& f.category == Category::Workloads
            &&& f.scope == Scope::Namespace
            &&& f.resource_kind == ResourceKind::Pod
            &&& f.resource_name == pod.name@
            &&& f.describe_name == pod.name@
            &&& f.describe_kind == "pod"@
            &&& f.namespace == Some(pod.namespace@)
            &&& f.describe_namespace == Some(pod.namespace@)
            &&& f.age == pod.age@
            &&& f.title == (if pod.status is Some && pod.status->0.reason is Some {
                pod.status->0.reason->0@
            } else {
                "Unknown"@
            })
            &&& f.message == (if pod.status is Some && pod.status->0.message is Some {
                pod.status->0.message->0@
            } else {
                "Unknown"@
            })
        },
{
}

/// The pod-phase rule reports the pods one after another, in their order.
pub proof fn lemma_pod_phase_rule_in_pod_order(pods: Seq<KubePod>, pod: KubePod)
    ensures
        pod_phase_rule_findings(pods.push(pod)) == pod_phase_rule_findings(pods) + opt_seq(
            pod_phase_rule_finding(pod),
        ),
        pod_phase_rule_findings(Seq::<KubePod>::empty()) == Seq::<FindingView>::empty(),
{
    assert(pods.push(pod).drop_last() =~= pods);
}

} // verus!
