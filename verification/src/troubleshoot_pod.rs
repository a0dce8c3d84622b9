//! Pod-specific troubleshooting checks.
//!
//! Inspects cached pod state and reports pods whose phase is unhealthy or
//! noteworthy.  Pod phase is a high-level summary of where a pod is in its
//! lifecycle; its possible values are Pending, Running, Succeeded, Failed and
//! Unknown.

use vstd::prelude::*;

use crate::resources::{time_before, time_lt, KubePod, PodCondition};
use crate::text::str_eq;
use crate::troubleshoot::{
    display_view, namespaced_display, opt_seq, tag_inner, tag_severity, DisplayFinding,
    DisplayFindingView, ResourceKind, Severity, TaggedFinding,
};

verus! {

// ---------------------------------------------------------------------------
// PodFinding — resource-specific finding data for pods
// ---------------------------------------------------------------------------

#[derive(Debug, PartialEq)]
pub struct PodFinding {
    pub id: String,
    pub reason: String,
    pub namespace: String,
    pub pod_name: String,
    pub message: String,
    pub age: String,
}

pub struct PodFindingView {
    pub id: Seq<char>,
    pub reason: Seq<char>,
    pub namespace: Seq<char>,
    pub pod_name: Seq<char>,
    pub message: Seq<char>,
    pub age: Seq<char>,
}

impl View for PodFinding {
    type V = PodFindingView;

    open spec fn view(&self) -> PodFindingView {
        PodFindingView {
            id: self.id@,
            reason: self.reason@,
            namespace: self.namespace@,
            pod_name: self.pod_name@,
            message: self.message@,
            age: self.age@,
        }
    }
}

/// How a tagged pod finding is listed.
pub open spec fn pod_display(severity: Severity, p: PodFindingView) -> DisplayFindingView {
    namespaced_display(
        severity,
        ResourceKind::Pod,
        "pod"@,
        p.namespace,
        p.pod_name,
        p.reason,
        p.message,
        p.age,
    )
}

impl TaggedFinding<PodFinding> {
    pub fn into_display_finding(self) -> (r: DisplayFinding)
        ensures
            r@ == pod_display(tag_severity(self), tag_inner(self)@),
    {
        let severity = self.severity_tag();
        let inner = self.into_inner();
        let ns = inner.namespace.clone();
        let name = inner.pod_name.clone();
        DisplayFinding {
            severity,
            reason: inner.reason,
            resource_kind: ResourceKind::Pod,
            namespace: Some(ns),
            resource_name: name,
            message: inner.message,
            age: inner.age,
            describe_kind: String::from_str("pod"),
            describe_name: inner.pod_name,
            describe_namespace: Some(inner.namespace),
        }
    }
}

// ---------------------------------------------------------------------------
// Helpers
// ---------------------------------------------------------------------------

/// `pod.status.phase`, or `Unknown` where the pod reports none.
pub open spec fn pod_phase_text(pod: KubePod) -> Seq<char> {
    match pod.status {
        Some(s) => match s.phase {
            Some(p) => p@,
            None => "Unknown"@,
        },
        None => "Unknown"@,
    }
}

/// The finding id and severity of a pod phase that is reported, if it is.
pub open spec fn pod_phase_meta(phase: Seq<char>) -> Option<(Seq<char>, Severity)> {
    if phase == "Failed"@ {
        Some(("pod.phase.failed"@, Severity::Critical))
    } else if phase == "Unknown"@ {
        Some(("pod.phase.unknown"@, Severity::Warn))
    } else if phase == "Pending"@ {
        Some(("pod.phase.pending"@, Severity::Info))
    } else {
        None
    }
}

/// `pod.status.conditions`, empty where the pod reports none.
pub open spec fn pod_conditions(pod: KubePod) -> Seq<PodCondition> {
    match pod.status {
        Some(s) => match s.conditions {
            Some(c) => c@,
            None => Seq::empty(),
        },
        None => Seq::empty(),
    }
}

/// Index `k` holds the most recent condition: none is more recent, and every
/// condition before it is older.  (Listing the conditions newest first,
/// keeping the given order among equal times, puts this one first.)
pub open spec fn is_latest_condition(c: Seq<PodCondition>, k: int) -> bool {
    &&& 0 <= k < c.len()
    &&& forall|j: int|
        0 <= j < c.len() ==> !time_lt(c[k].last_transition_time, #[trigger] c[j].last_transition_time)
    &&& forall|j: int|
        0 <= j < k ==> time_lt(#[trigger] c[j].last_transition_time, c[k].last_transition_time)
}

/// At most one index holds the most recent condition.
pub proof fn lemma_latest_condition_unique(c: Seq<PodCondition>, k1: int, k2: int)
    requires
        is_latest_condition(c, k1),
        is_latest_condition(c, k2),
    ensures
        k1 == k2,
{
    if k1 < k2 {
        assert(time_lt(c[k1].last_transition_time, c[k2].last_transition_time));
    } else if k2 < k1 {
        assert(time_lt(c[k2].last_transition_time, c[k1].last_transition_time));
    }
}

/// The most recent condition of the pod, if it has any.
pub open spec fn latest_condition_of(pod: KubePod) -> Option<PodCondition> {
    let c = pod_conditions(pod);
    if c.len() == 0 {
        None
    } else {
        Some(c[choose|k: int| is_latest_condition(c, k)])
    }
}

/// `.reason` of the most recent condition, or `N/A`.
pub open spec fn pod_status_reason_text(pod: KubePod) -> Seq<char> {
    match latest_condition_of(pod) {
        Some(c) => match c.reason {
            Some(r) => r@,
            None => "N/A"@,
        },
        None => "N/A"@,
    }
}

/// `.message` of the most recent condition, or `N/A`.
pub open spec fn pod_status_message_text(pod: KubePod) -> Seq<char> {
    match latest_condition_of(pod) {
        Some(c) => match c.message {
            Some(m) => m@,
            None => "N/A"@,
        },
        None => "N/A"@,
    }
}

/// Extract `pod.status.phase`, falling back to `"Unknown"`.
fn pod_phase(pod: &KubePod) -> (r: &str)
    ensures
        r@ == pod_phase_text(*pod),
{
    match &pod.status {
        Some(s) => match &s.phase {
            Some(p) => p.as_str(),
            None => "Unknown",
        },
        None => "Unknown",
    }
}

fn conditions_of(pod: &KubePod) -> (r: Option<&Vec<PodCondition>>)
    ensures
        match r {
            Some(v) => v@ == pod_conditions(*pod),
            None => pod_conditions(*pod).len() == 0,
        },
{
    match &pod.status {
        Some(s) => match &s.conditions {
            Some(c) => Some(c),
            None => None,
        },
        None => None,
    }
}

/// Return the most recent pod condition: the conditions ordered by
/// `lastTransitionTime` from newest to oldest, the first of them.
fn latest_condition(pod: &KubePod) -> (r: Option<&PodCondition>)
    ensures
        r == match latest_condition_of(*pod) {
            Some(c) => Some(&c),
            None => None::<&PodCondition>,
        },
{
    let conds = match conditions_of(pod) {
        Some(c) => c,
        None => {
            return None;
        },
    };
    let n = conds.len();
    if n == 0 {
        return None;
    }
    let ghost c = conds@;
    let mut best: usize = 0;
    let mut i: usize = 1;
    while i < n
        invariant
            n == c.len(),
            c == conds@,
            1 <= i <= n,
            best < i,
            forall|j: int|
                0 <= j < i ==> !time_lt(c[best as int].last_transition_time, #[trigger] c[j].last_transition_time),
            forall|j: int|
                0 <= j < best ==> time_lt(#[trigger] c[j].last_transition_time, c[best as int].last_transition_time),
        decreases n - i,
    {
        if time_before(&conds[best].last_transition_time, &conds[i].last_transition_time) {
            best = i;
        }
        i = i + 1;
    }
    proof {
        assert(is_latest_condition(c, best as int));
        let k = choose|k: int| is_latest_condition(c, k);
        lemma_latest_condition_unique(c, k, best as int);
    }
    Some(&conds[best])
}

fn opt_text_or(o: &Option<String>, default: &str) -> (r: String)
    ensures
        r@ == match o {
            Some(s) => s@,
            None => default@,
        },
{
    match o {
        Some(s) => s.clone(),
        None => String::from_str(default),
    }
}

/// Extract `.reason` from the most recent pod condition, falling back to `"N/A"`.
fn pod_status_reason(pod: &KubePod) -> (r: String)
    ensures
        r@ == pod_status_reason_text(*pod),
{
    match latest_condition(pod) {
        Some(c) => opt_text_or(&c.reason, "N/A"),
        None => String::from_str("N/A"),
    }
}

/// Extract `.message` from the most recent pod condition, falling back to `"N/A"`.
fn pod_status_message(pod: &KubePod) -> (r: String)
    ensures
        r@ == pod_status_message_text(*pod),
{
    match latest_condition(pod) {
        Some(c) => opt_text_or(&c.message, "N/A"),
        None => String::from_str("N/A"),
    }
}

// ---------------------------------------------------------------------------
// Checks
// ---------------------------------------------------------------------------

/// The data of the phase finding with the given id for a pod.
pub open spec fn pod_phase_finding(pod: KubePod, id: Seq<char>) -> PodFindingView {
    PodFindingView {
        id,
        reason: pod_status_reason_text(pod),
        namespace: pod.namespace@,
        pod_name: pod.name@,
        message: pod_status_message_text(pod),
        age: pod.age@,
    }
}

/// A check that inspects a single pod and reports at most one finding.
#[derive(Clone, Copy, Debug, PartialEq, Eq, Structural)]
pub enum PodCheck {
    /// Pods in an unhealthy phase (`Failed`, `Unknown` or `Pending`).
    Phase,
}

/// What a check reports of a pod, as it is listed.
pub open spec fn pod_check_display(check: PodCheck, pod: KubePod) -> Option<DisplayFindingView> {
    match check {
        PodCheck::Phase => match pod_phase_meta(pod_phase_text(pod)) {
            Some((id, severity)) => Some(pod_display(severity, pod_phase_finding(pod, id))),
            None => None,
        },
    }
}

/// Detect pods in an unhealthy phase (`Failed`, `Unknown`, or `Pending`).
fn check_pod_phase(pod: &KubePod) -> (r: Option<TaggedFinding<PodFinding>>)
    ensures
        match pod_phase_meta(pod_phase_text(*pod)) {
            Some((id, severity)) => r is Some && tag_severity(r->0) == severity && tag_inner(
                r->0,
            )@ == pod_phase_finding(*pod, id),
            None => r is None,
        },
{
    let phase = pod_phase(pod);
    let (id, severity): (&str, Severity) = if str_eq(phase, "Failed") {
        ("pod.phase.failed", Severity::Critical)
    } else if str_eq(phase, "Unknown") {
        ("pod.phase.unknown", Severity::Warn)
    } else if str_eq(phase, "Pending") {
        ("pod.phase.pending", Severity::Info)
    } else {
        return None;
    };
    let inner = PodFinding {
        id: String::from_str(id),
        reason: pod_status_reason(pod),
        namespace: pod.namespace.clone(),
        pod_name: pod.name.clone(),
        message: pod_status_message(pod),
        age: pod.age.clone(),
    };
    Some(TaggedFinding::tag(severity, inner))
}

impl PodCheck {
    /// Runs the check on one pod.
    pub fn run(&self, pod: &KubePod) -> (r: Option<TaggedFinding<PodFinding>>)
        ensures
            match pod_check_display(*self, *pod) {
                Some(d) => r is Some && pod_display(tag_severity(r->0), tag_inner(r->0)@) == d,
                None => r is None,
            },
    {
        match self {
            PodCheck::Phase => check_pod_phase(pod),
        }
    }
}

/// Returns all registered pod checks.
fn all_pod_checks() -> (r: Vec<PodCheck>)
    ensures
        r@ == registered_pod_checks(),
{
    vec![PodCheck::Phase]
}

pub open spec fn registered_pod_checks() -> Seq<PodCheck> {
    seq![PodCheck::Phase]
}

/// What the checks report of one pod, in the order of the checks.
pub open spec fn pod_checks_display(checks: Seq<PodCheck>, pod: KubePod) -> Seq<DisplayFindingView>
    decreases checks.len(),
{
    if checks.len() == 0 {
        Seq::empty()
    } else {
        pod_checks_display(checks.drop_last(), pod) + opt_seq(
            pod_check_display(checks.last(), pod),
        )
    }
}

/// What the checks report of the pods: pod by pod, and for each pod check by
/// check.
pub open spec fn pods_display(checks: Seq<PodCheck>, pods: Seq<KubePod>) -> Seq<DisplayFindingView>
    decreases pods.len(),
{
    if pods.len() == 0 {
        Seq::empty()
    } else {
        pods_display(checks, pods.drop_last()) + pod_checks_display(checks, pods.last())
    }
}

/// Run every registered pod check against every pod and return the flattened
/// display findings.
pub fn evaluate_pod_findings(pods: &[KubePod]) -> (r: Vec<DisplayFinding>)
    ensures
        display_view(r@) == pods_display(registered_pod_checks(), pods@),
{
    let checks = all_pod_checks();
    let mut out: Vec<DisplayFinding> = Vec::new();
    let mut i: usize = 0;
    while i < pods.len()
        invariant
            i <= pods@.len(),
            checks@ == registered_pod_checks(),
            display_view(out@) == pods_display(checks@, pods@.take(i as int)),
        decreases pods@.len() - i,
    {
        let pod = &pods[i];
        let mut j: usize = 0;
        while j < checks.len()
            invariant
                i < pods@.len(),
                *pod == pods@[i as int],
                j <= checks@.len(),
                checks@ == registered_pod_checks(),
                display_view(out@) == pods_display(checks@, pods@.take(i as int))
                    + pod_checks_display(checks@.take(j as int), *pod),
            decreases checks@.len() - j,
        {
            let ghost before = out@;
            match checks[j].run(pod) {
                Some(f) => {
                    out.push(f.into_display_finding());
                },
                None => {},
            }
            proof {
                assert(checks@.take(j + 1).drop_last() =~= checks@.take(j as int));
                assert(display_view(out@) =~= display_view(before) + opt_seq(
                    pod_check_display(checks@[j as int], *pod),
                ));
            }
            j = j + 1;
        }
        proof {
            assert(checks@.take(checks@.len() as int) =~= checks@);
            assert(pods@.take(i + 1).drop_last() =~= pods@.take(i as int));
        }
        i = i + 1;
    }
    proof {
        assert(pods@.take(pods@.len() as int) =~= pods@);
    }
    out
}

// ---------------------------------------------------------------------------
// Laws
// ---------------------------------------------------------------------------

/// Of the five pod phases, the unhealthy ones are reported — Failed as
/// critical, Unknown as a warning, Pending as information — and the healthy
/// ones, Running and Succeeded, are not.
pub proof fn lemma_pod_phases_reported()
    ensures
        pod_phase_meta("Failed"@) == Some(("pod.phase.failed"@, Severity::Critical)),
        pod_phase_meta("Unknown"@) == Some(("pod.phase.unknown"@, Severity::Warn)),
        pod_phase_meta("Pending"@) == Some(("pod.phase.pending"@, Severity::Info)),
        pod_phase_meta("Running"@) is None,
        pod_phase_meta("Succeeded"@) is None,
{
    reveal_strlit("Failed");
    reveal_strlit("Unknown");
    reveal_strlit("Pending");
    reveal_strlit("Running");
    reveal_strlit("Succeeded");
    assert("Unknown"@ != "Failed"@) by {
        assert("Unknown"@[0] != "Failed"@[0]);
    }
    assert("Pending"@ != "Failed"@) by {
        assert("Pending"@[0] != "Failed"@[0]);
    }
    assert("Pending"@ != "Unknown"@) by {
        assert("Pending"@[0] != "Unknown"@[0]);
    }
    assert("Running"@ != "Failed"@) by {
        assert("Running"@[0] != "Failed"@[0]);
    }
    assert("Running"@ != "Unknown"@) by {
        assert("Running"@[0] != "Unknown"@[0]);
    }
    assert("Running"@ != "Pending"@) by {
        assert("Running"@[0] != "Pending"@[0]);
    }
    assert("Succeeded"@ != "Failed"@) by {
        assert("Succeeded"@[0] != "Failed"@[0]);
    }
    assert("Succeeded"@ != "Unknown"@) by {
        assert("Succeeded"@[0] != "Unknown"@[0]);
    }
    assert("Succeeded"@ != "Pending"@) by {
        assert("Succeeded"@[0] != "Pending"@[0]);
    }
}

/// A pod that reports no phase is taken to be in phase Unknown, and the phase
/// check reports it as a warning.
pub proof fn lemma_pod_without_phase_is_warned(pod: KubePod)
    requires
        pod.status is None || pod.status->0.phase is None,
    ensures
        pod_phase_text(pod) == "Unknown"@,
        pod_check_display(PodCheck::Phase, pod) is Some,
        pod_check_display(PodCheck::Phase, pod)->0.severity == Severity::Warn,
{
    lemma_pod_phases_reported();
}

/// Every non-empty list of conditions has a most recent one.
pub proof fn lemma_latest_condition_exists(c: Seq<PodCondition>)
    requires
        c.len() > 0,
    ensures
        exists|k: int| is_latest_condition(c, k),
    decreases c.len(),
{
    if c.len() == 1 {
        assert(is_latest_condition(c, 0));
    } else {
        let d = c.drop_last();
        lemma_latest_condition_exists(d);
        let k = choose|k: int| is_latest_condition(d, k);
        let n = c.len() - 1;
        assert(d[k] == c[k]);
        if time_lt(c[k].last_transition_time, c[n].last_transition_time) {
            assert forall|j: int| 0 <= j < n implies time_lt(
                #[trigger] c[j].last_transition_time,
                c[n].last_transition_time,
            ) by {
                assert(d[j] == c[j]);
            }
            assert(is_latest_condition(c, n));
        } else {
            assert forall|j: int| 0 <= j < c.len() implies !time_lt(
                c[k].last_transition_time,
                #[trigger] c[j].last_transition_time,
            ) by {
                if j < n {
                    assert(d[j] == c[j]);
                }
            }
            assert forall|j: int| 0 <= j < k implies time_lt(
                #[trigger] c[j].last_transition_time,
                c[k].last_transition_time,
            ) by {
                assert(d[j] == c[j]);
            }
            assert(is_latest_condition(c, k));
        }
    }
}

/// The reason and message of a pod's findings come from its most recent
/// condition: one of its conditions, none of which changed later, and every
/// earlier-listed one of which changed strictly before it.
pub proof fn lemma_latest_condition_is_most_recent(pod: KubePod)
    requires
        pod_conditions(pod).len() > 0,
    ensures
        latest_condition_of(pod) is Some,
        exists|k: int|
            is_latest_condition(pod_conditions(pod), k) && pod_conditions(pod)[k]
                == latest_condition_of(pod)->0,
{
    lemma_latest_condition_exists(pod_conditions(pod));
}

/// The condition whose reason and message a pod's finding carries changed no
/// earlier than any other: if another condition has a transition time, so
/// does it, in a later second or in the same second at no earlier nanosecond;
/// and each condition listed before it changed strictly earlier.
pub proof fn lemma_latest_condition_has_latest_time(c: Seq<PodCondition>, k: int, j: int)
    requires
        is_latest_condition(c, k),
        0 <= j < c.len(),
    ensures
        c[j].last_transition_time is Some ==> {
            let x = c[k].last_transition_time;
            let y = c[j].last_transition_time->0;
            &&& x is Some
            &&& (x->0.seconds > y.seconds || (x->0.seconds == y.seconds && x->0.nanos >= y.nanos))
        },
        j < k ==> c[k].last_transition_time is Some && (c[j].last_transition_time is None || {
            let x = c[k].last_transition_time->0;
            let y = c[j].last_transition_time->0;
            x.seconds > y.seconds || (x.seconds == y.seconds && x.nanos > y.nanos)
        }),
{
    crate::resources::lemma_time_lt_chronological(
        c[k].last_transition_time,
        c[j].last_transition_time,
    );
    crate::resources::lemma_time_lt_chronological(
        c[j].last_transition_time,
        c[k].last_transition_time,
    );
    assert(!time_lt(c[k].last_transition_time, c[j].last_transition_time));
    if j < k {
        assert(time_lt(c[j].last_transition_time, c[k].last_transition_time));
    }
}

/// The phase a pod is judged by is its `status.phase` verbatim, or `Unknown`
/// when it reports none; a pod is reported exactly when that phase is
/// Failed, Unknown or Pending, as critical, a warning or information, with
/// its own name, namespace and age.
pub proof fn lemma_pod_phase_check(pod: KubePod)
    ensures
        pod.status is Some && pod.status->0.phase is Some ==> pod_phase_text(pod)
            == pod.status->0.phase->0@,
        !(pod.status is Some && pod.status->0.phase is Some) ==> pod_phase_text(pod) == "Unknown"@,
        pod_check_display(PodCheck::Phase, pod) is Some <==> (pod_phase_text(pod) == "Failed"@
            || pod_phase_text(pod) == "Unknown"@ || pod_phase_text(pod) == "Pending"@),
        pod_phase_text(pod) == "Failed"@ ==> pod_check_display(PodCheck::Phase, pod)->0.severity
            == Severity::Critical,
        pod_phase_text(pod) == "Unknown"@ ==> pod_check_display(PodCheck::Phase, pod)->0.severity
            == Severity::Warn,
        pod_phase_text(pod) == "Pending"@ ==> pod_check_display(PodCheck::Phase, pod)->0.severity
            == Severity::Info,
        pod_check_display(PodCheck::Phase, pod) is Some ==> {
            let d = pod_check_display(PodCheck::Phase, pod)->0;
            &&& d.resource_kind == ResourceKind::Pod
            &&& d.resource_name == pod.name@
            &&& d.describe_name == pod.name@
            &&& d.namespace == Some(pod.namespace@)
            &&& d.describe_namespace == Some(pod.namespace@)
            &&& d.age == pod.age@
            &&& d.reason == pod_status_reason_text(pod)
            &&& d.message == pod_status_message_text(pod)
        },
{
    lemma_pod_phases_reported();
}

/// A pod's finding carries the reason and message of its most recent
/// condition, `N/A` for whichever that condition lacks, and `N/A` for both
/// when the pod has no conditions.
pub proof fn lemma_pod_reason_message_from_latest(pod: KubePod)
    ensures
        pod_conditions(pod).len() == 0 ==> pod_status_reason_text(pod) == "N/A"@
            && pod_status_message_text(pod) == "N/A"@,
        pod_conditions(pod).len() > 0 ==> exists|k: int|
            #![trigger pod_conditions(pod)[k]]
            is_latest_condition(pod_conditions(pod), k) && pod_status_reason_text(pod) == (
            if pod_conditions(pod)[k].reason is Some {
                pod_conditions(pod)[k].reason->0@
            } else {
                "N/A"@
            }) && pod_status_message_text(pod) == (if pod_conditions(pod)[k].message is Some {
                pod_conditions(pod)[k].message->0@
            } else {
                "N/A"@
            }),
{
    if pod_conditions(pod).len() > 0 {
        lemma_latest_condition_exists(pod_conditions(pod));
        let k = choose|k: int| is_latest_condition(pod_conditions(pod), k);
        assert(latest_condition_of(pod) == Some(pod_conditions(pod)[k]));
    }
}

/// Pod findings are shown as pod findings of the pod's own name and
/// namespace, described as `pod`.
pub proof fn lemma_pod_display(severity: Severity, p: PodFindingView)
    ensures
        pod_display(severity, p).severity == severity,
        pod_display(severity, p).resource_kind == ResourceKind::Pod,
        pod_display(severity, p).describe_kind == "pod"@,
        pod_display(severity, p).resource_name == p.pod_name,
        pod_display(severity, p).describe_name == p.pod_name,
        pod_display(severity, p).namespace == Some(p.namespace),
        pod_display(severity, p).describe_namespace == Some(p.namespace),
        pod_display(severity, p).reason == p.reason,
        pod_display(severity, p).message == p.message,
        pod_display(severity, p).age == p.age,
{
}

/// Pods are reported one after another in their order, and each pod check
/// by check.
pub proof fn lemma_pods_in_order(checks: Seq<PodCheck>, pods: Seq<KubePod>, pod: KubePod, check: PodCheck)
    ensures
        pods_display(checks, pods.push(pod)) == pods_display(checks, pods) + pod_checks_display(
            checks,
            pod,
        ),
        pod_checks_display(checks.push(check), pod) == pod_checks_display(checks, pod) + opt_seq(
            pod_check_display(check, pod),
        ),
        pods_display(checks, Seq::<KubePod>::empty()) == Seq::<DisplayFindingView>::empty(),
{
    assert(pods.push(pod).drop_last() =~= pods);
    assert(checks.push(check).drop_last() =~= checks);
}

} // verus!
