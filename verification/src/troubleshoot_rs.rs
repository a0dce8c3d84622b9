//! ReplicaSet-specific troubleshooting checks.
//!
//! Inspects cached ReplicaSet state and reports replica sets whose status
//! replica counts disagree.

use vstd::prelude::*;

use crate::resources::KubeReplicaSet;
use crate::text::{append_int, int_text};
use crate::troubleshoot::{
    display_view, namespaced_display, opt_seq, tag_inner, tag_severity, DisplayFinding,
    DisplayFindingView, ResourceKind, Severity, TaggedFinding,
};

verus! {

// ---------------------------------------------------------------------------
// RsFinding — resource-specific finding data for ReplicaSets
// ---------------------------------------------------------------------------

#[derive(Debug, PartialEq)]
pub struct RsFinding {
    pub id: String,
    pub reason: String,
    pub namespace: String,
    pub rs_name: String,
    pub message: String,
    pub age: String,
}

pub struct RsFindingView {
    pub id: Seq<char>,
    pub reason: Seq<char>,
    pub namespace: Seq<char>,
    pub rs_name: Seq<char>,
    pub message: Seq<char>,
    pub age: Seq<char>,
}

impl View for RsFinding {
    type V = RsFindingView;

    open spec fn view(&self) -> RsFindingView {
        RsFindingView {
            id: self.id@,
            reason: self.reason@,
            namespace: self.namespace@,
            rs_name: self.rs_name@,
            message: self.message@,
            age: self.age@,
        }
    }
}

/// How a tagged ReplicaSet finding is listed.
pub open spec fn rs_display(severity: Severity, p: RsFindingView) -> DisplayFindingView {
    namespaced_display(
        severity,
        ResourceKind::ReplicaSet,
        "replicaset"@,
        p.namespace,
        p.rs_name,
        p.reason,
        p.message,
        p.age,
    )
}

impl TaggedFinding<RsFinding> {
    pub fn into_display_finding(self) -> (r: DisplayFinding)
        ensures
            r@ == rs_display(tag_severity(self), tag_inner(self)@),
    {
        let severity = self.severity_tag();
        let inner = self.into_inner();
        let ns = inner.namespace.clone();
        let name = inner.rs_name.clone();
        DisplayFinding {
            severity,
            reason: inner.reason,
            resource_kind: ResourceKind::ReplicaSet,
            namespace: Some(ns),
            resource_name: name,
            message: inner.message,
            age: inner.age,
            describe_kind: String::from_str("replicaset"),
            describe_name: inner.rs_name,
            describe_namespace: Some(inner.namespace),
        }
    }
}

// ---------------------------------------------------------------------------
// Helpers
// ---------------------------------------------------------------------------

pub open spec fn opt_count(o: Option<i32>) -> i32 {
    match o {
        Some(n) => n,
        None => 0,
    }
}

/// The available, fully labeled, ready and total replica counts of
/// `.status`, each `0` where it is missing.
pub open spec fn rs_counts(rs: KubeReplicaSet) -> (i32, i32, i32, i32) {
    match rs.status {
        Some(s) => (
            opt_count(s.available_replicas),
            opt_count(s.fully_labeled_replicas),
            opt_count(s.ready_replicas),
            s.replicas,
        ),
        None => (0, 0, 0, 0),
    }
}

/// Extract replica counts from `.status`, defaulting to `0` when missing.
fn rs_replica_counts(rs: &KubeReplicaSet) -> (r: (i32, i32, i32, i32))
    ensures
        r == rs_counts(*rs),
{
    match &rs.status {
        Some(s) => {
            let available = match s.available_replicas {
                Some(n) => n,
                None => 0,
            };
            let fully_labeled = match s.fully_labeled_replicas {
                Some(n) => n,
                None => 0,
            };
            let ready = match s.ready_replicas {
                Some(n) => n,
                None => 0,
            };
            (available, fully_labeled, ready, s.replicas)
        },
        None => (0, 0, 0, 0),
    }
}

// ---------------------------------------------------------------------------
// Checks
// ---------------------------------------------------------------------------

/// Whether all four replica counts agree.
pub open spec fn rs_counts_agree(c: (i32, i32, i32, i32)) -> bool {
    c.0 == c.1 && c.1 == c.2 && c.2 == c.3
}

/// The message that lists the four counts.
pub open spec fn rs_mismatch_message(c: (i32, i32, i32, i32)) -> Seq<char> {
    "ReplicaSet status mismatch: available="@ + int_text(c.0 as int) + ", fully_labeled="@
        + int_text(c.1 as int) + ", ready="@ + int_text(c.2 as int) + ", replicas="@ + int_text(
        c.3 as int,
    )
}

/// The data of the finding reported for a replica set whose counts disagree.
pub open spec fn rs_status_finding(rs: KubeReplicaSet) -> RsFindingView {
    RsFindingView {
        id: "rs.status.mismatch"@,
        reason: "Replica counts differ"@,
        namespace: rs.namespace@,
        rs_name: rs.name@,
        message: rs_mismatch_message(rs_counts(rs)),
        age: rs.age@,
    }
}

/// A check that inspects a single ReplicaSet and reports at most one finding.
#[derive(Clone, Copy, Debug, PartialEq, Eq, Structural)]
pub enum RsCheck {
    /// Replica sets whose status replica counts are not all identical.
    Status,
}

/// What a check reports of a replica set, as it is listed.
pub open spec fn rs_check_display(check: RsCheck, rs: KubeReplicaSet) -> Option<DisplayFindingView> {
    match check {
        RsCheck::Status => if rs_counts_agree(rs_counts(rs)) {
            None
        } else {
            Some(rs_display(Severity::Warn, rs_status_finding(rs)))
        },
    }
}

fn mismatch_message(available: i32, fully_labeled: i32, ready: i32, replicas: i32) -> (r: String)
    ensures
        r@ == rs_mismatch_message((available, fully_labeled, ready, replicas)),
{
    let mut s = String::from_str("ReplicaSet status mismatch: available=");
    append_int(&mut s, available);
    s.append(", fully_labeled=");
    append_int(&mut s, fully_labeled);
    s.append(", ready=");
    append_int(&mut s, ready);
    s.append(", replicas=");
    append_int(&mut s, replicas);
    s
}

/// Detect ReplicaSets whose status replica counts are not all identical.
fn check_rs_status(rs: &KubeReplicaSet) -> (r: Option<TaggedFinding<RsFinding>>)
    ensures
        if rs_counts_agree(rs_counts(*rs)) {
            r is None
        } else {
            r is Some && r->0 is Warn && tag_inner(r->0)@ == rs_status_finding(*rs)
        },
{
    let (available, fully_labeled, ready, replicas) = rs_replica_counts(rs);
    if available == fully_labeled && fully_labeled == ready && ready == replicas {
        return None;
    }
    Some(
        TaggedFinding::Warn(
            RsFinding {
                id: String::from_str("rs.status.mismatch"),
                reason: String::from_str("Replica counts differ"),
                namespace: rs.namespace.clone(),
                rs_name: rs.name.clone(),
                message: mismatch_message(available, fully_labeled, ready, replicas),
                age: rs.age.clone(),
            },
        ),
    )
}

impl RsCheck {
    /// Runs the check on one replica set.
    pub fn run(&self, rs: &KubeReplicaSet) -> (r: Option<TaggedFinding<RsFinding>>)
        ensures
            match rs_check_display(*self, *rs) {
                Some(d) => r is Some && rs_display(tag_severity(r->0), tag_inner(r->0)@) == d,
                None => r is None,
            },
    {
        match self {
            RsCheck::Status => check_rs_status(rs),
        }
    }
}

/// Returns all registered ReplicaSet checks.
fn all_rs_checks() -> (r: Vec<RsCheck>)
    ensures
        r@ == registered_rs_checks(),
{
    vec![RsCheck::Status]
}

pub open spec fn registered_rs_checks() -> Seq<RsCheck> {
    seq![RsCheck::Status]
}

/// What the checks report of one replica set, in the order of the checks.
pub open spec fn rs_checks_display(checks: Seq<RsCheck>, rs: KubeReplicaSet) -> Seq<DisplayFindingView>
    decreases checks.len(),
{
    if checks.len() == 0 {
        Seq::empty()
    } else {
        rs_checks_display(checks.drop_last(), rs) + opt_seq(rs_check_display(checks.last(), rs))
    }
}

/// What the checks report of the replica sets: one by one, and for each check
/// by check.
pub open spec fn replica_sets_display(checks: Seq<RsCheck>, sets: Seq<KubeReplicaSet>) -> Seq<
    DisplayFindingView,
>
    decreases sets.len(),
{
    if sets.len() == 0 {
        Seq::empty()
    } else {
        replica_sets_display(checks, sets.drop_last()) + rs_checks_display(checks, sets.last())
    }
}

/// Run every registered ReplicaSet check against every ReplicaSet and return
/// the flattened display findings.
pub fn evaluate_rs_findings(replica_sets: &[KubeReplicaSet]) -> (r: Vec<DisplayFinding>)
    ensures
        display_view(r@) == replica_sets_display(registered_rs_checks(), replica_sets@),
{
    let checks = all_rs_checks();
    let mut out: Vec<DisplayFinding> = Vec::new();
    let mut i: usize = 0;
    while i < replica_sets.len()
        invariant
            i <= replica_sets@.len(),
            checks@ == registered_rs_checks(),
            display_view(out@) == replica_sets_display(checks@, replica_sets@.take(i as int)),
        decreases replica_sets@.len() - i,
    {
        let rs = &replica_sets[i];
        let mut j: usize = 0;
        while j < checks.len()
            invariant
                i < replica_sets@.len(),
                *rs == replica_sets@[i as int],
                j <= checks@.len(),
                checks@ == registered_rs_checks(),
                display_view(out@) == replica_sets_display(checks@, replica_sets@.take(i as int))
                    + rs_checks_display(checks@.take(j as int), *rs),
            decreases checks@.len() - j,
        {
            let ghost before = out@;
            match checks[j].run(rs) {
                Some(f) => {
                    out.push(f.into_display_finding());
                },
                None => {},
            }
            proof {
                assert(checks@.take(j + 1).drop_last() =~= checks@.take(j as int));
                assert(display_view(out@) =~= display_view(before) + opt_seq(
                    rs_check_display(checks@[j as int], *rs),
                ));
            }
            j = j + 1;
        }
        proof {
            assert(checks@.take(checks@.len() as int) =~= checks@);
            assert(replica_sets@.take(i + 1).drop_last() =~= replica_sets@.take(i as int));
        }
        i = i + 1;
    }
    proof {
        assert(replica_sets@.take(replica_sets@.len() as int) =~= replica_sets@);
    }
    out
}

/// A replica set that reports no status counts zero of everything, so the
/// status check reports nothing of it.
pub proof fn lemma_rs_without_status_not_reported(rs: KubeReplicaSet)
    requires
        rs.status is None,
    ensures
        rs_check_display(RsCheck::Status, rs) is None,
{
}

/// The counts a replica set is judged by are those of its status, each
/// missing one taken as zero, and all zero when it reports no status.
pub proof fn lemma_rs_counts_from_status(rs: KubeReplicaSet)
    ensures
        rs.status is None ==> rs_counts(rs) == (0i32, 0i32, 0i32, 0i32),
        rs.status is Some ==> {
            let s = rs.status->0;
            let c = rs_counts(rs);
            &&& c.0 == (if s.available_replicas is Some {
                s.available_replicas->0
            } else {
                0
            })
            &&& c.1 == (if s.fully_labeled_replicas is Some {
                s.fully_labeled_replicas->0
            } else {
                0
            })
            &&& c.2 == (if s.ready_replicas is Some {
                s.ready_replicas->0
            } else {
                0
            })
            &&& c.3 == s.replicas
        },
{
}

/// A replica set is reported exactly when its four counts (available, fully
/// labeled, ready, total) are not all equal, as a warning that lists the four
/// counts in that order, with the replica set's own name, namespace and age.
pub proof fn lemma_rs_reported_iff_counts_differ(rs: KubeReplicaSet)
    ensures
        ({
            let c = rs_counts(rs);
            rs_check_display(RsCheck::Status, rs) is None <==> (c.0 == c.1 && c.1 == c.2 && c.2
                == c.3)
        }),
        rs_check_display(RsCheck::Status, rs) is Some ==> {
            let c = rs_counts(rs);
            let d = rs_check_display(RsCheck::Status, rs)->0;
            &&& d.severity == Severity::Warn
            &&& d.reason == "Replica counts differ"@
            &&& d.message == "ReplicaSet status mismatch: available="@ + int_text(c.0 as int)
                + ", fully_labeled="@ + int_text(c.1 as int) + ", ready="@ + int_text(c.2 as int)
                + ", replicas="@ + int_text(c.3 as int)
            &&& d.resource_kind == ResourceKind::ReplicaSet
            &&& d.resource_name == rs.name@
            &&& d.describe_name == rs.name@
            &&& d.namespace == Some(rs.namespace@)
            &&& d.describe_namespace == Some(rs.namespace@)
            &&& d.age == rs.age@
        },
{
}

/// Replica set findings are shown as ReplicaSet findings of its own name and
/// namespace, described as `replicaset`.
pub proof fn lemma_rs_display(severity: Severity, p: RsFindingView)
    ensures
        rs_display(severity, p).severity == severity,
        rs_display(severity, p).resource_kind == ResourceKind::ReplicaSet,
        rs_display(severity, p).describe_kind == "replicaset"@,
        rs_display(severity, p).resource_name == p.rs_name,
        rs_display(severity, p).describe_name == p.rs_name,
        rs_display(severity, p).namespace == Some(p.namespace),
        rs_display(severity, p).describe_namespace == Some(p.namespace),
        rs_display(severity, p).reason == p.reason,
        rs_display(severity, p).message == p.message,
        rs_display(severity, p).age == p.age,
{
}

/// Replica sets are reported one after another in their order, and each one
/// check by check.
pub proof fn lemma_replica_sets_in_order(checks: Seq<RsCheck>, sets: Seq<KubeReplicaSet>, rs: KubeReplicaSet, check: RsCheck)
    ensures
        replica_sets_display(checks, sets.push(rs)) == replica_sets_display(checks, sets)
            + rs_checks_display(checks, rs),
        rs_checks_display(checks.push(check), rs) == rs_checks_display(checks, rs) + opt_seq(
            rs_check_display(check, rs),
        ),
        replica_sets_display(checks, Seq::<KubeReplicaSet>::empty()) == Seq::<
            DisplayFindingView,
        >::empty(),
{
    assert(sets.push(rs).drop_last() =~= sets);
    assert(checks.push(check).drop_last() =~= checks);
}

} // verus!
