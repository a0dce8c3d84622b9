//! The cached Kubernetes objects that the checks read, holding as plain values
//! the parts of each object's status that the checks look at.

use vstd::prelude::*;

verus! {

/// A point in time, as whole seconds since the Unix epoch and the nanoseconds
/// within that second.
#[derive(Clone, Copy, Debug, PartialEq, Eq)]
pub struct Timestamp {
    pub seconds: i64,
    pub nanos: u32,
}

/// The order of optional timestamps: an absent time comes before every
/// present one, and present times are ordered chronologically.
pub open spec fn time_lt(a: Option<Timestamp>, b: Option<Timestamp>) -> bool {
    match (a, b) {
        (None, Some(_)) => true,
        (Some(x), Some(y)) => x.seconds < y.seconds || (x.seconds == y.seconds && x.nanos < y.nanos),
        _ => false,
    }
}

/// Whether `a` comes strictly before `b`.
pub fn time_before(a: &Option<Timestamp>, b: &Option<Timestamp>) -> (r: bool)
    ensures
        r == time_lt(*a, *b),
{
    match (a, b) {
        (None, Some(_)) => true,
        (Some(x), Some(y)) => x.seconds < y.seconds || (x.seconds == y.seconds && x.nanos < y.nanos),
        _ => false,
    }
}

/// One entry of `pod.status.conditions`.
pub struct PodCondition {
    pub reason: Option<String>,
    pub message: Option<String>,
    pub last_transition_time: Option<Timestamp>,
}

/// The parts of `pod.status` that the checks read.
pub struct PodStatus {
    pub phase: Option<String>,
    pub reason: Option<String>,
    pub message: Option<String>,
    pub conditions: Option<Vec<PodCondition>>,
}

/// A cached pod.
pub struct KubePod {
    pub name: String,
    pub namespace: String,
    pub age: String,
    pub status: Option<PodStatus>,
}

/// The parts of `persistentVolumeClaim.status` that the checks read.
pub struct PvcStatus {
    pub phase: Option<String>,
}

/// A cached persistent volume claim.
pub struct KubePVC {
    pub name: String,
    pub namespace: String,
    pub age: String,
    pub status: Option<PvcStatus>,
}

/// The replica counts of `replicaSet.status`.
pub struct ReplicaSetStatus {
    pub available_replicas: Option<i32>,
    pub fully_labeled_replicas: Option<i32>,
    pub ready_replicas: Option<i32>,
    pub replicas: i32,
}

/// A cached replica set.
pub struct KubeReplicaSet {
    pub name: String,
    pub namespace: String,
    pub age: String,
    pub status: Option<ReplicaSetStatus>,
}

/// Times are ordered chronologically: an earlier second comes first whatever
/// the nanoseconds, within one second the earlier nanosecond comes first, an
/// absent time comes before every present one, and nothing comes before an
/// absent time.
pub proof fn lemma_time_lt_chronological(a: Option<Timestamp>, b: Option<Timestamp>)
    ensures
        a is Some && b is Some && a->0.seconds < b->0.seconds ==> time_lt(a, b),
        a is Some && b is Some && a->0.seconds > b->0.seconds ==> !time_lt(a, b),
        a is Some && b is Some && a->0.seconds == b->0.seconds ==> (time_lt(a, b) <==> a->0.nanos
            < b->0.nanos),
        a is None && b is Some ==> time_lt(a, b),
        b is None ==> !time_lt(a, b),
{
}

} // verus!
