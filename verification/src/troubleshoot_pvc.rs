//! PVC-specific troubleshooting checks.
//!
//! Inspects cached persistent volume claim state and reports claims whose
//! phase is unhealthy or noteworthy.

use vstd::prelude::*;

use crate::resources::KubePVC;
use crate::text::str_eq;
use crate::troubleshoot::{
    display_view, namespaced_display, opt_seq, tag_inner, tag_severity, DisplayFinding,
    DisplayFindingView, ResourceKind, Severity, TaggedFinding,
};

verus! {

// ---------------------------------------------------------------------------
// PvcFinding — resource-specific finding data for PVCs
// ---------------------------------------------------------------------------

#[derive(Debug, PartialEq)]
pub struct PvcFinding {
    pub id: String,
    pub reason: String,
    pub namespace: String,
    pub pvc_name: String,
    pub message: String,
    pub age: String,
}

pub struct PvcFindingView {
    pub id: Seq<char>,
    pub reason: Seq<char>,
    pub namespace: Seq<char>,
    pub pvc_name: Seq<char>,
    pub message: Seq<char>,
    pub age: Seq<char>,
}

impl View for PvcFinding {
    type V = PvcFindingView;

    open spec fn view(&self) -> PvcFindingView {
        PvcFindingView {
            id: self.id@,
            reason: self.reason@,
            namespace: self.namespace@,
            pvc_name: self.pvc_name@,
            message: self.message@,
            age: self.age@,
        }
    }
}

/// How a tagged PVC finding is listed.
pub open spec fn pvc_display(severity: Severity, p: PvcFindingView) -> DisplayFindingView {
    namespaced_display(
        severity,
        ResourceKind::Pvc,
        "persistentvolumeclaim"@,
        p.namespace,
        p.pvc_name,
        p.reason,
        p.message,
        p.age,
    )
}

impl TaggedFinding<PvcFinding> {
    pub fn into_display_finding(self) -> (r: DisplayFinding)
        ensures
            r@ == pvc_display(tag_severity(self), tag_inner(self)@),
    {
        let severity = self.severity_tag();
        let inner = self.into_inner();
        let ns = inner.namespace.clone();
        let name = inner.pvc_name.clone();
        DisplayFinding {
            severity,
            reason: inner.reason,
            resource_kind: ResourceKind::Pvc,
            namespace: Some(ns),
            resource_name: name,
            message: inner.message,
            age: inner.age,
            describe_kind: String::from_str("persistentvolumeclaim"),
            describe_name: inner.pvc_name,
            describe_namespace: Some(inner.namespace),
        }
    }
}

// ---------------------------------------------------------------------------
// Helpers
// ---------------------------------------------------------------------------

/// `pvc.status.phase`, or `Unknown` where the claim reports none.
pub open spec fn pvc_phase_text(pvc: KubePVC) -> Seq<char> {
    match pvc.status {
        Some(s) => match s.phase {
            Some(p) => p@,
            None => "Unknown"@,
        },
        None => "Unknown"@,
    }
}

/// Extract `pvc.status.phase`, falling back to `"Unknown"`.
fn pvc_phase(pvc: &KubePVC) -> (r: &str)
    ensures
        r@ == pvc_phase_text(*pvc),
{
    match &pvc.status {
        Some(s) => match &s.phase {
            Some(p) => p.as_str(),
            None => "Unknown",
        },
        None => "Unknown",
    }
}

// ---------------------------------------------------------------------------
// Checks
// ---------------------------------------------------------------------------

/// The data of the finding reported for a claim that is not bound.
pub open spec fn pvc_phase_finding(pvc: KubePVC) -> PvcFindingView {
    PvcFindingView {
        id: "pvc.phase.not_bound"@,
        reason: pvc_phase_text(pvc),
        namespace: pvc.namespace@,
        pvc_name: pvc.name@,
        message: "PVC phase is "@ + pvc_phase_text(pvc),
        age: pvc.age@,
    }
}

/// A check that inspects a single PVC and reports at most one finding.
#[derive(Clone, Copy, Debug, PartialEq, Eq, Structural)]
pub enum PvcCheck {
    /// Claims whose phase is not `Bound`.
    Phase,
}

/// What a check reports of a claim, as it is listed.
pub open spec fn pvc_check_display(check: PvcCheck, pvc: KubePVC) -> Option<DisplayFindingView> {
    match check {
        PvcCheck::Phase => if pvc_phase_text(pvc) == "Bound"@ {
            None
        } else {
            Some(pvc_display(Severity::Warn, pvc_phase_finding(pvc)))
        },
    }
}

/// Detect PVCs whose phase is not `Bound`.
fn check_pvc_phase(pvc: &KubePVC) -> (r: Option<TaggedFinding<PvcFinding>>)
    ensures
        if pvc_phase_text(*pvc) == "Bound"@ {
            r is None
        } else {
            r is Some && r->0 is Warn && tag_inner(r->0)@ == pvc_phase_finding(*pvc)
        },
{
    let phase = pvc_phase(pvc);
    if str_eq(phase, "Bound") {
        return None;
    }
    let message = String::from_str("PVC phase is ").concat(phase);
    Some(
        TaggedFinding::Warn(
            PvcFinding {
                id: String::from_str("pvc.phase.not_bound"),
                reason: String::from_str(phase),
                namespace: pvc.namespace.clone(),
                pvc_name: pvc.name.clone(),
                message,
                age: pvc.age.clone(),
            },
        ),
    )
}

impl PvcCheck {
    /// Runs the check on one claim.
    pub fn run(&self, pvc: &KubePVC) -> (r: Option<TaggedFinding<PvcFinding>>)
        ensures
            match pvc_check_display(*self, *pvc) {
                Some(d) => r is Some && pvc_display(tag_severity(r->0), tag_inner(r->0)@) == d,
                None => r is None,
            },
    {
        match self {
            PvcCheck::Phase => check_pvc_phase(pvc),
        }
    }
}

/// Returns all registered PVC checks.
fn all_pvc_checks() -> (r: Vec<PvcCheck>)
    ensures
        r@ == registered_pvc_checks(),
{
    vec![PvcCheck::Phase]
}

pub open spec fn registered_pvc_checks() -> Seq<PvcCheck> {
    seq![PvcCheck::Phase]
}

/// What the checks report of one claim, in the order of the checks.
pub open spec fn pvc_checks_display(checks: Seq<PvcCheck>, pvc: KubePVC) -> Seq<DisplayFindingView>
    decreases checks.len(),
{
    if checks.len() == 0 {
        Seq::empty()
    } else {
        pvc_checks_display(checks.drop_last(), pvc) + opt_seq(
            pvc_check_display(checks.last(), pvc),
        )
    }
}

/// What the checks report of the claims: claim by claim, and for each claim
/// check by check.
pub open spec fn pvcs_display(checks: Seq<PvcCheck>, pvcs: Seq<KubePVC>) -> Seq<DisplayFindingView>
    decreases pvcs.len(),
{
    if pvcs.len() == 0 {
        Seq::empty()
    } else {
        pvcs_display(checks, pvcs.drop_last()) + pvc_checks_display(checks, pvcs.last())
    }
}

/// Run every registered PVC check against every PVC and return the flattened
/// display findings.
pub fn evaluate_pvc_findings(pvcs: &[KubePVC]) -> (r: Vec<DisplayFinding>)
    ensures
        display_view(r@) == pvcs_display(registered_pvc_checks(), pvcs@),
{
    let checks = all_pvc_checks();
    let mut out: Vec<DisplayFinding> = Vec::new();
    let mut i: usize = 0;
    while i < pvcs.len()
        invariant
            i <= pvcs@.len(),
            checks@ == registered_pvc_checks(),
            display_view(out@) == pvcs_display(checks@, pvcs@.take(i as int)),
        decreases pvcs@.len() - i,
    {
        let pvc = &pvcs[i];
        let mut j: usize = 0;
        while j < checks.len()
            invariant
                i < pvcs@.len(),
                *pvc == pvcs@[i as int],
                j <= checks@.len(),
                checks@ == registered_pvc_checks(),
                display_view(out@) == pvcs_display(checks@, pvcs@.take(i as int))
                    + pvc_checks_display(checks@.take(j as int), *pvc),
            decreases checks@.len() - j,
        {
            let ghost before = out@;
            match checks[j].run(pvc) {
                Some(f) => {
                    out.push(f.into_display_finding());
                },
                None => {},
            }
            proof {
                assert(checks@.take(j + 1).drop_last() =~= checks@.take(j as int));
                assert(display_view(out@) =~= display_view(before) + opt_seq(
                    pvc_check_display(checks@[j as int], *pvc),
                ));
            }
            j = j + 1;
        }
        proof {
            assert(checks@.take(checks@.len() as int) =~= checks@);
            assert(pvcs@.take(i + 1).drop_last() =~= pvcs@.take(i as int));
        }
        i = i + 1;
    }
    proof {
        assert(pvcs@.take(pvcs@.len() as int) =~= pvcs@);
    }
    out
}

/// A claim that reports no phase is taken to be in phase Unknown, and the
/// phase check reports it as a warning with that reason.
pub proof fn lemma_pvc_without_phase_is_warned(pvc: KubePVC)
    requires
        pvc.status is None || pvc.status->0.phase is None,
    ensures
        pvc_check_display(PvcCheck::Phase, pvc) is Some,
        pvc_check_display(PvcCheck::Phase, pvc)->0.severity == Severity::Warn,
        pvc_check_display(PvcCheck::Phase, pvc)->0.reason == "Unknown"@,
        pvc_check_display(PvcCheck::Phase, pvc)->0.message == "PVC phase is "@ + "Unknown"@,
{
    reveal_strlit("Unknown");
    reveal_strlit("Bound");
    assert("Unknown"@[0] != "Bound"@[0]);
}

/// The phase a claim is judged by is its `status.phase` verbatim, or
/// `Unknown` when it reports none; a claim is reported exactly when that
/// phase is not `Bound`, as a warning whose reason is the phase and whose
/// message names it, with the claim's own name, namespace and age.
pub proof fn lemma_pvc_reported_unless_bound(pvc: KubePVC)
    ensures
        pvc.status is Some && pvc.status->0.phase is Some ==> pvc_phase_text(pvc)
            == pvc.status->0.phase->0@,
        !(pvc.status is Some && pvc.status->0.phase is Some) ==> pvc_phase_text(pvc) == "Unknown"@,
        pvc_check_display(PvcCheck::Phase, pvc) is None <==> pvc_phase_text(pvc) == "Bound"@,
        pvc_check_display(PvcCheck::Phase, pvc) is Some ==> {
            let d = pvc_check_display(PvcCheck::Phase, pvc)->0;
            &&& d.severity == Severity::Warn
            &&& d.reason == pvc_phase_text(pvc)
            &&& d.message == "PVC phase is "@ + pvc_phase_text(pvc)
            &&& d.resource_kind == ResourceKind::Pvc
            &&& d.resource_name == pvc.name@
            &&& d.describe_name == pvc.name@
            &&& d.namespace == Some(pvc.namespace@)
            &&& d.describe_namespace == Some(pvc.namespace@)
            &&& d.age == pvc.age@
        },
{
}

/// Claim findings are shown as PVC findings of the claim's own name and
/// namespace, described as `persistentvolumeclaim`.
pub proof fn lemma_pvc_display(severity: Severity, p: PvcFindingView)
    ensures
        pvc_display(severity, p).severity == severity,
        pvc_display(severity, p).resource_kind == ResourceKind::Pvc,
        pvc_display(severity, p).describe_kind == "persistentvolumeclaim"@,
        pvc_display(severity, p).resource_name == p.pvc_name,
        pvc_display(severity, p).describe_name == p.pvc_name,
        pvc_display(severity, p).namespace == Some(p.namespace),
        pvc_display(severity, p).describe_namespace == Some(p.namespace),
        pvc_display(severity, p).reason == p.reason,
        pvc_display(severity, p).message == p.message,
        pvc_display(severity, p).age == p.age,
{
}

/// Claims are reported one after another in their order, and each claim
/// check by check.
pub proof fn lemma_pvcs_in_order(checks: Seq<PvcCheck>, pvcs: Seq<KubePVC>, pvc: KubePVC, check: PvcCheck)
    ensures
        pvcs_display(checks, pvcs.push(pvc)) == pvcs_display(checks, pvcs) + pvc_checks_display(
            checks,
            pvc,
        ),
        pvc_checks_display(checks.push(check), pvc) == pvc_checks_display(checks, pvc) + opt_seq(
            pvc_check_display(check, pvc),
        ),
        pvcs_display(checks, Seq::<KubePVC>::empty()) == Seq::<DisplayFindingView>::empty(),
{
    assert(pvcs.push(pvc).drop_last() =~= pvcs);
    assert(checks.push(check).drop_last() =~= checks);
}

} // verus!
