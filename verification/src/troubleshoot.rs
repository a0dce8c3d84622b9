//! Core troubleshooting types: severities, categories, findings, rules and
//! rule sets, and the evaluation that gathers and orders every finding.

use vstd::prelude::*;

use crate::models::{App, StatefulTable};
use crate::sorting::{is_stable_sort, sort_findings};
use crate::text::chars_lt;
use crate::troubleshoot_rules::{
    built_in_rulesets, built_in_rulesets_view, check_findings, eval_pod_phase, pod_phase_rule_findings,
};

verus! {

// ---------------------------------------------------------------------------
// Classification enums and their display names
// ---------------------------------------------------------------------------

#[derive(Clone, Copy, Debug, PartialEq, Eq, Structural)]
pub enum Severity {
    Critical,
    Warn,
    Info,
}

#[derive(Clone, Copy, Debug, PartialEq, Eq, Structural)]
pub enum Category {
    Workloads,
    Nodes,
    Storage,
    Networking,
}

#[derive(Clone, Copy, Debug, PartialEq, Eq, Structural)]
pub enum Scope {
    Cluster,
    Namespace,
}

#[derive(Clone, Copy, Debug, PartialEq, Eq, Structural)]
pub enum ResourceKind {
    Pod,
    Deployment,
    Node,
    Pvc,
    ReplicaSet,
}

pub open spec fn severity_label(s: Severity) -> Seq<char> {
    match s {
        Severity::Critical => "Critical"@,
        Severity::Warn => "Warn"@,
        Severity::Info => "Info"@,
    }
}

pub open spec fn category_label(c: Category) -> Seq<char> {
    match c {
        Category::Workloads => "Workloads"@,
        Category::Nodes => "Nodes"@,
        Category::Storage => "Storage"@,
        Category::Networking => "Networking"@,
    }
}

pub open spec fn scope_label(s: Scope) -> Seq<char> {
    match s {
        Scope::Cluster => "Cluster"@,
        Scope::Namespace => "Namespace"@,
    }
}

pub open spec fn resource_kind_label(k: ResourceKind) -> Seq<char> {
    match k {
        ResourceKind::Pod => "Pod"@,
        ResourceKind::Deployment => "Deployment"@,
        ResourceKind::Node => "Node"@,
        ResourceKind::Pvc => "PVC"@,
        ResourceKind::ReplicaSet => "ReplicaSet"@,
    }
}

impl Severity {
    /// The name under which the severity is shown.
    pub fn label(&self) -> (r: &'static str)
        ensures
            r@ == severity_label(*self),
    {
        match self {
            Severity::Critical => "Critical",
            Severity::Warn => "Warn",
            Severity::Info => "Info",
        }
    }

    pub fn to_string(&self) -> (r: String)
        ensures
            r@ == severity_label(*self),
    {
        String::from_str(self.label())
    }
}

impl Category {
    /// The name under which the category is shown.
    pub fn label(&self) -> (r: &'static str)
        ensures
            r@ == category_label(*self),
    {
        match self {
            Category::Workloads => "Workloads",
            Category::Nodes => "Nodes",
            Category::Storage => "Storage",
            Category::Networking => "Networking",
        }
    }

    pub fn to_string(&self) -> (r: String)
        ensures
            r@ == category_label(*self),
    {
        String::from_str(self.label())
    }
}

impl Scope {
    /// The name under which the scope is shown.
    pub fn label(&self) -> (r: &'static str)
        ensures
            r@ == scope_label(*self),
    {
        match self {
            Scope::Cluster => "Cluster",
            Scope::Namespace => "Namespace",
        }
    }

    pub fn to_string(&self) -> (r: String)
        ensures
            r@ == scope_label(*self),
    {
        String::from_str(self.label())
    }
}

impl ResourceKind {
    /// The name under which the resource kind is shown.
    pub fn label(&self) -> (r: &'static str)
        ensures
            r@ == resource_kind_label(*self),
    {
        match self {
            ResourceKind::Pod => "Pod",
            ResourceKind::Deployment => "Deployment",
            ResourceKind::Node => "Node",
            ResourceKind::Pvc => "PVC",
            ResourceKind::ReplicaSet => "ReplicaSet",
        }
    }

    pub fn to_string(&self) -> (r: String)
        ensures
            r@ == resource_kind_label(*self),
    {
        String::from_str(self.label())
    }
}

/// The position of a severity when findings are listed: critical first.
pub open spec fn severity_order(s: Severity) -> int {
    match s {
        Severity::Critical => 0,
        Severity::Warn => 1,
        Severity::Info => 2,
    }
}

pub fn severity_rank(severity: &Severity) -> (r: u8)
    ensures
        r as int == severity_order(*severity),
{
    match severity {
        Severity::Critical => 0,
        Severity::Warn => 1,
        Severity::Info => 2,
    }
}

// ---------------------------------------------------------------------------
// Finding — a single detected issue
// ---------------------------------------------------------------------------

pub open spec fn opt_view(o: Option<String>) -> Option<Seq<char>> {
    match o {
        Some(s) => Some(s@),
        None => None,
    }
}

#[derive(Clone, Debug, PartialEq)]
pub struct Finding {
    pub id: String,
    pub title: String,
    pub severity: Severity,
    pub category: Category,
    pub scope: Scope,
    pub namespace: Option<String>,
    pub resource_kind: ResourceKind,
    pub resource_name: String,
    pub message: String,
    pub age: String,
    pub describe_kind: String,
    pub describe_name: String,
    pub describe_namespace: Option<String>,
}

/// A finding as plain character sequences.
pub struct FindingView {
    pub id: Seq<char>,
    pub title: Seq<char>,
    pub severity: Severity,
    pub category: Category,
    pub scope: Scope,
    pub namespace: Option<Seq<char>>,
    pub resource_kind: ResourceKind,
    pub resource_name: Seq<char>,
    pub message: Seq<char>,
    pub age: Seq<char>,
    pub describe_kind: Seq<char>,
    pub describe_name: Seq<char>,
    pub describe_namespace: Option<Seq<char>>,
}

impl View for Finding {
    type V = FindingView;

    open spec fn view(&self) -> FindingView {
        FindingView {
            id: self.id@,
            title: self.title@,
            severity: self.severity,
            category: self.category,
            scope: self.scope,
            namespace: opt_view(self.namespace),
            resource_kind: self.resource_kind,
            resource_name: self.resource_name@,
            message: self.message@,
            age: self.age@,
            describe_kind: self.describe_kind@,
            describe_name: self.describe_name@,
            describe_namespace: opt_view(self.describe_namespace),
        }
    }
}

pub open spec fn findings_view(s: Seq<Finding>) -> Seq<FindingView> {
    s.map_values(|f: Finding| f@)
}

/// `namespace/name` when the finding has a non-empty namespace, else `name`.
pub open spec fn resource_ref_text(f: FindingView) -> Seq<char> {
    if f.namespace is Some && f.namespace->0.len() > 0 {
        f.namespace->0 + "/"@ + f.resource_name
    } else {
        f.resource_name
    }
}

fn opt_as_str(o: &Option<String>) -> (r: Option<&str>)
    ensures
        match (o, r) {
            (Some(s), Some(t)) => t@ == s@,
            (None, None) => true,
            _ => false,
        },
{
    match o {
        Some(s) => Some(s.as_str()),
        None => None,
    }
}

impl Finding {
    pub fn resource_ref(&self) -> (r: String)
        ensures
            r@ == resource_ref_text(self@),
    {
        match &self.namespace {
            Some(ns) => {
                if !ns.as_str().is_empty() {
                    let r = ns.clone().concat("/").concat(self.resource_name.as_str());
                    return r;
                }
            },
            None => {},
        }
        self.resource_name.clone()
    }

    /// The kind, name and namespace that a `describe` of this finding targets.
    pub fn describe_target(&self) -> (r: (&str, &str, Option<&str>))
        ensures
            r.0@ == self.describe_kind@,
            r.1@ == self.describe_name@,
            match r.2 {
                Some(ns) => self.describe_namespace is Some && ns@ == self.describe_namespace->0@,
                None => self.describe_namespace is None,
            },
    {
        (self.describe_kind.as_str(), self.describe_name.as_str(), opt_as_str(&self.describe_namespace))
    }

    pub fn get_name(&self) -> (r: &String)
        ensures
            r == &self.resource_name,
    {
        &self.resource_name
    }
}


// ---------------------------------------------------------------------------
// Severity-tagged check results and their display form
// ---------------------------------------------------------------------------

/// What a resource check reports: its resource-specific data, tagged with
/// how serious the issue is.
#[derive(Debug, PartialEq)]
pub enum TaggedFinding<T> {
    Error(T),
    Warn(T),
    Info(T),
}

/// The severity that a tag stands for.
pub open spec fn tag_severity<T>(f: TaggedFinding<T>) -> Severity {
    match f {
        TaggedFinding::Error(_) => Severity::Critical,
        TaggedFinding::Warn(_) => Severity::Warn,
        TaggedFinding::Info(_) => Severity::Info,
    }
}

pub open spec fn tag_inner<T>(f: TaggedFinding<T>) -> T {
    match f {
        TaggedFinding::Error(x) => x,
        TaggedFinding::Warn(x) => x,
        TaggedFinding::Info(x) => x,
    }
}

/// The tagged finding of the given severity.
pub open spec fn tagged<T>(severity: Severity, inner: T) -> TaggedFinding<T> {
    match severity {
        Severity::Critical => TaggedFinding::Error(inner),
        Severity::Warn => TaggedFinding::Warn(inner),
        Severity::Info => TaggedFinding::Info(inner),
    }
}

impl<T> TaggedFinding<T> {
    pub fn tag(severity: Severity, inner: T) -> (r: TaggedFinding<T>)
        ensures
            r == tagged(severity, inner),
    {
        match severity {
            Severity::Critical => TaggedFinding::Error(inner),
            Severity::Warn => TaggedFinding::Warn(inner),
            Severity::Info => TaggedFinding::Info(inner),
        }
    }

    pub fn severity_tag(&self) -> (r: Severity)
        ensures
            r == tag_severity(*self),
    {
        match self {
            TaggedFinding::Error(_) => Severity::Critical,
            TaggedFinding::Warn(_) => Severity::Warn,
            TaggedFinding::Info(_) => Severity::Info,
        }
    }

    pub fn into_inner(self) -> (r: T)
        ensures
            r == tag_inner(self),
    {
        match self {
            TaggedFinding::Error(x) => x,
            TaggedFinding::Warn(x) => x,
            TaggedFinding::Info(x) => x,
        }
    }
}

/// Tagging and untagging give back the severity and the data.
pub proof fn lemma_tag_roundtrip<T>(severity: Severity, inner: T)
    ensures
        tag_severity(tagged(severity, inner)) == severity,
        tag_inner(tagged(severity, inner)) == inner,
{
}

/// A finding of a resource check, as it is listed.
#[derive(Debug, PartialEq)]
pub struct DisplayFinding {
    pub severity: Severity,
    pub reason: String,
    pub resource_kind: ResourceKind,
    pub namespace: Option<String>,
    pub resource_name: String,
    pub message: String,
    pub age: String,
    pub describe_kind: String,
    pub describe_name: String,
    pub describe_namespace: Option<String>,
}

pub struct DisplayFindingView {
    pub severity: Severity,
    pub reason: Seq<char>,
    pub resource_kind: ResourceKind,
    pub namespace: Option<Seq<char>>,
    pub resource_name: Seq<char>,
    pub message: Seq<char>,
    pub age: Seq<char>,
    pub describe_kind: Seq<char>,
    pub describe_name: Seq<char>,
    pub describe_namespace: Option<Seq<char>>,
}

impl View for DisplayFinding {
    type V = DisplayFindingView;

    open spec fn view(&self) -> DisplayFindingView {
        DisplayFindingView {
            severity: self.severity,
            reason: self.reason@,
            resource_kind: self.resource_kind,
            namespace: opt_view(self.namespace),
            resource_name: self.resource_name@,
            message: self.message@,
            age: self.age@,
            describe_kind: self.describe_kind@,
            describe_name: self.describe_name@,
            describe_namespace: opt_view(self.describe_namespace),
        }
    }
}

pub open spec fn display_view(s: Seq<DisplayFinding>) -> Seq<DisplayFindingView> {
    s.map_values(|f: DisplayFinding| f@)
}

/// The display finding of a namespaced resource: the same namespace is shown
/// and described, and the resource is described under its own name.
pub open spec fn namespaced_display(
    severity: Severity,
    kind: ResourceKind,
    describe_kind: Seq<char>,
    namespace: Seq<char>,
    name: Seq<char>,
    reason: Seq<char>,
    message: Seq<char>,
    age: Seq<char>,
) -> DisplayFindingView {
    DisplayFindingView {
        severity,
        reason,
        resource_kind: kind,
        namespace: Some(namespace),
        resource_name: name,
        message,
        age,
        describe_kind,
        describe_name: name,
        describe_namespace: Some(namespace),
    }
}

/// The sequence holding the value, if there is one.
pub open spec fn opt_seq<A>(o: Option<A>) -> Seq<A> {
    match o {
        Some(a) => seq![a],
        None => Seq::empty(),
    }
}

// ---------------------------------------------------------------------------
// Rule & Ruleset — the building blocks of rule sets
// ---------------------------------------------------------------------------

/// What a rule evaluates against the cached cluster state.
#[derive(Clone, Copy, Debug, PartialEq, Eq, Structural)]
pub enum RuleCheck {
    /// Pods in an unhealthy phase.
    PodPhase,
}

impl RuleCheck {
    /// Evaluates the check.
    pub fn run(&self, app: &App) -> (r: Vec<Finding>)
        ensures
            findings_view(r@) == check_findings(*self, *app),
    {
        match self {
            RuleCheck::PodPhase => eval_pod_phase(app),
        }
    }
}

#[derive(Clone)]
pub struct Rule {
    pub id: &'static str,
    pub title: &'static str,
    pub severity: Severity,
    pub category: Category,
    pub scope: Scope,
    pub resources: Vec<ResourceKind>,
    pub enabled: bool,
    pub evaluate: RuleCheck,
}

pub struct RuleView {
    pub id: Seq<char>,
    pub title: Seq<char>,
    pub severity: Severity,
    pub category: Category,
    pub scope: Scope,
    pub resources: Seq<ResourceKind>,
    pub enabled: bool,
    pub evaluate: RuleCheck,
}

impl View for Rule {
    type V = RuleView;

    open spec fn view(&self) -> RuleView {
        RuleView {
            id: self.id@,
            title: self.title@,
            severity: self.severity,
            category: self.category,
            scope: self.scope,
            resources: self.resources@,
            enabled: self.enabled,
            evaluate: self.evaluate,
        }
    }
}

impl Rule {
    /// A rule, enabled.
    pub fn new(
        id: &'static str,
        title: &'static str,
        severity: Severity,
        category: Category,
        scope: Scope,
        resources: Vec<ResourceKind>,
        evaluate: RuleCheck,
    ) -> (r: Self)
        ensures
            r@ == (RuleView {
                id: id@,
                title: title@,
                severity,
                category,
                scope,
                resources: resources@,
                enabled: true,
                evaluate,
            }),
    {
        Rule { id, title, severity, category, scope, resources, enabled: true, evaluate }
    }
}

pub struct Ruleset {
    pub id: &'static str,
    pub title: &'static str,
    pub description: &'static str,
    pub enabled: bool,
    pub rules: Vec<Rule>,
}

pub struct RulesetView {
    pub id: Seq<char>,
    pub title: Seq<char>,
    pub description: Seq<char>,
    pub enabled: bool,
    pub rules: Seq<RuleView>,
}

impl View for Ruleset {
    type V = RulesetView;

    open spec fn view(&self) -> RulesetView {
        RulesetView {
            id: self.id@,
            title: self.title@,
            description: self.description@,
            enabled: self.enabled,
            rules: self.rules@.map_values(|r: Rule| r@),
        }
    }
}

/// What a rule reports: its check's findings when it is enabled, else none.
pub open spec fn rule_findings(rule: RuleView, app: App) -> Seq<FindingView> {
    if rule.enabled {
        check_findings(rule.evaluate, app)
    } else {
        Seq::empty()
    }
}

/// What the rules report, rule by rule.
pub open spec fn rules_findings(rules: Seq<RuleView>, app: App) -> Seq<FindingView>
    decreases rules.len(),
{
    if rules.len() == 0 {
        Seq::empty()
    } else {
        rules_findings(rules.drop_last(), app) + rule_findings(rules.last(), app)
    }
}

/// What a rule set reports: its rules' findings when it is enabled, else none.
pub open spec fn ruleset_findings(rs: RulesetView, app: App) -> Seq<FindingView> {
    if rs.enabled {
        rules_findings(rs.rules, app)
    } else {
        Seq::empty()
    }
}

/// What the rule sets report, set by set.
pub open spec fn rulesets_findings(rulesets: Seq<RulesetView>, app: App) -> Seq<FindingView>
    decreases rulesets.len(),
{
    if rulesets.len() == 0 {
        Seq::empty()
    } else {
        rulesets_findings(rulesets.drop_last(), app) + ruleset_findings(rulesets.last(), app)
    }
}

/// Every finding of the built-in rule sets, in the order the rules report them.
pub open spec fn all_findings(app: App) -> Seq<FindingView> {
    rulesets_findings(built_in_rulesets_view(), app)
}

impl Ruleset {
    /// A rule set, enabled and without rules.
    pub fn new(id: &'static str, title: &'static str, description: &'static str) -> (r: Self)
        ensures
            r@ == (RulesetView {
                id: id@,
                title: title@,
                description: description@,
                enabled: true,
                rules: Seq::empty(),
            }),
    {
        let r = Ruleset { id, title, description, enabled: true, rules: Vec::new() };
        assert(r@.rules =~= Seq::<RuleView>::empty());
        r
    }

    /// The rule set with `rule` added after its rules.
    pub fn rule(self, rule: Rule) -> (r: Self)
        ensures
            r@ == (RulesetView { rules: self@.rules.push(rule@), ..self@ }),
    {
        let mut s = self;
        let ghost before = s.rules@;
        s.rules.push(rule);
        assert(s.rules@.map_values(|r: Rule| r@) =~= before.map_values(|r: Rule| r@).push(rule@));
        s
    }

    /// The findings of the enabled rules, rule by rule; none when the rule set
    /// is disabled.
    pub fn evaluate(&self, app: &App) -> (r: Vec<Finding>)
        ensures
            findings_view(r@) == ruleset_findings(self@, *app),
    {
        if !self.enabled {
            let r: Vec<Finding> = Vec::new();
            assert(findings_view(r@) =~= Seq::<FindingView>::empty());
            return r;
        }
        let mut out: Vec<Finding> = Vec::new();
        let mut i: usize = 0;
        let ghost rules = self@.rules;
        assert(findings_view(out@) =~= rules_findings(rules.take(0), *app));
        while i < self.rules.len()
            invariant
                i <= self.rules@.len(),
                rules == self@.rules,
                rules.len() == self.rules@.len(),
                findings_view(out@) == rules_findings(rules.take(i as int), *app),
            decreases self.rules@.len() - i,
        {
            let ghost before = out@;
            assert(rules[i as int] == self.rules@[i as int]@);
            if self.rules[i].enabled {
                let mut found = self.rules[i].evaluate.run(app);
                let ghost added = found@;
                out.append(&mut found);
                assert(findings_view(out@) =~= findings_view(before) + findings_view(added));
            } else {
                assert(findings_view(out@) =~= findings_view(before) + Seq::<FindingView>::empty());
            }
            assert(rules.take(i + 1).drop_last() =~= rules.take(i as int));
            i = i + 1;
        }
        assert(rules.take(rules.len() as int) =~= rules);
        out
    }
}

// ---------------------------------------------------------------------------
// Evaluation
// ---------------------------------------------------------------------------

/// Every finding of the built-in rule sets, critical first, then by category
/// name, then by resource name; findings that agree on these keep the order
/// in which their rules reported them.
pub fn evaluate_findings(app: &App) -> (r: Vec<Finding>)
    ensures
        is_stable_sort(findings_view(r@), all_findings(*app)),
{
    let rulesets = built_in_rulesets();
    let ghost sets = rulesets@.map_values(|rs: Ruleset| rs@);
    let mut found: Vec<Finding> = Vec::new();
    let mut i: usize = 0;
    assert(findings_view(found@) =~= rulesets_findings(sets.take(0), *app));
    while i < rulesets.len()
        invariant
            i <= rulesets@.len(),
            sets == rulesets@.map_values(|rs: Ruleset| rs@),
            findings_view(found@) == rulesets_findings(sets.take(i as int), *app),
        decreases rulesets@.len() - i,
    {
        let ghost before = found@;
        let mut more = rulesets[i].evaluate(app);
        let ghost added = more@;
        found.append(&mut more);
        assert(findings_view(found@) =~= findings_view(before) + findings_view(added));
        assert(sets.take(i + 1).drop_last() =~= sets.take(i as int));
        i = i + 1;
    }
    assert(sets.take(sets.len() as int) =~= sets);
    sort_findings(found)
}

/// The number of findings of the built-in rule sets.
pub fn findings_count(app: &App) -> (r: usize)
    ensures
        r == all_findings(*app).len(),
{
    let f = evaluate_findings(app);
    f.len()
}

/// Puts the listed findings of the built-in rule sets into `table`.
pub fn update_findings(app: &App, table: &mut StatefulTable<Finding>)
    ensures
        is_stable_sort(findings_view(final(table).items@), all_findings(*app)),
{
    let items = evaluate_findings(app);
    table.set_items(items);
}

// ---------------------------------------------------------------------------
// Listing
// ---------------------------------------------------------------------------

/// The style in which a finding's row is drawn.
#[derive(Clone, Copy, Debug, PartialEq, Eq, Structural)]
pub enum RowTone {
    Failure,
    Warning,
    Primary,
}

/// Critical findings are drawn as failures, warnings as warnings, the rest
/// in the primary style.
pub open spec fn severity_tone(s: Severity) -> RowTone {
    match s {
        Severity::Critical => RowTone::Failure,
        Severity::Warn => RowTone::Warning,
        Severity::Info => RowTone::Primary,
    }
}

/// The columns of the troubleshooting view: severity, category, scope,
/// resource (`kind ref`), message and age.
pub open spec fn finding_row_text(f: FindingView) -> Seq<Seq<char>> {
    seq![
        severity_label(f.severity),
        category_label(f.category),
        scope_label(f.scope),
        resource_kind_label(f.resource_kind) + " "@ + resource_ref_text(f),
        f.message,
        f.age,
    ]
}

impl Finding {
    /// The style of the finding's row.
    pub fn row_tone(&self) -> (r: RowTone)
        ensures
            r == severity_tone(self.severity),
    {
        match self.severity {
            Severity::Critical => RowTone::Failure,
            Severity::Warn => RowTone::Warning,
            Severity::Info => RowTone::Primary,
        }
    }

    /// The cells of the finding's row.
    pub fn table_row(&self) -> (r: Vec<String>)
        ensures
            r@.map_values(|s: String| s@) == finding_row_text(self@),
    {
        let mut r: Vec<String> = Vec::new();
        r.push(self.severity.to_string());
        r.push(self.category.to_string());
        r.push(self.scope.to_string());
        let resource = self.resource_kind.to_string().concat(" ").concat(
            self.resource_ref().as_str(),
        );
        r.push(resource);
        r.push(self.message.clone());
        r.push(self.age.clone());
        assert(r@.map_values(|s: String| s@) =~= finding_row_text(self@));
        r
    }
}

/// The troubleshooting view.  Its findings are derived from the cached
/// resources, so it fetches nothing of its own.
pub struct TroubleshootResource;

// ---------------------------------------------------------------------------
// Laws
// ---------------------------------------------------------------------------

/// A disabled rule set reports nothing, whatever its rules.
pub proof fn lemma_disabled_ruleset_reports_nothing(rs: RulesetView, app: App)
    requires
        !rs.enabled,
    ensures
        ruleset_findings(rs, app) == Seq::<FindingView>::empty(),
{
}

/// Adding a disabled rule to a rule set changes nothing it reports.
pub proof fn lemma_disabled_rule_reports_nothing(rs: RulesetView, rule: RuleView, app: App)
    requires
        !rule.enabled,
    ensures
        ruleset_findings(RulesetView { rules: rs.rules.push(rule), ..rs }, app) == ruleset_findings(
            rs,
            app,
        ),
{
    assert(rs.rules.push(rule).drop_last() =~= rs.rules);
    assert(rules_findings(rs.rules, app) + Seq::<FindingView>::empty() =~= rules_findings(
        rs.rules,
        app,
    ));
}

/// An enabled rule set reports, after what it reported before, what an added
/// rule reports.
pub proof fn lemma_added_rule_reports_last(rs: RulesetView, rule: RuleView, app: App)
    requires
        rs.enabled,
    ensures
        ruleset_findings(RulesetView { rules: rs.rules.push(rule), ..rs }, app) == ruleset_findings(
            rs,
            app,
        ) + rule_findings(rule, app),
{
    assert(rs.rules.push(rule).drop_last() =~= rs.rules);
}

/// The built-in rule sets report exactly what the pod-phase rule reports of
/// the cached pods.
pub proof fn lemma_built_in_findings_are_pod_phase_findings(app: App)
    ensures
        all_findings(app) == pod_phase_rule_findings(app.pods@),
{
    let sets = built_in_rulesets_view();
    let pods = pod_phase_rule_findings(app.pods@);
    let empty = Seq::<FindingView>::empty();
    assert(sets.drop_last() =~= Seq::<RulesetView>::empty());
    assert(rulesets_findings(sets.drop_last(), app) == empty);
    let rules = sets[0].rules;
    assert(rules.drop_last() =~= Seq::<RuleView>::empty());
    assert(rules_findings(rules.drop_last(), app) == empty);
    assert(rule_findings(rules.last(), app) == pods);
    assert(rules_findings(rules, app) =~= pods);
    assert(ruleset_findings(sets.last(), app) == pods);
    assert(rulesets_findings(sets, app) =~= pods);
}

/// Category names sort alphabetically: Networking, Nodes, Storage, Workloads.
pub proof fn lemma_category_names_alphabetical()
    ensures
        chars_lt(category_label(Category::Networking), category_label(Category::Nodes)),
        chars_lt(category_label(Category::Nodes), category_label(Category::Storage)),
        chars_lt(category_label(Category::Storage), category_label(Category::Workloads)),
{
    reveal_strlit("Networking");
    reveal_strlit("Nodes");
    reveal_strlit("Storage");
    reveal_strlit("Workloads");
    let a = "Networking"@;
    let b = "Nodes"@;
    assert(a[0] == b[0]);
    assert(a.drop_first()[0] == 'e' && b.drop_first()[0] == 'o');
    assert(chars_lt(a.drop_first(), b.drop_first()));
    assert(("Nodes"@[0] as int) < ("Storage"@[0] as int));
    assert(("Storage"@[0] as int) < ("Workloads"@[0] as int));
}

/// Different severities, categories, scopes and resource kinds are shown
/// under different names.
pub proof fn lemma_labels_distinct(s1: Severity, s2: Severity, c1: Category, c2: Category, p1: Scope, p2: Scope, k1: ResourceKind, k2: ResourceKind)
    ensures
        s1 != s2 ==> severity_label(s1) != severity_label(s2),
        c1 != c2 ==> category_label(c1) != category_label(c2),
        p1 != p2 ==> scope_label(p1) != scope_label(p2),
        k1 != k2 ==> resource_kind_label(k1) != resource_kind_label(k2),
{
    reveal_strlit("Critical");
    reveal_strlit("Warn");
    reveal_strlit("Info");
    reveal_strlit("Workloads");
    reveal_strlit("Nodes");
    reveal_strlit("Storage");
    reveal_strlit("Networking");
    reveal_strlit("Cluster");
    reveal_strlit("Namespace");
    reveal_strlit("Pod");
    reveal_strlit("Deployment");
    reveal_strlit("Node");
    reveal_strlit("PVC");
    reveal_strlit("ReplicaSet");
    if s1 != s2 {
        assert(severity_label(s1)[0] != severity_label(s2)[0]);
    }
    if c1 != c2 {
        if (c1 == Category::Nodes && c2 == Category::Networking) || (c1 == Category::Networking
            && c2 == Category::Nodes) {
            assert(category_label(c1)[1] != category_label(c2)[1]);
        } else {
            assert(category_label(c1)[0] != category_label(c2)[0]);
        }
    }
    if p1 != p2 {
        assert(scope_label(p1)[0] != scope_label(p2)[0]);
    }
    if k1 != k2 {
        if (k1 == ResourceKind::Node && k2 == ResourceKind::Pod) || (k1 == ResourceKind::Pod
            && k2 == ResourceKind::Node) || (k1 == ResourceKind::Pvc && k2 == ResourceKind::Pod)
            || (k1 == ResourceKind::Pod && k2 == ResourceKind::Pvc) || (k1 == ResourceKind::Node
            && k2 == ResourceKind::Pvc) || (k1 == ResourceKind::Pvc && k2 == ResourceKind::Node) {
            assert(resource_kind_label(k1).len() != resource_kind_label(k2).len()
                || resource_kind_label(k1)[1] != resource_kind_label(k2)[1]);
        } else {
            assert(resource_kind_label(k1)[0] != resource_kind_label(k2)[0]);
        }
    }
}

/// A finding's row holds, in order: the name of its own severity, of its
/// category, of its scope, its kind's name and its reference separated by a
/// space, its message and its age.
pub proof fn lemma_finding_row_cells(f: FindingView)
    ensures
        finding_row_text(f).len() == 6,
        finding_row_text(f)[0] == severity_label(f.severity),
        finding_row_text(f)[1] == category_label(f.category),
        finding_row_text(f)[2] == scope_label(f.scope),
        finding_row_text(f)[3] == resource_kind_label(f.resource_kind) + " "@ + resource_ref_text(f),
        finding_row_text(f)[4] == f.message,
        finding_row_text(f)[5] == f.age,
{
}

/// A finding is referred to as `namespace/name` when it has a non-empty
/// namespace, and by its bare name otherwise.
pub proof fn lemma_resource_ref(f: FindingView)
    ensures
        f.namespace is Some && f.namespace->0.len() > 0 ==> resource_ref_text(f)
            == f.namespace->0 + "/"@ + f.resource_name,
        !(f.namespace is Some && f.namespace->0.len() > 0) ==> resource_ref_text(f)
            == f.resource_name,
{
}

/// Rows are drawn in a style that tells the severities apart: critical as a
/// failure, warnings as warnings, information in the primary style.
pub proof fn lemma_row_tone(s1: Severity, s2: Severity)
    ensures
        s1 != s2 ==> severity_tone(s1) != severity_tone(s2),
        severity_tone(s1) == RowTone::Failure <==> s1 == Severity::Critical,
        severity_tone(s1) == RowTone::Warning <==> s1 == Severity::Warn,
        severity_tone(s1) == RowTone::Primary <==> s1 == Severity::Info,
{
}

/// Critical findings are listed before warnings, and warnings before
/// information.
pub proof fn lemma_severity_order(s1: Severity, s2: Severity)
    ensures
        s1 == Severity::Critical && s2 != Severity::Critical ==> severity_order(s1) < severity_order(s2),
        s1 == Severity::Warn && s2 == Severity::Info ==> severity_order(s1) < severity_order(s2),
        s1 != s2 ==> severity_order(s1) != severity_order(s2),
{
}

/// Each tag stands for its own severity: `Error` for critical, `Warn` for a
/// warning, `Info` for information, and untagging gives back the data.
pub proof fn lemma_tag_severities<T>(x: T)
    ensures
        tag_severity(TaggedFinding::Error(x)) == Severity::Critical,
        tag_severity(TaggedFinding::Warn(x)) == Severity::Warn,
        tag_severity(TaggedFinding::Info(x)) == Severity::Info,
        tag_inner(TaggedFinding::Error(x)) == x,
        tag_inner(TaggedFinding::Warn(x)) == x,
        tag_inner(TaggedFinding::Info(x)) == x,
{
}

/// Rule sets report one after another, in their order.
pub proof fn lemma_rulesets_in_order(sets: Seq<RulesetView>, rs: RulesetView, app: App)
    ensures
        rulesets_findings(sets.push(rs), app) == rulesets_findings(sets, app) + ruleset_findings(
            rs,
            app,
        ),
        rulesets_findings(Seq::<RulesetView>::empty(), app) == Seq::<FindingView>::empty(),
{
    assert(sets.push(rs).drop_last() =~= sets);
}

} // verus!
