//! The order in which findings are listed: by severity (critical first), then
//! by the name of their category, then by the name of their resource; findings
//! that agree on all three keep the order in which they were reported.

use vstd::prelude::*;
use vstd::set_lib::{lemma_int_range, lemma_map_size, lemma_subset_equality, set_int_range};

use crate::text::{
    chars_lt, lemma_chars_lt_irreflexive, lemma_chars_lt_transitive, lemma_chars_lt_trichotomy,
    str_eq, str_lt,
};
use crate::troubleshoot::{
    category_label, findings_view, severity_order, severity_rank, Finding, FindingView,
};

verus! {

/// `a` is listed before `b` whatever their reported order.
pub open spec fn finding_key_lt(a: FindingView, b: FindingView) -> bool {
    let ra = severity_order(a.severity);
    let rb = severity_order(b.severity);
    let ca = category_label(a.category);
    let cb = category_label(b.category);
    ra < rb || (ra == rb && (chars_lt(ca, cb) || (ca == cb && chars_lt(
        a.resource_name,
        b.resource_name,
    ))))
}

/// `a` and `b` agree on severity, category name and resource name.
pub open spec fn same_key(a: FindingView, b: FindingView) -> bool {
    &&& severity_order(a.severity) == severity_order(b.severity)
    &&& category_label(a.category) == category_label(b.category)
    &&& a.resource_name == b.resource_name
}

/// No finding is listed before one with the same keys.
pub proof fn lemma_same_key_not_lt(a: FindingView, b: FindingView)
    requires
        same_key(a, b),
    ensures
        !finding_key_lt(a, b),
        !finding_key_lt(b, a),
{
    lemma_chars_lt_irreflexive(category_label(a.category));
    lemma_chars_lt_irreflexive(a.resource_name);
}

/// Of two findings, either they share their keys or exactly one of them is
/// listed first.
pub proof fn lemma_key_total(a: FindingView, b: FindingView)
    ensures
        same_key(a, b) || finding_key_lt(a, b) || finding_key_lt(b, a),
        !(finding_key_lt(a, b) && finding_key_lt(b, a)),
{
    let ca = category_label(a.category);
    let cb = category_label(b.category);
    lemma_chars_lt_trichotomy(ca, cb);
    lemma_chars_lt_trichotomy(a.resource_name, b.resource_name);
    lemma_chars_lt_irreflexive(ca);
    lemma_chars_lt_irreflexive(a.resource_name);
}

/// The listing order is transitive.
pub proof fn lemma_key_transitive(a: FindingView, b: FindingView, c: FindingView)
    requires
        finding_key_lt(a, b),
        finding_key_lt(b, c),
    ensures
        finding_key_lt(a, c),
{
    let ca = category_label(a.category);
    let cb = category_label(b.category);
    let cc = category_label(c.category);
    if chars_lt(ca, cb) && chars_lt(cb, cc) {
        lemma_chars_lt_transitive(ca, cb, cc);
    }
    if chars_lt(a.resource_name, b.resource_name) && chars_lt(b.resource_name, c.resource_name) {
        lemma_chars_lt_transitive(a.resource_name, b.resource_name, c.resource_name);
    }
}

/// If `a` is listed before `b`, every `c` is listed after `a` or before `b`.
pub proof fn lemma_key_split(a: FindingView, b: FindingView, c: FindingView)
    requires
        finding_key_lt(a, b),
    ensures
        finding_key_lt(a, c) || finding_key_lt(c, b),
{
    lemma_key_total(a, c);
    if finding_key_lt(c, a) {
        lemma_key_transitive(c, a, b);
    } else if !finding_key_lt(a, c) {
        assert(same_key(a, c));
    }
}

/// Whether `a` is listed before `b`.
pub fn finding_precedes(a: &Finding, b: &Finding) -> (r: bool)
    ensures
        r == finding_key_lt(a@, b@),
{
    let ra = severity_rank(&a.severity);
    let rb = severity_rank(&b.severity);
    if ra != rb {
        return ra < rb;
    }
    let ca = a.category.label();
    let cb = b.category.label();
    if str_lt(ca, cb) {
        return true;
    }
    if !str_eq(ca, cb) {
        return false;
    }
    str_lt(a.resource_name.as_str(), b.resource_name.as_str())
}

/// No finding is listed after one that should come later.
pub open spec fn sorted_findings(s: Seq<FindingView>) -> bool {
    forall|i: int, j: int| 0 <= i < j < s.len() ==> !finding_key_lt(#[trigger] s[j], #[trigger] s[i])
}

/// `out[k]` is `inp[perm[k]]`, `perm` uses each position of `inp` once, and
/// findings with the same keys keep their order.
pub open spec fn stable_arrangement(out: Seq<FindingView>, inp: Seq<FindingView>, perm: Seq<int>) -> bool {
    &&& perm.len() == out.len()
    &&& out.len() == inp.len()
    &&& forall|k: int| 0 <= k < out.len() ==> 0 <= #[trigger] perm[k] < inp.len()
    &&& forall|k: int| 0 <= k < out.len() ==> #[trigger] out[k] == inp[perm[k]]
    &&& forall|k1: int, k2: int|
        0 <= k1 < out.len() && 0 <= k2 < out.len() && k1 != k2 ==> #[trigger] perm[k1]
            != #[trigger] perm[k2]
    &&& forall|k1: int, k2: int|
        0 <= k1 < k2 < out.len() && same_key(#[trigger] out[k1], #[trigger] out[k2]) ==> perm[k1]
            < perm[k2]
}

/// `out` lists the findings of `inp` in order, keeping the reported order of
/// findings with the same keys.
pub open spec fn is_stable_sort(out: Seq<FindingView>, inp: Seq<FindingView>) -> bool {
    &&& sorted_findings(out)
    &&& exists|perm: Seq<int>| stable_arrangement(out, inp, perm)
}

proof fn lemma_insert_sorted(s: Seq<FindingView>, x: FindingView, pos: int)
    requires
        sorted_findings(s),
        0 <= pos <= s.len(),
        forall|k: int| 0 <= k < pos ==> !finding_key_lt(x, #[trigger] s[k]),
        pos < s.len() ==> finding_key_lt(x, s[pos]),
    ensures
        sorted_findings(s.insert(pos, x)),
        forall|k: int| pos <= k < s.len() ==> finding_key_lt(x, #[trigger] s[k]),
{
    assert forall|k: int| pos <= k < s.len() implies finding_key_lt(x, #[trigger] s[k]) by {
        if k > pos {
            assert(!finding_key_lt(s[k], s[pos]));
            lemma_key_split(x, s[pos], s[k]);
        }
    }
    let t = s.insert(pos, x);
    assert forall|i: int, j: int| 0 <= i < j < t.len() implies !finding_key_lt(
        #[trigger] t[j],
        #[trigger] t[i],
    ) by {
        if i < pos && j < pos {
            assert(t[i] == s[i] && t[j] == s[j]);
        } else if i < pos && j == pos {
            assert(t[i] == s[i] && t[j] == x);
        } else if i < pos {
            assert(t[i] == s[i] && t[j] == s[j - 1]);
        } else if i == pos {
            assert(t[i] == x && t[j] == s[j - 1]);
            lemma_key_total(x, s[j - 1]);
        } else {
            assert(t[i] == s[i - 1] && t[j] == s[j - 1]);
        }
    }
}

proof fn lemma_insert_stable(
    s: Seq<FindingView>,
    inp: Seq<FindingView>,
    i: int,
    perm: Seq<int>,
    pos: int,
)
    requires
        0 <= i < inp.len(),
        stable_arrangement(s, inp.take(i), perm),
        0 <= pos <= s.len(),
        forall|k: int| 0 <= k < pos ==> !finding_key_lt(inp[i], #[trigger] s[k]),
        forall|k: int| pos <= k < s.len() ==> finding_key_lt(inp[i], #[trigger] s[k]),
    ensures
        stable_arrangement(s.insert(pos, inp[i]), inp.take(i + 1), perm.insert(pos, i)),
{
    let t = s.insert(pos, inp[i]);
    let p = perm.insert(pos, i);
    let inp2 = inp.take(i + 1);
    assert forall|k: int| 0 <= k < t.len() implies 0 <= #[trigger] p[k] < inp2.len() by {
        if k < pos {
            assert(p[k] == perm[k]);
        } else if k > pos {
            assert(p[k] == perm[k - 1]);
        }
    }
    assert forall|k: int| 0 <= k < t.len() implies #[trigger] t[k] == inp2[p[k]] by {
        if k < pos {
            assert(p[k] == perm[k] && t[k] == s[k]);
            assert(s[k] == inp.take(i)[perm[k]]);
        } else if k > pos {
            assert(p[k] == perm[k - 1] && t[k] == s[k - 1]);
            assert(s[k - 1] == inp.take(i)[perm[k - 1]]);
        }
    }
    assert forall|k1: int, k2: int|
        0 <= k1 < t.len() && 0 <= k2 < t.len() && k1 != k2 implies #[trigger] p[k1]
        != #[trigger] p[k2] by {
        if k1 < pos {
            assert(p[k1] == perm[k1]);
        } else if k1 > pos {
            assert(p[k1] == perm[k1 - 1]);
        }
        if k2 < pos {
            assert(p[k2] == perm[k2]);
        } else if k2 > pos {
            assert(p[k2] == perm[k2 - 1]);
        }
    }
    assert forall|k1: int, k2: int|
        0 <= k1 < k2 < t.len() && same_key(#[trigger] t[k1], #[trigger] t[k2]) implies p[k1]
        < p[k2] by {
        if k2 < pos {
            assert(t[k1] == s[k1] && t[k2] == s[k2] && p[k1] == perm[k1] && p[k2] == perm[k2]);
        } else if k2 == pos {
            assert(p[k1] == perm[k1]);
        } else if k1 < pos {
            assert(t[k1] == s[k1] && t[k2] == s[k2 - 1] && p[k1] == perm[k1] && p[k2] == perm[k2
                - 1]);
        } else if k1 == pos {
            assert(t[k2] == s[k2 - 1]);
            lemma_same_key_not_lt(inp[i], s[k2 - 1]);
        } else {
            assert(t[k1] == s[k1 - 1] && t[k2] == s[k2 - 1] && p[k1] == perm[k1 - 1] && p[k2]
                == perm[k2 - 1]);
        }
    }
}

/// The position at which `x` goes into the sorted `out`: after every finding
/// that is not listed after it.
fn insertion_point(out: &Vec<Finding>, x: &Finding) -> (pos: usize)
    ensures
        pos <= out@.len(),
        forall|k: int| 0 <= k < pos ==> !finding_key_lt(x@, #[trigger] out@[k]@),
        pos < out@.len() ==> finding_key_lt(x@, out@[pos as int]@),
{
    let mut pos: usize = 0;
    while pos < out.len()
        invariant
            pos <= out@.len(),
            forall|k: int| 0 <= k < pos ==> !finding_key_lt(x@, #[trigger] out@[k]@),
        decreases out@.len() - pos,
    {
        if finding_precedes(x, &out[pos]) {
            return pos;
        }
        pos = pos + 1;
    }
    pos
}

/// Sorts the findings into listing order, keeping the reported order of
/// findings with the same keys.
pub fn sort_findings(v: Vec<Finding>) -> (r: Vec<Finding>)
    ensures
        is_stable_sort(findings_view(r@), findings_view(v@)),
{
    let ghost inp = findings_view(v@);
    let n = v.len();
    let mut rest = v;
    let mut out: Vec<Finding> = Vec::new();
    let ghost mut perm: Seq<int> = Seq::empty();
    let mut i: usize = 0;
    proof {
        assert(inp.skip(0) =~= inp);
        assert(findings_view(out@) =~= inp.take(0));
    }
    while i < n
        invariant
            n == inp.len(),
            i <= n,
            findings_view(rest@) == inp.skip(i as int),
            rest@.len() == n - i,
            out@.len() == i,
            sorted_findings(findings_view(out@)),
            stable_arrangement(findings_view(out@), inp.take(i as int), perm),
        decreases n - i,
    {
        let ghost rest_before = rest@;
        let x = rest.remove(0);
        proof {
            assert(x@ == findings_view(rest_before)[0]);
            assert(findings_view(rest@) =~= findings_view(rest_before).drop_first());
            assert(inp.skip(i as int).drop_first() =~= inp.skip(i + 1));
        }
        let pos = insertion_point(&out, &x);
        let ghost old_out = findings_view(out@);
        proof {
            assert forall|k: int| 0 <= k < pos implies !finding_key_lt(x@, #[trigger] old_out[k]) by {
                assert(old_out[k] == out@[k]@);
            }
            if pos < out@.len() {
                assert(old_out[pos as int] == out@[pos as int]@);
            }
            lemma_insert_sorted(old_out, x@, pos as int);
            lemma_insert_stable(old_out, inp, i as int, perm, pos as int);
        }
        out.insert(pos, x);
        proof {
            assert(findings_view(out@) =~= old_out.insert(pos as int, inp[i as int]));
            perm = perm.insert(pos as int, i as int);
        }
        i = i + 1;
    }
    proof {
        assert(inp.take(n as int) =~= inp);
    }
    out
}

/// Findings in listing order run from critical to informational.
pub proof fn lemma_sorted_severity_nondecreasing(s: Seq<FindingView>, i: int, j: int)
    requires
        sorted_findings(s),
        0 <= i < j < s.len(),
    ensures
        severity_order(s[i].severity) <= severity_order(s[j].severity),
{
    assert(!finding_key_lt(s[j], s[i]));
}

/// A position map that uses no position twice uses every position.
pub proof fn lemma_arrangement_onto(out: Seq<FindingView>, inp: Seq<FindingView>, perm: Seq<int>, t: int)
    requires
        stable_arrangement(out, inp, perm),
        0 <= t < inp.len(),
    ensures
        exists|k: int| 0 <= k < out.len() && perm[k] == t,
{
    let n = inp.len() as int;
    let dom = set_int_range(0, n);
    let f = |k: int| perm[k];
    let img = dom.map(f);
    lemma_int_range(0, n);
    assert(vstd::relations::injective_on(f, dom)) by {
        assert forall|a: int, b: int| dom.contains(a) && dom.contains(b) && #[trigger] f(a) == #[trigger] f(b) implies a == b by {
            if a != b {
                assert(perm[a] != perm[b]);
            }
        }
    }
    lemma_map_size(dom, img, f);
    assert(img.subset_of(dom)) by {
        assert forall|x: int| img.contains(x) implies dom.contains(x) by {
            let k = choose|k: int| dom.contains(k) && f(k) == x;
            assert(0 <= perm[k] < n);
        }
    }
    lemma_subset_equality(img, dom);
    assert(dom.contains(t));
    assert(img.contains(t));
    let k = choose|k: int| dom.contains(k) && f(k) == t;
    assert(0 <= k < out.len() && perm[k] == t);
}

/// A listing holds exactly the reported findings: as many, each listed one
/// reported, each reported one listed.
pub proof fn lemma_listing_holds_every_finding(out: Seq<FindingView>, inp: Seq<FindingView>)
    requires
        is_stable_sort(out, inp),
    ensures
        out.len() == inp.len(),
        forall|k: int| 0 <= k < out.len() ==> inp.contains(#[trigger] out[k]),
        forall|t: int| 0 <= t < inp.len() ==> out.contains(#[trigger] inp[t]),
{
    let perm = choose|perm: Seq<int>| stable_arrangement(out, inp, perm);
    assert forall|k: int| 0 <= k < out.len() implies inp.contains(#[trigger] out[k]) by {
        assert(out[k] == inp[perm[k]]);
    }
    assert forall|t: int| 0 <= t < inp.len() implies out.contains(#[trigger] inp[t]) by {
        lemma_arrangement_onto(out, inp, perm, t);
        let k = choose|k: int| 0 <= k < out.len() && perm[k] == t;
        assert(out[k] == inp[t]);
    }
}

/// Reported finding `t` belongs before reported finding `u`: it is listed
/// first by its keys, or it shares them and was reported first.
pub open spec fn listed_before(inp: Seq<FindingView>, t: int, u: int) -> bool {
    finding_key_lt(inp[t], inp[u]) || (same_key(inp[t], inp[u]) && t < u)
}

/// How many reported findings belong before reported finding `t`.
pub open spec fn count_listed_before(inp: Seq<FindingView>, t: int) -> nat {
    set_int_range(0, inp.len() as int).filter(|u: int| listed_before(inp, u, t)).len()
}

proof fn lemma_listed_before_total(inp: Seq<FindingView>, t: int, u: int)
    requires
        t != u,
    ensures
        listed_before(inp, t, u) || listed_before(inp, u, t),
{
    lemma_key_total(inp[t], inp[u]);
}

/// In a listing, a finding that belongs before another is listed before it.
proof fn lemma_position_order(out: Seq<FindingView>, inp: Seq<FindingView>, perm: Seq<int>, k1: int, k2: int)
    requires
        sorted_findings(out),
        stable_arrangement(out, inp, perm),
        0 <= k1 < out.len(),
        0 <= k2 < out.len(),
        listed_before(inp, perm[k1], perm[k2]),
    ensures
        k1 < k2,
{
    assert(out[k1] == inp[perm[k1]]);
    assert(out[k2] == inp[perm[k2]]);
    if k1 == k2 {
        lemma_same_key_not_lt(out[k1], out[k1]);
    } else if k2 < k1 {
        assert(!finding_key_lt(out[k1], out[k2]));
        assert(same_key(out[k2], out[k1]));
        assert(perm[k2] < perm[k1]);
    }
}

/// The position of a finding in a listing is the number of findings that
/// belong before it.
proof fn lemma_position_is_count(out: Seq<FindingView>, inp: Seq<FindingView>, perm: Seq<int>, k: int)
    requires
        sorted_findings(out),
        stable_arrangement(out, inp, perm),
        0 <= k < out.len(),
    ensures
        k == count_listed_before(inp, perm[k]),
{
    let n = inp.len() as int;
    let t = perm[k];
    let range = set_int_range(0, n);
    let a = range.filter(|u: int| listed_before(inp, u, t));
    let pos = |u: int| choose|j: int| 0 <= j < n && perm[j] == u;
    lemma_int_range(0, n);
    lemma_int_range(0, k);
    assert(a.subset_of(range));
    vstd::set_lib::lemma_len_subset(a, range);
    assert forall|u: int| a.contains(u) implies 0 <= #[trigger] pos(u) < n && perm[pos(u)] == u by {
        lemma_arrangement_onto(out, inp, perm, u);
    }
    assert(vstd::relations::injective_on(pos, a)) by {
        assert forall|u1: int, u2: int|
            a.contains(u1) && a.contains(u2) && #[trigger] pos(u1) == #[trigger] pos(u2) implies u1 == u2 by {
        }
    }
    assert(a.map(pos) =~= set_int_range(0, k)) by {
        assert forall|j: int| a.map(pos).contains(j) implies set_int_range(0, k).contains(j) by {
            let u = choose|u: int| a.contains(u) && pos(u) == j;
            lemma_position_order(out, inp, perm, j, k);
        }
        assert forall|j: int| set_int_range(0, k).contains(j) implies a.map(pos).contains(j) by {
            let u = perm[j];
            assert(u != t);
            lemma_listed_before_total(inp, u, t);
            if listed_before(inp, t, u) {
                lemma_position_order(out, inp, perm, k, j);
            }
            assert(a.contains(u));
            assert(perm[pos(u)] == u);
            if pos(u) != j {
                assert(perm[pos(u)] != perm[j]);
            }
        }
    }
    lemma_map_size(a, set_int_range(0, k), pos);
}

/// Listing is determined: two listings of the same reported findings are
/// equal.
pub proof fn lemma_stable_sort_unique(o1: Seq<FindingView>, o2: Seq<FindingView>, inp: Seq<FindingView>)
    requires
        is_stable_sort(o1, inp),
        is_stable_sort(o2, inp),
    ensures
        o1 == o2,
{
    let p1 = choose|perm: Seq<int>| stable_arrangement(o1, inp, perm);
    let p2 = choose|perm: Seq<int>| stable_arrangement(o2, inp, perm);
    assert forall|k: int| 0 <= k < o1.len() implies o1[k] == o2[k] by {
        let t = p1[k];
        lemma_arrangement_onto(o2, inp, p2, t);
        let j = choose|j: int| 0 <= j < o2.len() && p2[j] == t;
        lemma_position_is_count(o1, inp, p1, k);
        lemma_position_is_count(o2, inp, p2, j);
        assert(o1[k] == inp[t]);
        assert(o2[j] == inp[t]);
    }
    assert(o1 =~= o2);
}

/// In a listing, findings of one severity run by category name, and findings
/// of one severity and category by resource name.
pub proof fn lemma_sorted_by_category_then_name(s: Seq<FindingView>, i: int, j: int)
    requires
        sorted_findings(s),
        0 <= i < j < s.len(),
        s[i].severity == s[j].severity,
    ensures
        !chars_lt(category_label(s[j].category), category_label(s[i].category)),
        s[i].category == s[j].category ==> !chars_lt(s[j].resource_name, s[i].resource_name),
{
    assert(!finding_key_lt(s[j], s[i]));
}

/// One finding is listed before another exactly when it is more severe, or
/// as severe with a category name earlier in the alphabet, or as severe in
/// the same category with an earlier resource name.
pub proof fn lemma_key_order(a: FindingView, b: FindingView)
    ensures
        severity_order(a.severity) < severity_order(b.severity) ==> finding_key_lt(a, b),
        severity_order(a.severity) > severity_order(b.severity) ==> !finding_key_lt(a, b),
        a.severity == b.severity && chars_lt(category_label(a.category), category_label(b.category))
            ==> finding_key_lt(a, b),
        a.severity == b.severity && chars_lt(category_label(b.category), category_label(a.category))
            ==> !finding_key_lt(a, b),
        a.severity == b.severity && a.category == b.category ==> (finding_key_lt(a, b)
            <==> chars_lt(a.resource_name, b.resource_name)),
{
    lemma_chars_lt_trichotomy(category_label(a.category), category_label(b.category));
    lemma_chars_lt_irreflexive(category_label(a.category));
}

} // verus!
