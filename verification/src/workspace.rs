//! Workspace scanning: running every rule over a workspace's context,
//! removing repeated findings and assembling the report.
use vstd::prelude::*;

use crate::diagnostic::{finding_views, summary_of, Finding, FindingView, Report};
use crate::rules::registry::{
    builtin_rules, carries, emit, law_rule_findings_carry_their_rule, BuiltinRule, Outcome,
    Registry, Rule, RuleContext, RuleError,
};
use crate::syntax::{flat_map, lemma_flat_map_all, lemma_flat_map_step};
use crate::text::{chars_of, same};

verus! {

// ---------------------------------------------------------------------------
// Removing repeated findings
// ---------------------------------------------------------------------------

/// What makes two findings the same: rule, message, and the path, line and
/// column of their locations.
pub open spec fn finding_key(f: FindingView) -> (
    Seq<char>,
    Seq<char>,
    Option<Seq<char>>,
    Option<u32>,
    Option<u32>,
) {
    (
        f.rule_id,
        f.message,
        match f.location {
            Some(l) => Some(l.path),
            None => None,
        },
        match f.location {
            Some(l) => l.line,
            None => None,
        },
        match f.location {
            Some(l) => l.column,
            None => None,
        },
    )
}

/// An earlier finding of `s` has the key of finding `i`.
pub open spec fn seen_before(s: Seq<FindingView>, i: int) -> bool {
    exists|j: int| 0 <= j < i && finding_key(#[trigger] s[j]) == finding_key(s[i])
}

/// The findings of `s` whose key no earlier finding has, in order.
pub open spec fn dedup(s: Seq<FindingView>) -> Seq<FindingView>
    decreases s.len(),
{
    if s.len() == 0 {
        seq![]
    } else {
        dedup(s.drop_last()) + if seen_before(s, s.len() - 1) {
            seq![]
        } else {
            seq![s.last()]
        }
    }
}

fn same_text(a: &String, b: &String) -> (r: bool)
    ensures
        r == (a@ == b@),
{
    same(chars_of(a.as_str()).as_slice(), chars_of(b.as_str()).as_slice())
}

fn same_key(a: &Finding, b: &Finding) -> (r: bool)
    ensures
        r == (finding_key(a@) == finding_key(b@)),
{
    if !same_text(&a.rule_id, &b.rule_id) || !same_text(&a.message, &b.message) {
        return false;
    }
    match (&a.location, &b.location) {
        (Some(la), Some(lb)) => same_text(&la.path, &lb.path) && la.line == lb.line && la.column
            == lb.column,
        (None, None) => true,
        _ => false,
    }
}

/// Whether a finding before `i` has the key of finding `i`.
fn key_seen_before(findings: &Vec<Finding>, i: usize) -> (r: bool)
    requires
        i < findings@.len(),
    ensures
        r == exists|j: int|
            0 <= j < i && finding_key(#[trigger] finding_views(findings@)[j]) == finding_key(
                finding_views(findings@)[i as int],
            ),
{
    let ghost s = finding_views(findings@);
    let mut j: usize = 0;
    while j < i
        invariant
            i < findings@.len(),
            j <= i,
            s == finding_views(findings@),
            forall|k: int| 0 <= k < j ==> finding_key(#[trigger] s[k]) != finding_key(s[i as int]),
        decreases i - j,
    {
        if same_key(&findings[j], &findings[i]) {
            assert(finding_key(s[j as int]) == finding_key(s[i as int]));
            return true;
        }
        j = j + 1;
    }
    false
}

/// Keep the first finding of each key.
pub fn dedup_findings(findings: Vec<Finding>) -> (r: Vec<Finding>)
    ensures
        finding_views(r@) == dedup(finding_views(findings@)),
{
    let ghost s = finding_views(findings@);
    let mut r: Vec<Finding> = Vec::new();
    let mut i: usize = 0;
    while i < findings.len()
        invariant
            i <= findings@.len(),
            s == finding_views(findings@),
            finding_views(r@) == dedup(s.take(i as int)),
        decreases findings@.len() - i,
    {
        let seen = key_seen_before(&findings, i);
        let ghost t = s.take(i + 1);
        assert(t.drop_last() =~= s.take(i as int));
        assert(seen == seen_before(t, i as int)) by {
            assert(t[i as int] == s[i as int]);
            if seen {
                let j = choose|j: int|
                    0 <= j < i && finding_key(#[trigger] s[j]) == finding_key(s[i as int]);
                assert(t[j] == s[j]);
            } else {
                assert forall|j: int| 0 <= j < i implies finding_key(#[trigger] t[j]) != finding_key(
                    t[i as int],
                ) by {
                    assert(t[j] == s[j]);
                }
            }
        }
        if !seen {
            let f = findings[i].duplicate();
            let ghost before = finding_views(r@);
            r.push(f);
            assert(finding_views(r@) =~= before + seq![s[i as int]]);
        } else {
            assert(dedup(t) =~= dedup(s.take(i as int)));
        }
        i = i + 1;
    }
    assert(s.take(findings@.len() as int) =~= s);
    r
}

/// Each finding that deduplication keeps is a finding of the input.
pub proof fn lemma_dedup_from_input(s: Seq<FindingView>)
    ensures
        forall|i: int|
            0 <= i < dedup(s).len() ==> exists|j: int| 0 <= j < s.len() && #[trigger] dedup(s)[i] == s[j],
    decreases s.len(),
{
    if s.len() > 0 {
        let p = s.drop_last();
        lemma_dedup_from_input(p);
        assert forall|i: int| 0 <= i < dedup(s).len() implies exists|j: int|
            0 <= j < s.len() && #[trigger] dedup(s)[i] == s[j] by {
            if i < dedup(p).len() {
                assert(dedup(s)[i] == dedup(p)[i]);
                let j = choose|j: int| 0 <= j < p.len() && dedup(p)[i] == p[j];
                assert(s[j] == p[j]);
            } else {
                assert(dedup(s)[i] == s[s.len() - 1]);
            }
        }
    }
}

/// No two findings of a deduplicated list have the same rule, message and
/// location.
pub proof fn law_dedup_keys_distinct(s: Seq<FindingView>)
    ensures
        forall|i: int, j: int|
            0 <= i < j < dedup(s).len() ==> finding_key(#[trigger] dedup(s)[i]) != finding_key(
                #[trigger] dedup(s)[j],
            ),
    decreases s.len(),
{
    if s.len() > 0 {
        let p = s.drop_last();
        law_dedup_keys_distinct(p);
        lemma_dedup_from_input(p);
        let n = dedup(p).len();
        assert forall|i: int, j: int| 0 <= i < j < dedup(s).len() implies finding_key(
            #[trigger] dedup(s)[i],
        ) != finding_key(#[trigger] dedup(s)[j]) by {
            assert(dedup(s)[i] == dedup(p)[i]);
            if j < n {
                assert(dedup(s)[j] == dedup(p)[j]);
            } else {
                assert(!seen_before(s, s.len() - 1));
                assert(dedup(s)[j] == s[s.len() - 1]);
                let k = choose|k: int| 0 <= k < p.len() && dedup(p)[i] == p[k];
                assert(s[k] == p[k]);
            }
        }
    }
}

/// Every finding of the input has its rule, message and location among the
/// findings that deduplication keeps.
pub proof fn law_dedup_keeps_every_key(s: Seq<FindingView>)
    ensures
        forall|i: int|
            #![trigger s[i]]
            0 <= i < s.len() ==> exists|j: int|
                0 <= j < dedup(s).len() && finding_key(#[trigger] dedup(s)[j]) == finding_key(
                    s[i],
                ),
    decreases s.len(),
{
    if s.len() > 0 {
        let p = s.drop_last();
        law_dedup_keeps_every_key(p);
        let last = s.len() - 1;
        assert forall|i: int| #![trigger s[i]] 0 <= i < s.len() implies exists|j: int|
            0 <= j < dedup(s).len() && finding_key(#[trigger] dedup(s)[j]) == finding_key(s[i]) by {
            if i < last {
                assert(s[i] == p[i]);
                let j = choose|j: int|
                    0 <= j < dedup(p).len() && finding_key(#[trigger] dedup(p)[j]) == finding_key(
                        p[i],
                    );
                assert(dedup(s)[j] == dedup(p)[j]);
            } else if seen_before(s, last) {
                let k = choose|k: int| 0 <= k < last && finding_key(#[trigger] s[k]) == finding_key(s[last]);
                assert(s[k] == p[k]);
                let j = choose|j: int|
                    0 <= j < dedup(p).len() && finding_key(#[trigger] dedup(p)[j]) == finding_key(
                        p[k],
                    );
                assert(dedup(s)[j] == dedup(p)[j]);
            } else {
                assert(dedup(s)[dedup(p).len() as int] == s[last]);
            }
        }
    }
}

/// A list whose findings have distinct keys is its own deduplication.
pub proof fn lemma_dedup_distinct_keys(s: Seq<FindingView>)
    requires
        forall|i: int, j: int|
            0 <= i < j < s.len() ==> finding_key(#[trigger] s[i]) != finding_key(#[trigger] s[j]),
    ensures
        dedup(s) == s,
    decreases s.len(),
{
    if s.len() > 0 {
        let p = s.drop_last();
        assert forall|i: int, j: int| 0 <= i < j < p.len() implies finding_key(#[trigger] p[i])
            != finding_key(#[trigger] p[j]) by {
            assert(p[i] == s[i] && p[j] == s[j]);
        }
        lemma_dedup_distinct_keys(p);
        assert(!seen_before(s, s.len() - 1)) by {
            assert forall|k: int| 0 <= k < s.len() - 1 implies finding_key(#[trigger] s[k])
                != finding_key(s[s.len() - 1]) by {}
        }
        assert(dedup(s) =~= p.push(s.last()));
        assert(p.push(s.last()) =~= s);
    }
}

/// Removing repeated findings twice removes nothing more.
pub proof fn law_dedup_idempotent(s: Seq<FindingView>)
    ensures
        dedup(dedup(s)) == dedup(s),
{
    law_dedup_keys_distinct(s);
    lemma_dedup_distinct_keys(dedup(s));
}

// ---------------------------------------------------------------------------
// Running the rules
// ---------------------------------------------------------------------------

/// A rule that stopped with an error.
pub struct RuleFailure {
    pub rule_id: &'static str,
    pub message: String,
}

pub open spec fn failure_views(v: Seq<RuleFailure>) -> Seq<(Seq<char>, Seq<char>)> {
    v.map_values(|f: RuleFailure| (f.rule_id@, f.message@))
}

/// The findings every rule emits, rule after rule (a rule that stops with an
/// error keeps what it emitted before).
pub open spec fn rules_found(rules: Seq<BuiltinRule>, ctx: RuleContext) -> Seq<FindingView> {
    flat_map(rules, |r: BuiltinRule| r.outcome(ctx).found)
}

pub open spec fn rule_failed(r: BuiltinRule, ctx: RuleContext) -> Seq<(Seq<char>, Seq<char>)> {
    match r.outcome(ctx).error {
        Some(e) => seq![(r.meta().id, e)],
        None => seq![],
    }
}

/// The rules that stop with an error, with the error.
pub open spec fn rules_failed(rules: Seq<BuiltinRule>, ctx: RuleContext) -> Seq<
    (Seq<char>, Seq<char>),
> {
    flat_map(rules, |r: BuiltinRule| rule_failed(r, ctx))
}

/// Run every registered rule; a rule's error does not stop the others.
pub fn run_rules(registry: &Registry, ctx: &RuleContext) -> (r: (Vec<Finding>, Vec<RuleFailure>))
    ensures
        finding_views(r.0@) == rules_found(registry@, *ctx),
        failure_views(r.1@) == rules_failed(registry@, *ctx),
{
    let rules = registry.iter();
    let ghost f = |r: BuiltinRule| r.outcome(*ctx).found;
    let ghost g = |r: BuiltinRule| rule_failed(r, *ctx);
    let mut findings: Vec<Finding> = Vec::new();
    let mut failures: Vec<RuleFailure> = Vec::new();
    let mut i: usize = 0;
    assert(finding_views(findings@) =~= flat_map(rules@.take(0), f));
    assert(failure_views(failures@) =~= flat_map(rules@.take(0), g));
    while i < rules.len()
        invariant
            i <= rules@.len(),
            f == (|r: BuiltinRule| r.outcome(*ctx).found),
            g == (|r: BuiltinRule| rule_failed(r, *ctx)),
            finding_views(findings@) == flat_map(rules@.take(i as int), f),
            failure_views(failures@) == flat_map(rules@.take(i as int), g),
        decreases rules@.len() - i,
    {
        proof {
            lemma_flat_map_step(rules@, f, i as int);
            lemma_flat_map_step(rules@, g, i as int);
        }
        let rule = &rules[i];
        let ghost before = failure_views(failures@);
        match rule.check(ctx, &mut findings) {
            Ok(()) => {
                assert(failure_views(failures@) =~= before + rule_failed(*rule, *ctx));
            },
            Err(e) => {
                let id = rule.id();
                failures.push(RuleFailure { rule_id: id, message: e.message });
                assert(failure_views(failures@) =~= before + rule_failed(*rule, *ctx));
            },
        }
        i = i + 1;
    }
    proof {
        lemma_flat_map_all(rules@, f);
        lemma_flat_map_all(rules@, g);
    }
    (findings, failures)
}

/// The findings of a scan: with a workspace context, those of every
/// built-in rule followed by the toolchain's; then repeated ones removed.
pub open spec fn scan_findings(ctx: Option<RuleContext>, toolchain: Seq<FindingView>) -> Seq<
    FindingView,
> {
    match ctx {
        Some(c) => dedup(rules_found(builtin_rules(), c) + toolchain),
        None => seq![],
    }
}

/// Run the built-in rules over a workspace and assemble the report: the
/// rules' findings, then the toolchain's, without repeats, and the summary
/// of what is left. Without a workspace context (no manifest) the report is
/// empty. The rules that stopped with an error are returned beside it.
pub fn scan(
    ctx: Option<&RuleContext>,
    toolchain: Vec<Finding>,
    tool_version: String,
    workspace_root: String,
) -> (r: (Report, Vec<RuleFailure>))
    ensures
        finding_views(r.0.findings@) == scan_findings(
            match ctx {
                Some(c) => Some(*c),
                None => None,
            },
            finding_views(toolchain@),
        ),
        r.0.summary == summary_of(r.0.findings@),
        r.0.tool_version == tool_version,
        r.0.workspace_root == workspace_root,
        failure_views(r.1@) == match ctx {
            Some(c) => rules_failed(builtin_rules(), *c),
            None => seq![],
        },
{
    let mut report = Report::new(tool_version, workspace_root);
    let (findings, failures) = match ctx {
        Some(c) => {
            let registry = Registry::new();
            let (mut found, failures) = run_rules(&registry, c);
            emit(&mut found, toolchain);
            (dedup_findings(found), failures)
        },
        None => {
            let v: Vec<Finding> = Vec::new();
            let e: Vec<RuleFailure> = Vec::new();
            assert(failure_views(e@) =~= seq![]);
            assert(finding_views(v@) =~= seq![]);
            (v, e)
        },
    };
    report.findings = findings;
    report.compute_summary();
    (report, failures)
}


/// The finding is emitted under the name of one of the built-in rules.
pub open spec fn from_builtin_rule(f: FindingView) -> bool {
    exists|k: int| 0 <= k < builtin_rules().len() && carries((#[trigger] builtin_rules()[k]).meta(), f)
}

proof fn lemma_rules_found_named(s: Seq<BuiltinRule>, ctx: RuleContext)
    ensures
        forall|i: int|
            0 <= i < rules_found(s, ctx).len() ==> exists|k: int|
                0 <= k < s.len() && carries((#[trigger] s[k]).meta(), #[trigger] rules_found(s, ctx)[i]),
    decreases s.len(),
{
    if s.len() > 0 {
        let p = s.drop_last();
        let last = s.last();
        lemma_rules_found_named(p, ctx);
        law_rule_findings_carry_their_rule(last, ctx);
        assert(rules_found(s, ctx) == rules_found(p, ctx) + last.outcome(ctx).found);
        assert forall|i: int| 0 <= i < rules_found(s, ctx).len() implies exists|k: int|
            0 <= k < s.len() && carries((#[trigger] s[k]).meta(), #[trigger] rules_found(s, ctx)[i]) by {
            let n = rules_found(p, ctx).len();
            if i < n {
                assert(rules_found(s, ctx)[i] == rules_found(p, ctx)[i]);
                let k = choose|k: int|
                    0 <= k < p.len() && carries((#[trigger] p[k]).meta(), rules_found(p, ctx)[i]);
                assert(s[k] == p[k]);
            } else {
                assert(rules_found(s, ctx)[i] == last.outcome(ctx).found[i - n]);
                assert(carries(last.meta(), last.outcome(ctx).found[i - n]));
                assert(s[s.len() - 1] == last);
            }
        }
    }
}

/// Each finding of a scan is a finding of the toolchain or one emitted under
/// the name of a built-in rule: with that rule's identifier, title, category,
/// severity, confidence and references, a suggestion and an LLM fix prompt.
pub proof fn law_scan_findings_named(ctx: RuleContext, toolchain: Seq<FindingView>)
    ensures
        forall|i: int|
            0 <= i < scan_findings(Some(ctx), toolchain).len() ==> from_builtin_rule(
                #[trigger] scan_findings(Some(ctx), toolchain)[i],
            ) || toolchain.contains(scan_findings(Some(ctx), toolchain)[i]),
{
    let rf = rules_found(builtin_rules(), ctx);
    let input = rf + toolchain;
    let out = scan_findings(Some(ctx), toolchain);
    lemma_dedup_from_input(input);
    lemma_rules_found_named(builtin_rules(), ctx);
    assert forall|i: int| 0 <= i < out.len() implies from_builtin_rule(#[trigger] out[i])
        || toolchain.contains(out[i]) by {
        let j = choose|j: int| 0 <= j < input.len() && out[i] == input[j];
        if j < rf.len() {
            assert(input[j] == rf[j]);
            let k = choose|k: int|
                0 <= k < builtin_rules().len() && carries((#[trigger] builtin_rules()[k]).meta(), rf[j]);
            assert(carries(builtin_rules()[k].meta(), out[i]));
        } else {
            assert(input[j] == toolchain[j - rf.len()]);
        }
    }
}

} // verus!
