//! Human-readable output rendering.
//!
//! Groups findings by category, then by severity within each category.
//! Shows file locations, confidence, suggestions, references, and LLM fix prompts.
use vstd::prelude::*;

use crate::analysis::join;
use crate::diagnostic::{
    category_label_spec, finding_views, grade_label, grade_letter, opt_text, Category,
    Confidence, Finding, FindingView, LocationView, Report, Severity,
};
use crate::text::{chars_of, decimal, decimal_of, push_chars};

verus! {

// ---------------------------------------------------------------------------
// Ordering within a category
// ---------------------------------------------------------------------------

/// Errors first, then warnings, then infos.
pub open spec fn sort_rank(s: Severity) -> u8 {
    match s {
        Severity::Error => 0,
        Severity::Warning => 1,
        Severity::Info => 2,
    }
}

/// Lexicographic order of texts, by character.
pub open spec fn text_le(a: Seq<char>, b: Seq<char>) -> bool
    decreases a.len(),
{
    if a.len() == 0 {
        true
    } else if b.len() == 0 {
        false
    } else if (a[0] as u32) < (b[0] as u32) {
        true
    } else if a[0] == b[0] {
        text_le(a.drop_first(), b.drop_first())
    } else {
        false
    }
}

/// `a` goes no later than `b`: by severity, then by rule.
pub open spec fn finding_le(a: FindingView, b: FindingView) -> bool {
    sort_rank(a.severity) < sort_rank(b.severity) || (sort_rank(a.severity) == sort_rank(
        b.severity,
    ) && text_le(a.rule_id, b.rule_id))
}

/// Index of the first finding of `s`, from `i` on, that goes after `x`.
pub open spec fn first_greater(s: Seq<FindingView>, x: FindingView, i: int) -> int
    decreases s.len() - i,
{
    if i < 0 || i >= s.len() {
        s.len() as int
    } else if !finding_le(s[i], x) {
        i
    } else {
        first_greater(s, x, i + 1)
    }
}

/// `s` ordered by severity, then rule, equal findings keeping their order
/// (the stable sort).
pub open spec fn stable_sorted(s: Seq<FindingView>) -> Seq<FindingView>
    decreases s.len(),
{
    if s.len() == 0 {
        seq![]
    } else {
        let r = stable_sorted(s.drop_last());
        r.insert(first_greater(r, s.last(), 0), s.last())
    }
}

proof fn lemma_first_greater_bounds(s: Seq<FindingView>, x: FindingView, i: int)
    requires
        0 <= i <= s.len(),
    ensures
        i <= first_greater(s, x, i) <= s.len(),
    decreases s.len() - i,
{
    if i < s.len() && finding_le(s[i], x) {
        lemma_first_greater_bounds(s, x, i + 1);
    }
}

proof fn lemma_stable_sorted_len(s: Seq<FindingView>)
    ensures
        stable_sorted(s).len() == s.len(),
    decreases s.len(),
{
    if s.len() > 0 {
        lemma_stable_sorted_len(s.drop_last());
        lemma_first_greater_bounds(stable_sorted(s.drop_last()), s.last(), 0);
    }
}

fn text_le_exec(a: &[char], b: &[char]) -> (r: bool)
    ensures
        r == text_le(a@, b@),
{
    let mut i: usize = 0;
    assert(a@.skip(0) =~= a@);
    assert(b@.skip(0) =~= b@);
    while i < a.len() && i < b.len() && a[i] == b[i]
        invariant
            i <= a@.len(),
            i <= b@.len(),
            text_le(a@, b@) == text_le(a@.skip(i as int), b@.skip(i as int)),
        decreases a@.len() - i,
    {
        assert(a@.skip(i as int).drop_first() =~= a@.skip(i + 1));
        assert(b@.skip(i as int).drop_first() =~= b@.skip(i + 1));
        i = i + 1;
    }
    if i == a.len() {
        return true;
    }
    if i == b.len() {
        return false;
    }
    (a[i] as u32) < (b[i] as u32)
}

fn rank_of(s: Severity) -> (r: u8)
    ensures
        r == sort_rank(s),
{
    match s {
        Severity::Error => 0,
        Severity::Warning => 1,
        Severity::Info => 2,
    }
}

fn finding_le_exec(a: &Finding, b: &Finding) -> (r: bool)
    ensures
        r == finding_le(a@, b@),
{
    let ra = rank_of(a.severity);
    let rb = rank_of(b.severity);
    if ra < rb {
        return true;
    }
    if ra > rb {
        return false;
    }
    let ac = chars_of(a.rule_id.as_str());
    let bc = chars_of(b.rule_id.as_str());
    text_le_exec(ac.as_slice(), bc.as_slice())
}

fn first_greater_index(s: &Vec<Finding>, x: &Finding) -> (r: usize)
    ensures
        r == first_greater(finding_views(s@), x@, 0),
        r <= s@.len(),
{
    let ghost v = finding_views(s@);
    let mut i: usize = 0;
    while i < s.len()
        invariant
            i <= s@.len(),
            v == finding_views(s@),
            first_greater(v, x@, 0) == first_greater(v, x@, i as int),
        decreases s@.len() - i,
    {
        if !finding_le_exec(&s[i], x) {
            return i;
        }
        i = i + 1;
    }
    i
}

/// The findings in the stable order by severity, then rule.
fn sort_findings(items: &Vec<Finding>) -> (r: Vec<Finding>)
    ensures
        finding_views(r@) == stable_sorted(finding_views(items@)),
{
    let ghost v = finding_views(items@);
    let mut r: Vec<Finding> = Vec::new();
    let mut i: usize = 0;
    while i < items.len()
        invariant
            i <= items@.len(),
            v == finding_views(items@),
            finding_views(r@) == stable_sorted(v.take(i as int)),
        decreases items@.len() - i,
    {
        let x = items[i].duplicate();
        let k = first_greater_index(&r, &x);
        let ghost before = finding_views(r@);
        r.insert(k, x);
        assert(finding_views(r@) =~= before.insert(k as int, x@));
        assert(v.take(i + 1).drop_last() =~= v.take(i as int));
        i = i + 1;
    }
    assert(v.take(items@.len() as int) =~= v);
    r
}

proof fn lemma_text_le_total(a: Seq<char>, b: Seq<char>)
    ensures
        text_le(a, b) || text_le(b, a),
    decreases a.len(),
{
    if a.len() > 0 && b.len() > 0 {
        if a[0] == b[0] {
            lemma_text_le_total(a.drop_first(), b.drop_first());
        } else {
            let (x, y) = (a[0], b[0]);
            vstd::utf8::char_u32_cast(x, x as u32);
            vstd::utf8::char_u32_cast(y, y as u32);
        }
    }
}

proof fn lemma_text_le_trans(a: Seq<char>, b: Seq<char>, c: Seq<char>)
    requires
        text_le(a, b),
        text_le(b, c),
    ensures
        text_le(a, c),
    decreases a.len(),
{
    if a.len() > 0 && a[0] == b[0] && b[0] == c[0] {
        lemma_text_le_trans(a.drop_first(), b.drop_first(), c.drop_first());
    }
}

proof fn lemma_finding_le_total(a: FindingView, b: FindingView)
    ensures
        finding_le(a, b) || finding_le(b, a),
{
    lemma_text_le_total(a.rule_id, b.rule_id);
}

proof fn lemma_finding_le_trans(a: FindingView, b: FindingView, c: FindingView)
    requires
        finding_le(a, b),
        finding_le(b, c),
    ensures
        finding_le(a, c),
{
    if sort_rank(a.severity) == sort_rank(b.severity) && sort_rank(b.severity) == sort_rank(
        c.severity,
    ) {
        lemma_text_le_trans(a.rule_id, b.rule_id, c.rule_id);
    }
}

/// No finding of `s` goes after the one that follows it.
pub open spec fn ordered(s: Seq<FindingView>) -> bool {
    forall|i: int, j: int| 0 <= i < j < s.len() ==> finding_le(#[trigger] s[i], #[trigger] s[j])
}

proof fn lemma_first_greater_split(s: Seq<FindingView>, x: FindingView, i: int)
    requires
        0 <= i <= s.len(),
    ensures
        i <= first_greater(s, x, i) <= s.len(),
        forall|m: int| i <= m < first_greater(s, x, i) ==> finding_le(#[trigger] s[m], x),
        first_greater(s, x, i) < s.len() ==> !finding_le(s[first_greater(s, x, i)], x),
    decreases s.len() - i,
{
    if i < s.len() && finding_le(s[i], x) {
        lemma_first_greater_split(s, x, i + 1);
    }
}

proof fn lemma_insert_ordered(r: Seq<FindingView>, x: FindingView)
    requires
        ordered(r),
    ensures
        ordered(r.insert(first_greater(r, x, 0), x)),
{
    let k = first_greater(r, x, 0);
    lemma_first_greater_split(r, x, 0);
    let t = r.insert(k, x);
    assert forall|i: int, j: int| 0 <= i < j < t.len() implies finding_le(
        #[trigger] t[i],
        #[trigger] t[j],
    ) by {
        if j < k {
            assert(t[i] == r[i] && t[j] == r[j]);
        } else if j == k {
            assert(t[i] == r[i] && t[j] == x);
        } else if i < k {
            assert(t[i] == r[i] && t[j] == r[j - 1]);
        } else if i == k {
            assert(t[i] == x && t[j] == r[j - 1]);
            lemma_finding_le_total(r[k], x);
            if k < j - 1 {
                assert(finding_le(r[k], r[j - 1]));
                lemma_finding_le_trans(x, r[k], r[j - 1]);
            }
        } else {
            assert(t[i] == r[i - 1] && t[j] == r[j - 1]);
        }
    }
}

/// The order in which a category's findings are shown is by severity, errors
/// first, then by rule: no finding comes before one that it goes after.
pub proof fn law_sorted_findings_ordered(s: Seq<FindingView>)
    ensures
        ordered(stable_sorted(s)),
    decreases s.len(),
{
    if s.len() > 0 {
        law_sorted_findings_ordered(s.drop_last());
        lemma_insert_ordered(stable_sorted(s.drop_last()), s.last());
    }
}

/// Ordering a category's findings neither drops nor adds one: the sorted
/// list holds the same findings, each as often.
pub proof fn law_sorted_findings_permutation(s: Seq<FindingView>)
    ensures
        stable_sorted(s).to_multiset() == s.to_multiset(),
    decreases s.len(),
{
    if s.len() > 0 {
        let p = s.drop_last();
        let r = stable_sorted(p);
        law_sorted_findings_permutation(p);
        lemma_first_greater_bounds(r, s.last(), 0);
        lemma_stable_sorted_len(p);
        let k = first_greater(r, s.last(), 0);
        assert(stable_sorted(s) == r.insert(k, s.last()));
        vstd::seq_lib::to_multiset_insert(r, k, s.last());
        vstd::seq_lib::to_multiset_build(p, s.last());
        assert(p.push(s.last()) =~= s);
        assert(stable_sorted(s).to_multiset() == p.to_multiset().insert(s.last()));
    } else {
        assert(s =~= Seq::<FindingView>::empty());
        assert(stable_sorted(s) =~= Seq::<FindingView>::empty());
    }
}

// ---------------------------------------------------------------------------
// Text of a report
// ---------------------------------------------------------------------------

/// The text `p` relative to `base`, as `std::path::Path::strip_prefix`
/// followed by `display` gives it; none when `base` is not a prefix of `p`.
pub uninterp spec fn path_strip(p: Seq<char>, base: Seq<char>) -> Option<Seq<char>>;

/// `std::path::Path::strip_prefix`, displayed. Trusted: the result is a
/// function of the two paths alone, named `path_strip`; the component rules
/// are not restated here.
#[verifier::external_body]
fn strip_path_prefix(path: &str, base: &str) -> (r: Option<String>)
    ensures
        opt_text(r) == path_strip(path@, base@),
{
    std::path::Path::new(path).strip_prefix(base).ok().map(|p| p.display().to_string())
}

pub open spec fn confidence_text(c: Confidence) -> Seq<char> {
    match c {
        Confidence::High => "high"@,
        Confidence::Medium => "medium"@,
        Confidence::Low => "low"@,
    }
}

/// `path:line:column`, the path relative to the root where it lies in it;
/// `??` without a location.
pub open spec fn location_text(root: Seq<char>, l: Option<LocationView>) -> Seq<char> {
    match l {
        Some(l) => {
            let p = match path_strip(l.path, root) {
                Some(r) => r,
                None => l.path,
            };
            p + ":"@ + decimal(
                match l.line {
                    Some(n) => n as nat,
                    None => 0,
                },
            ) + ":"@ + decimal(
                match l.column {
                    Some(n) => n as nat,
                    None => 0,
                },
            )
        },
        None => "??"@,
    }
}

/// The first line of a finding: rule, confidence, location and message.
pub open spec fn block_head(root: Seq<char>, f: FindingView) -> Seq<char> {
    "  ["@ + f.rule_id + "/"@ + confidence_text(f.confidence) + "] "@ + location_text(
        root,
        f.location,
    ) + " — "@ + f.message + "\n"@
}

pub open spec fn why_part(f: FindingView) -> Seq<char> {
    if f.why_it_matters.len() > 0 {
        "    Why: "@ + f.why_it_matters + "\n"@
    } else {
        seq![]
    }
}

pub open spec fn suggestion_part(f: FindingView) -> Seq<char> {
    match f.suggestion {
        Some(s) => "    → "@ + s + "\n"@,
        None => seq![],
    }
}

pub open spec fn llm_part(f: FindingView) -> Seq<char> {
    match f.llm_fix_prompt {
        Some(p) => "    LLM: "@ + p + "\n"@,
        None => seq![],
    }
}

pub open spec fn refs_part(f: FindingView) -> Seq<char> {
    if f.references.len() > 0 {
        "    Ref: "@ + join(f.references, ", "@) + "\n"@
    } else {
        seq![]
    }
}

/// The lines of one finding, and a blank line.
pub open spec fn finding_block(root: Seq<char>, f: FindingView) -> Seq<char> {
    block_head(root, f) + why_part(f) + suggestion_part(f) + llm_part(f) + refs_part(f) + "\n"@
}

pub open spec fn blocks(root: Seq<char>, s: Seq<FindingView>) -> Seq<char>
    decreases s.len(),
{
    if s.len() == 0 {
        seq![]
    } else {
        blocks(root, s.drop_last()) + finding_block(root, s.last())
    }
}

/// The findings of a category, in order.
pub open spec fn of_category(s: Seq<FindingView>, c: Category) -> Seq<FindingView>
    decreases s.len(),
{
    if s.len() == 0 {
        seq![]
    } else {
        of_category(s.drop_last(), c) + if s.last().category == c {
            seq![s.last()]
        } else {
            seq![]
        }
    }
}

/// A category's heading and findings (nothing when it has none).
pub open spec fn category_section(root: Seq<char>, s: Seq<FindingView>, c: Category) -> Seq<char> {
    let items = of_category(s, c);
    if items.len() == 0 {
        seq![]
    } else {
        "=== "@ + category_label_spec(c) + " ===\n\n"@ + blocks(root, stable_sorted(items))
    }
}

/// The categories in the order they are shown.
pub open spec fn category_order() -> Seq<Category> {
    seq![
        Category::AntiPattern,
        Category::Idiom,
        Category::Organization,
        Category::Pattern,
        Category::Toolchain,
    ]
}

pub open spec fn sections(root: Seq<char>, s: Seq<FindingView>, cats: Seq<Category>) -> Seq<char>
    decreases cats.len(),
{
    if cats.len() == 0 {
        seq![]
    } else {
        sections(root, s, cats.drop_last()) + category_section(root, s, cats.last())
    }
}

/// The report's heading, score and counts.
pub open spec fn report_head(report: Report) -> Seq<char> {
    let s = report.summary;
    "rust-doctor v"@ + report.tool_version@ + " — "@ + report.workspace_root@ + "\n\n"@
        + "Score: "@ + decimal(s.health.score as nat) + "/100 ("@ + grade_letter(s.health.grade)
        + " — "@ + grade_label(s.health.grade) + ")\n"@ + "Summary: "@ + decimal(s.total as nat)
        + " total ("@ + decimal(s.errors as nat) + " errors, "@ + decimal(s.warnings as nat)
        + " warnings, "@ + decimal(s.infos as nat) + " infos)\n\n"@
}

/// The text `render` gives.
pub open spec fn report_text(report: Report) -> Seq<char> {
    let fs = finding_views(report.findings@);
    report_head(report) + if fs.len() == 0 {
        "✓ No issues found.\n"@
    } else {
        sections(report.workspace_root@, fs, category_order())
    }
}

fn confidence_label(c: Confidence) -> (r: &'static str)
    ensures
        r@ == confidence_text(c),
{
    match c {
        Confidence::High => "high",
        Confidence::Medium => "medium",
        Confidence::Low => "low",
    }
}

fn push_number(out: &mut String, n: usize)
    ensures
        final(out)@ == old(out)@ + decimal(n as nat),
{
    push_chars(out, decimal_of(n).as_slice());
}

fn push_location(out: &mut String, root: &str, l: &Option<crate::diagnostic::Location>)
    ensures
        final(out)@ == old(out)@ + location_text(
            root@,
            match l {
                Some(x) => Some(x@),
                None => None,
            },
        ),
{
    match l {
        Some(loc) => {
            match strip_path_prefix(loc.path.as_str(), root) {
                Some(p) => out.append(p.as_str()),
                None => out.append(loc.path.as_str()),
            }
            out.append(":");
            let line: u32 = match loc.line {
                Some(n) => n,
                None => 0,
            };
            push_number(out, line as usize);
            out.append(":");
            let col: u32 = match loc.column {
                Some(n) => n,
                None => 0,
            };
            push_number(out, col as usize);
        },
        None => out.append("??"),
    }
}

fn push_joined(out: &mut String, parts: &Vec<String>, sep: &str)
    ensures
        final(out)@ == old(out)@ + join(crate::diagnostic::strings(parts@), sep@),
{
    let ghost start = out@;
    let ghost ps = crate::diagnostic::strings(parts@);
    let mut k: usize = 0;
    assert(ps.take(0) =~= Seq::<Seq<char>>::empty());
    while k < parts.len()
        invariant
            k <= parts@.len(),
            ps == crate::diagnostic::strings(parts@),
            out@ == start + join(ps.take(k as int), sep@),
        decreases parts@.len() - k,
    {
        let ghost before = out@;
        if k > 0 {
            out.append(sep);
        }
        out.append(parts[k].as_str());
        assert(ps.take(k + 1).drop_last() =~= ps.take(k as int));
        if k == 0 {
            assert(join(ps.take(1), sep@) == ps.take(1)[0]);
            assert(out@ =~= start + join(ps.take(k + 1), sep@));
        } else {
            assert(out@ =~= start + join(ps.take(k + 1), sep@));
        }
        k = k + 1;
    }
    assert(ps.take(parts@.len() as int) =~= ps);
}

fn push_block_head(out: &mut String, root: &str, f: &Finding)
    ensures
        final(out)@ == old(out)@ + block_head(root@, f@),
{
    let ghost start = out@;
    out.append("  [");
    out.append(f.rule_id.as_str());
    out.append("/");
    out.append(confidence_label(f.confidence));
    out.append("] ");
    push_location(out, root, &f.location);
    out.append(" — ");
    out.append(f.message.as_str());
    out.append("\n");
    assert(out@ =~= start + block_head(root@, f@));
}

fn push_why(out: &mut String, f: &Finding)
    ensures
        final(out)@ == old(out)@ + why_part(f@),
{
    if chars_of(f.why_it_matters.as_str()).len() > 0 {
        out.append("    Why: ");
        out.append(f.why_it_matters.as_str());
        out.append("\n");
        assert(out@ =~= old(out)@ + why_part(f@));
    } else {
        assert(out@ =~= old(out)@ + why_part(f@));
    }
}

fn push_suggestion(out: &mut String, f: &Finding)
    ensures
        final(out)@ == old(out)@ + suggestion_part(f@),
{
    match &f.suggestion {
        Some(s) => {
            out.append("    → ");
            out.append(s.as_str());
            out.append("\n");
            assert(out@ =~= old(out)@ + suggestion_part(f@));
        },
        None => {
            assert(out@ =~= old(out)@ + suggestion_part(f@));
        },
    }
}

fn push_llm(out: &mut String, f: &Finding)
    ensures
        final(out)@ == old(out)@ + llm_part(f@),
{
    match &f.llm_fix_prompt {
        Some(p) => {
            out.append("    LLM: ");
            out.append(p.as_str());
            out.append("\n");
            assert(out@ =~= old(out)@ + llm_part(f@));
        },
        None => {
            assert(out@ =~= old(out)@ + llm_part(f@));
        },
    }
}

fn push_refs(out: &mut String, f: &Finding)
    ensures
        final(out)@ == old(out)@ + refs_part(f@),
{
    if f.references.len() > 0 {
        out.append("    Ref: ");
        push_joined(out, &f.references, ", ");
        out.append("\n");
        assert(out@ =~= old(out)@ + refs_part(f@));
    } else {
        assert(out@ =~= old(out)@ + refs_part(f@));
    }
}

fn push_block(out: &mut String, root: &str, f: &Finding)
    ensures
        final(out)@ == old(out)@ + finding_block(root@, f@),
{
    let ghost start = out@;
    push_block_head(out, root, f);
    push_why(out, f);
    push_suggestion(out, f);
    push_llm(out, f);
    push_refs(out, f);
    out.append("\n");
    assert(out@ =~= start + finding_block(root@, f@));
}

/// Append a category's heading and findings (nothing when it has none).
fn push_section(out: &mut String, root: &str, findings: &Vec<Finding>, c: Category)
    ensures
        final(out)@ == old(out)@ + category_section(root@, finding_views(findings@), c),
{
    let items = category_items(findings, c);
    if items.len() > 0 {
        out.append("=== ");
        out.append(c.label());
        out.append(" ===\n\n");
        let sorted = sort_findings(&items);
        let ghost sv = finding_views(sorted@);
        let ghost mid = out@;
        let mut k: usize = 0;
        while k < sorted.len()
            invariant
                k <= sorted@.len(),
                sv == finding_views(sorted@),
                out@ == mid + blocks(root@, sv.take(k as int)),
            decreases sorted@.len() - k,
        {
            push_block(out, root, &sorted[k]);
            assert(sv.take(k + 1).drop_last() =~= sv.take(k as int));
            k = k + 1;
        }
        assert(sv.take(sorted@.len() as int) =~= sv);
        assert(out@ =~= old(out)@ + category_section(root@, finding_views(findings@), c));
    } else {
        assert(out@ =~= old(out)@ + category_section(root@, finding_views(findings@), c));
    }
}

/// Render a report as human-readable text.
pub fn render(report: &Report) -> (r: String)
    ensures
        r@ == report_text(*report),
{
    let s = &report.summary;
    let mut out = String::from_str("rust-doctor v");
    out.append(report.tool_version.as_str());
    out.append(" — ");
    out.append(report.workspace_root.as_str());
    out.append("\n\n");
    out.append("Score: ");
    push_number(&mut out, s.health.score as usize);
    out.append("/100 (");
    out.append(s.health.grade.letter());
    out.append(" — ");
    out.append(s.health.grade.label());
    out.append(")\n");
    out.append("Summary: ");
    push_number(&mut out, s.total);
    out.append(" total (");
    push_number(&mut out, s.errors);
    out.append(" errors, ");
    push_number(&mut out, s.warnings);
    out.append(" warnings, ");
    push_number(&mut out, s.infos);
    out.append(" infos)\n\n");
    assert(out@ =~= report_head(*report));
    let ghost fs = finding_views(report.findings@);
    if report.findings.len() == 0 {
        out.append("✓ No issues found.\n");
        return out;
    }
    let order: Vec<Category> = vec![
        Category::AntiPattern,
        Category::Idiom,
        Category::Organization,
        Category::Pattern,
        Category::Toolchain,
    ];
    assert(order@ =~= category_order());
    let ghost head = out@;
    let mut j: usize = 0;
    while j < order.len()
        invariant
            j <= order@.len(),
            order@ == category_order(),
            fs == finding_views(report.findings@),
            out@ == head + sections(report.workspace_root@, fs, order@.take(j as int)),
        decreases order@.len() - j,
    {
        push_section(&mut out, report.workspace_root.as_str(), &report.findings, order[j]);
        assert(order@.take(j + 1).drop_last() =~= order@.take(j as int));
        j = j + 1;
    }
    assert(order@.take(order@.len() as int) =~= order@);
    out
}

/// Copies of the findings of one category, in order.
fn category_items(findings: &Vec<Finding>, c: Category) -> (r: Vec<Finding>)
    ensures
        finding_views(r@) == of_category(finding_views(findings@), c),
{
    let ghost v = finding_views(findings@);
    let mut r: Vec<Finding> = Vec::new();
    let mut i: usize = 0;
    while i < findings.len()
        invariant
            i <= findings@.len(),
            v == finding_views(findings@),
            finding_views(r@) == of_category(v.take(i as int), c),
        decreases findings@.len() - i,
    {
        assert(v.take(i + 1).drop_last() =~= v.take(i as int));
        if findings[i].category == c {
            let ghost before = finding_views(r@);
            r.push(findings[i].duplicate());
            assert(finding_views(r@) =~= before + seq![v[i as int]]);
        } else {
            assert(of_category(v.take(i + 1), c) =~= of_category(v.take(i as int), c));
        }
        i = i + 1;
    }
    assert(v.take(findings@.len() as int) =~= v);
    r
}

} // verus!
