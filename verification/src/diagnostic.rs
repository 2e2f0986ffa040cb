//! Diagnostic data types: Report, Finding, Location, Severity, Category,
//! Confidence, Summary and the health score.
use vstd::prelude::*;

verus! {

// ---------------------------------------------------------------------------
// Severity
// ---------------------------------------------------------------------------

/// How serious a finding is.
#[derive(Debug, Clone, Copy, PartialEq, Eq, PartialOrd, Ord, Structural)]
pub enum Severity {
    Error,
    Warning,
    Info,
}

pub open spec fn severity_label(s: Severity) -> Seq<char> {
    match s {
        Severity::Error => "ERROR"@,
        Severity::Warning => "WARNING"@,
        Severity::Info => "INFO"@,
    }
}

/// Ordering rank of a severity: `Info < Warning < Error`.
pub open spec fn severity_rank(s: Severity) -> u8 {
    match s {
        Severity::Info => 0,
        Severity::Warning => 1,
        Severity::Error => 2,
    }
}

impl Severity {
    /// Return a human-friendly label.
    pub fn label(&self) -> (r: &'static str)
        ensures
            r@ == severity_label(*self),
    {
        match self {
            Severity::Error => "ERROR",
            Severity::Warning => "WARNING",
            Severity::Info => "INFO",
        }
    }

    /// Return true if this severity should count as a failure under
    /// `--fail-on` semantics.
    pub fn is_error(&self) -> (r: bool)
        ensures
            r == (*self == Severity::Error),
    {
        match self {
            Severity::Error => true,
            _ => false,
        }
    }
}

// ---------------------------------------------------------------------------
// Confidence
// ---------------------------------------------------------------------------

/// How confident we are that the finding is a real issue.
#[derive(Debug, Clone, Copy, PartialEq, Eq, Structural)]
pub enum Confidence {
    High,
    Medium,
    Low,
}

// ---------------------------------------------------------------------------
// Category
// ---------------------------------------------------------------------------

/// High-level classification of a rule/finding.
#[derive(Debug, Clone, Copy, PartialEq, Eq, Structural)]
pub enum Category {
    /// Community style / ergonomics guidance (idiom.* rules).
    Idiom,
    /// Positive design patterns worth suggesting (pattern.* rules).
    Pattern,
    /// Likely harmful approaches (anti_pattern.* rules).
    AntiPattern,
    /// Crate / module / API surface and maintainability.
    Organization,
    /// Compiler, Clippy, and toolchain findings.
    Toolchain,
}

pub open spec fn category_label_spec(c: Category) -> Seq<char> {
    match c {
        Category::Idiom => "Idiom"@,
        Category::Pattern => "Pattern"@,
        Category::AntiPattern => "Anti-Pattern"@,
        Category::Organization => "Organization"@,
        Category::Toolchain => "Toolchain"@,
    }
}

impl Category {
    pub fn label(&self) -> (r: &'static str)
        ensures
            r@ == category_label_spec(*self),
    {
        match self {
            Category::Idiom => "Idiom",
            Category::Pattern => "Pattern",
            Category::AntiPattern => "Anti-Pattern",
            Category::Organization => "Organization",
            Category::Toolchain => "Toolchain",
        }
    }
}

// ---------------------------------------------------------------------------
// Location and Finding
// ---------------------------------------------------------------------------

/// Source-location span for a finding.
#[derive(Debug, Clone, PartialEq, Eq)]
pub struct Location {
    pub path: String,
    pub line: Option<u32>,
    pub column: Option<u32>,
    pub end_line: Option<u32>,
    pub end_column: Option<u32>,
}

pub struct LocationView {
    pub path: Seq<char>,
    pub line: Option<u32>,
    pub column: Option<u32>,
    pub end_line: Option<u32>,
    pub end_column: Option<u32>,
}

impl View for Location {
    type V = LocationView;

    open spec fn view(&self) -> LocationView {
        LocationView {
            path: self.path@,
            line: self.line,
            column: self.column,
            end_line: self.end_line,
            end_column: self.end_column,
        }
    }
}

/// A single diagnostic finding produced by a rule.
#[derive(Debug, Clone)]
pub struct Finding {
    pub rule_id: String,
    pub title: String,
    pub category: Category,
    pub severity: Severity,
    pub confidence: Confidence,
    pub location: Option<Location>,
    pub message: String,
    pub why_it_matters: String,
    pub suggestion: Option<String>,
    pub references: Vec<String>,
    pub llm_fix_prompt: Option<String>,
}

pub struct FindingView {
    pub rule_id: Seq<char>,
    pub title: Seq<char>,
    pub category: Category,
    pub severity: Severity,
    pub confidence: Confidence,
    pub location: Option<LocationView>,
    pub message: Seq<char>,
    pub why_it_matters: Seq<char>,
    pub suggestion: Option<Seq<char>>,
    pub references: Seq<Seq<char>>,
    pub llm_fix_prompt: Option<Seq<char>>,
}

pub open spec fn opt_text(o: Option<String>) -> Option<Seq<char>> {
    match o {
        Some(s) => Some(s@),
        None => None,
    }
}

pub open spec fn opt_location(o: Option<Location>) -> Option<LocationView> {
    match o {
        Some(l) => Some(l@),
        None => None,
    }
}

pub open spec fn strings(v: Seq<String>) -> Seq<Seq<char>> {
    v.map_values(|s: String| s@)
}

impl View for Finding {
    type V = FindingView;

    open spec fn view(&self) -> FindingView {
        FindingView {
            rule_id: self.rule_id@,
            title: self.title@,
            category: self.category,
            severity: self.severity,
            confidence: self.confidence,
            location: opt_location(self.location),
            message: self.message@,
            why_it_matters: self.why_it_matters@,
            suggestion: opt_text(self.suggestion),
            references: strings(self.references@),
            llm_fix_prompt: opt_text(self.llm_fix_prompt),
        }
    }
}

/// The views of a sequence of findings.
pub open spec fn finding_views(fs: Seq<Finding>) -> Seq<FindingView> {
    fs.map_values(|f: Finding| f@)
}

/// The line a finding points at, if it has a location with a line.
pub open spec fn finding_line(f: FindingView) -> Option<u32> {
    match f.location {
        Some(l) => l.line,
        None => None,
    }
}

// ---------------------------------------------------------------------------
// Health score
// ---------------------------------------------------------------------------

/// Letter grade of a health score.
#[derive(Debug, Clone, Copy, PartialEq, Eq, Structural)]
pub enum Grade {
    A,
    B,
    C,
    D,
    F,
}

/// Grade bands: A = 90-100, B = 75-89, C = 60-74, D = 40-59, F = 0-39.
pub open spec fn grade_of(score: u32) -> Grade {
    if score >= 90 {
        Grade::A
    } else if score >= 75 {
        Grade::B
    } else if score >= 60 {
        Grade::C
    } else if score >= 40 {
        Grade::D
    } else {
        Grade::F
    }
}

pub open spec fn grade_letter(g: Grade) -> Seq<char> {
    match g {
        Grade::A => "A"@,
        Grade::B => "B"@,
        Grade::C => "C"@,
        Grade::D => "D"@,
        Grade::F => "F"@,
    }
}

pub open spec fn grade_label(g: Grade) -> Seq<char> {
    match g {
        Grade::A => "Excellent"@,
        Grade::B => "Good"@,
        Grade::C => "Fair"@,
        Grade::D => "Poor"@,
        Grade::F => "Critical"@,
    }
}

impl Grade {
    /// The grade letter.
    pub fn letter(&self) -> (r: &'static str)
        ensures
            r@ == grade_letter(*self),
    {
        match self {
            Grade::A => "A",
            Grade::B => "B",
            Grade::C => "C",
            Grade::D => "D",
            Grade::F => "F",
        }
    }

    /// A word describing the grade.
    pub fn label(&self) -> (r: &'static str)
        ensures
            r@ == grade_label(*self),
    {
        match self {
            Grade::A => "Excellent",
            Grade::B => "Good",
            Grade::C => "Fair",
            Grade::D => "Poor",
            Grade::F => "Critical",
        }
    }
}

/// Health of a report: starts at 100, minus the deductions, never below 0.
#[derive(Debug, Clone, Copy, PartialEq, Eq, Structural)]
pub struct Health {
    pub score: u32,
    pub grade: Grade,
    pub deductions: usize,
}

/// Points deducted for one finding.
pub open spec fn penalty(s: Severity, c: Confidence) -> nat {
    match (s, c) {
        (Severity::Error, Confidence::High) => 30,
        (Severity::Error, Confidence::Medium) => 24,
        (Severity::Error, Confidence::Low) => 18,
        (Severity::Warning, Confidence::High) => 10,
        (Severity::Warning, Confidence::Medium) => 8,
        (Severity::Warning, Confidence::Low) => 6,
        (Severity::Info, Confidence::High) => 3,
        (Severity::Info, Confidence::Medium) => 2,
        (Severity::Info, Confidence::Low) => 1,
    }
}

/// Sum of the penalties of a sequence of findings.
pub open spec fn penalty_total(fs: Seq<Finding>) -> nat
    decreases fs.len(),
{
    if fs.len() == 0 {
        0
    } else {
        penalty_total(fs.drop_last()) + penalty(fs.last().severity, fs.last().confidence)
    }
}

/// The total deduction as stored (saturating at `usize::MAX`).
pub open spec fn capped(n: nat) -> usize {
    if n > usize::MAX {
        usize::MAX
    } else {
        n as usize
    }
}

pub open spec fn health_of(deductions: usize) -> Health {
    let score: u32 = if deductions >= 100 {
        0
    } else {
        (100 - deductions) as u32
    };
    Health { score, grade: grade_of(score), deductions }
}

impl Health {
    /// Health for a total deduction.
    pub fn from_deductions(deductions: usize) -> (h: Health)
        ensures
            h == health_of(deductions),
    {
        let score: u32 = if deductions >= 100 {
            0
        } else {
            (100 - deductions) as u32
        };
        let grade = if score >= 90 {
            Grade::A
        } else if score >= 75 {
            Grade::B
        } else if score >= 60 {
            Grade::C
        } else if score >= 40 {
            Grade::D
        } else {
            Grade::F
        };
        Health { score, grade, deductions }
    }

    /// The human-friendly label of the grade.
    pub fn label(&self) -> (r: &'static str)
        ensures
            r@ == grade_label(self.grade),
    {
        self.grade.label()
    }
}

/// Points deducted for a finding of the given severity and confidence.
pub fn penalty_of(s: Severity, c: Confidence) -> (p: usize)
    ensures
        p == penalty(s, c),
{
    match (s, c) {
        (Severity::Error, Confidence::High) => 30,
        (Severity::Error, Confidence::Medium) => 24,
        (Severity::Error, Confidence::Low) => 18,
        (Severity::Warning, Confidence::High) => 10,
        (Severity::Warning, Confidence::Medium) => 8,
        (Severity::Warning, Confidence::Low) => 6,
        (Severity::Info, Confidence::High) => 3,
        (Severity::Info, Confidence::Medium) => 2,
        (Severity::Info, Confidence::Low) => 1,
    }
}

// ---------------------------------------------------------------------------
// Summary
// ---------------------------------------------------------------------------

/// Aggregate counts for a report.
#[derive(Debug, Clone, Copy, PartialEq, Eq, Structural)]
pub struct Summary {
    pub total: usize,
    pub errors: usize,
    pub warnings: usize,
    pub infos: usize,
    pub health: Health,
}

/// Number of findings of severity `s`.
pub open spec fn count_severity(fs: Seq<Finding>, s: Severity) -> nat
    decreases fs.len(),
{
    if fs.len() == 0 {
        0
    } else {
        count_severity(fs.drop_last(), s) + if fs.last().severity == s {
            1nat
        } else {
            0nat
        }
    }
}

/// The summary of a sequence of findings.
pub open spec fn summary_of(fs: Seq<Finding>) -> Summary {
    Summary {
        total: fs.len() as usize,
        errors: count_severity(fs, Severity::Error) as usize,
        warnings: count_severity(fs, Severity::Warning) as usize,
        infos: count_severity(fs, Severity::Info) as usize,
        health: health_of(capped(penalty_total(fs))),
    }
}

pub proof fn lemma_count_severity_bound(fs: Seq<Finding>, s: Severity)
    ensures
        count_severity(fs, s) <= fs.len(),
    decreases fs.len(),
{
    if fs.len() > 0 {
        lemma_count_severity_bound(fs.drop_last(), s);
    }
}

/// Every finding is counted under exactly one severity.
pub proof fn lemma_counts_partition(fs: Seq<Finding>)
    ensures
        count_severity(fs, Severity::Error) + count_severity(fs, Severity::Warning)
            + count_severity(fs, Severity::Info) == fs.len(),
    decreases fs.len(),
{
    if fs.len() > 0 {
        lemma_counts_partition(fs.drop_last());
    }
}

/// Every finding costs at least one point.
pub proof fn lemma_penalty_total_at_least_len(fs: Seq<Finding>)
    ensures
        penalty_total(fs) >= fs.len(),
    decreases fs.len(),
{
    if fs.len() > 0 {
        lemma_penalty_total_at_least_len(fs.drop_last());
    }
}

impl Default for Summary {
    fn default() -> (s: Summary)
        ensures
            s == summary_of(Seq::empty()),
    {
        Summary { total: 0, errors: 0, warnings: 0, infos: 0, health: Health::from_deductions(0) }
    }
}

impl Summary {
    /// Counts per severity and the health score of a list of findings.
    pub fn from_findings(findings: &[Finding]) -> (s: Summary)
        ensures
            s == summary_of(findings@),
    {
        let n = findings.len();
        let mut errors: usize = 0;
        let mut warnings: usize = 0;
        let mut infos: usize = 0;
        let mut deductions: usize = 0;
        let mut i: usize = 0;
        while i < n
            invariant
                n == findings@.len(),
                i <= n,
                errors == count_severity(findings@.subrange(0, i as int), Severity::Error),
                warnings == count_severity(findings@.subrange(0, i as int), Severity::Warning),
                infos == count_severity(findings@.subrange(0, i as int), Severity::Info),
                deductions == capped(penalty_total(findings@.subrange(0, i as int))),
            decreases n - i,
        {
            let ghost pre = findings@.subrange(0, i as int);
            let ghost next = findings@.subrange(0, i + 1);
            proof {
                assert(next.drop_last() =~= pre);
                lemma_counts_partition(pre);
            }
            let f = &findings[i];
            match f.severity {
                Severity::Error => errors = errors + 1,
                Severity::Warning => warnings = warnings + 1,
                Severity::Info => infos = infos + 1,
            }
            let p = penalty_of(f.severity, f.confidence);
            if deductions > usize::MAX - p {
                deductions = usize::MAX;
            } else {
                deductions = deductions + p;
            }
            i = i + 1;
        }
        proof {
            assert(findings@.subrange(0, n as int) =~= findings@);
        }
        Summary {
            total: n,
            errors,
            warnings,
            infos,
            health: Health::from_deductions(deductions),
        }
    }
}

/// The counts of a summary always add up to its total.
pub proof fn law_summary_counts_add_up(fs: Seq<Finding>)
    requires
        fs.len() <= usize::MAX,
    ensures
        summary_of(fs).errors + summary_of(fs).warnings + summary_of(fs).infos == summary_of(
            fs,
        ).total,
        summary_of(fs).total == fs.len(),
{
    lemma_counts_partition(fs);
    lemma_count_severity_bound(fs, Severity::Error);
    lemma_count_severity_bound(fs, Severity::Warning);
    lemma_count_severity_bound(fs, Severity::Info);
}

/// The health score lies in 0..=100, and it is 100 exactly when there are no
/// findings.
pub proof fn law_health_score_range(fs: Seq<Finding>)
    ensures
        summary_of(fs).health.score <= 100,
        summary_of(fs).health.score == 100 <==> fs.len() == 0,
        summary_of(fs).health.grade == grade_of(summary_of(fs).health.score),
{
    lemma_penalty_total_at_least_len(fs);
}

// ---------------------------------------------------------------------------
// Report
// ---------------------------------------------------------------------------

/// Top-level output emitted by rust-doctor.
#[derive(Debug, Clone)]
pub struct Report {
    pub tool_version: String,
    pub workspace_root: String,
    pub summary: Summary,
    pub findings: Vec<Finding>,
}

impl Report {
    pub fn new(tool_version: String, workspace_root: String) -> (r: Report)
        ensures
            r.tool_version == tool_version,
            r.workspace_root == workspace_root,
            r.summary == summary_of(Seq::empty()),
            r.findings@ == Seq::<Finding>::empty(),
    {
        Report { tool_version, workspace_root, summary: Summary::default(), findings: Vec::new() }
    }

    /// Update summary counts from findings.
    pub fn compute_summary(&mut self)
        ensures
            final(self).summary == summary_of(old(self).findings@),
            final(self).findings == old(self).findings,
            final(self).tool_version == old(self).tool_version,
            final(self).workspace_root == old(self).workspace_root,
    {
        self.summary = Summary::from_findings(self.findings.as_slice());
    }
}

// ---------------------------------------------------------------------------
// Copies with known views
// ---------------------------------------------------------------------------

pub fn copy_text(o: &Option<String>) -> (r: Option<String>)
    ensures
        opt_text(r) == opt_text(*o),
{
    match o {
        Some(s) => Some(s.clone()),
        None => None,
    }
}

pub fn copy_strings(v: &Vec<String>) -> (r: Vec<String>)
    ensures
        strings(r@) == strings(v@),
{
    let mut r: Vec<String> = Vec::new();
    let mut i: usize = 0;
    while i < v.len()
        invariant
            i <= v@.len(),
            strings(r@) == strings(v@.take(i as int)),
        decreases v@.len() - i,
    {
        let ghost before = strings(r@);
        r.push(v[i].clone());
        assert(strings(r@) =~= before.push(v@[i as int]@));
        assert(strings(v@.take(i + 1)) =~= strings(v@.take(i as int)).push(v@[i as int]@));
        i = i + 1;
    }
    assert(v@.take(v@.len() as int) =~= v@);
    r
}

impl Location {
    /// A copy with the same view.
    pub fn duplicate(&self) -> (r: Location)
        ensures
            r@ == self@,
    {
        Location {
            path: self.path.clone(),
            line: self.line,
            column: self.column,
            end_line: self.end_line,
            end_column: self.end_column,
        }
    }
}

impl Finding {
    /// A copy with the same view.
    pub fn duplicate(&self) -> (r: Finding)
        ensures
            r@ == self@,
    {
        Finding {
            rule_id: self.rule_id.clone(),
            title: self.title.clone(),
            category: self.category,
            severity: self.severity,
            confidence: self.confidence,
            location: match &self.location {
                Some(l) => Some(l.duplicate()),
                None => None,
            },
            message: self.message.clone(),
            why_it_matters: self.why_it_matters.clone(),
            suggestion: copy_text(&self.suggestion),
            references: copy_strings(&self.references),
            llm_fix_prompt: copy_text(&self.llm_fix_prompt),
        }
    }
}


proof fn lemma_count_concat(a: Seq<Finding>, b: Seq<Finding>, s: Severity)
    ensures
        count_severity(a + b, s) == count_severity(a, s) + count_severity(b, s),
    decreases b.len(),
{
    if b.len() == 0 {
        assert(a + b =~= a);
    } else {
        assert((a + b).drop_last() =~= a + b.drop_last());
        lemma_count_concat(a, b.drop_last(), s);
    }
}

proof fn lemma_count_remove(x: Seq<Finding>, i: int, s: Severity)
    requires
        0 <= i < x.len(),
    ensures
        count_severity(x, s) == count_severity(x.remove(i), s) + if x[i].severity == s {
            1nat
        } else {
            0nat
        },
{
    let l = x.take(i);
    let r = x.skip(i + 1);
    assert(x =~= (l + seq![x[i]]) + r);
    assert(x.remove(i) =~= l + r);
    lemma_count_concat(l + seq![x[i]], r, s);
    lemma_count_concat(l, seq![x[i]], s);
    lemma_count_concat(l, r, s);
    let one = seq![x[i]];
    assert(one.drop_last() =~= Seq::<Finding>::empty());
    assert(count_severity(Seq::<Finding>::empty(), s) == 0);
    assert(count_severity(one, s) == count_severity(one.drop_last(), s) + if one.last().severity
        == s {
        1nat
    } else {
        0nat
    });
    assert((l + one) + r == x);
    assert(l + r == x.remove(i));
}

proof fn lemma_count_permutation(a: Seq<Finding>, b: Seq<Finding>, s: Severity)
    requires
        a.to_multiset() == b.to_multiset(),
    ensures
        count_severity(a, s) == count_severity(b, s),
    decreases a.len(),
{
    vstd::seq_lib::to_multiset_len(a);
    vstd::seq_lib::to_multiset_len(b);
    if a.len() > 0 {
        let x = a.last();
        let p = a.drop_last();
        assert(p.push(x) =~= a);
        vstd::seq_lib::to_multiset_build(p, x);
        vstd::seq_lib::to_multiset_contains(b, x);
        assert(a.to_multiset().count(x) > 0);
        assert(b.contains(x));
        let j = choose|j: int| 0 <= j < b.len() && b[j] == x;
        vstd::seq_lib::to_multiset_remove(b, j);
        assert(p.to_multiset() =~= a.to_multiset().remove(x));
        lemma_count_permutation(p, b.remove(j), s);
        lemma_count_remove(b, j, s);
    }
}

/// Counts of a summary add up over concatenated findings, and do not change
/// when the findings are reordered.
pub proof fn law_summary_counts_additive(a: Seq<Finding>, b: Seq<Finding>, c: Seq<Finding>)
    requires
        a.len() + b.len() <= usize::MAX,
        c.to_multiset() == a.to_multiset(),
    ensures
        summary_of(a + b).total == summary_of(a).total + summary_of(b).total,
        summary_of(a + b).errors == summary_of(a).errors + summary_of(b).errors,
        summary_of(a + b).warnings == summary_of(a).warnings + summary_of(b).warnings,
        summary_of(a + b).infos == summary_of(a).infos + summary_of(b).infos,
        summary_of(c).total == summary_of(a).total,
        summary_of(c).errors == summary_of(a).errors,
        summary_of(c).warnings == summary_of(a).warnings,
        summary_of(c).infos == summary_of(a).infos,
{
    lemma_count_concat(a, b, Severity::Error);
    lemma_count_concat(a, b, Severity::Warning);
    lemma_count_concat(a, b, Severity::Info);
    lemma_count_severity_bound(a, Severity::Error);
    lemma_count_severity_bound(a, Severity::Warning);
    lemma_count_severity_bound(a, Severity::Info);
    lemma_count_severity_bound(b, Severity::Error);
    lemma_count_severity_bound(b, Severity::Warning);
    lemma_count_severity_bound(b, Severity::Info);
    lemma_count_permutation(a, c, Severity::Error);
    lemma_count_permutation(a, c, Severity::Warning);
    lemma_count_permutation(a, c, Severity::Info);
    vstd::seq_lib::to_multiset_len(a);
    vstd::seq_lib::to_multiset_len(c);
}


/// The number of findings of each severity adds up over concatenated lists
/// and does not change when a list is reordered (for lists of any length).
pub proof fn law_severity_counts_additive(a: Seq<Finding>, b: Seq<Finding>, c: Seq<Finding>, s: Severity)
    requires
        c.to_multiset() == a.to_multiset(),
    ensures
        count_severity(a + b, s) == count_severity(a, s) + count_severity(b, s),
        (a + b).len() == a.len() + b.len(),
        count_severity(c, s) == count_severity(a, s),
        c.len() == a.len(),
{
    lemma_count_concat(a, b, s);
    lemma_count_permutation(a, c, s);
    vstd::seq_lib::to_multiset_len(a);
    vstd::seq_lib::to_multiset_len(c);
}


/// The health score is 100 less the deductions (0 from 100 deductions on),
/// and its grade follows the bands A 90-100, B 75-89, C 60-74, D 40-59,
/// F 0-39.
pub proof fn law_health_grade_bands(deductions: usize)
    ensures
        ({
            let h = health_of(deductions);
            &&& h.deductions == deductions
            &&& h.score == if deductions >= 100 { 0 } else { 100 - deductions }
            &&& (90 <= h.score <= 100 ==> h.grade == Grade::A)
            &&& (75 <= h.score <= 89 ==> h.grade == Grade::B)
            &&& (60 <= h.score <= 74 ==> h.grade == Grade::C)
            &&& (40 <= h.score <= 59 ==> h.grade == Grade::D)
            &&& (h.score <= 39 ==> h.grade == Grade::F)
        }),
{
}

} // verus!
