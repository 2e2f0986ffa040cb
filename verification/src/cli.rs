//! Command-line options, and the runner's report filters and exit decision.
use vstd::prelude::*;

use crate::analysis::{silenced_by_directives, silenced_in};
use crate::config;
use crate::config::{loaded, Config, RulesConfig};
use crate::diagnostic::{
    finding_views, opt_text, strings, summary_of, Category, Finding, FindingView, Report,
    Severity,
};
use crate::text::{char_end, chars_of, contains, contains_chars, occurs_at, split, split_char, string_of};

verus! {

/// rust-doctor: Rust-native CLI analyzer for idioms, patterns, and anti-patterns
pub struct Cli {
    /// Path to scan (defaults to current directory)
    pub path: String,
    /// Output format
    pub format: OutputFormat,
    /// Filter by category (comma-separated)
    pub category: Option<String>,
    /// Minimum severity to report
    pub severity: Option<SeverityFilter>,
    /// Exit with code 1 if findings at or above this level
    pub fail_on: Option<SeverityFilter>,
    /// Skip cargo check / cargo clippy toolchain analysis
    pub no_toolchain: bool,
    /// Include non-workspace dependency crates
    pub include_dependencies: bool,
    /// Path to config file
    pub config: Option<String>,
}

#[derive(Debug, Clone, Copy, PartialEq, Eq, Structural)]
pub enum OutputFormat {
    Human,
    Json,
    Sarif,
}

#[derive(Debug, Clone, Copy, PartialEq, Eq, Structural)]
pub enum SeverityFilter {
    Info,
    Warning,
    Error,
}

pub open spec fn config_filter_of(f: SeverityFilter) -> config::SeverityFilter {
    match f {
        SeverityFilter::Info => config::SeverityFilter::Info,
        SeverityFilter::Warning => config::SeverityFilter::Warning,
        SeverityFilter::Error => config::SeverityFilter::Error,
    }
}

pub open spec fn cli_filter_of(f: config::SeverityFilter) -> SeverityFilter {
    match f {
        config::SeverityFilter::Info => SeverityFilter::Info,
        config::SeverityFilter::Warning => SeverityFilter::Warning,
        config::SeverityFilter::Error => SeverityFilter::Error,
    }
}

impl From<SeverityFilter> for config::SeverityFilter {
    fn from(f: SeverityFilter) -> (r: config::SeverityFilter) {
        match f {
            SeverityFilter::Info => config::SeverityFilter::Info,
            SeverityFilter::Warning => config::SeverityFilter::Warning,
            SeverityFilter::Error => config::SeverityFilter::Error,
        }
    }
}

impl vstd::std_specs::convert::FromSpecImpl<SeverityFilter> for config::SeverityFilter {
    open spec fn obeys_from_spec() -> bool {
        true
    }

    open spec fn from_spec(v: SeverityFilter) -> config::SeverityFilter {
        config_filter_of(v)
    }
}

impl From<config::SeverityFilter> for SeverityFilter {
    fn from(f: config::SeverityFilter) -> (r: SeverityFilter) {
        match f {
            config::SeverityFilter::Info => SeverityFilter::Info,
            config::SeverityFilter::Warning => SeverityFilter::Warning,
            config::SeverityFilter::Error => SeverityFilter::Error,
        }
    }
}

impl vstd::std_specs::convert::FromSpecImpl<config::SeverityFilter> for SeverityFilter {
    open spec fn obeys_from_spec() -> bool {
        true
    }

    open spec fn from_spec(v: config::SeverityFilter) -> SeverityFilter {
        cli_filter_of(v)
    }
}

pub open spec fn filter_ord(f: SeverityFilter) -> u8 {
    match f {
        SeverityFilter::Info => 0,
        SeverityFilter::Warning => 1,
        SeverityFilter::Error => 2,
    }
}

pub open spec fn severity_ord(s: Severity) -> u8 {
    match s {
        Severity::Info => 0,
        Severity::Warning => 1,
        Severity::Error => 2,
    }
}

/// The names the category filter matches against.
pub open spec fn cli_category_label(c: Category) -> Seq<char> {
    match c {
        Category::Idiom => "idiom"@,
        Category::Pattern => "pattern"@,
        Category::AntiPattern => "anti-pattern"@,
        Category::Organization => "organization"@,
        Category::Toolchain => "toolchain"@,
    }
}

fn filter_to_ord(f: SeverityFilter) -> (r: u8)
    ensures
        r == filter_ord(f),
{
    match f {
        SeverityFilter::Info => 0,
        SeverityFilter::Warning => 1,
        SeverityFilter::Error => 2,
    }
}

fn severity_to_ord(s: Severity) -> (r: u8)
    ensures
        r == severity_ord(s),
{
    match s {
        Severity::Info => 0,
        Severity::Warning => 1,
        Severity::Error => 2,
    }
}

fn category_label(cat: &Category) -> (r: &'static str)
    ensures
        r@ == cli_category_label(*cat),
{
    match cat {
        Category::Idiom => "idiom",
        Category::Pattern => "pattern",
        Category::AntiPattern => "anti-pattern",
        Category::Organization => "organization",
        Category::Toolchain => "toolchain",
    }
}

/// The lower-case form of a string, as `str::to_lowercase` gives it.
pub uninterp spec fn lowercase(s: Seq<char>) -> Seq<char>;

/// Whether every character of `s` is ASCII.
pub open spec fn is_ascii(s: Seq<char>) -> bool {
    forall|i: int| 0 <= i < s.len() ==> (s[i] as u32) < 128
}

/// An ASCII upper-case letter as its lower-case letter; any other character
/// as itself.
pub open spec fn ascii_lower_char(c: char) -> char {
    let n = c as u32;
    if 65 <= n && n <= 90 {
        (n + 32) as char
    } else {
        c
    }
}

/// The lower-case form of `s`: letter for letter for ASCII text, and as
/// `lowercase` gives it otherwise.
pub open spec fn fold_case(s: Seq<char>) -> Seq<char> {
    if is_ascii(s) {
        s.map_values(|c: char| ascii_lower_char(c))
    } else {
        lowercase(s)
    }
}

/// `str::to_lowercase`. Trusted: the result is a function of the text alone,
/// named `lowercase`, and on ASCII text it maps `A`..`Z` to `a`..`z` and
/// keeps every other character, as Unicode's lower-case mapping does for
/// ASCII; the mapping of other characters is not restated here.
#[verifier::external_body]
fn to_lowercase(s: &str) -> (r: String)
    ensures
        r@ == lowercase(s@),
        is_ascii(s@) ==> r@ == s@.map_values(|c: char| ascii_lower_char(c)),
{
    s.to_lowercase()
}

// ---------------------------------------------------------------------------
// Report filters
// ---------------------------------------------------------------------------

/// A finding survives the suppression directives: when it has a location
/// with a line and that file could be read (`loc`), no directive of that file
/// silences its rule on its line.
pub open spec fn kept_by_suppressions(f: FindingView, loc: Option<Seq<char>>) -> bool {
    match f.location {
        Some(l) => match (loc, l.line) {
            (Some(c), Some(n)) => !silenced_in(c, f.rule_id, n),
            _ => true,
        },
        None => true,
    }
}

/// With `--category`, one of its comma-separated names occurs, case
/// folded, in the finding's category name.
pub open spec fn kept_by_category(cat: Option<String>, f: FindingView) -> bool {
    match cat {
        None => true,
        Some(c) => exists|k: int|
            0 <= k < split(c@, ',').len() && contains(
                fold_case(cli_category_label(f.category)),
                fold_case(#[trigger] split(c@, ',')[k]),
            ),
    }
}

/// With `--severity`, the finding is at least that severe.
pub open spec fn kept_by_severity(min: Option<SeverityFilter>, f: FindingView) -> bool {
    match min {
        None => true,
        Some(m) => severity_ord(f.severity) >= filter_ord(m),
    }
}

pub open spec fn kept(cli: Cli, f: FindingView, loc: Option<Seq<char>>) -> bool {
    kept_by_suppressions(f, loc) && kept_by_category(cli.category, f) && kept_by_severity(
        cli.severity,
        f,
    )
}

/// Each text lower-cased.
pub open spec fn lower_all(s: Seq<Seq<char>>) -> Seq<Seq<char>> {
    s.map_values(|x: Seq<char>| fold_case(x))
}

pub open spec fn opt_texts(v: Seq<Option<String>>) -> Seq<Option<Seq<char>>> {
    v.map_values(|o: Option<String>| opt_text(o))
}

/// Whether `id` is one of the rule names `ids`.
pub open spec fn listed(ids: Seq<String>, id: Seq<char>) -> bool {
    exists|k: int| 0 <= k < ids.len() && (#[trigger] ids[k])@ == id
}

/// The severity the configuration's `[rules]` section gives a finding: that
/// of a rule listed under `info` is lowered to info, that of a rule listed
/// under `warn` (and not under `info`) raised to warning; any other finding
/// keeps its own.
pub open spec fn configured_severity(rules: RulesConfig, f: FindingView) -> Severity {
    if listed(rules.info@, f.rule_id) {
        Severity::Info
    } else if listed(rules.warn@, f.rule_id) {
        Severity::Warning
    } else {
        f.severity
    }
}

/// The finding with the severity the configuration gives it.
pub open spec fn configured(rules: RulesConfig, f: FindingView) -> FindingView {
    FindingView { severity: configured_severity(rules, f), ..f }
}

/// Of the first `n` findings, those whose rule the configuration does not
/// disable, each with its configured severity, that pass the filters, in
/// order.
pub open spec fn filtered(
    cli: Cli,
    rules: RulesConfig,
    fs: Seq<FindingView>,
    locs: Seq<Option<Seq<char>>>,
    n: int,
) -> Seq<FindingView>
    decreases n,
{
    if n <= 0 {
        seq![]
    } else {
        let g = configured(rules, fs[n - 1]);
        filtered(cli, rules, fs, locs, n - 1) + if !listed(rules.disabled@, fs[n - 1].rule_id)
            && kept(cli, g, locs[n - 1]) {
            seq![g]
        } else {
            seq![]
        }
    }
}

/// The level at which a run fails: `--fail-on`, else the configuration's
/// `fail_on`, else errors.
pub open spec fn fail_threshold(cli: Cli, config: Config) -> SeverityFilter {
    match cli.fail_on {
        Some(f) => f,
        None => match config.scan.fail_on {
            Some(c) => cli_filter_of(c),
            None => SeverityFilter::Error,
        },
    }
}

pub struct Runner {
    cli: Cli,
    config: Config,
}

impl Runner {
    pub closed spec fn cli_value(&self) -> Cli {
        self.cli
    }

    pub closed spec fn config_value(&self) -> Config {
        self.config
    }

    /// A runner for the options `cli`, with the configuration read from the
    /// config file when there is one.
    pub fn new(cli: Cli, file_config: Option<Config>) -> (r: Self)
        ensures
            r.cli_value() == cli,
            loaded(file_config, cli.no_toolchain, r.config_value()),
    {
        let no_toolchain = cli.no_toolchain;
        let config = Config::load(file_config, no_toolchain);
        Runner { cli, config }
    }

    pub fn cli(&self) -> (r: &Cli)
        ensures
            *r == self.cli_value(),
    {
        &self.cli
    }

    pub fn config(&self) -> (r: &Config)
        ensures
            *r == self.config_value(),
    {
        &self.config
    }

    /// Whether a finding at or above the fail level remains.
    pub fn should_fail(&self, report: &Report) -> (r: bool)
        ensures
            r == exists|i: int|
                0 <= i < report.findings@.len() && severity_ord(
                    (#[trigger] report.findings@[i]).severity,
                ) >= filter_ord(fail_threshold(self.cli_value(), self.config_value())),
    {
        let fail_on = match self.cli.fail_on {
            Some(f) => f,
            None => match self.config.scan.fail_on {
                Some(c) => SeverityFilter::from(c),
                None => SeverityFilter::Error,
            },
        };
        let fail_ord = filter_to_ord(fail_on);
        let mut i: usize = 0;
        while i < report.findings.len()
            invariant
                i <= report.findings@.len(),
                fail_ord == filter_ord(fail_threshold(self.cli_value(), self.config_value())),
                forall|j: int|
                    0 <= j < i ==> severity_ord((#[trigger] report.findings@[j]).severity)
                        < fail_ord,
            decreases report.findings@.len() - i,
        {
            if severity_to_ord(report.findings[i].severity) >= fail_ord {
                return true;
            }
            i = i + 1;
        }
        false
    }

    /// Drop the findings of the rules the configuration disables, give the
    /// others the severity the configuration sets for their rule, drop the
    /// suppressed findings and those the category and severity options leave
    /// out, and recompute the summary. `location_texts[i]` is the text of
    /// the file finding `i` points at,
    /// when it has a location and the file could be read.
    pub fn apply_filters(
        &self,
        report: Report,
        location_texts: &Vec<Option<String>>,
    ) -> (r: Report)
        requires
            location_texts@.len() == report.findings@.len(),
        ensures
            finding_views(r.findings@) == filtered(
                self.cli_value(),
                self.config_value().rules,
                finding_views(report.findings@),
                opt_texts(location_texts@),
                report.findings@.len() as int,
            ),
            r.summary == summary_of(r.findings@),
            r.tool_version == report.tool_version,
            r.workspace_root == report.workspace_root,
    {
        let pieces: Option<Vec<String>> = match &self.cli.category {
            Some(c) => Some(lowered_pieces(c)),
            None => None,
        };
        let ghost fs = finding_views(report.findings@);
        let ghost locs = opt_texts(location_texts@);
        let mut kept_findings: Vec<Finding> = Vec::new();
        let mut i: usize = 0;
        while i < report.findings.len()
            invariant
                i <= report.findings@.len(),
                location_texts@.len() == report.findings@.len(),
                fs == finding_views(report.findings@),
                locs == opt_texts(location_texts@),
                match self.cli_value().category {
                    Some(c) => pieces matches Some(p) && strings(p@) == lower_all(split(c@, ',')),
                    None => pieces is None,
                },
                finding_views(kept_findings@) == filtered(
                    self.cli_value(),
                    self.config_value().rules,
                    fs,
                    locs,
                    i as int,
                ),
            decreases report.findings@.len() - i,
        {
            let ghost rules = self.config_value().rules;
            let f = &report.findings[i];
            let ghost before = finding_views(kept_findings@);
            if rule_listed(&self.config.rules.disabled, &f.rule_id) {
                assert(filtered(self.cli_value(), rules, fs, locs, i + 1) =~= before);
            } else {
                let g = self.with_configured_severity(f);
                let keep = self.keep_finding(&g, &location_texts[i], &pieces);
                if keep {
                    kept_findings.push(g);
                    assert(finding_views(kept_findings@) =~= before + seq![configured(rules, fs[i as int])]);
                } else {
                    assert(filtered(self.cli_value(), rules, fs, locs, i + 1) =~= before);
                }
            }
            i = i + 1;
        }
        let mut out = Report {
            tool_version: report.tool_version,
            workspace_root: report.workspace_root,
            summary: report.summary,
            findings: kept_findings,
        };
        out.compute_summary();
        out
    }

    /// A copy of `f` with the severity the configuration gives its rule.
    fn with_configured_severity(&self, f: &Finding) -> (g: Finding)
        ensures
            g@ == configured(self.config_value().rules, f@),
    {
        let mut g = f.duplicate();
        if rule_listed(&self.config.rules.info, &f.rule_id) {
            g.severity = Severity::Info;
        } else if rule_listed(&self.config.rules.warn, &f.rule_id) {
            g.severity = Severity::Warning;
        }
        assert(g@ =~= configured(self.config_value().rules, f@));
        g
    }

    fn keep_finding(&self, f: &Finding, loc: &Option<String>, pieces: &Option<Vec<String>>) -> (r:
        bool)
        requires
            match self.cli_value().category {
                Some(c) => *pieces matches Some(p) && strings(p@) == lower_all(split(c@, ',')),
                None => pieces is None,
            },
        ensures
            r == kept(self.cli_value(), f@, opt_text(*loc)),
    {
        match (&f.location, loc) {
            (Some(l), Some(c)) => match l.line {
                Some(n) => {
                    if silenced_by_directives(c.as_str(), f.rule_id.as_str(), n) {
                        return false;
                    }
                },
                None => {},
            },
            _ => {},
        }
        match pieces {
            Some(p) => {
                let label = to_lowercase(category_label(&f.category));
                let lv = chars_of(label.as_str());
                let c = self.cli.category.as_ref().unwrap();
                assert(strings(p@).len() == p@.len());
                let found = any_occurs(&lv, p);
                proof {
                    if found {
                        let j = choose|j: int| 0 <= j < p@.len() && contains(lv@, #[trigger] p@[j]@);
                        assert(strings(p@)[j] == p@[j]@);
                        assert(lower_all(split(c@, ','))[j] == fold_case(split(c@, ',')[j]));
                    } else {
                        assert forall|j: int| 0 <= j < split(c@, ',').len() implies !contains(
                            fold_case(cli_category_label(f.category)),
                            fold_case(#[trigger] split(c@, ',')[j]),
                        ) by {
                            assert(strings(p@)[j] == p@[j]@);
                            assert(lower_all(split(c@, ','))[j] == fold_case(split(c@, ',')[j]));
                        }
                    }
                }
                if !found {
                    return false;
                }
            },
            None => {},
        }
        match self.cli.severity {
            Some(m) => severity_to_ord(f.severity) >= filter_to_ord(m),
            None => true,
        }
    }
}

/// Whether `id` is one of the rule names `ids`.
fn rule_listed(ids: &Vec<String>, id: &String) -> (r: bool)
    ensures
        r == listed(ids@, id@),
{
    let mut k: usize = 0;
    while k < ids.len()
        invariant
            k <= ids@.len(),
            forall|j: int| 0 <= j < k ==> (#[trigger] ids@[j])@ != id@,
        decreases ids@.len() - k,
    {
        if crate::text::text_is(ids[k].as_str(), id.as_str()) {
            return true;
        }
        k = k + 1;
    }
    false
}

/// Whether one of `p` occurs in `lv`.
fn any_occurs(lv: &Vec<char>, p: &Vec<String>) -> (r: bool)
    ensures
        r == exists|j: int| 0 <= j < p@.len() && contains(lv@, #[trigger] p@[j]@),
{
    let mut k: usize = 0;
    while k < p.len()
        invariant
            k <= p@.len(),
            forall|j: int| 0 <= j < k ==> !contains(lv@, #[trigger] p@[j]@),
        decreases p@.len() - k,
    {
        if contains_chars(lv.as_slice(), chars_of(p[k].as_str()).as_slice()) {
            return true;
        }
        k = k + 1;
    }
    false
}

/// The comma-separated names of a category option, lower-cased.
fn lowered_pieces(c: &String) -> (r: Vec<String>)
    ensures
        strings(r@) == lower_all(split(c@, ',')),
{
    let cv = chars_of(c.as_str());
    let parts = split_char(cv.as_slice(), ',');
    let mut r: Vec<String> = Vec::new();
    let mut i: usize = 0;
    while i < parts.len()
        invariant
            i <= parts@.len(),
            crate::text::texts(parts@) == split(c@, ','),
            strings(r@) == lower_all(split(c@, ',').take(i as int)),
        decreases parts@.len() - i,
    {
        let s = string_of(parts[i].as_slice());
        let l = to_lowercase(s.as_str());
        let ghost before = strings(r@);
        r.push(l);
        assert(crate::text::texts(parts@)[i as int] == parts@[i as int]@);
        assert(split(c@, ',').take(i + 1) =~= split(c@, ',').take(i as int).push(split(c@, ',')[i as int]));
        assert(lower_all(split(c@, ',').take(i as int).push(split(c@, ',')[i as int]))
            =~= lower_all(split(c@, ',').take(i as int)).push(fold_case(split(c@, ',')[i as int])));
        assert(strings(r@) =~= before.push(l@));
        assert(strings(r@) =~= lower_all(split(c@, ',').take(i + 1)));
        i = i + 1;
    }
    assert(split(c@, ',').take(parts@.len() as int) =~= split(c@, ','));
    r
}

/// The filters only remove findings and set the configured severities: each
/// finding they keep is a finding of the report, with the severity the
/// configuration gives its rule, and there are no more of them than in the
/// report.
pub proof fn law_filters_only_remove(
    cli: Cli,
    rules: RulesConfig,
    fs: Seq<FindingView>,
    locs: Seq<Option<Seq<char>>>,
    n: int,
)
    requires
        0 <= n <= fs.len(),
    ensures
        filtered(cli, rules, fs, locs, n).len() <= n,
        forall|i: int|
            0 <= i < filtered(cli, rules, fs, locs, n).len() ==> exists|j: int|
                0 <= j < n && #[trigger] filtered(cli, rules, fs, locs, n)[i] == configured(
                    rules,
                    fs[j],
                ),
    decreases n,
{
    if n > 0 {
        law_filters_only_remove(cli, rules, fs, locs, n - 1);
        let p = filtered(cli, rules, fs, locs, n - 1);
        let q = filtered(cli, rules, fs, locs, n);
        assert forall|i: int| 0 <= i < q.len() implies exists|j: int|
            0 <= j < n && #[trigger] q[i] == configured(rules, fs[j]) by {
            if i < p.len() {
                assert(q[i] == p[i]);
                let j = choose|j: int| 0 <= j < n - 1 && p[i] == configured(rules, fs[j]);
            } else {
                assert(q[i] == configured(rules, fs[n - 1]));
            }
        }
    }
}

/// The configuration's `[rules]` section holds of what the filters keep: no
/// finding of a disabled rule, the findings of a rule listed under `info`
/// are infos, and those of a rule listed under `warn` (and not under
/// `info`) are warnings.
pub proof fn law_rules_config_applied(
    cli: Cli,
    rules: RulesConfig,
    fs: Seq<FindingView>,
    locs: Seq<Option<Seq<char>>>,
    n: int,
)
    ensures
        forall|i: int|
            0 <= i < filtered(cli, rules, fs, locs, n).len() ==> {
                let f = #[trigger] filtered(cli, rules, fs, locs, n)[i];
                &&& !listed(rules.disabled@, f.rule_id)
                &&& listed(rules.info@, f.rule_id) ==> f.severity == Severity::Info
                &&& listed(rules.warn@, f.rule_id) && !listed(rules.info@, f.rule_id) ==> f.severity
                    == Severity::Warning
            },
    decreases n,
{
    if n > 0 {
        law_rules_config_applied(cli, rules, fs, locs, n - 1);
        let p = filtered(cli, rules, fs, locs, n - 1);
        let q = filtered(cli, rules, fs, locs, n);
        assert forall|i: int| 0 <= i < q.len() implies {
            let f = #[trigger] q[i];
            &&& !listed(rules.disabled@, f.rule_id)
            &&& listed(rules.info@, f.rule_id) ==> f.severity == Severity::Info
            &&& listed(rules.warn@, f.rule_id) && !listed(rules.info@, f.rule_id) ==> f.severity
                == Severity::Warning
        } by {
            if i < p.len() {
                assert(q[i] == p[i]);
            }
        }
    }
}

/// With `--severity`, every finding the filters keep is at least that
/// severe.
pub proof fn law_severity_filter_threshold(
    cli: Cli,
    rules: RulesConfig,
    fs: Seq<FindingView>,
    locs: Seq<Option<Seq<char>>>,
    n: int,
    min: SeverityFilter,
)
    requires
        cli.severity == Some(min),
    ensures
        forall|i: int|
            0 <= i < filtered(cli, rules, fs, locs, n).len() ==> severity_ord(
                (#[trigger] filtered(cli, rules, fs, locs, n)[i]).severity,
            ) >= filter_ord(min),
    decreases n,
{
    if n > 0 {
        law_severity_filter_threshold(cli, rules, fs, locs, n - 1, min);
        let p = filtered(cli, rules, fs, locs, n - 1);
        let q = filtered(cli, rules, fs, locs, n);
        assert forall|i: int| 0 <= i < q.len() implies severity_ord((#[trigger] q[i]).severity)
            >= filter_ord(min) by {
            if i < p.len() {
                assert(q[i] == p[i]);
            }
        }
    }
}


proof fn lemma_char_end_absent(s: Seq<char>, c: char, i: int)
    requires
        0 <= i <= s.len(),
        forall|k: int| i <= k < s.len() ==> s[k] != c,
    ensures
        char_end(s, c, i) == s.len(),
    decreases s.len() - i,
{
    if i < s.len() {
        lemma_char_end_absent(s, c, i + 1);
    }
}

/// Every category label is ASCII, lower case, and free of commas.
proof fn lemma_label_folded(cat: Category)
    ensures
        is_ascii(cli_category_label(cat)),
        fold_case(cli_category_label(cat)) == cli_category_label(cat),
        forall|k: int|
            0 <= k < cli_category_label(cat).len() ==> #[trigger] cli_category_label(cat)[k] != ',',
{
    reveal_strlit("idiom");
    reveal_strlit("pattern");
    reveal_strlit("anti-pattern");
    reveal_strlit("organization");
    reveal_strlit("toolchain");
    let l = cli_category_label(cat);
    assert(l.map_values(|c: char| ascii_lower_char(c)) =~= l);
}

/// The `--category` filter ignores ASCII case: a category's label written
/// in any mix of upper- and lower-case letters keeps that category's
/// findings.
pub proof fn law_category_name_ignores_case(name: String, f: FindingView)
    requires
        is_ascii(name@),
        fold_case(name@) == cli_category_label(f.category),
    ensures
        kept_by_category(Some(name), f),
{
    let label = cli_category_label(f.category);
    lemma_label_folded(f.category);
    assert forall|k: int| 0 <= k < name@.len() implies name@[k] != ',' by {
        assert(fold_case(name@)[k] == ascii_lower_char(name@[k]));
        assert(label[k] != ',');
    }
    lemma_char_end_absent(name@, ',', 0);
    assert(name@.subrange(0, name@.len() as int) =~= name@);
    assert(split(name@, ',') =~= seq![name@]);
    assert(occurs_at(label, fold_case(split(name@, ',')[0]), 0)) by {
        assert(label.subrange(0, label.len() as int) =~= label);
    }
    assert(contains(fold_case(label), fold_case(split(name@, ',')[0])));
    let cat = Some(name);
    assert(cat matches Some(c) && c@ == name@);
    assert(kept_by_category(cat, f));
}

} // verus!
