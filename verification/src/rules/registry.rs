//! Rule trait, RuleContext, and rule registry.
//!
//! Rules are stateless checkers that operate on [`RuleContext`] and emit
//! findings. The registry holds the built-in rule instances.
use vstd::prelude::*;

use crate::diagnostic::{
    finding_views, opt_location, opt_text, strings, Category, Confidence, Finding, FindingView,
    Location, LocationView, Severity,
};
use crate::rules::anti_patterns::{AntiDenyWarnings, AntiDerefPolymorphism};
use crate::rules::idiom::{
    IdiomBorrowedArgs, IdiomDefaultTrait, IdiomMemTakeReplace, IdiomOptionIteration,
    IdiomPrivacyExtensibility, IdiomReturnConsumedArgOnError, IdiomTemporaryMutability,
};
use crate::rules::patterns::{
    AntiCloneToSatisfyBorrowChecker, FfiIdiomaticErrors, PatternBuilder, PatternComposeStructs,
    PatternContainUnSafety, PatternCustomTraitsForBounds, PatternNewtype, PatternRaiiGuard,
    PatternSmallCrates,
};
use crate::syntax::{flat_map, ParsedFile};
use crate::text::text_is;

verus! {

// ---------------------------------------------------------------------------
// RuleContext: what the rules read about a workspace
// ---------------------------------------------------------------------------

/// A package manifest and its text.
pub struct PackageManifest {
    pub package_name: String,
    pub path: String,
    pub content: String,
}

/// A dependency declared by a package (`name` and version requirement).
pub struct Dependency {
    pub name: String,
    pub req: String,
}

/// A `.rs` file found under a target directory.
pub struct DirFile {
    pub path: String,
    /// What reading the file gave: its text, or the error's description.
    pub content: Result<String, String>,
}

/// A build target of a package and what is known about its source path.
pub struct TargetInfo {
    pub kinds: Vec<String>,
    pub src_path: String,
    pub exists: bool,
    pub is_file: bool,
    pub is_dir: bool,
    /// What reading `src_path` gave: its text, or the error's description.
    pub content: Result<String, String>,
    /// The parsed file, when the text parses as Rust.
    pub parsed: Option<ParsedFile>,
    /// For a directory: the `.rs` files below it.
    pub dir_files: Vec<DirFile>,
}

/// A Rust source file of a package (below its `src` directory, or a file
/// target), with what reading and parsing it gave.
pub struct SourceFile {
    pub path: String,
    pub content: Result<String, String>,
    pub parsed: Option<ParsedFile>,
}

/// A package of the workspace.
pub struct PackageInfo {
    pub id: String,
    pub name: String,
    pub targets: Vec<TargetInfo>,
    pub dependencies: Vec<Dependency>,
    /// The package's source files, sorted by path.
    pub source_files: Vec<SourceFile>,
}

/// Shared context passed to every rule during a scan.
pub struct RuleContext {
    /// Root of the workspace (may differ from the scanned directory).
    pub workspace_root: String,
    pub packages: Vec<PackageInfo>,
    pub manifests: Vec<PackageManifest>,
}

impl RuleContext {
    /// The source files of a package.
    pub fn source_files<'a>(&self, package: &'a PackageInfo) -> (r: &'a Vec<SourceFile>)
        ensures
            r == &package.source_files,
    {
        &package.source_files
    }
}

/// Why a rule could not finish.
#[derive(Debug)]
pub struct RuleError {
    pub message: String,
}

// ---------------------------------------------------------------------------
// Rule trait
// ---------------------------------------------------------------------------

/// What describes a rule.
pub struct RuleMeta {
    pub id: Seq<char>,
    pub title: Seq<char>,
    pub category: Category,
    pub severity: Severity,
    pub confidence: Confidence,
    pub description: Seq<char>,
    pub references: Seq<Seq<char>>,
    pub llm_fix_prompt: Option<Seq<char>>,
}

/// What running a rule gives: the findings it emits, in order, and the
/// error it stops with, if any.
pub struct Outcome {
    pub found: Seq<FindingView>,
    pub error: Option<Seq<char>>,
}

pub open spec fn opt_str(o: Option<&'static str>) -> Option<Seq<char>> {
    match o {
        Some(s) => Some(s@),
        None => None,
    }
}

pub open spec fn str_views(v: Seq<&'static str>) -> Seq<Seq<char>> {
    v.map_values(|s: &'static str| s@)
}

/// A single diagnostic rule.
pub trait Rule {
    /// What describes the rule (an implementation outside this crate that
    /// does not state it describes nothing).
    open spec fn meta(&self) -> RuleMeta {
        RuleMeta {
            id: Seq::empty(),
            title: Seq::empty(),
            category: Category::Idiom,
            severity: Severity::Info,
            confidence: Confidence::High,
            description: Seq::empty(),
            references: Seq::empty(),
            llm_fix_prompt: None,
        }
    }

    /// What `check` emits on a context (nothing, for an implementation
    /// outside this crate that does not state it).
    open spec fn outcome(&self, ctx: RuleContext) -> Outcome {
        Outcome { found: Seq::empty(), error: None }
    }

    /// Stable, machine-readable identifier (e.g. `"anti.deny-warnings"`).
    fn id(&self) -> (r: &'static str)
        ensures
            r@ == self.meta().id,
    ;

    /// Human-friendly title shown in output.
    fn title(&self) -> (r: &'static str)
        ensures
            r@ == self.meta().title,
    ;

    /// High-level classification of this rule.
    fn category(&self) -> (r: Category)
        ensures
            r == self.meta().category,
    ;

    /// Default severity when the rule fires.
    fn default_severity(&self) -> (r: Severity)
        ensures
            r == self.meta().severity,
    ;

    /// Default confidence level.
    fn default_confidence(&self) -> (r: Confidence)
        ensures
            r == self.meta().confidence,
    ;

    /// One-line description of what the rule looks for.
    fn description(&self) -> (r: &'static str)
        ensures
            r@ == self.meta().description,
    ;

    /// Links to external documentation / references.
    fn references(&self) -> (r: Vec<&'static str>)
        ensures
            str_views(r@) == self.meta().references,
    ;

    /// A prompt an LLM agent can use to fix the issue.
    fn llm_fix_prompt(&self) -> (r: Option<&'static str>)
        ensures
            opt_str(r) == self.meta().llm_fix_prompt,
    ;

    /// Run this rule against the workspace and emit findings.
    fn check(&self, ctx: &RuleContext, out: &mut Vec<Finding>) -> (r: Result<(), RuleError>)
        ensures
            finding_views(final(out)@) == finding_views(old(out)@) + self.outcome(*ctx).found,
            r is Err <==> self.outcome(*ctx).error is Some,
            r matches Err(e) ==> self.outcome(*ctx).error == Some(e.message@),
    ;
}

/// The finding a rule emits with its own metadata.
pub open spec fn rule_finding(
    m: RuleMeta,
    location: Option<LocationView>,
    message: Seq<char>,
    why: Seq<char>,
    suggestion: Option<Seq<char>>,
) -> FindingView {
    FindingView {
        rule_id: m.id,
        title: m.title,
        category: m.category,
        severity: m.severity,
        confidence: m.confidence,
        location,
        message,
        why_it_matters: why,
        suggestion,
        references: m.references,
        llm_fix_prompt: m.llm_fix_prompt,
    }
}

/// A location at `path` whose line and end line are `line`.
pub open spec fn line_location(path: Seq<char>, line: Option<u32>) -> LocationView {
    LocationView { path, line, column: None, end_line: line, end_column: None }
}

// ---------------------------------------------------------------------------
// Per-target rules
// ---------------------------------------------------------------------------

/// What a rule does with one target.
pub enum StepView {
    Skip,
    Fail(Seq<char>),
    Found(Seq<FindingView>),
}

pub enum Step {
    Skip,
    Fail(RuleError),
    Found(Vec<Finding>),
}

impl View for Step {
    type V = StepView;

    open spec fn view(&self) -> StepView {
        match self {
            Step::Skip => StepView::Skip,
            Step::Fail(e) => StepView::Fail(e.message@),
            Step::Found(v) => StepView::Found(finding_views(v@)),
        }
    }
}

/// A rule that looks at each target of each package in turn and stops at
/// the first target it cannot read.
pub trait TargetCheck {
    spec fn step_spec(&self, ctx: RuleContext, pkg: PackageInfo, target: TargetInfo) -> StepView;

    fn step(&self, ctx: &RuleContext, pkg: &PackageInfo, target: &TargetInfo) -> (r: Step)
        ensures
            r@ == self.step_spec(*ctx, *pkg, *target),
    ;
}

/// The outcome of a per-target rule from package `p`, target `t` on.
pub open spec fn run_from<T: TargetCheck>(c: T, ctx: RuleContext, p: int, t: int) -> Outcome
    decreases ctx.packages@.len() - p, ctx.packages@[p].targets@.len() - t,
{
    if p < 0 || p >= ctx.packages@.len() {
        Outcome { found: seq![], error: None }
    } else if t < 0 || t >= ctx.packages@[p].targets@.len() {
        run_from(c, ctx, p + 1, 0)
    } else {
        match c.step_spec(ctx, ctx.packages@[p], ctx.packages@[p].targets@[t]) {
            StepView::Skip => run_from(c, ctx, p, t + 1),
            StepView::Fail(e) => Outcome { found: seq![], error: Some(e) },
            StepView::Found(fs) => {
                let rest = run_from(c, ctx, p, t + 1);
                Outcome { found: fs + rest.found, error: rest.error }
            },
        }
    }
}

/// The outcome of a per-target rule.
pub open spec fn run_targets_spec<T: TargetCheck>(c: T, ctx: RuleContext) -> Outcome {
    run_from(c, ctx, 0, 0)
}

pub proof fn lemma_finding_views_concat(a: Seq<Finding>, b: Seq<Finding>)
    ensures
        finding_views(a + b) == finding_views(a) + finding_views(b),
{
    assert(finding_views(a + b) =~= finding_views(a) + finding_views(b));
}

/// Append findings to `out`.
pub fn emit(out: &mut Vec<Finding>, found: Vec<Finding>)
    ensures
        finding_views(final(out)@) == finding_views(old(out)@) + finding_views(found@),
{
    let mut found = found;
    proof {
        lemma_finding_views_concat(out@, found@);
    }
    out.append(&mut found);
}

/// Push one finding.
pub fn emit_one(out: &mut Vec<Finding>, f: Finding)
    ensures
        finding_views(final(out)@) == finding_views(old(out)@).push(f@),
{
    out.push(f);
    assert(finding_views(out@) =~= finding_views(old(out)@).push(f@));
}

/// Drive a per-target rule over every target of every package.
pub fn run_targets<T: TargetCheck>(c: &T, ctx: &RuleContext, out: &mut Vec<Finding>) -> (r: Result<
    (),
    RuleError,
>)
    ensures
        finding_views(final(out)@) == finding_views(old(out)@) + run_targets_spec(*c, *ctx).found,
        r is Err <==> run_targets_spec(*c, *ctx).error is Some,
        r matches Err(e) ==> run_targets_spec(*c, *ctx).error == Some(e.message@),
{
    let np = ctx.packages.len();
    let mut p: usize = 0;
    while p < np
        invariant
            np == ctx.packages@.len(),
            p <= np,
            finding_views(out@) + run_from(*c, *ctx, p as int, 0).found == finding_views(old(out)@)
                + run_targets_spec(*c, *ctx).found,
            run_from(*c, *ctx, p as int, 0).error == run_targets_spec(*c, *ctx).error,
        decreases np - p,
    {
        let pkg = &ctx.packages[p];
        let nt = pkg.targets.len();
        let mut t: usize = 0;
        while t < nt
            invariant
                np == ctx.packages@.len(),
                p < np,
                pkg == ctx.packages@[p as int],
                nt == pkg.targets@.len(),
                t <= nt,
                finding_views(out@) + run_from(*c, *ctx, p as int, t as int).found
                    == finding_views(old(out)@) + run_targets_spec(*c, *ctx).found,
                run_from(*c, *ctx, p as int, t as int).error == run_targets_spec(*c, *ctx).error,
            decreases nt - t,
        {
            let step = c.step(ctx, pkg, &pkg.targets[t]);
            match step {
                Step::Skip => {},
                Step::Fail(e) => {
                    assert(finding_views(out@) == finding_views(old(out)@)
                        + run_targets_spec(*c, *ctx).found);
                    return Err(e);
                },
                Step::Found(found) => {
                    let ghost before = finding_views(out@);
                    let ghost fs = finding_views(found@);
                    emit(out, found);
                    assert(before + (fs + run_from(*c, *ctx, p as int, t + 1).found) =~= (before
                        + fs) + run_from(*c, *ctx, p as int, t + 1).found);
                },
            }
            t = t + 1;
        }
        p = p + 1;
    }
    assert(finding_views(out@) + Seq::<FindingView>::empty() =~= finding_views(out@));
    Ok(())
}

/// The step of a rule that reads the target's text: skip what does not
/// exist, stop at what cannot be read, otherwise look at the text.
pub open spec fn text_step(t: TargetInfo, f: spec_fn(Seq<char>) -> Seq<FindingView>) -> StepView {
    if !t.exists {
        StepView::Skip
    } else {
        match t.content {
            Err(e) => StepView::Fail(e@),
            Ok(c) => StepView::Found(f(c@)),
        }
    }
}

/// The step of a rule that reads the parsed file: as `text_step`, and skip
/// files that do not parse.
pub open spec fn parsed_step(
    t: TargetInfo,
    f: spec_fn(Seq<char>, ParsedFile) -> Seq<FindingView>,
) -> StepView {
    if !t.exists {
        StepView::Skip
    } else {
        match t.content {
            Err(e) => StepView::Fail(e@),
            Ok(c) => match t.parsed {
                Some(pf) => StepView::Found(f(c@, pf)),
                None => StepView::Skip,
            },
        }
    }
}

/// The error a target that cannot be read stops a rule with.
pub fn read_error(e: &String) -> (r: RuleError)
    ensures
        r.message@ == e@,
{
    RuleError { message: e.clone() }
}

/// A rule's metadata as values.
pub struct RuleInfo {
    pub id: &'static str,
    pub title: &'static str,
    pub category: Category,
    pub severity: Severity,
    pub confidence: Confidence,
    pub description: &'static str,
    pub references: Vec<&'static str>,
    pub llm_fix_prompt: Option<&'static str>,
}

impl View for RuleInfo {
    type V = RuleMeta;

    open spec fn view(&self) -> RuleMeta {
        RuleMeta {
            id: self.id@,
            title: self.title@,
            category: self.category,
            severity: self.severity,
            confidence: self.confidence,
            description: self.description@,
            references: str_views(self.references@),
            llm_fix_prompt: opt_str(self.llm_fix_prompt),
        }
    }
}

/// Owned copies of static strings.
pub fn owned_strings(v: &Vec<&'static str>) -> (r: Vec<String>)
    ensures
        strings(r@) == str_views(v@),
{
    let mut out: Vec<String> = Vec::new();
    let mut i: usize = 0;
    while i < v.len()
        invariant
            i <= v@.len(),
            strings(out@) == str_views(v@.take(i as int)),
        decreases v@.len() - i,
    {
        let ghost before = out@;
        let s = String::from_str(v[i]);
        out.push(s);
        assert(strings(out@) =~= strings(before).push(v@[i as int]@));
        assert(str_views(v@.take(i + 1)) =~= str_views(v@.take(i as int)).push(v@[i as int]@));
        i = i + 1;
    }
    assert(v@.take(v@.len() as int) =~= v@);
    out
}

/// An owned copy of an optional static string.
pub fn owned_opt(o: Option<&'static str>) -> (r: Option<String>)
    ensures
        opt_text(r) == opt_str(o),
{
    match o {
        Some(s) => Some(String::from_str(s)),
        None => None,
    }
}

/// A finding carrying a rule's metadata.
pub fn build_finding(
    info: &RuleInfo,
    location: Option<Location>,
    message: String,
    why_it_matters: String,
    suggestion: Option<String>,
) -> (f: Finding)
    ensures
        f@ == rule_finding(
            info@,
            opt_location(location),
            message@,
            why_it_matters@,
            opt_text(suggestion),
        ),
{
    Finding {
        rule_id: String::from_str(info.id),
        title: String::from_str(info.title),
        category: info.category,
        severity: info.severity,
        confidence: info.confidence,
        location,
        message,
        why_it_matters,
        suggestion,
        references: owned_strings(&info.references),
        llm_fix_prompt: owned_opt(info.llm_fix_prompt),
    }
}


// ---------------------------------------------------------------------------
// Registry
// ---------------------------------------------------------------------------

/// A built-in rule.
#[derive(Debug, Clone, Copy, PartialEq, Eq, Structural)]
pub enum BuiltinRule {
    AntiDenyWarnings,
    AntiDerefPolymorphism,
    AntiCloneToSatisfyBorrowChecker,
    IdiomBorrowedArgs,
    IdiomDefaultTrait,
    IdiomOptionIteration,
    IdiomPrivacyExtensibility,
    IdiomTemporaryMutability,
    IdiomReturnConsumedArgOnError,
    IdiomMemTakeReplace,
    PatternBuilder,
    PatternContainUnSafety,
    PatternCustomTraitsForBounds,
    PatternSmallCrates,
    PatternComposeStructs,
    PatternRaiiGuard,
    FfiIdiomaticErrors,
    PatternNewtype,
}

/// The built-in rules, in registration order.
pub open spec fn builtin_rules() -> Seq<BuiltinRule> {
    seq![
        BuiltinRule::AntiDenyWarnings,
        BuiltinRule::AntiDerefPolymorphism,
        BuiltinRule::AntiCloneToSatisfyBorrowChecker,
        BuiltinRule::IdiomBorrowedArgs,
        BuiltinRule::IdiomDefaultTrait,
        BuiltinRule::IdiomOptionIteration,
        BuiltinRule::IdiomPrivacyExtensibility,
        BuiltinRule::IdiomTemporaryMutability,
        BuiltinRule::IdiomReturnConsumedArgOnError,
        BuiltinRule::IdiomMemTakeReplace,
        BuiltinRule::PatternBuilder,
        BuiltinRule::PatternContainUnSafety,
        BuiltinRule::PatternCustomTraitsForBounds,
        BuiltinRule::PatternSmallCrates,
        BuiltinRule::PatternComposeStructs,
        BuiltinRule::PatternRaiiGuard,
        BuiltinRule::FfiIdiomaticErrors,
        BuiltinRule::PatternNewtype
    ]
}

impl Rule for BuiltinRule {
    open spec fn meta(&self) -> RuleMeta {
        match self {
            BuiltinRule::AntiDenyWarnings => AntiDenyWarnings.meta(),
            BuiltinRule::AntiDerefPolymorphism => AntiDerefPolymorphism.meta(),
            BuiltinRule::AntiCloneToSatisfyBorrowChecker => AntiCloneToSatisfyBorrowChecker.meta(),
            BuiltinRule::IdiomBorrowedArgs => IdiomBorrowedArgs.meta(),
            BuiltinRule::IdiomDefaultTrait => IdiomDefaultTrait.meta(),
            BuiltinRule::IdiomOptionIteration => IdiomOptionIteration.meta(),
            BuiltinRule::IdiomPrivacyExtensibility => IdiomPrivacyExtensibility.meta(),
            BuiltinRule::IdiomTemporaryMutability => IdiomTemporaryMutability.meta(),
            BuiltinRule::IdiomReturnConsumedArgOnError => IdiomReturnConsumedArgOnError.meta(),
            BuiltinRule::IdiomMemTakeReplace => IdiomMemTakeReplace.meta(),
            BuiltinRule::PatternBuilder => PatternBuilder.meta(),
            BuiltinRule::PatternContainUnSafety => PatternContainUnSafety.meta(),
            BuiltinRule::PatternCustomTraitsForBounds => PatternCustomTraitsForBounds.meta(),
            BuiltinRule::PatternSmallCrates => PatternSmallCrates.meta(),
            BuiltinRule::PatternComposeStructs => PatternComposeStructs.meta(),
            BuiltinRule::PatternRaiiGuard => PatternRaiiGuard.meta(),
            BuiltinRule::FfiIdiomaticErrors => FfiIdiomaticErrors.meta(),
            BuiltinRule::PatternNewtype => PatternNewtype.meta(),
        }
    }

    open spec fn outcome(&self, ctx: RuleContext) -> Outcome {
        match self {
            BuiltinRule::AntiDenyWarnings => AntiDenyWarnings.outcome(ctx),
            BuiltinRule::AntiDerefPolymorphism => AntiDerefPolymorphism.outcome(ctx),
            BuiltinRule::AntiCloneToSatisfyBorrowChecker => AntiCloneToSatisfyBorrowChecker.outcome(ctx),
            BuiltinRule::IdiomBorrowedArgs => IdiomBorrowedArgs.outcome(ctx),
            BuiltinRule::IdiomDefaultTrait => IdiomDefaultTrait.outcome(ctx),
            BuiltinRule::IdiomOptionIteration => IdiomOptionIteration.outcome(ctx),
            BuiltinRule::IdiomPrivacyExtensibility => IdiomPrivacyExtensibility.outcome(ctx),
            BuiltinRule::IdiomTemporaryMutability => IdiomTemporaryMutability.outcome(ctx),
            BuiltinRule::IdiomReturnConsumedArgOnError => IdiomReturnConsumedArgOnError.outcome(ctx),
            BuiltinRule::IdiomMemTakeReplace => IdiomMemTakeReplace.outcome(ctx),
            BuiltinRule::PatternBuilder => PatternBuilder.outcome(ctx),
            BuiltinRule::PatternContainUnSafety => PatternContainUnSafety.outcome(ctx),
            BuiltinRule::PatternCustomTraitsForBounds => PatternCustomTraitsForBounds.outcome(ctx),
            BuiltinRule::PatternSmallCrates => PatternSmallCrates.outcome(ctx),
            BuiltinRule::PatternComposeStructs => PatternComposeStructs.outcome(ctx),
            BuiltinRule::PatternRaiiGuard => PatternRaiiGuard.outcome(ctx),
            BuiltinRule::FfiIdiomaticErrors => FfiIdiomaticErrors.outcome(ctx),
            BuiltinRule::PatternNewtype => PatternNewtype.outcome(ctx),
        }
    }

    fn id(&self) -> (r: &'static str) {
        match self {
            BuiltinRule::AntiDenyWarnings => AntiDenyWarnings.id(),
            BuiltinRule::AntiDerefPolymorphism => AntiDerefPolymorphism.id(),
            BuiltinRule::AntiCloneToSatisfyBorrowChecker => AntiCloneToSatisfyBorrowChecker.id(),
            BuiltinRule::IdiomBorrowedArgs => IdiomBorrowedArgs.id(),
            BuiltinRule::IdiomDefaultTrait => IdiomDefaultTrait.id(),
            BuiltinRule::IdiomOptionIteration => IdiomOptionIteration.id(),
            BuiltinRule::IdiomPrivacyExtensibility => IdiomPrivacyExtensibility.id(),
            BuiltinRule::IdiomTemporaryMutability => IdiomTemporaryMutability.id(),
            BuiltinRule::IdiomReturnConsumedArgOnError => IdiomReturnConsumedArgOnError.id(),
            BuiltinRule::IdiomMemTakeReplace => IdiomMemTakeReplace.id(),
            BuiltinRule::PatternBuilder => PatternBuilder.id(),
            BuiltinRule::PatternContainUnSafety => PatternContainUnSafety.id(),
            BuiltinRule::PatternCustomTraitsForBounds => PatternCustomTraitsForBounds.id(),
            BuiltinRule::PatternSmallCrates => PatternSmallCrates.id(),
            BuiltinRule::PatternComposeStructs => PatternComposeStructs.id(),
            BuiltinRule::PatternRaiiGuard => PatternRaiiGuard.id(),
            BuiltinRule::FfiIdiomaticErrors => FfiIdiomaticErrors.id(),
            BuiltinRule::PatternNewtype => PatternNewtype.id(),
        }
    }

    fn title(&self) -> (r: &'static str) {
        match self {
            BuiltinRule::AntiDenyWarnings => AntiDenyWarnings.title(),
            BuiltinRule::AntiDerefPolymorphism => AntiDerefPolymorphism.title(),
            BuiltinRule::AntiCloneToSatisfyBorrowChecker => AntiCloneToSatisfyBorrowChecker.title(),
            BuiltinRule::IdiomBorrowedArgs => IdiomBorrowedArgs.title(),
            BuiltinRule::IdiomDefaultTrait => IdiomDefaultTrait.title(),
            BuiltinRule::IdiomOptionIteration => IdiomOptionIteration.title(),
            BuiltinRule::IdiomPrivacyExtensibility => IdiomPrivacyExtensibility.title(),
            BuiltinRule::IdiomTemporaryMutability => IdiomTemporaryMutability.title(),
            BuiltinRule::IdiomReturnConsumedArgOnError => IdiomReturnConsumedArgOnError.title(),
            BuiltinRule::IdiomMemTakeReplace => IdiomMemTakeReplace.title(),
            BuiltinRule::PatternBuilder => PatternBuilder.title(),
            BuiltinRule::PatternContainUnSafety => PatternContainUnSafety.title(),
            BuiltinRule::PatternCustomTraitsForBounds => PatternCustomTraitsForBounds.title(),
            BuiltinRule::PatternSmallCrates => PatternSmallCrates.title(),
            BuiltinRule::PatternComposeStructs => PatternComposeStructs.title(),
            BuiltinRule::PatternRaiiGuard => PatternRaiiGuard.title(),
            BuiltinRule::FfiIdiomaticErrors => FfiIdiomaticErrors.title(),
            BuiltinRule::PatternNewtype => PatternNewtype.title(),
        }
    }

    fn category(&self) -> (r: Category) {
        match self {
            BuiltinRule::AntiDenyWarnings => AntiDenyWarnings.category(),
            BuiltinRule::AntiDerefPolymorphism => AntiDerefPolymorphism.category(),
            BuiltinRule::AntiCloneToSatisfyBorrowChecker => AntiCloneToSatisfyBorrowChecker.category(),
            BuiltinRule::IdiomBorrowedArgs => IdiomBorrowedArgs.category(),
            BuiltinRule::IdiomDefaultTrait => IdiomDefaultTrait.category(),
            BuiltinRule::IdiomOptionIteration => IdiomOptionIteration.category(),
            BuiltinRule::IdiomPrivacyExtensibility => IdiomPrivacyExtensibility.category(),
            BuiltinRule::IdiomTemporaryMutability => IdiomTemporaryMutability.category(),
            BuiltinRule::IdiomReturnConsumedArgOnError => IdiomReturnConsumedArgOnError.category(),
            BuiltinRule::IdiomMemTakeReplace => IdiomMemTakeReplace.category(),
            BuiltinRule::PatternBuilder => PatternBuilder.category(),
            BuiltinRule::PatternContainUnSafety => PatternContainUnSafety.category(),
            BuiltinRule::PatternCustomTraitsForBounds => PatternCustomTraitsForBounds.category(),
            BuiltinRule::PatternSmallCrates => PatternSmallCrates.category(),
            BuiltinRule::PatternComposeStructs => PatternComposeStructs.category(),
            BuiltinRule::PatternRaiiGuard => PatternRaiiGuard.category(),
            BuiltinRule::FfiIdiomaticErrors => FfiIdiomaticErrors.category(),
            BuiltinRule::PatternNewtype => PatternNewtype.category(),
        }
    }

    fn default_severity(&self) -> (r: Severity) {
        match self {
            BuiltinRule::AntiDenyWarnings => AntiDenyWarnings.default_severity(),
            BuiltinRule::AntiDerefPolymorphism => AntiDerefPolymorphism.default_severity(),
            BuiltinRule::AntiCloneToSatisfyBorrowChecker => AntiCloneToSatisfyBorrowChecker.default_severity(),
            BuiltinRule::IdiomBorrowedArgs => IdiomBorrowedArgs.default_severity(),
            BuiltinRule::IdiomDefaultTrait => IdiomDefaultTrait.default_severity(),
            BuiltinRule::IdiomOptionIteration => IdiomOptionIteration.default_severity(),
            BuiltinRule::IdiomPrivacyExtensibility => IdiomPrivacyExtensibility.default_severity(),
            BuiltinRule::IdiomTemporaryMutability => IdiomTemporaryMutability.default_severity(),
            BuiltinRule::IdiomReturnConsumedArgOnError => IdiomReturnConsumedArgOnError.default_severity(),
            BuiltinRule::IdiomMemTakeReplace => IdiomMemTakeReplace.default_severity(),
            BuiltinRule::PatternBuilder => PatternBuilder.default_severity(),
            BuiltinRule::PatternContainUnSafety => PatternContainUnSafety.default_severity(),
            BuiltinRule::PatternCustomTraitsForBounds => PatternCustomTraitsForBounds.default_severity(),
            BuiltinRule::PatternSmallCrates => PatternSmallCrates.default_severity(),
            BuiltinRule::PatternComposeStructs => PatternComposeStructs.default_severity(),
            BuiltinRule::PatternRaiiGuard => PatternRaiiGuard.default_severity(),
            BuiltinRule::FfiIdiomaticErrors => FfiIdiomaticErrors.default_severity(),
            BuiltinRule::PatternNewtype => PatternNewtype.default_severity(),
        }
    }

    fn default_confidence(&self) -> (r: Confidence) {
        match self {
            BuiltinRule::AntiDenyWarnings => AntiDenyWarnings.default_confidence(),
            BuiltinRule::AntiDerefPolymorphism => AntiDerefPolymorphism.default_confidence(),
            BuiltinRule::AntiCloneToSatisfyBorrowChecker => AntiCloneToSatisfyBorrowChecker.default_confidence(),
            BuiltinRule::IdiomBorrowedArgs => IdiomBorrowedArgs.default_confidence(),
            BuiltinRule::IdiomDefaultTrait => IdiomDefaultTrait.default_confidence(),
            BuiltinRule::IdiomOptionIteration => IdiomOptionIteration.default_confidence(),
            BuiltinRule::IdiomPrivacyExtensibility => IdiomPrivacyExtensibility.default_confidence(),
            BuiltinRule::IdiomTemporaryMutability => IdiomTemporaryMutability.default_confidence(),
            BuiltinRule::IdiomReturnConsumedArgOnError => IdiomReturnConsumedArgOnError.default_confidence(),
            BuiltinRule::IdiomMemTakeReplace => IdiomMemTakeReplace.default_confidence(),
            BuiltinRule::PatternBuilder => PatternBuilder.default_confidence(),
            BuiltinRule::PatternContainUnSafety => PatternContainUnSafety.default_confidence(),
            BuiltinRule::PatternCustomTraitsForBounds => PatternCustomTraitsForBounds.default_confidence(),
            BuiltinRule::PatternSmallCrates => PatternSmallCrates.default_confidence(),
            BuiltinRule::PatternComposeStructs => PatternComposeStructs.default_confidence(),
            BuiltinRule::PatternRaiiGuard => PatternRaiiGuard.default_confidence(),
            BuiltinRule::FfiIdiomaticErrors => FfiIdiomaticErrors.default_confidence(),
            BuiltinRule::PatternNewtype => PatternNewtype.default_confidence(),
        }
    }

    fn description(&self) -> (r: &'static str) {
        match self {
            BuiltinRule::AntiDenyWarnings => AntiDenyWarnings.description(),
            BuiltinRule::AntiDerefPolymorphism => AntiDerefPolymorphism.description(),
            BuiltinRule::AntiCloneToSatisfyBorrowChecker => AntiCloneToSatisfyBorrowChecker.description(),
            BuiltinRule::IdiomBorrowedArgs => IdiomBorrowedArgs.description(),
            BuiltinRule::IdiomDefaultTrait => IdiomDefaultTrait.description(),
            BuiltinRule::IdiomOptionIteration => IdiomOptionIteration.description(),
            BuiltinRule::IdiomPrivacyExtensibility => IdiomPrivacyExtensibility.description(),
            BuiltinRule::IdiomTemporaryMutability => IdiomTemporaryMutability.description(),
            BuiltinRule::IdiomReturnConsumedArgOnError => IdiomReturnConsumedArgOnError.description(),
            BuiltinRule::IdiomMemTakeReplace => IdiomMemTakeReplace.description(),
            BuiltinRule::PatternBuilder => PatternBuilder.description(),
            BuiltinRule::PatternContainUnSafety => PatternContainUnSafety.description(),
            BuiltinRule::PatternCustomTraitsForBounds => PatternCustomTraitsForBounds.description(),
            BuiltinRule::PatternSmallCrates => PatternSmallCrates.description(),
            BuiltinRule::PatternComposeStructs => PatternComposeStructs.description(),
            BuiltinRule::PatternRaiiGuard => PatternRaiiGuard.description(),
            BuiltinRule::FfiIdiomaticErrors => FfiIdiomaticErrors.description(),
            BuiltinRule::PatternNewtype => PatternNewtype.description(),
        }
    }

    fn references(&self) -> (r: Vec<&'static str>) {
        match self {
            BuiltinRule::AntiDenyWarnings => AntiDenyWarnings.references(),
            BuiltinRule::AntiDerefPolymorphism => AntiDerefPolymorphism.references(),
            BuiltinRule::AntiCloneToSatisfyBorrowChecker => AntiCloneToSatisfyBorrowChecker.references(),
            BuiltinRule::IdiomBorrowedArgs => IdiomBorrowedArgs.references(),
            BuiltinRule::IdiomDefaultTrait => IdiomDefaultTrait.references(),
            BuiltinRule::IdiomOptionIteration => IdiomOptionIteration.references(),
            BuiltinRule::IdiomPrivacyExtensibility => IdiomPrivacyExtensibility.references(),
            BuiltinRule::IdiomTemporaryMutability => IdiomTemporaryMutability.references(),
            BuiltinRule::IdiomReturnConsumedArgOnError => IdiomReturnConsumedArgOnError.references(),
            BuiltinRule::IdiomMemTakeReplace => IdiomMemTakeReplace.references(),
            BuiltinRule::PatternBuilder => PatternBuilder.references(),
            BuiltinRule::PatternContainUnSafety => PatternContainUnSafety.references(),
            BuiltinRule::PatternCustomTraitsForBounds => PatternCustomTraitsForBounds.references(),
            BuiltinRule::PatternSmallCrates => PatternSmallCrates.references(),
            BuiltinRule::PatternComposeStructs => PatternComposeStructs.references(),
            BuiltinRule::PatternRaiiGuard => PatternRaiiGuard.references(),
            BuiltinRule::FfiIdiomaticErrors => FfiIdiomaticErrors.references(),
            BuiltinRule::PatternNewtype => PatternNewtype.references(),
        }
    }

    fn llm_fix_prompt(&self) -> (r: Option<&'static str>) {
        match self {
            BuiltinRule::AntiDenyWarnings => AntiDenyWarnings.llm_fix_prompt(),
            BuiltinRule::AntiDerefPolymorphism => AntiDerefPolymorphism.llm_fix_prompt(),
            BuiltinRule::AntiCloneToSatisfyBorrowChecker => AntiCloneToSatisfyBorrowChecker.llm_fix_prompt(),
            BuiltinRule::IdiomBorrowedArgs => IdiomBorrowedArgs.llm_fix_prompt(),
            BuiltinRule::IdiomDefaultTrait => IdiomDefaultTrait.llm_fix_prompt(),
            BuiltinRule::IdiomOptionIteration => IdiomOptionIteration.llm_fix_prompt(),
            BuiltinRule::IdiomPrivacyExtensibility => IdiomPrivacyExtensibility.llm_fix_prompt(),
            BuiltinRule::IdiomTemporaryMutability => IdiomTemporaryMutability.llm_fix_prompt(),
            BuiltinRule::IdiomReturnConsumedArgOnError => IdiomReturnConsumedArgOnError.llm_fix_prompt(),
            BuiltinRule::IdiomMemTakeReplace => IdiomMemTakeReplace.llm_fix_prompt(),
            BuiltinRule::PatternBuilder => PatternBuilder.llm_fix_prompt(),
            BuiltinRule::PatternContainUnSafety => PatternContainUnSafety.llm_fix_prompt(),
            BuiltinRule::PatternCustomTraitsForBounds => PatternCustomTraitsForBounds.llm_fix_prompt(),
            BuiltinRule::PatternSmallCrates => PatternSmallCrates.llm_fix_prompt(),
            BuiltinRule::PatternComposeStructs => PatternComposeStructs.llm_fix_prompt(),
            BuiltinRule::PatternRaiiGuard => PatternRaiiGuard.llm_fix_prompt(),
            BuiltinRule::FfiIdiomaticErrors => FfiIdiomaticErrors.llm_fix_prompt(),
            BuiltinRule::PatternNewtype => PatternNewtype.llm_fix_prompt(),
        }
    }

    fn check(&self, ctx: &RuleContext, out: &mut Vec<Finding>) -> (r: Result<(), RuleError>) {
        match self {
            BuiltinRule::AntiDenyWarnings => AntiDenyWarnings.check(ctx, out),
            BuiltinRule::AntiDerefPolymorphism => AntiDerefPolymorphism.check(ctx, out),
            BuiltinRule::AntiCloneToSatisfyBorrowChecker => AntiCloneToSatisfyBorrowChecker.check(ctx, out),
            BuiltinRule::IdiomBorrowedArgs => IdiomBorrowedArgs.check(ctx, out),
            BuiltinRule::IdiomDefaultTrait => IdiomDefaultTrait.check(ctx, out),
            BuiltinRule::IdiomOptionIteration => IdiomOptionIteration.check(ctx, out),
            BuiltinRule::IdiomPrivacyExtensibility => IdiomPrivacyExtensibility.check(ctx, out),
            BuiltinRule::IdiomTemporaryMutability => IdiomTemporaryMutability.check(ctx, out),
            BuiltinRule::IdiomReturnConsumedArgOnError => IdiomReturnConsumedArgOnError.check(ctx, out),
            BuiltinRule::IdiomMemTakeReplace => IdiomMemTakeReplace.check(ctx, out),
            BuiltinRule::PatternBuilder => PatternBuilder.check(ctx, out),
            BuiltinRule::PatternContainUnSafety => PatternContainUnSafety.check(ctx, out),
            BuiltinRule::PatternCustomTraitsForBounds => PatternCustomTraitsForBounds.check(ctx, out),
            BuiltinRule::PatternSmallCrates => PatternSmallCrates.check(ctx, out),
            BuiltinRule::PatternComposeStructs => PatternComposeStructs.check(ctx, out),
            BuiltinRule::PatternRaiiGuard => PatternRaiiGuard.check(ctx, out),
            BuiltinRule::FfiIdiomaticErrors => FfiIdiomaticErrors.check(ctx, out),
            BuiltinRule::PatternNewtype => PatternNewtype.check(ctx, out),
        }
    }
}

/// Holds all registered rule instances and provides iteration helpers.
pub struct Registry {
    rules: Vec<BuiltinRule>,
}

impl View for Registry {
    type V = Seq<BuiltinRule>;

    closed spec fn view(&self) -> Seq<BuiltinRule> {
        self.rules@
    }
}

/// The identifiers of a sequence of rules.
pub open spec fn rule_id_seq(rules: Seq<BuiltinRule>) -> Seq<Seq<char>> {
    rules.map_values(|r: BuiltinRule| r.meta().id)
}

impl Registry {
    /// A registry holding every built-in rule.
    pub fn new() -> (reg: Self)
        ensures
            reg@ == builtin_rules(),
    {
        let mut reg = Registry { rules: Vec::new() };
        reg.register(BuiltinRule::AntiDenyWarnings);
        reg.register(BuiltinRule::AntiDerefPolymorphism);
        reg.register(BuiltinRule::AntiCloneToSatisfyBorrowChecker);
        reg.register(BuiltinRule::IdiomBorrowedArgs);
        reg.register(BuiltinRule::IdiomDefaultTrait);
        reg.register(BuiltinRule::IdiomOptionIteration);
        reg.register(BuiltinRule::IdiomPrivacyExtensibility);
        reg.register(BuiltinRule::IdiomTemporaryMutability);
        reg.register(BuiltinRule::IdiomReturnConsumedArgOnError);
        reg.register(BuiltinRule::IdiomMemTakeReplace);
        reg.register(BuiltinRule::PatternBuilder);
        reg.register(BuiltinRule::PatternContainUnSafety);
        reg.register(BuiltinRule::PatternCustomTraitsForBounds);
        reg.register(BuiltinRule::PatternSmallCrates);
        reg.register(BuiltinRule::PatternComposeStructs);
        reg.register(BuiltinRule::PatternRaiiGuard);
        reg.register(BuiltinRule::FfiIdiomaticErrors);
        reg.register(BuiltinRule::PatternNewtype);
        assert(reg@ =~= builtin_rules());
        reg
    }

    /// Register a rule instance.
    pub fn register(&mut self, rule: BuiltinRule)
        ensures
            final(self)@ == old(self)@.push(rule),
    {
        self.rules.push(rule);
    }

    /// All rules, in registration order.
    pub fn iter(&self) -> (r: &[BuiltinRule])
        ensures
            r@ == self@,
    {
        self.rules.as_slice()
    }

    /// The first rule with the given ID, if any.
    pub fn get(&self, id: &str) -> (r: Option<&BuiltinRule>)
        ensures
            match r {
                Some(x) => exists|i: int|
                    0 <= i < self@.len() && self@[i] == *x && x.meta().id == id@ && forall|j: int|
                        0 <= j < i ==> (#[trigger] self@[j]).meta().id != id@,
                None => forall|i: int| 0 <= i < self@.len() ==> (#[trigger] self@[i]).meta().id != id@,
            },
    {
        let mut i: usize = 0;
        while i < self.rules.len()
            invariant
                i <= self.rules@.len(),
                forall|j: int| 0 <= j < i ==> (#[trigger] self.rules@[j]).meta().id != id@,
            decreases self.rules@.len() - i,
        {
            let rid = self.rules[i].id();
            if text_is(rid, id) {
                return Some(&self.rules[i]);
            }
            i = i + 1;
        }
        None
    }

    /// IDs of all registered rules.
    pub fn rule_ids(&self) -> (r: Vec<&'static str>)
        ensures
            str_views(r@) == rule_id_seq(self@),
    {
        let mut r: Vec<&'static str> = Vec::new();
        let mut i: usize = 0;
        while i < self.rules.len()
            invariant
                i <= self.rules@.len(),
                str_views(r@) == rule_id_seq(self.rules@.take(i as int)),
            decreases self.rules@.len() - i,
        {
            let ghost before = r@;
            let rule = &self.rules[i];
            let rid = rule.id();
            assert(rid@ == self.rules@[i as int].meta().id);
            r.push(rid);
            assert(str_views(r@) =~= str_views(before).push(rid@));
            assert(rule_id_seq(self.rules@.take(i + 1)) =~= rule_id_seq(self.rules@.take(i as int)).push(
                self.rules@[i as int].meta().id,
            ));
            i = i + 1;
        }
        assert(self.rules@.take(self.rules@.len() as int) =~= self.rules@);
        r
    }
}

impl Default for Registry {
    fn default() -> (reg: Self)
        ensures
            reg@ == builtin_rules(),
    {
        Self::new()
    }
}


// ---------------------------------------------------------------------------
// What every rule finding carries
// ---------------------------------------------------------------------------

/// A finding emitted under a rule's own name: its identifier, title,
/// category, severity, confidence and references, with a suggestion and an
/// LLM fix prompt.
pub open spec fn carries(m: RuleMeta, f: FindingView) -> bool {
    &&& f.rule_id == m.id
    &&& f.title == m.title
    &&& f.category == m.category
    &&& f.severity == m.severity
    &&& f.confidence == m.confidence
    &&& f.references == m.references
    &&& f.suggestion is Some
    &&& f.llm_fix_prompt is Some
}

/// Every finding of `fs` is emitted under the rule described by `m`.
pub open spec fn all_carry(m: RuleMeta, fs: Seq<FindingView>) -> bool {
    forall|i: int| 0 <= i < fs.len() ==> carries(m, #[trigger] fs[i])
}

pub proof fn lemma_all_carry_concat(m: RuleMeta, a: Seq<FindingView>, b: Seq<FindingView>)
    requires
        all_carry(m, a),
        all_carry(m, b),
    ensures
        all_carry(m, a + b),
{
    assert forall|i: int| 0 <= i < (a + b).len() implies carries(m, #[trigger] (a + b)[i]) by {
        if i < a.len() {
            assert((a + b)[i] == a[i]);
        } else {
            assert((a + b)[i] == b[i - a.len()]);
        }
    }
}

pub proof fn lemma_all_carry_flat_map<A>(m: RuleMeta, s: Seq<A>, f: spec_fn(A) -> Seq<FindingView>)
    requires
        forall|i: int| 0 <= i < s.len() ==> all_carry(m, f(#[trigger] s[i])),
    ensures
        all_carry(m, flat_map(s, f)),
    decreases s.len(),
{
    if s.len() > 0 {
        let p = s.drop_last();
        assert forall|i: int| 0 <= i < p.len() implies all_carry(m, f(#[trigger] p[i])) by {
            assert(p[i] == s[i]);
        }
        lemma_all_carry_flat_map(m, p, f);
        assert(all_carry(m, f(s[s.len() - 1])));
        lemma_all_carry_concat(m, flat_map(p, f), f(s.last()));
    }
}

/// Every step of a per-target rule finds only findings under its name.
pub open spec fn steps_carry<T: TargetCheck>(c: T, ctx: RuleContext, m: RuleMeta) -> bool {
    forall|pkg: PackageInfo, t: TargetInfo|
        #[trigger] c.step_spec(ctx, pkg, t) matches StepView::Found(fs) ==> all_carry(m, fs)
}

proof fn lemma_run_from_carries<T: TargetCheck>(c: T, ctx: RuleContext, m: RuleMeta, p: int, t: int)
    requires
        steps_carry(c, ctx, m),
    ensures
        all_carry(m, run_from(c, ctx, p, t).found),
    decreases ctx.packages@.len() - p, ctx.packages@[p].targets@.len() - t,
{
    if p < 0 || p >= ctx.packages@.len() {
    } else if t < 0 || t >= ctx.packages@[p].targets@.len() {
        lemma_run_from_carries(c, ctx, m, p + 1, 0);
    } else {
        let st = c.step_spec(ctx, ctx.packages@[p], ctx.packages@[p].targets@[t]);
        match st {
            StepView::Skip => {
                lemma_run_from_carries(c, ctx, m, p, t + 1);
            },
            StepView::Fail(e) => {},
            StepView::Found(fs) => {
                lemma_run_from_carries(c, ctx, m, p, t + 1);
                lemma_all_carry_concat(m, fs, run_from(c, ctx, p, t + 1).found);
            },
        }
    }
}

/// A per-target rule whose steps find only findings under its name emits
/// only those.
pub proof fn lemma_run_targets_carry<T: TargetCheck>(c: T, ctx: RuleContext, m: RuleMeta)
    requires
        steps_carry(c, ctx, m),
    ensures
        all_carry(m, run_targets_spec(c, ctx).found),
{
    lemma_run_from_carries(c, ctx, m, 0, 0);
}

/// `id` has the form `category.rule-name`: a dot with text on both sides.
pub open spec fn is_dotted_id(id: Seq<char>) -> bool {
    exists|k: int| 0 < k < id.len() - 1 && #[trigger] id[k] == '.'
}

/// The built-in rule whose identifier is `id`, if any.
pub open spec fn builtin_rule_with_id(id: Seq<char>) -> Option<BuiltinRule> {
    if id == "anti.deny-warnings"@ {
        Some(BuiltinRule::AntiDenyWarnings)
    } else if id == "anti.deref-polymorphism"@ {
        Some(BuiltinRule::AntiDerefPolymorphism)
    } else if id == "anti.clone-to-satisfy-borrow-checker"@ {
        Some(BuiltinRule::AntiCloneToSatisfyBorrowChecker)
    } else if id == "idiom.borrowed-args"@ {
        Some(BuiltinRule::IdiomBorrowedArgs)
    } else if id == "idiom.default-trait"@ {
        Some(BuiltinRule::IdiomDefaultTrait)
    } else if id == "idiom.option-iteration"@ {
        Some(BuiltinRule::IdiomOptionIteration)
    } else if id == "idiom.privacy-extensibility"@ {
        Some(BuiltinRule::IdiomPrivacyExtensibility)
    } else if id == "idiom.temporary-mutability"@ {
        Some(BuiltinRule::IdiomTemporaryMutability)
    } else if id == "idiom.return-consumed-arg-on-error"@ {
        Some(BuiltinRule::IdiomReturnConsumedArgOnError)
    } else if id == "idiom.mem-take-replace"@ {
        Some(BuiltinRule::IdiomMemTakeReplace)
    } else if id == "pattern.builder"@ {
        Some(BuiltinRule::PatternBuilder)
    } else if id == "pattern.contain-unsafety"@ {
        Some(BuiltinRule::PatternContainUnSafety)
    } else if id == "pattern.custom-traits-for-bounds"@ {
        Some(BuiltinRule::PatternCustomTraitsForBounds)
    } else if id == "pattern.small-crates"@ {
        Some(BuiltinRule::PatternSmallCrates)
    } else if id == "pattern.compose-structs"@ {
        Some(BuiltinRule::PatternComposeStructs)
    } else if id == "pattern.raii-guard"@ {
        Some(BuiltinRule::PatternRaiiGuard)
    } else if id == "ffi.idiomatic-errors"@ {
        Some(BuiltinRule::FfiIdiomaticErrors)
    } else if id == "pattern.newtype"@ {
        Some(BuiltinRule::PatternNewtype)
    } else {
        None
    }
}

proof fn lemma_rule_id_inverse(r: BuiltinRule)
    ensures
        builtin_rule_with_id(r.meta().id) == Some(r),
        is_dotted_id(r.meta().id),
{
    reveal_strlit("anti.deny-warnings");
    reveal_strlit("anti.deref-polymorphism");
    reveal_strlit("anti.clone-to-satisfy-borrow-checker");
    reveal_strlit("idiom.borrowed-args");
    reveal_strlit("idiom.default-trait");
    reveal_strlit("idiom.option-iteration");
    reveal_strlit("idiom.privacy-extensibility");
    reveal_strlit("idiom.temporary-mutability");
    reveal_strlit("idiom.return-consumed-arg-on-error");
    reveal_strlit("idiom.mem-take-replace");
    reveal_strlit("pattern.builder");
    reveal_strlit("pattern.contain-unsafety");
    reveal_strlit("pattern.custom-traits-for-bounds");
    reveal_strlit("pattern.small-crates");
    reveal_strlit("pattern.compose-structs");
    reveal_strlit("pattern.raii-guard");
    reveal_strlit("ffi.idiomatic-errors");
    reveal_strlit("pattern.newtype");
    match r {
        BuiltinRule::AntiDenyWarnings => {
            assert(r.meta().id == "anti.deny-warnings"@);
            assert(r.meta().id[4] == '.');
        },
        BuiltinRule::AntiDerefPolymorphism => {
            assert(r.meta().id == "anti.deref-polymorphism"@);
            assert("anti.deref-polymorphism"@.len() == 23 && "anti.deny-warnings"@.len() == 18);
            assert(r.meta().id[4] == '.');
        },
        BuiltinRule::AntiCloneToSatisfyBorrowChecker => {
            assert(r.meta().id == "anti.clone-to-satisfy-borrow-checker"@);
            assert("anti.clone-to-satisfy-borrow-checker"@.len() == 36 && "anti.deny-warnings"@.len() == 18);
            assert("anti.clone-to-satisfy-borrow-checker"@.len() == 36 && "anti.deref-polymorphism"@.len() == 23);
            assert(r.meta().id[4] == '.');
        },
        BuiltinRule::IdiomBorrowedArgs => {
            assert(r.meta().id == "idiom.borrowed-args"@);
            assert("idiom.borrowed-args"@.len() == 19 && "anti.deny-warnings"@.len() == 18);
            assert("idiom.borrowed-args"@.len() == 19 && "anti.deref-polymorphism"@.len() == 23);
            assert("idiom.borrowed-args"@.len() == 19 && "anti.clone-to-satisfy-borrow-checker"@.len() == 36);
            assert(r.meta().id[5] == '.');
        },
        BuiltinRule::IdiomDefaultTrait => {
            assert(r.meta().id == "idiom.default-trait"@);
            assert("idiom.default-trait"@.len() == 19 && "anti.deny-warnings"@.len() == 18);
            assert("idiom.default-trait"@.len() == 19 && "anti.deref-polymorphism"@.len() == 23);
            assert("idiom.default-trait"@.len() == 19 && "anti.clone-to-satisfy-borrow-checker"@.len() == 36);
            assert("idiom.default-trait"@[6] != "idiom.borrowed-args"@[6]);
            assert(r.meta().id[5] == '.');
        },
        BuiltinRule::IdiomOptionIteration => {
            assert(r.meta().id == "idiom.option-iteration"@);
            assert("idiom.option-iteration"@.len() == 22 && "anti.deny-warnings"@.len() == 18);
            assert("idiom.option-iteration"@.len() == 22 && "anti.deref-polymorphism"@.len() == 23);
            assert("idiom.option-iteration"@.len() == 22 && "anti.clone-to-satisfy-borrow-checker"@.len() == 36);
            assert("idiom.option-iteration"@.len() == 22 && "idiom.borrowed-args"@.len() == 19);
            assert("idiom.option-iteration"@.len() == 22 && "idiom.default-trait"@.len() == 19);
            assert(r.meta().id[5] == '.');
        },
        BuiltinRule::IdiomPrivacyExtensibility => {
            assert(r.meta().id == "idiom.privacy-extensibility"@);
            assert("idiom.privacy-extensibility"@.len() == 27 && "anti.deny-warnings"@.len() == 18);
            assert("idiom.privacy-extensibility"@.len() == 27 && "anti.deref-polymorphism"@.len() == 23);
            assert("idiom.privacy-extensibility"@.len() == 27 && "anti.clone-to-satisfy-borrow-checker"@.len() == 36);
            assert("idiom.privacy-extensibility"@.len() == 27 && "idiom.borrowed-args"@.len() == 19);
            assert("idiom.privacy-extensibility"@.len() == 27 && "idiom.default-trait"@.len() == 19);
            assert("idiom.privacy-extensibility"@.len() == 27 && "idiom.option-iteration"@.len() == 22);
            assert(r.meta().id[5] == '.');
        },
        BuiltinRule::IdiomTemporaryMutability => {
            assert(r.meta().id == "idiom.temporary-mutability"@);
            assert("idiom.temporary-mutability"@.len() == 26 && "anti.deny-warnings"@.len() == 18);
            assert("idiom.temporary-mutability"@.len() == 26 && "anti.deref-polymorphism"@.len() == 23);
            assert("idiom.temporary-mutability"@.len() == 26 && "anti.clone-to-satisfy-borrow-checker"@.len() == 36);
            assert("idiom.temporary-mutability"@.len() == 26 && "idiom.borrowed-args"@.len() == 19);
            assert("idiom.temporary-mutability"@.len() == 26 && "idiom.default-trait"@.len() == 19);
            assert("idiom.temporary-mutability"@.len() == 26 && "idiom.option-iteration"@.len() == 22);
            assert("idiom.temporary-mutability"@.len() == 26 && "idiom.privacy-extensibility"@.len() == 27);
            assert(r.meta().id[5] == '.');
        },
        BuiltinRule::IdiomReturnConsumedArgOnError => {
            assert(r.meta().id == "idiom.return-consumed-arg-on-error"@);
            assert("idiom.return-consumed-arg-on-error"@.len() == 34 && "anti.deny-warnings"@.len() == 18);
            assert("idiom.return-consumed-arg-on-error"@.len() == 34 && "anti.deref-polymorphism"@.len() == 23);
            assert("idiom.return-consumed-arg-on-error"@.len() == 34 && "anti.clone-to-satisfy-borrow-checker"@.len() == 36);
            assert("idiom.return-consumed-arg-on-error"@.len() == 34 && "idiom.borrowed-args"@.len() == 19);
            assert("idiom.return-consumed-arg-on-error"@.len() == 34 && "idiom.default-trait"@.len() == 19);
            assert("idiom.return-consumed-arg-on-error"@.len() == 34 && "idiom.option-iteration"@.len() == 22);
            assert("idiom.return-consumed-arg-on-error"@.len() == 34 && "idiom.privacy-extensibility"@.len() == 27);
            assert("idiom.return-consumed-arg-on-error"@.len() == 34 && "idiom.temporary-mutability"@.len() == 26);
            assert(r.meta().id[5] == '.');
        },
        BuiltinRule::IdiomMemTakeReplace => {
            assert(r.meta().id == "idiom.mem-take-replace"@);
            assert("idiom.mem-take-replace"@.len() == 22 && "anti.deny-warnings"@.len() == 18);
            assert("idiom.mem-take-replace"@.len() == 22 && "anti.deref-polymorphism"@.len() == 23);
            assert("idiom.mem-take-replace"@.len() == 22 && "anti.clone-to-satisfy-borrow-checker"@.len() == 36);
            assert("idiom.mem-take-replace"@.len() == 22 && "idiom.borrowed-args"@.len() == 19);
            assert("idiom.mem-take-replace"@.len() == 22 && "idiom.default-trait"@.len() == 19);
            assert("idiom.mem-take-replace"@[6] != "idiom.option-iteration"@[6]);
            assert("idiom.mem-take-replace"@.len() == 22 && "idiom.privacy-extensibility"@.len() == 27);
            assert("idiom.mem-take-replace"@.len() == 22 && "idiom.temporary-mutability"@.len() == 26);
            assert("idiom.mem-take-replace"@.len() == 22 && "idiom.return-consumed-arg-on-error"@.len() == 34);
            assert(r.meta().id[5] == '.');
        },
        BuiltinRule::PatternBuilder => {
            assert(r.meta().id == "pattern.builder"@);
            assert("pattern.builder"@.len() == 15 && "anti.deny-warnings"@.len() == 18);
            assert("pattern.builder"@.len() == 15 && "anti.deref-polymorphism"@.len() == 23);
            assert("pattern.builder"@.len() == 15 && "anti.clone-to-satisfy-borrow-checker"@.len() == 36);
            assert("pattern.builder"@.len() == 15 && "idiom.borrowed-args"@.len() == 19);
            assert("pattern.builder"@.len() == 15 && "idiom.default-trait"@.len() == 19);
            assert("pattern.builder"@.len() == 15 && "idiom.option-iteration"@.len() == 22);
            assert("pattern.builder"@.len() == 15 && "idiom.privacy-extensibility"@.len() == 27);
            assert("pattern.builder"@.len() == 15 && "idiom.temporary-mutability"@.len() == 26);
            assert("pattern.builder"@.len() == 15 && "idiom.return-consumed-arg-on-error"@.len() == 34);
            assert("pattern.builder"@.len() == 15 && "idiom.mem-take-replace"@.len() == 22);
            assert(r.meta().id[7] == '.');
        },
        BuiltinRule::PatternContainUnSafety => {
            assert(r.meta().id == "pattern.contain-unsafety"@);
            assert("pattern.contain-unsafety"@.len() == 24 && "anti.deny-warnings"@.len() == 18);
            assert("pattern.contain-unsafety"@.len() == 24 && "anti.deref-polymorphism"@.len() == 23);
            assert("pattern.contain-unsafety"@.len() == 24 && "anti.clone-to-satisfy-borrow-checker"@.len() == 36);
            assert("pattern.contain-unsafety"@.len() == 24 && "idiom.borrowed-args"@.len() == 19);
            assert("pattern.contain-unsafety"@.len() == 24 && "idiom.default-trait"@.len() == 19);
            assert("pattern.contain-unsafety"@.len() == 24 && "idiom.option-iteration"@.len() == 22);
            assert("pattern.contain-unsafety"@.len() == 24 && "idiom.privacy-extensibility"@.len() == 27);
            assert("pattern.contain-unsafety"@.len() == 24 && "idiom.temporary-mutability"@.len() == 26);
            assert("pattern.contain-unsafety"@.len() == 24 && "idiom.return-consumed-arg-on-error"@.len() == 34);
            assert("pattern.contain-unsafety"@.len() == 24 && "idiom.mem-take-replace"@.len() == 22);
            assert("pattern.contain-unsafety"@.len() == 24 && "pattern.builder"@.len() == 15);
            assert(r.meta().id[7] == '.');
        },
        BuiltinRule::PatternCustomTraitsForBounds => {
            assert(r.meta().id == "pattern.custom-traits-for-bounds"@);
            assert("pattern.custom-traits-for-bounds"@.len() == 32 && "anti.deny-warnings"@.len() == 18);
            assert("pattern.custom-traits-for-bounds"@.len() == 32 && "anti.deref-polymorphism"@.len() == 23);
            assert("pattern.custom-traits-for-bounds"@.len() == 32 && "anti.clone-to-satisfy-borrow-checker"@.len() == 36);
            assert("pattern.custom-traits-for-bounds"@.len() == 32 && "idiom.borrowed-args"@.len() == 19);
            assert("pattern.custom-traits-for-bounds"@.len() == 32 && "idiom.default-trait"@.len() == 19);
            assert("pattern.custom-traits-for-bounds"@.len() == 32 && "idiom.option-iteration"@.len() == 22);
            assert("pattern.custom-traits-for-bounds"@.len() == 32 && "idiom.privacy-extensibility"@.len() == 27);
            assert("pattern.custom-traits-for-bounds"@.len() == 32 && "idiom.temporary-mutability"@.len() == 26);
            assert("pattern.custom-traits-for-bounds"@.len() == 32 && "idiom.return-consumed-arg-on-error"@.len() == 34);
            assert("pattern.custom-traits-for-bounds"@.len() == 32 && "idiom.mem-take-replace"@.len() == 22);
            assert("pattern.custom-traits-for-bounds"@.len() == 32 && "pattern.builder"@.len() == 15);
            assert("pattern.custom-traits-for-bounds"@.len() == 32 && "pattern.contain-unsafety"@.len() == 24);
            assert(r.meta().id[7] == '.');
        },
        BuiltinRule::PatternSmallCrates => {
            assert(r.meta().id == "pattern.small-crates"@);
            assert("pattern.small-crates"@.len() == 20 && "anti.deny-warnings"@.len() == 18);
            assert("pattern.small-crates"@.len() == 20 && "anti.deref-polymorphism"@.len() == 23);
            assert("pattern.small-crates"@.len() == 20 && "anti.clone-to-satisfy-borrow-checker"@.len() == 36);
            assert("pattern.small-crates"@.len() == 20 && "idiom.borrowed-args"@.len() == 19);
            assert("pattern.small-crates"@.len() == 20 && "idiom.default-trait"@.len() == 19);
            assert("pattern.small-crates"@.len() == 20 && "idiom.option-iteration"@.len() == 22);
            assert("pattern.small-crates"@.len() == 20 && "idiom.privacy-extensibility"@.len() == 27);
            assert("pattern.small-crates"@.len() == 20 && "idiom.temporary-mutability"@.len() == 26);
            assert("pattern.small-crates"@.len() == 20 && "idiom.return-consumed-arg-on-error"@.len() == 34);
            assert("pattern.small-crates"@.len() == 20 && "idiom.mem-take-replace"@.len() == 22);
            assert("pattern.small-crates"@.len() == 20 && "pattern.builder"@.len() == 15);
            assert("pattern.small-crates"@.len() == 20 && "pattern.contain-unsafety"@.len() == 24);
            assert("pattern.small-crates"@.len() == 20 && "pattern.custom-traits-for-bounds"@.len() == 32);
            assert(r.meta().id[7] == '.');
        },
        BuiltinRule::PatternComposeStructs => {
            assert(r.meta().id == "pattern.compose-structs"@);
            assert("pattern.compose-structs"@.len() == 23 && "anti.deny-warnings"@.len() == 18);
            assert("pattern.compose-structs"@[0] != "anti.deref-polymorphism"@[0]);
            assert("pattern.compose-structs"@.len() == 23 && "anti.clone-to-satisfy-borrow-checker"@.len() == 36);
            assert("pattern.compose-structs"@.len() == 23 && "idiom.borrowed-args"@.len() == 19);
            assert("pattern.compose-structs"@.len() == 23 && "idiom.default-trait"@.len() == 19);
            assert("pattern.compose-structs"@.len() == 23 && "idiom.option-iteration"@.len() == 22);
            assert("pattern.compose-structs"@.len() == 23 && "idiom.privacy-extensibility"@.len() == 27);
            assert("pattern.compose-structs"@.len() == 23 && "idiom.temporary-mutability"@.len() == 26);
            assert("pattern.compose-structs"@.len() == 23 && "idiom.return-consumed-arg-on-error"@.len() == 34);
            assert("pattern.compose-structs"@.len() == 23 && "idiom.mem-take-replace"@.len() == 22);
            assert("pattern.compose-structs"@.len() == 23 && "pattern.builder"@.len() == 15);
            assert("pattern.compose-structs"@.len() == 23 && "pattern.contain-unsafety"@.len() == 24);
            assert("pattern.compose-structs"@.len() == 23 && "pattern.custom-traits-for-bounds"@.len() == 32);
            assert("pattern.compose-structs"@.len() == 23 && "pattern.small-crates"@.len() == 20);
            assert(r.meta().id[7] == '.');
        },
        BuiltinRule::PatternRaiiGuard => {
            assert(r.meta().id == "pattern.raii-guard"@);
            assert("pattern.raii-guard"@[0] != "anti.deny-warnings"@[0]);
            assert("pattern.raii-guard"@.len() == 18 && "anti.deref-polymorphism"@.len() == 23);
            assert("pattern.raii-guard"@.len() == 18 && "anti.clone-to-satisfy-borrow-checker"@.len() == 36);
            assert("pattern.raii-guard"@.len() == 18 && "idiom.borrowed-args"@.len() == 19);
            assert("pattern.raii-guard"@.len() == 18 && "idiom.default-trait"@.len() == 19);
            assert("pattern.raii-guard"@.len() == 18 && "idiom.option-iteration"@.len() == 22);
            assert("pattern.raii-guard"@.len() == 18 && "idiom.privacy-extensibility"@.len() == 27);
            assert("pattern.raii-guard"@.len() == 18 && "idiom.temporary-mutability"@.len() == 26);
            assert("pattern.raii-guard"@.len() == 18 && "idiom.return-consumed-arg-on-error"@.len() == 34);
            assert("pattern.raii-guard"@.len() == 18 && "idiom.mem-take-replace"@.len() == 22);
            assert("pattern.raii-guard"@.len() == 18 && "pattern.builder"@.len() == 15);
            assert("pattern.raii-guard"@.len() == 18 && "pattern.contain-unsafety"@.len() == 24);
            assert("pattern.raii-guard"@.len() == 18 && "pattern.custom-traits-for-bounds"@.len() == 32);
            assert("pattern.raii-guard"@.len() == 18 && "pattern.small-crates"@.len() == 20);
            assert("pattern.raii-guard"@.len() == 18 && "pattern.compose-structs"@.len() == 23);
            assert(r.meta().id[7] == '.');
        },
        BuiltinRule::FfiIdiomaticErrors => {
            assert(r.meta().id == "ffi.idiomatic-errors"@);
            assert("ffi.idiomatic-errors"@.len() == 20 && "anti.deny-warnings"@.len() == 18);
            assert("ffi.idiomatic-errors"@.len() == 20 && "anti.deref-polymorphism"@.len() == 23);
            assert("ffi.idiomatic-errors"@.len() == 20 && "anti.clone-to-satisfy-borrow-checker"@.len() == 36);
            assert("ffi.idiomatic-errors"@.len() == 20 && "idiom.borrowed-args"@.len() == 19);
            assert("ffi.idiomatic-errors"@.len() == 20 && "idiom.default-trait"@.len() == 19);
            assert("ffi.idiomatic-errors"@.len() == 20 && "idiom.option-iteration"@.len() == 22);
            assert("ffi.idiomatic-errors"@.len() == 20 && "idiom.privacy-extensibility"@.len() == 27);
            assert("ffi.idiomatic-errors"@.len() == 20 && "idiom.temporary-mutability"@.len() == 26);
            assert("ffi.idiomatic-errors"@.len() == 20 && "idiom.return-consumed-arg-on-error"@.len() == 34);
            assert("ffi.idiomatic-errors"@.len() == 20 && "idiom.mem-take-replace"@.len() == 22);
            assert("ffi.idiomatic-errors"@.len() == 20 && "pattern.builder"@.len() == 15);
            assert("ffi.idiomatic-errors"@.len() == 20 && "pattern.contain-unsafety"@.len() == 24);
            assert("ffi.idiomatic-errors"@.len() == 20 && "pattern.custom-traits-for-bounds"@.len() == 32);
            assert("ffi.idiomatic-errors"@[0] != "pattern.small-crates"@[0]);
            assert("ffi.idiomatic-errors"@.len() == 20 && "pattern.compose-structs"@.len() == 23);
            assert("ffi.idiomatic-errors"@.len() == 20 && "pattern.raii-guard"@.len() == 18);
            assert(r.meta().id[3] == '.');
        },
        BuiltinRule::PatternNewtype => {
            assert(r.meta().id == "pattern.newtype"@);
            assert("pattern.newtype"@.len() == 15 && "anti.deny-warnings"@.len() == 18);
            assert("pattern.newtype"@.len() == 15 && "anti.deref-polymorphism"@.len() == 23);
            assert("pattern.newtype"@.len() == 15 && "anti.clone-to-satisfy-borrow-checker"@.len() == 36);
            assert("pattern.newtype"@.len() == 15 && "idiom.borrowed-args"@.len() == 19);
            assert("pattern.newtype"@.len() == 15 && "idiom.default-trait"@.len() == 19);
            assert("pattern.newtype"@.len() == 15 && "idiom.option-iteration"@.len() == 22);
            assert("pattern.newtype"@.len() == 15 && "idiom.privacy-extensibility"@.len() == 27);
            assert("pattern.newtype"@.len() == 15 && "idiom.temporary-mutability"@.len() == 26);
            assert("pattern.newtype"@.len() == 15 && "idiom.return-consumed-arg-on-error"@.len() == 34);
            assert("pattern.newtype"@.len() == 15 && "idiom.mem-take-replace"@.len() == 22);
            assert("pattern.newtype"@[8] != "pattern.builder"@[8]);
            assert("pattern.newtype"@.len() == 15 && "pattern.contain-unsafety"@.len() == 24);
            assert("pattern.newtype"@.len() == 15 && "pattern.custom-traits-for-bounds"@.len() == 32);
            assert("pattern.newtype"@.len() == 15 && "pattern.small-crates"@.len() == 20);
            assert("pattern.newtype"@.len() == 15 && "pattern.compose-structs"@.len() == 23);
            assert("pattern.newtype"@.len() == 15 && "pattern.raii-guard"@.len() == 18);
            assert("pattern.newtype"@.len() == 15 && "ffi.idiomatic-errors"@.len() == 20);
            assert(r.meta().id[7] == '.');
        },
    }
}

/// Every rule has a stable identifier of its own, of the form
/// `category.rule-name`: no two built-in rules share one, and the registry
/// holds each built-in rule once.
pub proof fn law_rule_ids_unique(a: BuiltinRule, b: BuiltinRule)
    ensures
        a != b ==> a.meta().id != b.meta().id,
        is_dotted_id(a.meta().id),
        forall|i: int, j: int|
            0 <= i < j < builtin_rules().len() ==> #[trigger] builtin_rules()[i]
                != #[trigger] builtin_rules()[j],
{
    lemma_rule_id_inverse(a);
    lemma_rule_id_inverse(b);
}


/// Every finding a built-in rule emits is emitted under that rule's name:
/// it has the rule's identifier, title, category, severity, confidence and
/// references, and it has a suggestion and an LLM fix prompt.
pub proof fn law_rule_findings_carry_their_rule(r: BuiltinRule, ctx: RuleContext)
    ensures
        all_carry(r.meta(), r.outcome(ctx).found),
{
    match r {
        BuiltinRule::AntiDenyWarnings => crate::rules::anti_patterns::lemma_deny_warnings_carries(ctx),
        BuiltinRule::AntiDerefPolymorphism => crate::rules::anti_patterns::lemma_deref_polymorphism_carries(ctx),
        BuiltinRule::AntiCloneToSatisfyBorrowChecker => crate::rules::patterns::lemma_clone_borrow_carries(ctx),
        BuiltinRule::IdiomBorrowedArgs => crate::rules::idiom::lemma_borrowed_args_carries(ctx),
        BuiltinRule::IdiomDefaultTrait => crate::rules::idiom::lemma_default_trait_carries(ctx),
        BuiltinRule::IdiomOptionIteration => crate::rules::idiom::lemma_option_iteration_carries(ctx),
        BuiltinRule::IdiomPrivacyExtensibility => crate::rules::idiom::lemma_privacy_extensibility_carries(ctx),
        BuiltinRule::IdiomTemporaryMutability => crate::rules::idiom::lemma_temporary_mutability_carries(ctx),
        BuiltinRule::IdiomReturnConsumedArgOnError => crate::rules::idiom::lemma_return_consumed_arg_carries(ctx),
        BuiltinRule::IdiomMemTakeReplace => crate::rules::idiom::lemma_mem_take_replace_carries(ctx),
        BuiltinRule::PatternBuilder => crate::rules::patterns::lemma_builder_carries(ctx),
        BuiltinRule::PatternContainUnSafety => crate::rules::patterns::lemma_contain_unsafety_carries(ctx),
        BuiltinRule::PatternCustomTraitsForBounds => crate::rules::patterns::lemma_custom_traits_carries(ctx),
        BuiltinRule::PatternSmallCrates => crate::rules::patterns::lemma_small_crates_carries(ctx),
        BuiltinRule::PatternComposeStructs => crate::rules::patterns::lemma_compose_structs_carries(ctx),
        BuiltinRule::PatternRaiiGuard => crate::rules::patterns::lemma_raii_guard_carries(ctx),
        BuiltinRule::FfiIdiomaticErrors => crate::rules::patterns::lemma_inert_rules_carry(ctx),
        BuiltinRule::PatternNewtype => crate::rules::patterns::lemma_inert_rules_carry(ctx),
    }
}

} // verus!
