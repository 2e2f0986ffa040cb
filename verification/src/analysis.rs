//! Reusable rule-analysis helpers.
//!
//! Provides common utilities for:
//! - Locating items in source text (line finding)
//! - Identifying public APIs (pub fn, pub struct, pub enum, pub trait)
//! - Detecting unsafe and extern signatures
//! - Consistent finding construction
//! - Parsing suppression comments (`rust-doctor-allow` / `rust-doctor-disable-next-line`)
use vstd::prelude::*;
use vstd::string::StringSliceAdditionalSpecFns;

use crate::nesting::{nesting_within, source_nesting_ok};
use crate::diagnostic::{opt_location, opt_text, strings, Finding, Location};
use crate::rules::registry::{line_location, owned_opt, owned_strings, rule_finding, Rule};
use crate::syntax::{
    flat_map, is_pub_text, lemma_flat_map_all, lemma_flat_map_step, vis_text_is_pub, FnDecl,
    FnInput, Item, Visibility,
};
use crate::text::{
    chars_of, concat, contains_str, find_line_with_all, line_no, line_no_of, lines, lines_of,
    pats1, pats2, position, same, starts_with, starts_with_str, string_of, strip_prefix,
    strip_prefix_str, text_is, texts, trim, trim_chars,
};

verus! {

// ---------------------------------------------------------------------------
// Source location helpers
// ---------------------------------------------------------------------------

/// Find the line number (1-based) of a text pattern in source content.
///
/// Returns `None` if not found.
pub fn find_line(content: &str, pattern: &str) -> (r: Option<u32>)
    ensures
        r == line_no_of(position(lines(content@), seq![pattern@])),
{
    let c = chars_of(content);
    let ls = lines_of(c.as_slice());
    let pats = pats1(pattern);
    find_line_with_all(&ls, &pats)
}

/// The line `find_line_with_keyword` reports.
pub open spec fn keyword_line(content: Seq<char>, keyword: Seq<char>, ident: Seq<char>) -> Option<
    u32,
> {
    let ls = lines(content);
    match position(ls, seq![keyword, ident]) {
        Some(n) => Some(line_no(n)),
        None => match position(ls, seq![keyword + " "@ + ident]) {
            Some(n) => Some(line_no(n)),
            None => line_no_of(position(ls, seq![ident + "."@ + keyword])),
        },
    }
}

/// Find the line number of a token near a given identifier.
///
/// Looks for lines containing both `keyword` and `ident`.
pub fn find_line_with_keyword(content: &str, keyword: &str, ident: &str) -> (r: Option<u32>)
    ensures
        r == keyword_line(content@, keyword@, ident@),
{
    let c = chars_of(content);
    let ls = lines_of(c.as_slice());
    let k = chars_of(keyword);
    let id = chars_of(ident);
    let both = pats2(k.as_slice(), id.as_slice());
    match find_line_with_all(&ls, &both) {
        Some(n) => Some(n),
        None => {
            let space = chars_of(" ");
            let dot = chars_of(".");
            let a = concat(k.as_slice(), space.as_slice());
            let joined = concat(a.as_slice(), id.as_slice());
            let mut p2: Vec<Vec<char>> = Vec::new();
            p2.push(joined);
            assert(texts(p2@) =~= seq![keyword@ + " "@ + ident@]);
            match find_line_with_all(&ls, &p2) {
                Some(n) => Some(n),
                None => {
                    let b = concat(id.as_slice(), dot.as_slice());
                    let joined2 = concat(b.as_slice(), k.as_slice());
                    let mut p3: Vec<Vec<char>> = Vec::new();
                    p3.push(joined2);
                    assert(texts(p3@) =~= seq![ident@ + "."@ + keyword@]);
                    find_line_with_all(&ls, &p3)
                },
            }
        },
    }
}

// ---------------------------------------------------------------------------
// Public API detection
// ---------------------------------------------------------------------------

/// Check if a visibility string contains `pub` (including `pub(crate)`, `pub(super)`, etc.).
pub fn is_pub(vis_str: &str) -> (r: bool)
    ensures
        r == is_pub_text(vis_str@),
{
    let v = chars_of(vis_str);
    contains_str(v.as_slice(), "pub")
}

/// Check if a visibility (as its token text) is public.
pub fn is_vis_pub(vis: &Visibility) -> (r: bool)
    ensures
        r == is_pub_text(vis.tokens@),
{
    vis_text_is_pub(vis)
}

pub open spec fn pub_fn_name(item: Item) -> Seq<Seq<char>> {
    match item {
        Item::Fn(f) => if is_pub_text(f.vis.tokens@) {
            seq![f.ident@]
        } else {
            seq![]
        },
        _ => seq![],
    }
}

/// Collect all public function names from parsed items.
pub fn collect_pub_fn_names(items: &[Item]) -> (r: Vec<String>)
    ensures
        strings(r@) == flat_map(items@, |i: Item| pub_fn_name(i)),
{
    let mut out: Vec<String> = Vec::new();
    let mut i: usize = 0;
    while i < items.len()
        invariant
            i <= items@.len(),
            strings(out@) == flat_map(items@.take(i as int), |i: Item| pub_fn_name(i)),
        decreases items@.len() - i,
    {
        proof {
            lemma_flat_map_step(items@, |i: Item| pub_fn_name(i), i as int);
        }
        let ghost before = out@;
        match &items[i] {
            Item::Fn(f) => {
                if vis_text_is_pub(&f.vis) {
                    out.push(f.ident.clone());
                }
            },
            _ => {},
        }
        assert(strings(out@) =~= strings(before) + pub_fn_name(items@[i as int]));
        i = i + 1;
    }
    proof {
        lemma_flat_map_all(items@, |i: Item| pub_fn_name(i));
    }
    out
}

pub open spec fn pub_type_name(item: Item) -> Seq<Seq<char>> {
    match item {
        Item::Struct(s) => if is_pub_text(s.vis.tokens@) {
            seq![s.ident@]
        } else {
            seq![]
        },
        Item::Enum(e) => if is_pub_text(e.vis.tokens@) {
            seq![e.ident@]
        } else {
            seq![]
        },
        Item::Trait(t) => if is_pub_text(t.vis.tokens@) {
            seq![t.ident@]
        } else {
            seq![]
        },
        _ => seq![],
    }
}

/// Collect all public struct/enum/trait names from parsed items: those whose
/// own visibility contains `pub`.
pub fn collect_pub_type_names(items: &[Item]) -> (r: Vec<String>)
    ensures
        strings(r@) == flat_map(items@, |i: Item| pub_type_name(i)),
{
    let mut out: Vec<String> = Vec::new();
    let mut i: usize = 0;
    while i < items.len()
        invariant
            i <= items@.len(),
            strings(out@) == flat_map(items@.take(i as int), |i: Item| pub_type_name(i)),
        decreases items@.len() - i,
    {
        proof {
            lemma_flat_map_step(items@, |i: Item| pub_type_name(i), i as int);
        }
        let ghost before = out@;
        match &items[i] {
            Item::Struct(s) => {
                if vis_text_is_pub(&s.vis) {
                    out.push(s.ident.clone());
                }
            },
            Item::Enum(e) => {
                if vis_text_is_pub(&e.vis) {
                    out.push(e.ident.clone());
                }
            },
            Item::Trait(t) => {
                if vis_text_is_pub(&t.vis) {
                    out.push(t.ident.clone());
                }
            },
            _ => {},
        }
        assert(strings(out@) =~= strings(before) + pub_type_name(items@[i as int]));
        i = i + 1;
    }
    proof {
        lemma_flat_map_all(items@, |i: Item| pub_type_name(i));
    }
    out
}

// ---------------------------------------------------------------------------
// Unsafe / extern detection
// ---------------------------------------------------------------------------

/// Number of elements of `s` satisfying `p`.
pub open spec fn count_where<A>(s: Seq<A>, p: spec_fn(A) -> bool) -> nat
    decreases s.len(),
{
    if s.len() == 0 {
        0
    } else {
        count_where(s.drop_last(), p) + if p(s.last()) {
            1nat
        } else {
            0nat
        }
    }
}

/// A line that starts an `unsafe` block or fn, once trimmed.
pub open spec fn is_unsafe_line(l: Seq<char>) -> bool {
    let t = trim(l);
    starts_with(t, "unsafe "@) || starts_with(t, "unsafe{"@) || starts_with(t, "unsafe fn"@)
}

/// Count the number of `unsafe` blocks or fn items in source content.
pub fn count_unsafe(content: &str) -> (r: usize)
    ensures
        r == count_where(lines(content@), |l: Seq<char>| is_unsafe_line(l)),
{
    let c = chars_of(content);
    let ls = lines_of(c.as_slice());
    let mut n: usize = 0;
    let mut i: usize = 0;
    while i < ls.len()
        invariant
            i <= ls@.len(),
            texts(ls@) == lines(content@),
            n == count_where(texts(ls@).take(i as int), |l: Seq<char>| is_unsafe_line(l)),
            n <= i,
        decreases ls@.len() - i,
    {
        assert(texts(ls@).take(i + 1).drop_last() =~= texts(ls@).take(i as int));
        let t = trim_chars(ls[i].as_slice());
        if starts_with_str(t.as_slice(), "unsafe ") || starts_with_str(t.as_slice(), "unsafe{")
            || starts_with_str(t.as_slice(), "unsafe fn") {
            n = n + 1;
        }
        i = i + 1;
    }
    assert(texts(ls@).take(ls@.len() as int) =~= texts(ls@));
    n
}

/// Check if a function signature contains `unsafe`.
pub fn is_fn_unsafe(fn_item: &FnDecl) -> (r: bool)
    ensures
        r == fn_item.is_unsafe,
{
    fn_item.is_unsafe
}

/// Check if a function signature is `extern`.
pub fn is_fn_extern(fn_item: &FnDecl) -> (r: bool)
    ensures
        r == fn_item.is_extern,
{
    fn_item.is_extern
}

pub open spec fn unsafe_fn_name(item: Item) -> Seq<Seq<char>> {
    match item {
        Item::Fn(f) => if f.is_unsafe {
            seq![f.ident@]
        } else {
            seq![]
        },
        _ => seq![],
    }
}

/// Collect all unsafe function names from parsed items.
pub fn collect_unsafe_fn_names(items: &[Item]) -> (r: Vec<String>)
    ensures
        strings(r@) == flat_map(items@, |i: Item| unsafe_fn_name(i)),
{
    let mut out: Vec<String> = Vec::new();
    let mut i: usize = 0;
    while i < items.len()
        invariant
            i <= items@.len(),
            strings(out@) == flat_map(items@.take(i as int), |i: Item| unsafe_fn_name(i)),
        decreases items@.len() - i,
    {
        proof {
            lemma_flat_map_step(items@, |i: Item| unsafe_fn_name(i), i as int);
        }
        let ghost before = out@;
        match &items[i] {
            Item::Fn(f) => {
                if is_fn_unsafe(f) {
                    out.push(f.ident.clone());
                }
            },
            _ => {},
        }
        assert(strings(out@) =~= strings(before) + unsafe_fn_name(items@[i as int]));
        i = i + 1;
    }
    proof {
        lemma_flat_map_all(items@, |i: Item| unsafe_fn_name(i));
    }
    out
}

/// Token text of a parameter's type (or of the receiver).
pub open spec fn input_tokens(a: FnInput) -> Seq<char> {
    match a {
        FnInput::Receiver { tokens, .. } => tokens@,
        FnInput::Typed { tokens, .. } => tokens@,
    }
}

/// Pieces joined by a separator.
pub open spec fn join(parts: Seq<Seq<char>>, sep: Seq<char>) -> Seq<char>
    decreases parts.len(),
{
    if parts.len() == 0 {
        seq![]
    } else if parts.len() == 1 {
        parts[0]
    } else {
        join(parts.drop_last(), sep) + sep + parts.last()
    }
}

/// `name(type, type, ...)` for an extern function.
pub open spec fn extern_signature(f: FnDecl) -> Seq<char> {
    f.ident@ + "("@ + join(f.inputs@.map_values(|a: FnInput| input_tokens(a)), ", "@) + ")"@
}

pub open spec fn extern_fn_name(item: Item) -> Seq<Seq<char>> {
    match item {
        Item::Fn(f) => if f.is_extern {
            seq![extern_signature(f)]
        } else {
            seq![]
        },
        _ => seq![],
    }
}

/// `name(type, type)` for one function.
fn extern_signature_of(f: &FnDecl) -> (r: String)
    ensures
        r@ == extern_signature(*f),
{
    let ghost parts = f.inputs@.map_values(|a: FnInput| input_tokens(a));
    let mut s = String::from_str(f.ident.as_str());
    s.append("(");
    let ghost base = s@;
    let mut i: usize = 0;
    while i < f.inputs.len()
        invariant
            i <= f.inputs@.len(),
            parts == f.inputs@.map_values(|a: FnInput| input_tokens(a)),
            s@ == base + join(parts.take(i as int), ", "@),
        decreases f.inputs@.len() - i,
    {
        let ghost prev = s@;
        if i > 0 {
            s.append(", ");
        }
        match &f.inputs[i] {
            FnInput::Receiver { tokens, .. } => s.append(tokens.as_str()),
            FnInput::Typed { tokens, .. } => s.append(tokens.as_str()),
        }
        proof {
            let t = parts.take(i + 1);
            assert(t.drop_last() =~= parts.take(i as int));
            assert(t.last() == input_tokens(f.inputs@[i as int]));
            if i == 0 {
                assert(parts.take(0) =~= Seq::<Seq<char>>::empty());
                assert(join(t, ", "@) == t[0]);
            }
            assert(s@ =~= base + join(t, ", "@));
        }
        i = i + 1;
    }
    assert(parts.take(f.inputs@.len() as int) =~= parts);
    s.append(")");
    s
}

/// Collect all extern function signatures (`name(type, ...)`) from parsed items.
pub fn collect_extern_fn_names(items: &[Item]) -> (r: Vec<String>)
    ensures
        strings(r@) == flat_map(items@, |i: Item| extern_fn_name(i)),
{
    let mut out: Vec<String> = Vec::new();
    let mut i: usize = 0;
    while i < items.len()
        invariant
            i <= items@.len(),
            strings(out@) == flat_map(items@.take(i as int), |i: Item| extern_fn_name(i)),
        decreases items@.len() - i,
    {
        proof {
            lemma_flat_map_step(items@, |i: Item| extern_fn_name(i), i as int);
        }
        let ghost before = out@;
        match &items[i] {
            Item::Fn(f) => {
                if is_fn_extern(f) {
                    out.push(extern_signature_of(f));
                }
            },
            _ => {},
        }
        assert(strings(out@) =~= strings(before) + extern_fn_name(items@[i as int]));
        i = i + 1;
    }
    proof {
        lemma_flat_map_all(items@, |i: Item| extern_fn_name(i));
    }
    out
}

// ---------------------------------------------------------------------------
// Finding construction helpers
// ---------------------------------------------------------------------------

/// Build a finding with a rule's metadata and an optional location.
pub fn finding_for<R: Rule>(
    rule: &R,
    location: Option<Location>,
    message: String,
    why_it_matters: String,
    suggestion: Option<String>,
) -> (f: Finding)
    ensures
        f@ == rule_finding(
            rule.meta(),
            opt_location(location),
            message@,
            why_it_matters@,
            opt_text(suggestion),
        ),
{
    let refs = rule.references();
    Finding {
        rule_id: String::from_str(rule.id()),
        title: String::from_str(rule.title()),
        category: rule.category(),
        severity: rule.default_severity(),
        confidence: rule.default_confidence(),
        location,
        message,
        why_it_matters,
        suggestion,
        references: owned_strings(&refs),
        llm_fix_prompt: owned_opt(rule.llm_fix_prompt()),
    }
}

/// Build a `Finding` with consistent defaults for a given rule.
pub fn make_finding<R: Rule>(
    rule: &R,
    location: Location,
    message: String,
    why_it_matters: String,
    suggestion: Option<String>,
) -> (f: Finding)
    ensures
        f@ == rule_finding(
            rule.meta(),
            Some(location@),
            message@,
            why_it_matters@,
            opt_text(suggestion),
        ),
{
    finding_for(rule, Some(location), message, why_it_matters, suggestion)
}

/// Build a `Finding` without a specific location (e.g., crate-level findings).
pub fn make_finding_no_location<R: Rule>(
    rule: &R,
    message: String,
    why_it_matters: String,
    suggestion: Option<String>,
) -> (f: Finding)
    ensures
        f@ == rule_finding(rule.meta(), None, message@, why_it_matters@, opt_text(suggestion)),
{
    finding_for(rule, None, message, why_it_matters, suggestion)
}

/// A location at `path` whose line and end line are `line`.
pub fn location_at(path: String, line: Option<u32>) -> (l: Location)
    ensures
        l@ == line_location(path@, line),
{
    Location { path, line, column: None, end_line: line, end_column: None }
}

// ---------------------------------------------------------------------------
// Suppression comment parsing
// ---------------------------------------------------------------------------

/// Suppression directive parsed from a source comment.
#[derive(Debug, Clone, PartialEq, Eq)]
pub struct Suppression {
    /// The rule ID to suppress (`None` means all rules).
    pub rule_id: Option<String>,
    /// The 1-based line number the suppression applies to (next line for "disable-next-line").
    pub line: u32,
}

pub struct SuppressionView {
    pub rule_id: Option<Seq<char>>,
    pub line: u32,
}

impl View for Suppression {
    type V = SuppressionView;

    open spec fn view(&self) -> SuppressionView {
        SuppressionView { rule_id: opt_text(self.rule_id), line: self.line }
    }
}

pub open spec fn suppression_views(s: Seq<Suppression>) -> Seq<SuppressionView> {
    s.map_values(|x: Suppression| x@)
}

/// The rule named after a directive: none when nothing follows it.
pub open spec fn directive_rule(rest: Seq<char>) -> Option<Seq<char>> {
    let r = trim(rest);
    if r.len() == 0 {
        None
    } else {
        Some(r)
    }
}

/// The directives on line `idx` (0-based) of a file.
pub open spec fn line_suppressions(l: Seq<char>, idx: int) -> Seq<SuppressionView> {
    let t = trim(l);
    (match strip_prefix(t, "// rust-doctor-allow"@) {
        Some(rest) => seq![
            SuppressionView { rule_id: directive_rule(rest), line: (idx + 1) as u32 },
        ],
        None => seq![],
    }) + (match strip_prefix(t, "// rust-doctor-disable-next-line"@) {
        Some(rest) => seq![
            SuppressionView { rule_id: directive_rule(rest), line: (idx + 2) as u32 },
        ],
        None => seq![],
    })
}

/// The directives of the first `n` lines.
pub open spec fn suppressions_upto(ls: Seq<Seq<char>>, n: int) -> Seq<SuppressionView>
    decreases n,
{
    if n <= 0 {
        seq![]
    } else {
        suppressions_upto(ls, n - 1) + line_suppressions(ls[n - 1], n - 1)
    }
}

/// All directives of a file, in line order.
pub open spec fn suppressions_of(content: Seq<char>) -> Seq<SuppressionView> {
    suppressions_upto(lines(content), lines(content).len() as int)
}

/// The suppression a directive line yields, if it starts with `prefix`.
fn directive_on(t: &[char], prefix: &str, line: u32) -> (r: Option<Suppression>)
    ensures
        match strip_prefix(t@, prefix@) {
            Some(rest) => r matches Some(s) && s@ == SuppressionView {
                rule_id: directive_rule(rest),
                line,
            },
            None => r is None,
        },
{
    match strip_prefix_str(t, prefix) {
        Some(rest) => {
            let r = trim_chars(rest.as_slice());
            let rule_id = if r.len() == 0 {
                None
            } else {
                Some(string_of(r.as_slice()))
            };
            Some(Suppression { rule_id, line })
        },
        None => None,
    }
}

/// Parse suppression comments from source content.
///
/// Recognizes two forms:
/// - `// rust-doctor-allow RULE_ID` — applies on its own line
/// - `// rust-doctor-disable-next-line RULE_ID` — applies on the next line
///
/// If no rule ID is provided, the suppression applies to all rules.
pub fn parse_suppressions(content: &str) -> (r: Vec<Suppression>)
    ensures
        suppression_views(r@) == suppressions_of(content@),
{
    let c = chars_of(content);
    let ls = lines_of(c.as_slice());
    let mut out: Vec<Suppression> = Vec::new();
    let mut idx: usize = 0;
    while idx < ls.len()
        invariant
            idx <= ls@.len(),
            texts(ls@) == lines(content@),
            suppression_views(out@) == suppressions_upto(texts(ls@), idx as int),
        decreases ls@.len() - idx,
    {
        let t = trim_chars(ls[idx].as_slice());
        let ghost before = suppression_views(out@);
        #[verifier::truncate]
        let l1 = (idx as u128 + 1) as u32;
        #[verifier::truncate]
        let l2 = (idx as u128 + 2) as u32;
        let a = directive_on(t.as_slice(), "// rust-doctor-allow", l1);
        let b = directive_on(t.as_slice(), "// rust-doctor-disable-next-line", l2);
        match a {
            Some(s) => out.push(s),
            None => {},
        }
        match b {
            Some(s) => out.push(s),
            None => {},
        }
        proof {
            assert(texts(ls@)[idx as int] == ls@[idx as int]@);
            assert(suppression_views(out@) =~= before + line_suppressions(
                texts(ls@)[idx as int],
                idx as int,
            ));
        }
        idx = idx + 1;
    }
    out
}

/// A directive silences `rule_id` on `line`: a rule-less directive covers
/// its own line and every later one; a directive naming the rule (or `*`)
/// covers exactly its line.
pub open spec fn suppresses(s: SuppressionView, rule_id: Seq<char>, line: u32) -> bool {
    match s.rule_id {
        None => s.line <= line,
        Some(r) => (r == rule_id || r == "*"@) && s.line == line,
    }
}

/// `is_suppressed`: the directives walked in order.
pub open spec fn suppressed_from(
    sups: Seq<SuppressionView>,
    rule_id: Seq<char>,
    line: Option<u32>,
    i: int,
) -> bool
    decreases sups.len() - i,
{
    match line {
        None => false,
        Some(l) => if i < 0 || i >= sups.len() {
            false
        } else if suppresses(sups[i], rule_id, l) {
            true
        } else {
            suppressed_from(sups, rule_id, line, i + 1)
        },
    }
}

/// `is_line_suppressed`: any directive silences the rule on that line.
pub open spec fn line_suppressed(sups: Seq<SuppressionView>, rule_id: Seq<char>, line: u32) -> bool {
    exists|i: int| 0 <= i < sups.len() && suppresses(#[trigger] sups[i], rule_id, line)
}

/// Whether one directive silences `rule_id` on `line`.
fn suppresses_exec(s: &Suppression, rule_id: &[char], line: u32) -> (r: bool)
    ensures
        r == suppresses(s@, rule_id@, line),
{
    match &s.rule_id {
        None => s.line <= line,
        Some(r) => {
            let rv = chars_of(r.as_str());
            let star = chars_of("*");
            (same(rv.as_slice(), rule_id) || same(rv.as_slice(), star.as_slice())) && s.line
                == line
        },
    }
}

/// Check if a finding at the given line should be suppressed by any directive.
///
/// Returns `true` if the finding should be suppressed (i.e., filtered out).
pub fn is_suppressed(suppressions: &[Suppression], rule_id: &str, line: Option<u32>) -> (r: bool)
    ensures
        r == suppressed_from(suppression_views(suppressions@), rule_id@, line, 0),
{
    let target_line = match line {
        Some(l) => l,
        None => return false,
    };
    let rv = chars_of(rule_id);
    let mut i: usize = 0;
    while i < suppressions.len()
        invariant
            i <= suppressions@.len(),
            line == Some(target_line),
            rv@ == rule_id@,
            suppressed_from(suppression_views(suppressions@), rule_id@, line, 0)
                == suppressed_from(suppression_views(suppressions@), rule_id@, line, i as int),
        decreases suppressions@.len() - i,
    {
        assert(suppression_views(suppressions@)[i as int] == suppressions@[i as int]@);
        if suppresses_exec(&suppressions[i], rv.as_slice(), target_line) {
            return true;
        }
        i = i + 1;
    }
    false
}

/// Check if a specific line in source should be suppressed for a given rule.
pub fn is_line_suppressed(suppressions: &[Suppression], rule_id: &str, line: u32) -> (r: bool)
    ensures
        r == line_suppressed(suppression_views(suppressions@), rule_id@, line),
{
    let rv = chars_of(rule_id);
    let mut i: usize = 0;
    while i < suppressions.len()
        invariant
            i <= suppressions@.len(),
            rv@ == rule_id@,
            forall|j: int|
                0 <= j < i ==> !suppresses(
                    #[trigger] suppression_views(suppressions@)[j],
                    rule_id@,
                    line,
                ),
        decreases suppressions@.len() - i,
    {
        assert(suppression_views(suppressions@)[i as int] == suppressions@[i as int]@);
        if suppresses_exec(&suppressions[i], rv.as_slice(), line) {
            assert(suppresses(suppression_views(suppressions@)[i as int], rule_id@, line));
            return true;
        }
        i = i + 1;
    }
    false
}

/// Checking a finding's line with `is_suppressed` agrees with
/// `is_line_suppressed` on that line, and a finding without a line is never
/// suppressed.
pub proof fn law_suppression_checks_agree(
    sups: Seq<SuppressionView>,
    rule_id: Seq<char>,
    line: u32,
)
    ensures
        suppressed_from(sups, rule_id, Some(line), 0) == line_suppressed(sups, rule_id, line),
        !suppressed_from(sups, rule_id, None, 0),
{
    lemma_suppressed_from(sups, rule_id, line, 0);
}

proof fn lemma_suppressed_from(sups: Seq<SuppressionView>, rule_id: Seq<char>, line: u32, i: int)
    requires
        0 <= i,
    ensures
        suppressed_from(sups, rule_id, Some(line), i) == exists|j: int|
            i <= j < sups.len() && suppresses(#[trigger] sups[j], rule_id, line),
    decreases sups.len() - i,
{
    if i < sups.len() {
        lemma_suppressed_from(sups, rule_id, line, i + 1);
        if suppresses(sups[i], rule_id, line) {
        } else {
            if exists|j: int| i <= j < sups.len() && suppresses(#[trigger] sups[j], rule_id, line) {
                let j = choose|j: int|
                    i <= j < sups.len() && suppresses(#[trigger] sups[j], rule_id, line);
                assert(j != i);
            }
        }
    }
}

/// A rule-less `rust-doctor-allow` directive silences every rule on its own
/// line and on every later line.
pub proof fn law_global_allow_covers_rest(
    sups: Seq<SuppressionView>,
    k: int,
    rule_id: Seq<char>,
    line: u32,
)
    requires
        0 <= k < sups.len(),
        sups[k].rule_id is None,
        sups[k].line <= line,
    ensures
        line_suppressed(sups, rule_id, line),
{
    assert(suppresses(sups[k], rule_id, line));
}


/// A directive's rule (what follows it) covers `id`: it names no rule, or
/// `id`, or `*`.
pub open spec fn directive_names(rest: Seq<char>, id: Seq<char>) -> bool {
    match directive_rule(rest) {
        None => true,
        Some(r) => r == id || r == "*"@,
    }
}

/// Line `idx` (0-based) of a file silences `id` on the 1-based line `line`:
/// `// rust-doctor-allow` covers its own line and the rest of the file,
/// `// rust-doctor-disable-next-line` covers the next line only.
pub open spec fn line_silences(l: Seq<char>, idx: int, id: Seq<char>, line: u32) -> bool {
    let t = trim(l);
    ||| (strip_prefix(t, "// rust-doctor-allow"@) matches Some(rest) && directive_names(rest, id)
        && idx + 1 <= line)
    ||| (strip_prefix(t, "// rust-doctor-disable-next-line"@) matches Some(rest) && directive_names(
        rest,
        id,
    ) && idx + 2 == line)
}

/// Some directive of the file `c` silences `id` on line `line`.
pub open spec fn silenced_in(c: Seq<char>, id: Seq<char>, line: u32) -> bool {
    exists|idx: int| 0 <= idx < lines(c).len() && #[trigger] line_silences(lines(c)[idx], idx, id, line)
}

fn directive_covers(s: &Suppression, id: &str) -> (r: bool)
    ensures
        r == match s@.rule_id {
            None => true,
            Some(x) => x == id@ || x == "*"@,
        },
{
    match &s.rule_id {
        None => true,
        Some(x) => text_is(x.as_str(), id) || text_is(x.as_str(), "*"),
    }
}

/// Whether a directive of the file `content` silences `rule_id` on `line`.
pub fn silenced_by_directives(content: &str, rule_id: &str, line: u32) -> (r: bool)
    ensures
        r == silenced_in(content@, rule_id@, line),
{
    let c = chars_of(content);
    let ls = lines_of(c.as_slice());
    let mut idx: usize = 0;
    while idx < ls.len()
        invariant
            idx <= ls@.len(),
            texts(ls@) == lines(content@),
            forall|j: int| 0 <= j < idx ==> !#[trigger] line_silences(texts(ls@)[j], j, rule_id@, line),
        decreases ls@.len() - idx,
    {
        proof {
            assert(texts(ls@)[idx as int] == ls@[idx as int]@);
        }
        let t = trim_chars(ls[idx].as_slice());
        let a = directive_on(t.as_slice(), "// rust-doctor-allow", 0);
        let b = directive_on(t.as_slice(), "// rust-doctor-disable-next-line", 0);
        let hit_a = match &a {
            Some(s) => directive_covers(s, rule_id) && (idx as u128) + 1 <= line as u128,
            None => false,
        };
        let hit_b = match &b {
            Some(s) => directive_covers(s, rule_id) && (idx as u128) + 2 == line as u128,
            None => false,
        };
        if hit_a || hit_b {
            assert(line_silences(texts(ls@)[idx as int], idx as int, rule_id@, line));
            return true;
        }
        idx = idx + 1;
    }
    false
}


// ---------------------------------------------------------------------------
// Parsing source text
// ---------------------------------------------------------------------------

#[verifier::external_type_specification]
#[verifier::external_body]
pub struct ExSynFile(syn::File);

/// Whether `text` parses as a Rust source file, as `syn::parse_file`
/// decides it.
pub uninterp spec fn rust_parses(text: Seq<char>) -> bool;

/// `syn::parse_file`. Trusted: it succeeds exactly when the text parses, a
/// function of the text alone named `rust_parses`; syn's grammar is not
/// restated here. syn parses by recursive descent, and its syntax trees
/// nest as deeply as the text does, with no limit of its own, so deeply
/// nested text exhausts the stack; `requires` admits only text whose
/// nesting `nesting_within` bounds. That the bound keeps the parse within a
/// thread's stack (2 MiB) rests on the weights of `crate::nesting`, which
/// the library's tests hold to the deepest text of each kind of nesting
/// that the bound admits.
#[verifier::external_body]
fn syn_parse_file(content: &str) -> (r: Option<syn::File>)
    requires
        nesting_within(content.spec_bytes()),
    ensures
        r is Some <==> rust_parses(content@),
{
    syn::parse_file(content).ok()
}

/// Parse a Rust source file and return the `syn::File`: none for text that
/// does not parse, and for text that nests deeper than `NESTING_LIMIT`.
pub fn parse_file(content: &str) -> (r: Option<syn::File>)
    ensures
        nesting_within(content.spec_bytes()) ==> (r is Some <==> rust_parses(content@)),
        !nesting_within(content.spec_bytes()) ==> r is None,
{
    if source_nesting_ok(content.as_bytes()) {
        syn_parse_file(content)
    } else {
        None
    }
}

} // verus!
