//! Toolchain integration: turning the compiler messages of `cargo check` /
//! `cargo clippy` into findings.
use vstd::prelude::*;

use crate::analysis::join;
use crate::diagnostic::{
    finding_views, Category, Confidence, Finding, FindingView, Location, LocationView, Severity,
};
use crate::rules::registry::emit;
use crate::syntax::{flat_map, lemma_flat_map_all, lemma_flat_map_step};
use crate::text::{chars_of, join_path, join_path_text, same};
use crate::workspace::{dedup, dedup_findings};

verus! {

// ---------------------------------------------------------------------------
// Compiler messages
// ---------------------------------------------------------------------------

/// The level of a compiler diagnostic.
#[derive(Debug, Clone, Copy, PartialEq, Eq, Structural)]
pub enum RustcLevel {
    Ice,
    Error,
    Warning,
    FailureNote,
    Note,
    Help,
    Other,
}

/// A source span of a diagnostic.
pub struct DiagnosticSpan {
    pub file_name: String,
    pub is_primary: bool,
    pub line_start: usize,
    pub line_end: usize,
    pub column_start: usize,
    pub column_end: usize,
}

/// A child diagnostic (a note, help, ...), by level and message.
pub struct DiagnosticChild {
    pub level: RustcLevel,
    pub message: String,
}

/// A compiler diagnostic.
pub struct RustcDiagnostic {
    pub message: String,
    /// The diagnostic's code (a lint or error name), if it has one.
    pub code: Option<String>,
    pub level: RustcLevel,
    pub spans: Vec<DiagnosticSpan>,
    pub children: Vec<DiagnosticChild>,
}

/// A `compiler-message` of cargo's JSON output.
pub struct CompilerMessage {
    pub package_id: String,
    pub message: RustcDiagnostic,
}

// ---------------------------------------------------------------------------
// Paths
// ---------------------------------------------------------------------------

/// Whether `p` lies within `base`, comparing whole path components, as
/// `std::path::Path::starts_with` decides it.
pub uninterp spec fn path_within(p: Seq<char>, base: Seq<char>) -> bool;

/// `std::path::Path::starts_with`. Trusted: the result is a function of the
/// two paths alone, named `path_within`; its component rules are not
/// restated here.
#[verifier::external_body]
fn path_starts_with(p: &str, base: &str) -> (r: bool)
    ensures
        r == path_within(p@, base@),
{
    std::path::Path::new(p).starts_with(base)
}

/// Whether a path is absolute, as `std::path::Path::is_absolute` decides it
/// on the platform the program is built for.
pub uninterp spec fn path_absolute(p: Seq<char>) -> bool;

/// `std::path::Path::is_absolute`. Trusted: the result is a function of the
/// path alone, named `path_absolute`; the platform's rule (a leading `/` on
/// Unix, a prefix such as `C:\` on Windows) is not restated here.
#[verifier::external_body]
fn path_is_absolute(p: &str) -> (r: bool)
    ensures
        r == path_absolute(p@),
{
    std::path::Path::new(p).is_absolute()
}

/// The path of a span's file: as written when absolute, else under the
/// workspace root.
pub open spec fn absolute_path(root: Seq<char>, file: Seq<char>) -> Seq<char> {
    if path_absolute(file) {
        file
    } else {
        join_path(root, file)
    }
}

// ---------------------------------------------------------------------------
// Diagnostics to findings
// ---------------------------------------------------------------------------

/// Index of the first primary span at or after `i`.
pub open spec fn first_primary(spans: Seq<DiagnosticSpan>, i: int) -> Option<int>
    decreases spans.len() - i,
{
    if i < 0 || i >= spans.len() {
        None
    } else if spans[i].is_primary {
        Some(i)
    } else {
        first_primary(spans, i + 1)
    }
}

/// The span a finding points at: the first primary one, else the first.
pub open spec fn chosen_span(spans: Seq<DiagnosticSpan>) -> Option<DiagnosticSpan> {
    match first_primary(spans, 0) {
        Some(k) => Some(spans[k]),
        None => if spans.len() > 0 {
            Some(spans[0])
        } else {
            None
        },
    }
}

/// The messages of the help and note children.
pub open spec fn help_messages(children: Seq<DiagnosticChild>) -> Seq<Seq<char>> {
    flat_map(
        children,
        |c: DiagnosticChild|
            if c.level == RustcLevel::Help || c.level == RustcLevel::Note {
                seq![c.message@]
            } else {
                seq![]
            },
    )
}

pub open spec fn toolchain_rule_id(code: Option<String>) -> Seq<char> {
    match code {
        Some(c) => "toolchain."@ + c@,
        None => "toolchain.unknown"@,
    }
}

pub open spec fn toolchain_confidence(s: Severity) -> Confidence {
    match s {
        Severity::Error => Confidence::High,
        Severity::Warning => Confidence::Medium,
        Severity::Info => Confidence::Low,
    }
}

/// The finding for a diagnostic of severity `s` pointing at `loc`.
pub open spec fn toolchain_finding(d: RustcDiagnostic, s: Severity, loc: Option<LocationView>) -> FindingView {
    let help = help_messages(d.children@);
    FindingView {
        rule_id: toolchain_rule_id(d.code),
        title: d.message@,
        category: Category::Toolchain,
        severity: s,
        confidence: toolchain_confidence(s),
        location: loc,
        message: d.message@,
        why_it_matters: "Toolchain diagnostics indicate compilation issues that should be addressed for code quality and stability."@,
        suggestion: if help.len() == 0 {
            None
        } else {
            Some(join(help, "\n"@))
        },
        references: seq![],
        llm_fix_prompt: None,
    }
}

/// Errors (and internal compiler errors) and warnings become findings,
/// unless their span's file lies in the target directory; other levels are
/// dropped.
pub open spec fn diagnostic_finding(d: RustcDiagnostic, root: Seq<char>, target: Seq<char>) -> Option<
    FindingView,
> {
    let sev = match d.level {
        RustcLevel::Error => Some(Severity::Error),
        RustcLevel::Ice => Some(Severity::Error),
        RustcLevel::Warning => Some(Severity::Warning),
        _ => None,
    };
    match sev {
        None => None,
        Some(s) => match chosen_span(d.spans@) {
            Some(span) => {
                let p = absolute_path(root, span.file_name@);
                if path_within(p, target) {
                    None
                } else {
                    Some(
                        toolchain_finding(
                            d,
                            s,
                            Some(
                                LocationView {
                                    path: p,
                                    line: Some(span.line_start as u32),
                                    column: Some(span.column_start as u32),
                                    end_line: Some(span.line_end as u32),
                                    end_column: Some(span.column_end as u32),
                                },
                            ),
                        ),
                    )
                }
            },
            None => Some(toolchain_finding(d, s, None)),
        },
    }
}

pub open spec fn is_member(members: Seq<String>, id: Seq<char>) -> bool {
    exists|k: int| 0 <= k < members.len() && (#[trigger] members[k])@ == id
}

/// The finding a compiler message gives, if its package is looked at.
pub open spec fn message_findings(
    m: CompilerMessage,
    root: Seq<char>,
    target: Seq<char>,
    members: Seq<String>,
    include_dependencies: bool,
) -> Seq<FindingView> {
    if include_dependencies || is_member(members, m.package_id@) {
        match diagnostic_finding(m.message, root, target) {
            Some(f) => seq![f],
            None => seq![],
        }
    } else {
        seq![]
    }
}

fn first_primary_index(spans: &Vec<DiagnosticSpan>) -> (r: Option<usize>)
    ensures
        match first_primary(spans@, 0) {
            Some(k) => r matches Some(i) && i as int == k && i < spans@.len(),
            None => r is None,
        },
{
    let mut i: usize = 0;
    while i < spans.len()
        invariant
            i <= spans@.len(),
            first_primary(spans@, 0) == first_primary(spans@, i as int),
        decreases spans@.len() - i,
    {
        if spans[i].is_primary {
            return Some(i);
        }
        i = i + 1;
    }
    None
}

fn help_text(children: &Vec<DiagnosticChild>) -> (r: Option<String>)
    ensures
        match r {
            Some(s) => help_messages(children@).len() > 0 && s@ == join(
                help_messages(children@),
                "\n"@,
            ),
            None => help_messages(children@).len() == 0,
        },
{
    let ghost g = |c: DiagnosticChild|
        if c.level == RustcLevel::Help || c.level == RustcLevel::Note {
            seq![c.message@]
        } else {
            seq![]
        };
    let mut s = String::new();
    let mut n: usize = 0;
    let mut i: usize = 0;
    assert(flat_map(children@.take(0), g) =~= Seq::<Seq<char>>::empty());
    while i < children.len()
        invariant
            i <= children@.len(),
            g == (|c: DiagnosticChild|
                if c.level == RustcLevel::Help || c.level == RustcLevel::Note {
                    seq![c.message@]
                } else {
                    seq![]
                }),
            n == flat_map(children@.take(i as int), g).len(),
            n <= i,
            s@ == join(flat_map(children@.take(i as int), g), "\n"@),
        decreases children@.len() - i,
    {
        proof {
            lemma_flat_map_step(children@, g, i as int);
        }
        let c = &children[i];
        let ghost before = flat_map(children@.take(i as int), g);
        if c.level == RustcLevel::Help || c.level == RustcLevel::Note {
            let ghost bs = s@;
            if n > 0 {
                s.append("\n");
            }
            s.append(c.message.as_str());
            let ghost after = before + seq![c.message@];
            assert(after.drop_last() =~= before);
            if n == 0 {
                assert(after =~= seq![c.message@]);
            }
            n = n + 1;
        } else {
            assert(before + Seq::<Seq<char>>::empty() =~= before);
        }
        i = i + 1;
    }
    proof {
        lemma_flat_map_all(children@, g);
    }
    assert(help_messages(children@) == flat_map(children@, g));
    if n == 0 {
        None
    } else {
        Some(s)
    }
}

/// The finding for a compiler diagnostic, if it is an error or warning
/// outside the target directory.
pub fn diagnostic_to_finding(d: &RustcDiagnostic, workspace_root: &str, target_directory: &str) -> (r:
    Option<Finding>)
    ensures
        match diagnostic_finding(*d, workspace_root@, target_directory@) {
            Some(f) => r matches Some(x) && x@ == f,
            None => r is None,
        },
{
    let severity = match d.level {
        RustcLevel::Error => Severity::Error,
        RustcLevel::Ice => Severity::Error,
        RustcLevel::Warning => Severity::Warning,
        _ => {
            return None;
        },
    };
    let idx: Option<usize> = match first_primary_index(&d.spans) {
        Some(k) => Some(k),
        None => if d.spans.len() > 0 {
            Some(0)
        } else {
            None
        },
    };
    assert(match idx {
        Some(k) => k < d.spans@.len() && chosen_span(d.spans@) == Some(d.spans@[k as int]),
        None => chosen_span(d.spans@) is None,
    });
    let location = match idx {
        Some(k) => {
            let s = &d.spans[k];
            let path = if path_is_absolute(s.file_name.as_str()) {
                s.file_name.clone()
            } else {
                join_path_text(workspace_root, s.file_name.as_str())
            };
            assert(path@ == absolute_path(workspace_root@, s.file_name@));
            if path_starts_with(path.as_str(), target_directory) {
                return None;
            }
            #[verifier::truncate]
            let line = s.line_start as u32;
            #[verifier::truncate]
            let column = s.column_start as u32;
            #[verifier::truncate]
            let end_line = s.line_end as u32;
            #[verifier::truncate]
            let end_column = s.column_end as u32;
            Some(
                Location {
                    path,
                    line: Some(line),
                    column: Some(column),
                    end_line: Some(end_line),
                    end_column: Some(end_column),
                },
            )
        },
        None => None,
    };
    let rule_id = match &d.code {
        Some(c) => {
            let mut id = String::from_str("toolchain.");
            id.append(c.as_str());
            id
        },
        None => String::from_str("toolchain.unknown"),
    };
    let confidence = match severity {
        Severity::Error => Confidence::High,
        Severity::Warning => Confidence::Medium,
        Severity::Info => Confidence::Low,
    };
    let f = Finding {
        rule_id,
        title: d.message.clone(),
        category: Category::Toolchain,
        severity,
        confidence,
        location,
        message: d.message.clone(),
        why_it_matters: String::from_str(
            "Toolchain diagnostics indicate compilation issues that should be addressed for code quality and stability.",
        ),
        suggestion: help_text(&d.children),
        references: Vec::new(),
        llm_fix_prompt: None,
    };
    assert(f@.references =~= Seq::<Seq<char>>::empty());
    Some(f)
}

fn member_of(members: &[String], id: &String) -> (r: bool)
    ensures
        r == is_member(members@, id@),
{
    let mut k: usize = 0;
    while k < members.len()
        invariant
            k <= members@.len(),
            forall|j: int| 0 <= j < k ==> (#[trigger] members@[j])@ != id@,
        decreases members@.len() - k,
    {
        if same(chars_of(members[k].as_str()).as_slice(), chars_of(id.as_str()).as_slice()) {
            return true;
        }
        k = k + 1;
    }
    false
}

#[verifier::external_type_specification]
#[verifier::external_body]
pub struct ExCargoDiagnostic(cargo_metadata::diagnostic::Diagnostic);

#[verifier::external_type_specification]
#[verifier::external_body]
pub struct ExCargoDiagnosticLevel(cargo_metadata::diagnostic::DiagnosticLevel);

/// The entries of cargo's JSON output `stdout`, one per message line: the
/// compiler message it holds, or none for any other line (another kind of
/// message, or one that does not parse), as `cargo_metadata` reads them.
pub uninterp spec fn cargo_messages(stdout: Seq<u8>) -> Seq<Option<CompilerMessage>>;

/// How deep arrays and objects may nest on one line of cargo's output before
/// the library declines to hand it to the JSON reader: serde_json's own
/// default recursion limit.
pub const JSON_NESTING_LIMIT: usize = 128;

/// One step of a scan over cargo's output, by byte: the number of arrays and
/// objects open on the current line, whether the scan is inside a string, and
/// whether the byte before was a backslash in a string. A newline starts a
/// new line, and so a new JSON document.
pub open spec fn json_step(st: (nat, bool, bool), b: u8) -> (nat, bool, bool) {
    let (depth, in_string, escaped) = st;
    if b == 10 {
        (0, false, false)
    } else if in_string {
        if escaped {
            (depth, true, false)
        } else if b == 92 {
            (depth, true, true)
        } else if b == 34 {
            (depth, false, false)
        } else {
            st
        }
    } else if b == 34 {
        (depth, true, false)
    } else if b == 91 || b == 123 {
        ((depth + 1) as nat, false, false)
    } else if b == 93 || b == 125 {
        (if depth == 0 { 0 } else { (depth - 1) as nat }, false, false)
    } else {
        st
    }
}

/// The scan's state after the bytes `s`.
pub open spec fn json_scan(s: Seq<u8>) -> (nat, bool, bool)
    decreases s.len(),
{
    if s.len() == 0 {
        (0, false, false)
    } else {
        json_step(json_scan(s.drop_last()), s.last())
    }
}

/// Whether no line of `s` ever has more than `limit` arrays and objects open
/// at once (brackets inside JSON strings do not count).
pub open spec fn json_nesting_within(s: Seq<u8>, limit: nat) -> bool {
    forall|i: int| 0 <= i <= s.len() ==> (#[trigger] json_scan(s.take(i))).0 <= limit
}

/// Whether cargo's output `stdout` nests no deeper than
/// `JSON_NESTING_LIMIT` on any line.
pub fn json_nesting_ok(stdout: &[u8]) -> (r: bool)
    ensures
        r == json_nesting_within(stdout@, JSON_NESTING_LIMIT as nat),
{
    let mut depth: usize = 0;
    let mut in_string = false;
    let mut escaped = false;
    let mut i: usize = 0;
    assert(stdout@.take(0) =~= Seq::<u8>::empty());
    while i < stdout.len()
        invariant
            i <= stdout@.len(),
            json_scan(stdout@.take(i as int)) == (depth as nat, in_string, escaped),
            escaped ==> in_string,
            forall|j: int|
                0 <= j <= i ==> (#[trigger] json_scan(stdout@.take(j))).0 <= JSON_NESTING_LIMIT,
        decreases stdout@.len() - i,
    {
        let b = stdout[i];
        let ghost before = (depth as nat, in_string, escaped);
        assert(stdout@.take(i + 1).drop_last() =~= stdout@.take(i as int));
        assert(json_scan(stdout@.take(i + 1)) == json_step(before, b));
        if b == 10 {
            depth = 0;
            in_string = false;
            escaped = false;
        } else if in_string {
            if escaped {
                escaped = false;
            } else if b == 92 {
                escaped = true;
            } else if b == 34 {
                in_string = false;
            }
        } else if b == 34 {
            in_string = true;
        } else if b == 91 || b == 123 {
            depth = depth + 1;
        } else if b == 93 || b == 125 {
            if depth > 0 {
                depth = depth - 1;
            }
        }
        if depth > JSON_NESTING_LIMIT {
            assert(json_scan(stdout@.take(i + 1)).0 > JSON_NESTING_LIMIT);
            return false;
        }
        i = i + 1;
    }
    true
}

/// `cargo_metadata::Message::parse_stream` over cargo's output. Trusted: the
/// entries are a function of the bytes alone, named `cargo_messages`; the
/// JSON format of cargo's messages is not restated here. The reader parses
/// each line with serde_json's recursion limit switched off, and so recurses
/// once per open array or object; `requires` admits only output whose lines
/// nest no deeper than serde_json's default limit.
#[verifier::external_body]
fn read_compiler_messages(stdout: &[u8]) -> (r: Vec<Option<CompilerMessage>>)
    requires
        json_nesting_within(stdout@, JSON_NESTING_LIMIT as nat),
    ensures
        r@ == cargo_messages(stdout@),
{
    cargo_metadata::Message::parse_stream(stdout)
        .map(|m| match m {
            Ok(cargo_metadata::Message::CompilerMessage(m)) => Some(
                CompilerMessage { package_id: m.package_id.repr, message: diagnostic_of(m.message) },
            ),
            _ => None,
        })
        .collect()
}

/// A `cargo_metadata` diagnostic as the library's `RustcDiagnostic`, field for
/// field; used by `read_compiler_messages` alone.
#[verifier::external_body]
fn diagnostic_of(d: cargo_metadata::diagnostic::Diagnostic) -> RustcDiagnostic {
    RustcDiagnostic {
        message: d.message,
        code: d.code.map(|c| c.code),
        level: level_of(&d.level),
        spans: d.spans.into_iter().map(|s| DiagnosticSpan {
            file_name: s.file_name, is_primary: s.is_primary, line_start: s.line_start,
            line_end: s.line_end, column_start: s.column_start, column_end: s.column_end,
        }).collect(),
        children: d.children.into_iter().map(|c| DiagnosticChild { level: level_of(&c.level), message: c.message }).collect(),
    }
}

/// A `cargo_metadata` diagnostic level as the library's, variant for
/// variant; used by `diagnostic_of` alone.
#[verifier::external_body]
fn level_of(l: &cargo_metadata::diagnostic::DiagnosticLevel) -> RustcLevel {
    match l {
        cargo_metadata::diagnostic::DiagnosticLevel::Ice => RustcLevel::Ice,
        cargo_metadata::diagnostic::DiagnosticLevel::Error => RustcLevel::Error,
        cargo_metadata::diagnostic::DiagnosticLevel::Warning => RustcLevel::Warning,
        cargo_metadata::diagnostic::DiagnosticLevel::FailureNote => RustcLevel::FailureNote,
        cargo_metadata::diagnostic::DiagnosticLevel::Note => RustcLevel::Note,
        cargo_metadata::diagnostic::DiagnosticLevel::Help => RustcLevel::Help,
        _ => RustcLevel::Other,
    }
}

/// The findings of one entry of cargo's output.
pub open spec fn entry_findings(
    e: Option<CompilerMessage>,
    root: Seq<char>,
    target: Seq<char>,
    members: Seq<String>,
    include_dependencies: bool,
) -> Seq<FindingView> {
    match e {
        Some(m) => message_findings(m, root, target, members, include_dependencies),
        None => seq![],
    }
}

/// The findings of the compiler messages in cargo's JSON output `stdout`
/// that belong to workspace members (to every package with
/// `include_dependencies`), in order; none for output that nests deeper
/// than `JSON_NESTING_LIMIT` on some line.
pub fn parse_rustc_diagnostics(
    stdout: &[u8],
    workspace_root: &str,
    target_directory: &str,
    workspace_members: &[String],
    include_dependencies: bool,
) -> (r: Vec<Finding>)
    ensures
        !json_nesting_within(stdout@, JSON_NESTING_LIMIT as nat) ==> r@.len() == 0,
        json_nesting_within(stdout@, JSON_NESTING_LIMIT as nat) ==> finding_views(r@) == flat_map(
            cargo_messages(stdout@),
            |e: Option<CompilerMessage>|
                entry_findings(
                    e,
                    workspace_root@,
                    target_directory@,
                    workspace_members@,
                    include_dependencies,
                ),
        ),
{
    if !json_nesting_ok(stdout) {
        return Vec::new();
    }
    let messages = read_compiler_messages(stdout);
    entries_findings(&messages, workspace_root, target_directory, workspace_members, include_dependencies)
}

/// The findings of parsed entries of cargo's output, in order.
pub fn entries_findings(
    messages: &Vec<Option<CompilerMessage>>,
    workspace_root: &str,
    target_directory: &str,
    workspace_members: &[String],
    include_dependencies: bool,
) -> (r: Vec<Finding>)
    ensures
        finding_views(r@) == flat_map(
            messages@,
            |e: Option<CompilerMessage>|
                entry_findings(
                    e,
                    workspace_root@,
                    target_directory@,
                    workspace_members@,
                    include_dependencies,
                ),
        ),
{
    let ghost g = |e: Option<CompilerMessage>|
        entry_findings(
            e,
            workspace_root@,
            target_directory@,
            workspace_members@,
            include_dependencies,
        );
    let mut r: Vec<Finding> = Vec::new();
    let mut i: usize = 0;
    assert(finding_views(r@) =~= flat_map(messages@.take(0), g));
    while i < messages.len()
        invariant
            i <= messages@.len(),
            g == (|e: Option<CompilerMessage>|
                entry_findings(
                    e,
                    workspace_root@,
                    target_directory@,
                    workspace_members@,
                    include_dependencies,
                )),
            finding_views(r@) == flat_map(messages@.take(i as int), g),
        decreases messages@.len() - i,
    {
        proof {
            lemma_flat_map_step(messages@, g, i as int);
        }
        let ghost before = finding_views(r@);
        match &messages[i] {
            Some(m) => {
                if include_dependencies || member_of(workspace_members, &m.package_id) {
                    match diagnostic_to_finding(&m.message, workspace_root, target_directory) {
                        Some(f) => {
                            r.push(f);
                            assert(finding_views(r@) =~= before + seq![f@]);
                        },
                        None => {
                            assert(finding_views(r@) =~= before + Seq::<FindingView>::empty());
                        },
                    }
                } else {
                    assert(finding_views(r@) =~= before + Seq::<FindingView>::empty());
                }
            },
            None => {
                assert(finding_views(r@) =~= before + Seq::<FindingView>::empty());
            },
        }
        i = i + 1;
    }
    proof {
        lemma_flat_map_all(messages@, g);
    }
    r
}

/// The toolchain's findings: those of `cargo check`, then those of
/// `cargo clippy` when it ran, without repeats.
pub fn merge_toolchain_findings(check: Vec<Finding>, clippy: Option<Vec<Finding>>) -> (r: Vec<
    Finding,
>)
    ensures
        finding_views(r@) == dedup(
            finding_views(check@) + match clippy {
                Some(c) => finding_views(c@),
                None => seq![],
            },
        ),
{
    let mut all = check;
    match clippy {
        Some(c) => emit(&mut all, c),
        None => {
            assert(finding_views(all@) =~= finding_views(check@) + Seq::<FindingView>::empty());
        },
    }
    dedup_findings(all)
}


/// A compiler message of any workspace member, wherever it stands in the
/// member list, is kept as if dependencies were included; a message of a
/// package that is no member is dropped unless they are.
pub proof fn law_member_messages_kept(
    m: CompilerMessage,
    root: Seq<char>,
    target: Seq<char>,
    members: Seq<String>,
    k: int,
)
    ensures
        0 <= k < members.len() && members[k]@ == m.package_id@ ==> entry_findings(
            Some(m),
            root,
            target,
            members,
            false,
        ) == entry_findings(Some(m), root, target, members, true),
        (forall|j: int| 0 <= j < members.len() ==> (#[trigger] members[j])@ != m.package_id@)
            ==> entry_findings(Some(m), root, target, members, false) == Seq::<FindingView>::empty(),
{
}

/// Which messages are kept does not depend on the order (or the repeats) of
/// the workspace members: lists with the same members give the same findings.
pub proof fn law_member_order_irrelevant(
    e: Option<CompilerMessage>,
    root: Seq<char>,
    target: Seq<char>,
    a: Seq<String>,
    b: Seq<String>,
    include_dependencies: bool,
)
    requires
        forall|x: String| a.contains(x) <==> b.contains(x),
    ensures
        entry_findings(e, root, target, a, include_dependencies) == entry_findings(
            e,
            root,
            target,
            b,
            include_dependencies,
        ),
{
    if let Some(m) = e {
        if is_member(a, m.package_id@) {
            let k = choose|k: int| 0 <= k < a.len() && (#[trigger] a[k])@ == m.package_id@;
            assert(a.contains(a[k]));
            let j = choose|j: int| 0 <= j < b.len() && b[j] == a[k];
            assert(b[j]@ == m.package_id@);
        }
        if is_member(b, m.package_id@) {
            let k = choose|k: int| 0 <= k < b.len() && (#[trigger] b[k])@ == m.package_id@;
            assert(b.contains(b[k]));
            let j = choose|j: int| 0 <= j < a.len() && a[j] == b[k];
            assert(a[j]@ == m.package_id@);
        }
    }
}

} // verus!
