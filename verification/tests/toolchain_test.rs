use rust_doctor::diagnostic::{Category, Confidence, Severity};
use rust_doctor::toolchain::{
    diagnostic_to_finding, json_nesting_ok, merge_toolchain_findings, parse_rustc_diagnostics, CompilerMessage,
    RustcDiagnostic, DiagnosticChild, RustcLevel, DiagnosticSpan, JSON_NESTING_LIMIT,
};

/// The compiler message of cargo's JSON output for a clippy warning at
/// `src/lib.rs:2:1-4` with a help child "do the safer thing".
fn compiler_message(package_id: &str) -> CompilerMessage {
    CompilerMessage {
        package_id: package_id.to_string(),
        message: RustcDiagnostic {
            message: "test warning".to_string(),
            code: Some("clippy::test_lint".to_string()),
            level: RustcLevel::Warning,
            spans: vec![DiagnosticSpan {
                file_name: "src/lib.rs".to_string(),
                is_primary: true,
                line_start: 2,
                line_end: 2,
                column_start: 1,
                column_end: 4,
            }],
            children: vec![DiagnosticChild { level: RustcLevel::Help, message: "do the safer thing".to_string() }],
        },
    }
}

const COMPILER_MESSAGE: &str = r#"{"reason":"compiler-message","package_id":"path+file:///workspace#member@0.1.0","manifest_path":"/workspace/Cargo.toml","target":{"kind":["lib"],"crate_types":["lib"],"name":"member","src_path":"/workspace/src/lib.rs","edition":"2021","doc":true,"doctest":true,"test":true},"message":{"rendered":"warning: test warning\n","$message_type":"diagnostic","children":[{"children":[],"code":null,"level":"help","message":"do the safer thing","rendered":null,"spans":[]}],"code":{"code":"clippy::test_lint","explanation":null},"level":"warning","message":"test warning","spans":[{"byte_end":3,"byte_start":0,"column_end":4,"column_start":1,"expansion":null,"file_name":"src/lib.rs","is_primary":true,"label":null,"line_end":2,"line_start":2,"suggested_replacement":null,"suggestion_applicability":null,"text":[{"highlight_end":4,"highlight_start":1,"text":"bad"}]}]}}"#;

#[test]
fn parses_cargo_compiler_message_envelope() {
    let member = "path+file:///workspace#member@0.1.0".to_string();
    let findings = parse_rustc_diagnostics(COMPILER_MESSAGE.as_bytes(), "/workspace", "/workspace/target", &[member], false);

    assert_eq!(findings.len(), 1);
    assert_eq!(findings[0].rule_id, "toolchain.clippy::test_lint");
    assert_eq!(findings[0].location.as_ref().unwrap().path, "/workspace/src/lib.rs");
    assert_eq!(findings[0].suggestion.as_deref(), Some("do the safer thing"));
}

#[test]
fn excludes_non_members_and_generated_files() {
    let other = "path+file:///workspace#other@0.1.0".to_string();
    let findings =
        parse_rustc_diagnostics(COMPILER_MESSAGE.as_bytes(), "/workspace", "/workspace/src", &[other.clone()], false);
    assert!(findings.is_empty());

    let findings = parse_rustc_diagnostics(COMPILER_MESSAGE.as_bytes(), "/workspace", "/workspace/target", &[other], true);
    assert_eq!(findings.len(), 1);

    let member = "path+file:///workspace#member@0.1.0".to_string();
    let findings = parse_rustc_diagnostics(COMPILER_MESSAGE.as_bytes(), "/workspace", "/workspace/src", &[member], false);
    assert!(findings.is_empty());
}

#[test]
fn lines_that_are_not_compiler_messages_are_passed_over() {
    let member = "path+file:///workspace#member@0.1.0".to_string();
    let stdout = format!("{{\"reason\":\"build-finished\",\"success\":true}}\nnot json\n{COMPILER_MESSAGE}\n");
    let findings = parse_rustc_diagnostics(stdout.as_bytes(), "/workspace", "/workspace/target", &[member], false);
    assert_eq!(findings.len(), 1);
    assert_eq!(findings[0].severity, Severity::Warning);
}

#[test]
fn output_nested_too_deeply_gives_no_findings() {
    let member = "path+file:///workspace#member@0.1.0".to_string();
    let deep = "[".repeat(100_000);
    let stdout = format!("{deep}\n{COMPILER_MESSAGE}\n");
    assert!(!json_nesting_ok(stdout.as_bytes()));
    let findings = parse_rustc_diagnostics(stdout.as_bytes(), "/workspace", "/workspace/target", &[member], false);
    assert!(findings.is_empty());
}

#[test]
fn nesting_is_counted_per_line_and_outside_strings() {
    let at_limit = "[".repeat(JSON_NESTING_LIMIT);
    assert!(json_nesting_ok(at_limit.as_bytes()));
    let over = "[".repeat(JSON_NESTING_LIMIT + 1);
    assert!(!json_nesting_ok(over.as_bytes()));
    let split = format!("{at_limit}\n{at_limit}");
    assert!(json_nesting_ok(split.as_bytes()));
    let closed = format!("{at_limit}]{{");
    assert!(json_nesting_ok(closed.as_bytes()));
    let quoted = format!("[\"{}\\\"{}\"]", "[".repeat(300), "{".repeat(300));
    assert!(json_nesting_ok(quoted.as_bytes()));

    let member = "path+file:///workspace#member@0.1.0".to_string();
    let deepest = format!("{}{}\n{COMPILER_MESSAGE}\n", "[".repeat(JSON_NESTING_LIMIT), "]".repeat(JSON_NESTING_LIMIT));
    let findings = parse_rustc_diagnostics(deepest.as_bytes(), "/workspace", "/workspace/target", &[member.clone()], false);
    assert_eq!(findings.len(), 1);
    let stdout = format!("{}\n{COMPILER_MESSAGE}\n", "[".repeat(20));
    let findings = parse_rustc_diagnostics(stdout.as_bytes(), "/workspace", "/workspace/target", &[member], false);
    assert_eq!(findings.len(), 1);
}

#[test]
fn diagnostic_fields_become_a_toolchain_finding() {
    let m = compiler_message("p");
    let f = diagnostic_to_finding(&m.message, "/workspace", "/workspace/target").unwrap();
    assert_eq!(f.title, "test warning");
    assert_eq!(f.message, "test warning");
    assert_eq!(f.category, Category::Toolchain);
    assert_eq!(f.severity, Severity::Warning);
    assert_eq!(f.confidence, Confidence::Medium);
    let loc = f.location.unwrap();
    assert_eq!((loc.line, loc.column, loc.end_line, loc.end_column), (Some(2), Some(1), Some(2), Some(4)));
    assert!(f.references.is_empty());
    assert!(f.llm_fix_prompt.is_none());
}

#[test]
fn absolute_span_paths_are_kept_and_notes_are_joined() {
    let mut m = compiler_message("p");
    m.message.level = RustcLevel::Error;
    m.message.code = None;
    m.message.spans[0].file_name = "/elsewhere/lib.rs".to_string();
    m.message.children.push(DiagnosticChild { level: RustcLevel::Note, message: "second".to_string() });
    m.message.children.push(DiagnosticChild { level: RustcLevel::Warning, message: "ignored".to_string() });
    let f = diagnostic_to_finding(&m.message, "/workspace", "/workspace/target").unwrap();
    assert_eq!(f.rule_id, "toolchain.unknown");
    assert_eq!(f.severity, Severity::Error);
    assert_eq!(f.confidence, Confidence::High);
    assert_eq!(f.location.unwrap().path, "/elsewhere/lib.rs");
    assert_eq!(f.suggestion.as_deref(), Some("do the safer thing\nsecond"));
}

#[test]
fn notes_and_spanless_diagnostics() {
    let mut m = compiler_message("p");
    m.message.level = RustcLevel::Note;
    assert!(diagnostic_to_finding(&m.message, "/workspace", "/workspace/target").is_none());
    m.message.level = RustcLevel::Ice;
    m.message.spans.clear();
    m.message.children.clear();
    let f = diagnostic_to_finding(&m.message, "/workspace", "/workspace/target").unwrap();
    assert_eq!(f.severity, Severity::Error);
    assert!(f.location.is_none());
    assert!(f.suggestion.is_none());
}

#[test]
fn target_directory_is_matched_by_whole_components() {
    let m = compiler_message("p");
    // "/workspace/sr" is not a component prefix of "/workspace/src/lib.rs".
    assert!(diagnostic_to_finding(&m.message, "/workspace", "/workspace/sr").is_some());
    assert!(diagnostic_to_finding(&m.message, "/workspace/", "/workspace/src").is_none());
}

#[test]
fn check_and_clippy_findings_are_merged_without_repeats() {
    let m = compiler_message("p");
    let a = diagnostic_to_finding(&m.message, "/w", "/w/target").unwrap();
    let b = diagnostic_to_finding(&m.message, "/w", "/w/target").unwrap();
    let mut other_msg = compiler_message("p");
    other_msg.message.message = "other".to_string();
    let c = diagnostic_to_finding(&other_msg.message, "/w", "/w/target").unwrap();
    let merged = merge_toolchain_findings(vec![a], Some(vec![b, c]));
    assert_eq!(merged.len(), 2);
    assert_eq!(merged[1].message, "other");
    let only_check = merge_toolchain_findings(vec![], None);
    assert!(only_check.is_empty());
}
