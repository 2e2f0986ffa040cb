use rust_doctor::cli::{Cli, OutputFormat, Runner, SeverityFilter};
use rust_doctor::config::{self, Config, RulesConfig, ScanConfig};
use rust_doctor::diagnostic::{Category, Confidence, Finding, Location, Report, Severity};
use rust_doctor::output::human::render;
use rust_doctor::output::json::render_sarif;
use rust_doctor::rules::registry::{PackageInfo, RuleContext, TargetInfo};
use rust_doctor::syntax::ParsedFile;
use rust_doctor::workspace::{dedup_findings, run_rules, scan};
use rust_doctor::rules::registry::Registry;

fn finding(rule_id: &str, category: Category, severity: Severity, line: Option<u32>) -> Finding {
    Finding {
        rule_id: rule_id.to_string(),
        title: "title".to_string(),
        category,
        severity,
        confidence: Confidence::Medium,
        location: line.map(|l| Location {
            path: "/ws/src/lib.rs".to_string(),
            line: Some(l),
            column: None,
            end_line: Some(l),
            end_column: None,
        }),
        message: "msg".to_string(),
        why_it_matters: "why".to_string(),
        suggestion: Some("sugg".to_string()),
        references: vec!["a".to_string(), "b".to_string()],
        llm_fix_prompt: Some("prompt".to_string()),
    }
}

fn report(findings: Vec<Finding>) -> Report {
    let mut r = Report::new("0.1.0".to_string(), "/ws".to_string());
    r.findings = findings;
    r.compute_summary();
    r
}

fn cli() -> Cli {
    Cli {
        path: ".".to_string(),
        format: OutputFormat::Human,
        category: None,
        severity: None,
        fail_on: None,
        no_toolchain: false,
        include_dependencies: false,
        config: None,
    }
}

#[test]
fn human_render_of_a_clean_report() {
    let text = render(&report(vec![]));
    assert_eq!(
        text,
        "rust-doctor v0.1.0 — /ws\n\nScore: 100/100 (A — Excellent)\nSummary: 0 total (0 errors, 0 warnings, 0 infos)\n\n✓ No issues found.\n"
    );
}

#[test]
fn human_render_of_one_finding() {
    let text = render(&report(vec![finding("idiom.x", Category::Idiom, Severity::Info, Some(3))]));
    assert_eq!(
        text,
        "rust-doctor v0.1.0 — /ws\n\nScore: 98/100 (A — Excellent)\nSummary: 1 total (0 errors, 0 warnings, 1 infos)\n\n=== Idiom ===\n\n  [idiom.x/medium] src/lib.rs:3:0 — msg\n    Why: why\n    → sugg\n    LLM: prompt\n    Ref: a, b\n\n"
    );
}

#[test]
fn human_render_orders_categories_then_severity_then_rule() {
    let text = render(&report(vec![
        finding("pattern.b", Category::Pattern, Severity::Info, None),
        finding("idiom.z", Category::Idiom, Severity::Info, None),
        finding("idiom.y", Category::Idiom, Severity::Error, None),
        finding("idiom.a", Category::Idiom, Severity::Info, None),
        finding("anti.q", Category::AntiPattern, Severity::Warning, None),
    ]));
    let order: Vec<usize> = ["=== Anti-Pattern ===", "[anti.q/", "=== Idiom ===", "[idiom.y/", "[idiom.a/", "[idiom.z/", "=== Pattern ===", "[pattern.b/"]
        .iter()
        .map(|p| text.find(p).unwrap())
        .collect();
    assert!(order.windows(2).all(|w| w[0] < w[1]));
    assert!(text.contains("[idiom.y/medium] ?? — msg\n"));
    assert!(!text.contains("=== Toolchain ==="));
}

#[test]
fn sarif_document_of_one_finding() {
    let text = render_sarif(&report(vec![finding("idiom.x", Category::Idiom, Severity::Info, Some(3))]));
    let v: serde_json::Value = serde_json::from_str(&text).unwrap();
    assert_eq!(v["version"], "2.1.0");
    assert_eq!(
        v["$schema"],
        "https://raw.githubusercontent.com/oasis-tcs/sarif-spec/master/Schemata/sarif-schema-2.1.0.json"
    );
    let run = &v["runs"][0];
    assert_eq!(run["tool"]["driver"]["name"], "rust-doctor");
    assert_eq!(run["tool"]["driver"]["version"], "0.1.0");
    assert_eq!(run["tool"]["driver"]["rules"][0]["id"], "idiom.x");
    let result = &run["results"][0];
    assert_eq!(result["ruleId"], "idiom.x");
    assert_eq!(result["level"], "note");
    assert_eq!(result["message"]["text"], "msg");
    assert_eq!(result["help"]["text"], "prompt");
    let region = &result["locations"][0]["physicalLocation"]["region"];
    assert_eq!(region["startLine"], 3);
    assert_eq!(region["startColumn"], 1);
    assert_eq!(region["endLine"], 3);
    assert!(region.get("endColumn").is_none());
    assert_eq!(result["locations"][0]["physicalLocation"]["artifactLocation"]["uri"], "/ws/src/lib.rs");
    assert!(text.contains("\n  \"runs\": ["));
}

#[test]
fn sarif_levels_follow_severity() {
    let text = render_sarif(&report(vec![
        finding("a", Category::Idiom, Severity::Error, None),
        finding("b", Category::Idiom, Severity::Warning, None),
    ]));
    let v: serde_json::Value = serde_json::from_str(&text).unwrap();
    assert_eq!(v["runs"][0]["results"][0]["level"], "error");
    assert_eq!(v["runs"][0]["results"][1]["level"], "warning");
    assert!(v["runs"][0]["results"][0].get("locations").is_none());
}

#[test]
fn filters_apply_suppressions_category_and_severity() {
    let findings = vec![
        finding("pattern.builder", Category::Pattern, Severity::Info, Some(1)),
        finding("idiom.x", Category::Idiom, Severity::Info, Some(3)),
        finding("idiom.y", Category::Idiom, Severity::Warning, Some(5)),
        finding("anti.z", Category::AntiPattern, Severity::Error, None),
    ];
    let n = findings.len();
    let file = "// rust-doctor-allow pattern.builder\n// rust-doctor-disable-next-line\nfn x() {}\n".to_string();
    let locs: Vec<Option<String>> = findings.iter().map(|f| f.location.as_ref().map(|_| file.clone())).collect();
    assert_eq!(locs.len(), n);

    let runner = Runner::new(cli(), None);
    let out = runner.apply_filters(report(findings), &locs);
    let ids: Vec<&str> = out.findings.iter().map(|f| f.rule_id.as_str()).collect();
    // pattern.builder is allowed from line 1 on; idiom.x (line 3) follows a
    // rule-less disable-next-line directive, which covers that line only.
    assert_eq!(ids, vec!["idiom.y", "anti.z"]);
    assert_eq!(out.summary.total, 2);
    assert_eq!(out.summary.errors, 1);
}

#[test]
fn category_filter_is_case_insensitive_and_comma_separated() {
    let findings = vec![
        finding("idiom.x", Category::Idiom, Severity::Info, None),
        finding("anti.z", Category::AntiPattern, Severity::Error, None),
        finding("toolchain.w", Category::Toolchain, Severity::Warning, None),
    ];
    let mut c = cli();
    c.category = Some("IDIOM,anti".to_string());
    let runner = Runner::new(c, None);
    let locs = vec![None, None, None];
    let out = runner.apply_filters(report(findings), &locs);
    let ids: Vec<&str> = out.findings.iter().map(|f| f.rule_id.as_str()).collect();
    assert_eq!(ids, vec!["idiom.x", "anti.z"]);
}

#[test]
fn severity_filter_keeps_at_least_that_severe() {
    let findings = vec![
        finding("a", Category::Idiom, Severity::Info, None),
        finding("b", Category::Idiom, Severity::Warning, None),
        finding("c", Category::Idiom, Severity::Error, None),
    ];
    let mut c = cli();
    c.severity = Some(SeverityFilter::Warning);
    let runner = Runner::new(c, None);
    let out = runner.apply_filters(report(findings), &vec![None, None, None]);
    let ids: Vec<&str> = out.findings.iter().map(|f| f.rule_id.as_str()).collect();
    assert_eq!(ids, vec!["b", "c"]);
    assert_eq!(out.summary.total, 2);
}

#[test]
fn failing_level_comes_from_cli_then_config_then_errors() {
    let warn = report(vec![finding("b", Category::Idiom, Severity::Warning, None)]);
    let err = report(vec![finding("c", Category::Idiom, Severity::Error, None)]);
    let runner = Runner::new(cli(), None);
    assert!(!runner.should_fail(&warn));
    assert!(runner.should_fail(&err));

    let mut file = Config::default();
    file.scan.fail_on = Some(config::SeverityFilter::Warning);
    let runner = Runner::new(cli(), Some(file));
    assert!(runner.should_fail(&warn));

    let mut c = cli();
    c.fail_on = Some(SeverityFilter::Info);
    let runner = Runner::new(c, None);
    assert!(runner.should_fail(&report(vec![finding("a", Category::Idiom, Severity::Info, None)])));
    assert!(!runner.should_fail(&report(vec![])));
}

#[test]
fn severity_filter_conversions_round_trip() {
    for f in [SeverityFilter::Info, SeverityFilter::Warning, SeverityFilter::Error] {
        let c: config::SeverityFilter = f.into();
        assert_eq!(SeverityFilter::from(c), f);
    }
    assert_eq!(config::SeverityFilter::from(SeverityFilter::Error), config::SeverityFilter::Error);
}

#[test]
fn runner_keeps_cli_and_applies_no_toolchain() {
    let mut c = cli();
    c.no_toolchain = true;
    let runner = Runner::new(c, None);
    assert!(runner.cli().no_toolchain);
    assert!(!runner.config().scan.include_toolchain);
    assert!(!runner.config().scan.include_clippy);
}

#[test]
fn dedup_keeps_the_first_of_each_key() {
    let a = finding("r", Category::Idiom, Severity::Info, Some(1));
    let mut b = finding("r", Category::Idiom, Severity::Error, Some(1));
    b.title = "other".to_string();
    let c = finding("r", Category::Idiom, Severity::Info, Some(2));
    let out = dedup_findings(vec![a, b, c]);
    assert_eq!(out.len(), 2);
    assert_eq!(out[0].severity, Severity::Info);
    assert_eq!(out[1].location.as_ref().unwrap().line, Some(2));
    let again = dedup_findings(out.clone());
    assert_eq!(again.len(), 2);
}

fn deny_ctx() -> RuleContext {
    RuleContext {
        workspace_root: "/ws".to_string(),
        packages: vec![PackageInfo {
            id: "demo 0.1.0".to_string(),
            name: "demo".to_string(),
            targets: vec![TargetInfo {
                kinds: vec!["lib".to_string()],
                src_path: "/ws/src/lib.rs".to_string(),
                exists: true,
                is_file: true,
                is_dir: false,
                content: Ok("#![deny(warnings)]\n".to_string()),
                parsed: Some(ParsedFile { items: vec![], fn_roots: vec![] }),
                dir_files: vec![],
            }],
            dependencies: vec![],
            source_files: vec![],
        }],
        manifests: vec![],
    }
}

#[test]
fn scan_runs_every_rule_then_adds_the_toolchain_without_repeats() {
    let ctx = deny_ctx();
    let (rules_found, failures) = run_rules(&Registry::new(), &ctx);
    assert!(failures.is_empty());
    assert_eq!(rules_found.len(), 1);
    let toolchain = vec![finding("toolchain.x", Category::Toolchain, Severity::Error, Some(1)), finding("toolchain.x", Category::Toolchain, Severity::Error, Some(1))];
    let (report, failures) = scan(Some(&ctx), toolchain, "0.1.0".to_string(), "/ws".to_string());
    assert!(failures.is_empty());
    let ids: Vec<&str> = report.findings.iter().map(|f| f.rule_id.as_str()).collect();
    assert_eq!(ids, vec!["anti.deny-warnings", "toolchain.x"]);
    assert_eq!(report.summary.total, 2);
    assert_eq!(report.summary.errors, 1);
    assert_eq!(report.summary.warnings, 1);
}

#[test]
fn scan_reports_rules_that_fail() {
    let mut ctx = deny_ctx();
    ctx.packages[0].targets[0].content = Err("denied".to_string());
    let (report, failures) = scan(Some(&ctx), vec![], "0.1.0".to_string(), "/ws".to_string());
    assert!(report.findings.is_empty());
    assert!(failures.len() > 1);
    assert_eq!(failures[0].rule_id, "anti.deny-warnings");
    assert_eq!(failures[0].message, "denied");
}

#[test]
fn scan_without_a_workspace_is_empty() {
    let toolchain = vec![finding("toolchain.x", Category::Toolchain, Severity::Error, Some(1))];
    let (report, failures) = scan(None, toolchain, "0.1.0".to_string(), "/tmp/x".to_string());
    assert!(report.findings.is_empty());
    assert!(failures.is_empty());
    assert_eq!(report.workspace_root, "/tmp/x");
    assert_eq!(report.summary.health.score, 100);
}

#[test]
fn scanned_rule_findings_carry_their_rule() {
    let (report, _) = scan(Some(&deny_ctx()), vec![], "0.1.0".to_string(), "/ws".to_string());
    assert_eq!(report.findings.len(), 1);
    let f = &report.findings[0];
    assert_eq!(f.rule_id, "anti.deny-warnings");
    assert_eq!(f.title, "Deny-warnings suppresses future lints");
    assert_eq!(f.category, Category::AntiPattern);
    assert_eq!(f.severity, Severity::Warning);
    assert_eq!(f.confidence, Confidence::High);
    assert_eq!(f.references, vec!["https://rust-unofficial.github.io/patterns/anti-patterns/deny-warnings.html".to_string()]);
    assert!(f.suggestion.is_some());
    assert!(f.llm_fix_prompt.is_some());
}

#[test]
fn sarif_has_one_result_per_finding_in_order() {
    let text = render_sarif(&report(vec![
        finding("c", Category::Pattern, Severity::Info, None),
        finding("a", Category::Idiom, Severity::Error, Some(2)),
        finding("b", Category::Toolchain, Severity::Warning, None),
    ]));
    let v: serde_json::Value = serde_json::from_str(&text).unwrap();
    let results = v["runs"][0]["results"].as_array().unwrap();
    assert_eq!(results.len(), 3);
    assert_eq!(results[0]["ruleId"], "c");
    assert_eq!(results[1]["ruleId"], "a");
    assert_eq!(results[2]["ruleId"], "b");
    assert_eq!(results[1]["level"], "error");
    assert_eq!(results[2]["level"], "warning");
}

fn rules_config(disabled: &[&str], warn: &[&str], info: &[&str]) -> Config {
    Config {
        scan: ScanConfig::default(),
        rules: RulesConfig {
            disabled: disabled.iter().map(|s| s.to_string()).collect(),
            warn: warn.iter().map(|s| s.to_string()).collect(),
            info: info.iter().map(|s| s.to_string()).collect(),
        },
    }
}

#[test]
fn disabled_rules_are_not_reported() {
    let findings = vec![
        finding("pattern.small-crates", Category::Organization, Severity::Info, None),
        finding("idiom.x", Category::Idiom, Severity::Info, None),
    ];
    let runner = Runner::new(cli(), Some(rules_config(&["pattern.small-crates"], &[], &[])));
    let out = runner.apply_filters(report(findings), &vec![None, None]);
    let ids: Vec<&str> = out.findings.iter().map(|f| f.rule_id.as_str()).collect();
    assert_eq!(ids, vec!["idiom.x"]);
    assert_eq!(out.summary.total, 1);
}

#[test]
fn warn_and_info_lists_set_the_severity() {
    let findings = vec![
        finding("anti.deny-warnings", Category::AntiPattern, Severity::Info, None),
        finding("idiom.y", Category::Idiom, Severity::Error, None),
        finding("idiom.both", Category::Idiom, Severity::Error, None),
        finding("idiom.other", Category::Idiom, Severity::Error, None),
    ];
    let config = rules_config(&[], &["anti.deny-warnings", "idiom.both"], &["idiom.y", "idiom.both"]);
    let runner = Runner::new(cli(), Some(config));
    let out = runner.apply_filters(report(findings), &vec![None, None, None, None]);
    let sev: Vec<Severity> = out.findings.iter().map(|f| f.severity).collect();
    assert_eq!(sev, vec![Severity::Warning, Severity::Info, Severity::Info, Severity::Error]);
    assert_eq!(out.summary.errors, 1);
    assert_eq!(out.summary.warnings, 1);
    assert_eq!(out.summary.infos, 2);
}

#[test]
fn configured_severity_comes_before_the_severity_filter_and_fail_on() {
    let findings = vec![
        finding("idiom.y", Category::Idiom, Severity::Error, None),
        finding("idiom.z", Category::Idiom, Severity::Info, None),
    ];
    let mut c = cli();
    c.severity = Some(SeverityFilter::Warning);
    let runner = Runner::new(c, Some(rules_config(&[], &["idiom.z"], &["idiom.y"])));
    let out = runner.apply_filters(report(findings), &vec![None, None]);
    let ids: Vec<&str> = out.findings.iter().map(|f| f.rule_id.as_str()).collect();
    assert_eq!(ids, vec!["idiom.z"]);
    assert!(!runner.should_fail(&out));
}

#[test]
fn sarif_of_the_documented_deny_warnings_finding() {
    let f = Finding {
        rule_id: "anti.deny-warnings".to_string(),
        title: "Deny-warnings suppresses future lints".to_string(),
        category: Category::AntiPattern,
        severity: Severity::Warning,
        confidence: Confidence::High,
        location: Some(Location { path: "src/main.rs".to_string(), line: Some(1), column: None, end_line: Some(1), end_column: None }),
        message: "Package \"my-crate\" uses `#![deny(warnings)]` which suppresses future lints".to_string(),
        why_it_matters: "why".to_string(),
        suggestion: Some("Use `RUSTFLAGS=-D warnings` in CI instead".to_string()),
        references: vec!["https://rust-unofficial.github.io/patterns/anti-patterns/deny-warnings.html".to_string()],
        llm_fix_prompt: Some("Remove `#![deny(warnings)]` from the crate root.".to_string()),
    };
    let v: serde_json::Value = serde_json::from_str(&render_sarif(&report(vec![f]))).unwrap();
    let result = &v["runs"][0]["results"][0];
    assert_eq!(result["ruleId"], "anti.deny-warnings");
    assert_eq!(result["level"], "warning");
    assert_eq!(result["locations"][0]["physicalLocation"]["artifactLocation"]["uri"], "src/main.rs");
    assert_eq!(result["locations"][0]["physicalLocation"]["region"]["startLine"], 1);
    assert_eq!(result["locations"][0]["physicalLocation"]["region"]["startColumn"], 1);
    assert_eq!(result["help"]["text"], "Remove `#![deny(warnings)]` from the crate root.");
}

#[test]
fn sarif_region_of_a_location_without_line_or_column() {
    let mut f = finding("idiom.x", Category::Idiom, Severity::Info, Some(4));
    f.location = Some(Location { path: "/ws/a.rs".to_string(), line: None, column: None, end_line: None, end_column: None });
    let v: serde_json::Value = serde_json::from_str(&render_sarif(&report(vec![f]))).unwrap();
    let region = &v["runs"][0]["results"][0]["locations"][0]["physicalLocation"]["region"];
    assert_eq!(region["startLine"], 1);
    assert_eq!(region["startColumn"], 1);
    assert!(region.get("endLine").is_none());
}

#[test]
fn disable_next_line_covers_only_the_next_line() {
    let f = finding("pattern.builder", Category::Pattern, Severity::Info, Some(3));
    let g = finding("pattern.builder", Category::Pattern, Severity::Info, Some(2));
    let file = "// rust-doctor-disable-next-line pattern.builder\nfn a() {}\nfn b() {}".to_string();
    let runner = Runner::new(cli(), None);
    let out = runner.apply_filters(report(vec![f, g]), &vec![Some(file.clone()), Some(file)]);
    assert_eq!(out.findings.len(), 1);
    assert_eq!(out.findings[0].location.as_ref().unwrap().line, Some(3));
    assert_eq!(out.summary.total, 1);
}

#[test]
fn allow_covers_the_rest_of_its_own_file_only() {
    let f = finding("pattern.builder", Category::Pattern, Severity::Info, Some(9));
    let g = finding("pattern.builder", Category::Pattern, Severity::Info, Some(9));
    let h = finding("idiom.x", Category::Idiom, Severity::Info, Some(9));
    let with = "fn z() {}\n// rust-doctor-allow pattern.builder\n".to_string();
    let without = "fn z() {}\n".to_string();
    let runner = Runner::new(cli(), None);
    let out = runner.apply_filters(report(vec![f, g, h]), &vec![Some(with.clone()), Some(without), Some(with)]);
    let ids: Vec<&str> = out.findings.iter().map(|f| f.rule_id.as_str()).collect();
    assert_eq!(ids, vec!["pattern.builder", "idiom.x"]);
}

#[test]
fn category_filter_takes_the_documented_names() {
    let findings = vec![
        finding("anti.a", Category::AntiPattern, Severity::Info, None),
        finding("idiom.b", Category::Idiom, Severity::Info, None),
        finding("anti.c", Category::AntiPattern, Severity::Info, None),
    ];
    let mut c = cli();
    c.category = Some("anti-pattern".to_string());
    let out = Runner::new(c, None).apply_filters(report(findings), &vec![None, None, None]);
    let ids: Vec<&str> = out.findings.iter().map(|f| f.rule_id.as_str()).collect();
    assert_eq!(ids, vec!["anti.a", "anti.c"]);
}

#[test]
fn category_filter_ignores_case() {
    let findings = vec![
        finding("anti.a", Category::AntiPattern, Severity::Info, None),
        finding("idiom.b", Category::Idiom, Severity::Info, None),
        finding("org.c", Category::Organization, Severity::Info, None),
    ];
    let mut c = cli();
    c.category = Some("Anti-Pattern,IDIOM".to_string());
    let out = Runner::new(c, None).apply_filters(report(findings), &vec![None, None, None]);
    let ids: Vec<&str> = out.findings.iter().map(|f| f.rule_id.as_str()).collect();
    assert_eq!(ids, vec!["anti.a", "idiom.b"]);
}
