use rust_doctor::diagnostic::{Category, Confidence, Finding, Report, Severity, Summary};

fn finding(rule_id: &str, title: &str, category: Category, severity: Severity, confidence: Confidence, message: &str, why: &str) -> Finding {
    Finding {
        rule_id: rule_id.to_string(),
        title: title.to_string(),
        category,
        severity,
        confidence,
        location: None,
        message: message.to_string(),
        why_it_matters: why.to_string(),
        suggestion: None,
        references: Vec::new(),
        llm_fix_prompt: None,
    }
}

#[test]
fn summary_counts_are_correct() {
    let findings = vec![
        finding("test", "t1", Category::Idiom, Severity::Error, Confidence::High, "m", "w"),
        finding("test2", "t2", Category::Pattern, Severity::Warning, Confidence::Medium, "m2", "w2"),
        finding("test3", "t3", Category::AntiPattern, Severity::Info, Confidence::Low, "m3", "w3"),
    ];
    let s = Summary::from_findings(&findings);
    assert_eq!(s.total, 3);
    assert_eq!(s.errors, 1);
    assert_eq!(s.warnings, 1);
    assert_eq!(s.infos, 1);
}

#[test]
fn report_compute_summary() {
    let mut report = Report::new("0.1.0".to_string(), "/".to_string());
    report.findings.push(finding("r1", "t", Category::Idiom, Severity::Error, Confidence::High, "m", "w"));
    report.compute_summary();
    assert_eq!(report.summary.total, 1);
    assert_eq!(report.summary.errors, 1);
}

#[test]
fn severity_is_error() {
    assert!(Severity::Error.is_error());
    assert!(!Severity::Warning.is_error());
    assert!(!Severity::Info.is_error());
}

#[test]
fn severity_labels() {
    assert_eq!(Severity::Error.label(), "ERROR");
    assert_eq!(Severity::Warning.label(), "WARNING");
    assert_eq!(Severity::Info.label(), "INFO");
}

#[test]
fn category_labels() {
    assert_eq!(Category::Idiom.label(), "Idiom");
    assert_eq!(Category::AntiPattern.label(), "Anti-Pattern");
}

#[test]
fn health_score_deducts_by_severity_and_confidence() {
    // README: error/high 30, warning/medium 8, info/low 1 => 100 - 39 = 61 (C).
    let findings = vec![
        finding("a", "t", Category::Idiom, Severity::Error, Confidence::High, "m", "w"),
        finding("b", "t", Category::Idiom, Severity::Warning, Confidence::Medium, "m", "w"),
        finding("c", "t", Category::Idiom, Severity::Info, Confidence::Low, "m", "w"),
    ];
    let s = Summary::from_findings(&findings);
    assert_eq!(s.health.deductions, 39);
    assert_eq!(s.health.score, 61);
    assert_eq!(s.health.grade.letter(), "C");
}

#[test]
fn health_score_of_clean_report_is_100() {
    let s = Summary::from_findings(&[]);
    assert_eq!(s.health.score, 100);
    assert_eq!(s.health.grade.letter(), "A");
    assert_eq!(s.health.label(), "Excellent");
}

#[test]
fn health_score_never_goes_below_zero() {
    let findings: Vec<Finding> = (0..5)
        .map(|i| finding(&format!("r{i}"), "t", Category::Idiom, Severity::Error, Confidence::High, "m", "w"))
        .collect();
    let s = Summary::from_findings(&findings);
    assert_eq!(s.health.deductions, 150);
    assert_eq!(s.health.score, 0);
    assert_eq!(s.health.grade.letter(), "F");
}

#[test]
fn health_grade_good_band() {
    // 100 - 24 = 76 => B ("Good").
    let findings = vec![finding("a", "t", Category::Idiom, Severity::Error, Confidence::Medium, "m", "w")];
    let s = Summary::from_findings(&findings);
    assert_eq!(s.health.score, 76);
    assert_eq!(s.health.grade.letter(), "B");
    assert_eq!(s.health.label(), "Good");
}

#[test]
fn health_of_the_documented_example_report() {
    let findings = vec![
        finding("anti.deny-warnings", "t", Category::AntiPattern, Severity::Warning, Confidence::High, "m", "w"),
        finding("idiom.default-trait", "t", Category::Idiom, Severity::Info, Confidence::Medium, "m", "w"),
    ];
    let s = Summary::from_findings(&findings);
    assert_eq!((s.total, s.errors, s.warnings, s.infos), (2, 0, 1, 1));
    assert_eq!(s.health.score, 88);
    assert_eq!(s.health.grade.letter(), "B");
    assert_eq!(s.health.label(), "Good");
    assert_eq!(s.health.deductions, 12);
}

#[test]
fn summary_counts_add_over_concatenation_and_ignore_order() {
    let a = vec![
        finding("r1", "t", Category::Idiom, Severity::Error, Confidence::High, "m", "w"),
        finding("r2", "t", Category::Idiom, Severity::Info, Confidence::Low, "m", "w"),
    ];
    let b = vec![finding("r3", "t", Category::Pattern, Severity::Warning, Confidence::Medium, "m", "w")];
    let (sa, sb) = (Summary::from_findings(&a), Summary::from_findings(&b));
    let mut ab = a.clone();
    ab.extend(b.clone());
    let s = Summary::from_findings(&ab);
    assert_eq!((s.total, s.errors, s.warnings, s.infos), (sa.total + sb.total, sa.errors + sb.errors, sa.warnings + sb.warnings, sa.infos + sb.infos));
    ab.reverse();
    let r = Summary::from_findings(&ab);
    assert_eq!((r.total, r.errors, r.warnings, r.infos), (s.total, s.errors, s.warnings, s.infos));
}
