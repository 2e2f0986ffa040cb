use rust_doctor::config::Config;
use rust_doctor::rules::registry::{Registry, Rule};

#[test]
fn registry_contains_expected_rules() {
    let reg = Registry::new();
    let ids = reg.rule_ids();
    assert!(ids.contains(&"anti.deny-warnings"));
    assert!(ids.contains(&"anti.deref-polymorphism"));
    assert!(ids.contains(&"anti.clone-to-satisfy-borrow-checker"));
    assert!(ids.contains(&"idiom.borrowed-args"));
    assert!(ids.contains(&"idiom.default-trait"));
    assert!(ids.contains(&"idiom.option-iteration"));
    assert!(ids.contains(&"idiom.privacy-extensibility"));
    assert!(ids.contains(&"idiom.temporary-mutability"));
    assert!(ids.contains(&"idiom.return-consumed-arg-on-error"));
    assert!(ids.contains(&"idiom.mem-take-replace"));
    assert!(ids.contains(&"pattern.builder"));
    assert!(ids.contains(&"pattern.contain-unsafety"));
    assert!(ids.contains(&"pattern.custom-traits-for-bounds"));
    assert!(ids.contains(&"pattern.small-crates"));
    assert!(ids.contains(&"pattern.compose-structs"));
    assert!(ids.contains(&"pattern.raii-guard"));
    // Phase-3 stubs
    assert!(ids.contains(&"ffi.idiomatic-errors"));
    assert!(ids.contains(&"pattern.newtype"));
}

#[test]
fn registry_get_by_id() {
    let reg = Registry::new();
    let rule = reg.get("anti.deny-warnings").unwrap();
    assert_eq!(rule.id(), "anti.deny-warnings");
}

#[test]
fn registry_get_unknown_returns_none() {
    let reg = Registry::new();
    assert!(reg.get("nonexistent.rule").is_none());
}

#[test]
fn registry_holds_eighteen_rules_in_order() {
    let reg = Registry::default();
    let ids = reg.rule_ids();
    assert_eq!(ids.len(), 18);
    assert_eq!(reg.iter().len(), 18);
    assert_eq!(ids[0], "anti.deny-warnings");
    assert_eq!(ids[17], "pattern.newtype");
    let rule = reg.get("pattern.builder").unwrap();
    assert_eq!(rule.title(), "Consider builder pattern");
    assert_eq!(rule.references(), vec!["https://rust-unofficial.github.io/patterns/patterns/creational/builder.html"]);
}

#[test]
fn toolchain_analysis_is_enabled_by_default() {
    let config = Config::load(None, false);

    assert!(config.scan.include_toolchain);
    assert!(config.scan.include_clippy);
}

#[test]
fn no_toolchain_disables_check_and_clippy() {
    let config = Config::load(None, true);

    assert!(!config.scan.include_toolchain);
    assert!(!config.scan.include_clippy);
}

#[test]
fn loaded_config_keeps_its_settings_unless_no_toolchain() {
    let mut file = Config::default();
    file.scan.include_clippy = false;
    file.rules.disabled.push("pattern.builder".to_string());
    let config = Config::load(Some(file), false);
    assert!(config.scan.include_toolchain);
    assert!(!config.scan.include_clippy);
    assert_eq!(config.rules.disabled, vec!["pattern.builder".to_string()]);
}

#[test]
fn rule_ids_are_distinct_and_dotted() {
    let ids = Registry::new().rule_ids();
    for (i, a) in ids.iter().enumerate() {
        let dot = a.find('.').unwrap();
        assert!(dot > 0 && dot < a.len() - 1);
        for b in &ids[i + 1..] {
            assert_ne!(a, b);
        }
    }
}
