//! Tests for the analysis module.

use rust_doctor::analysis;
use rust_doctor::diagnostic::{Category, Confidence, Finding, Location, Severity};
use rust_doctor::rules::registry::{Rule, RuleContext, RuleError};
use rust_doctor::syntax::{EnumDecl, Fields, FnDecl, FnInput, Item, StructDecl, TraitDecl, TypeShape, Visibility};

// ---------------------------------------------------------------------------
// Suppression parsing tests
// ---------------------------------------------------------------------------

#[test]
fn parse_suppression_allow_rule() {
    let content = "// rust-doctor-allow anti.deny-warnings\nfn main() {}";
    let suppressions = analysis::parse_suppressions(content);
    assert_eq!(suppressions.len(), 1);
    assert_eq!(suppressions[0].rule_id, Some("anti.deny-warnings".to_string()));
    assert_eq!(suppressions[0].line, 1);
}

#[test]
fn parse_suppression_allow_all() {
    let content = "// rust-doctor-allow\nfn main() {}";
    let suppressions = analysis::parse_suppressions(content);
    assert_eq!(suppressions.len(), 1);
    assert!(suppressions[0].rule_id.is_none());
    assert_eq!(suppressions[0].line, 1);
}

#[test]
fn parse_suppression_disable_next_line() {
    let content = "// rust-doctor-disable-next-line pattern.builder\nfn foo() {}";
    let suppressions = analysis::parse_suppressions(content);
    assert_eq!(suppressions.len(), 1);
    assert_eq!(suppressions[0].rule_id, Some("pattern.builder".to_string()));
    // disable-next-line applies to the NEXT line (line 2)
    assert_eq!(suppressions[0].line, 2);
}

#[test]
fn parse_suppression_disable_next_line_all() {
    let content = "// rust-doctor-disable-next-line\nfn foo() {}";
    let suppressions = analysis::parse_suppressions(content);
    assert_eq!(suppressions.len(), 1);
    assert!(suppressions[0].rule_id.is_none());
    assert_eq!(suppressions[0].line, 2);
}

#[test]
fn parse_suppression_multiple() {
    let content = r#"// rust-doctor-allow anti.deny-warnings
fn main() {}
// rust-doctor-disable-next-line pattern.builder
fn foo() {}"#;
    let suppressions = analysis::parse_suppressions(content);
    assert_eq!(suppressions.len(), 2);
    assert_eq!(suppressions[0].rule_id, Some("anti.deny-warnings".to_string()));
    assert_eq!(suppressions[0].line, 1);
    assert_eq!(suppressions[1].rule_id, Some("pattern.builder".to_string()));
    assert_eq!(suppressions[1].line, 4);
}

// ---------------------------------------------------------------------------
// Suppression check tests
// ---------------------------------------------------------------------------

#[test]
fn is_suppressed_rule_match() {
    let content = "// rust-doctor-allow anti.deny-warnings\nfn main() {}";
    let suppressions = analysis::parse_suppressions(content);
    // Suppression on line 1, finding on line 1
    assert!(analysis::is_suppressed(&suppressions, "anti.deny-warnings", Some(1)));
    // Finding on a different line should not be suppressed
    assert!(!analysis::is_suppressed(&suppressions, "anti.deny-warnings", Some(5)));
}

#[test]
fn is_suppressed_no_match() {
    let content = "// rust-doctor-allow anti.deny-warnings\nfn main() {}";
    let suppressions = analysis::parse_suppressions(content);
    assert!(!analysis::is_suppressed(&suppressions, "other.rule", Some(1)));
}

#[test]
fn is_suppressed_no_location() {
    let content = "// rust-doctor-allow anti.deny-warnings\nfn main() {}";
    let suppressions = analysis::parse_suppressions(content);
    // No location means we can't suppress by line
    assert!(!analysis::is_suppressed(&suppressions, "anti.deny-warnings", None));
}

#[test]
fn is_suppressed_global_allows_all() {
    let content = "// rust-doctor-allow\nfn main() {}";
    let suppressions = analysis::parse_suppressions(content);
    // Global suppression on line 1
    assert!(analysis::is_suppressed(&suppressions, "any.rule", Some(1)));
    assert!(analysis::is_suppressed(&suppressions, "other.rule", Some(1)));
}

#[test]
fn is_line_suppressed_rule_match() {
    let suppressions = vec![analysis::Suppression { rule_id: Some("pattern.builder".to_string()), line: 10 }];
    assert!(analysis::is_line_suppressed(&suppressions, "pattern.builder", 10));
    assert!(!analysis::is_line_suppressed(&suppressions, "pattern.builder", 11));
    assert!(!analysis::is_line_suppressed(&suppressions, "other.rule", 10));
}

#[test]
fn is_line_suppressed_all_wildcard() {
    let suppressions = vec![analysis::Suppression { rule_id: Some("*".to_string()), line: 5 }];
    assert!(analysis::is_line_suppressed(&suppressions, "any.rule", 5));
    assert!(!analysis::is_line_suppressed(&suppressions, "any.rule", 6));
}

#[test]
fn global_allow_covers_later_lines() {
    let content = "fn a() {}\n// rust-doctor-allow\nfn main() {}";
    let suppressions = analysis::parse_suppressions(content);
    assert!(!analysis::is_suppressed(&suppressions, "any.rule", Some(1)));
    assert!(analysis::is_suppressed(&suppressions, "any.rule", Some(2)));
    assert!(analysis::is_suppressed(&suppressions, "any.rule", Some(40)));
}

// ---------------------------------------------------------------------------
// Source location helpers
// ---------------------------------------------------------------------------

#[test]
fn find_line_found() {
    let content = "fn main() {}\nfn foo() {}";
    assert_eq!(analysis::find_line(content, "foo"), Some(2));
}

#[test]
fn find_line_not_found() {
    let content = "fn main() {}\nfn foo() {}";
    assert_eq!(analysis::find_line(content, "bar"), None);
}

#[test]
fn find_line_with_keyword() {
    let content = "impl MyStruct {\n    fn my_method() {}\n}";
    assert_eq!(analysis::find_line_with_keyword(content, "fn", "my_method"), Some(2));
}

#[test]
fn find_line_handles_crlf_lines() {
    let content = "fn main() {}\r\nfn foo() {}\r\n";
    assert_eq!(analysis::find_line(content, "foo() {}"), Some(2));
}

// ---------------------------------------------------------------------------
// Public API detection
// ---------------------------------------------------------------------------

#[test]
fn is_pub_true() {
    assert!(analysis::is_pub("pub"));
    assert!(analysis::is_pub("pub(crate)"));
    assert!(analysis::is_pub("pub(super)"));
}

#[test]
fn is_pub_false() {
    assert!(!analysis::is_pub(""));
    assert!(!analysis::is_pub("fn"));
}

fn vis(tokens: &str) -> Visibility {
    Visibility { tokens: tokens.to_string() }
}

fn fn_decl(vis_tokens: &str, ident: &str, is_unsafe: bool, is_extern: bool, inputs: Vec<FnInput>) -> FnDecl {
    FnDecl {
        ident: ident.to_string(),
        vis: vis(vis_tokens),
        is_unsafe,
        is_extern,
        inputs,
        output: None,
        tokens: String::new(),
        for_iterators: Vec::new(),
        clone_calls: Vec::new(),
        nested_fns: Vec::new(),
    }
}

#[test]
fn collect_pub_fn_names() {
    // pub fn public_fn() {}  fn private_fn() {}  pub(crate) fn crate_fn() {}
    let items = vec![
        Item::Fn(fn_decl("pub", "public_fn", false, false, vec![])),
        Item::Fn(fn_decl("", "private_fn", false, false, vec![])),
        Item::Fn(fn_decl("pub (crate)", "crate_fn", false, false, vec![])),
    ];
    let names = analysis::collect_pub_fn_names(&items);
    assert!(names.contains(&"public_fn".to_string()));
    assert!(names.contains(&"crate_fn".to_string()));
    assert!(!names.contains(&"private_fn".to_string()));
}

#[test]
fn collect_pub_type_names() {
    // pub struct PublicStruct {}  struct PrivateStruct {}  pub enum PublicEnum { A }  pub trait PublicTrait {}
    let items = vec![
        Item::Struct(StructDecl {
            ident: "PublicStruct".to_string(),
            vis: vis("pub"),
            fields: Fields::Named(vec![]),
            attrs: vec![],
            tokens: "pub struct PublicStruct { }".to_string(),
        }),
        Item::Struct(StructDecl {
            ident: "PrivateStruct".to_string(),
            vis: vis(""),
            fields: Fields::Named(vec![]),
            attrs: vec![],
            tokens: "struct PrivateStruct { }".to_string(),
        }),
        Item::Enum(EnumDecl {
            ident: "PublicEnum".to_string(),
            vis: vis("pub"),
            attrs: vec![],
            tokens: "pub enum PublicEnum { A }".to_string(),
        }),
        Item::Trait(TraitDecl {
            ident: "PublicTrait".to_string(),
            vis: vis("pub"),
            tokens: "pub trait PublicTrait { }".to_string(),
        }),
    ];
    let names = analysis::collect_pub_type_names(&items);
    assert!(names.contains(&"PublicStruct".to_string()));
    assert!(names.contains(&"PublicEnum".to_string()));
    assert!(names.contains(&"PublicTrait".to_string()));
    assert!(!names.contains(&"PrivateStruct".to_string()));
}

// ---------------------------------------------------------------------------
// Unsafe / extern detection
// ---------------------------------------------------------------------------

#[test]
fn count_unsafe() {
    let content = r#"
fn foo() {
    unsafe { }
    unsafe fn bar() {}
}
"#;
    assert_eq!(analysis::count_unsafe(content), 2);
}

#[test]
fn count_unsafe_none() {
    let content = "fn foo() {}";
    assert_eq!(analysis::count_unsafe(content), 0);
}

#[test]
fn collect_unsafe_fn_names() {
    // fn safe_fn() {}  unsafe fn unsafe_fn() {}
    let items = vec![
        Item::Fn(fn_decl("", "safe_fn", false, false, vec![])),
        Item::Fn(fn_decl("", "unsafe_fn", true, false, vec![])),
    ];
    let names = analysis::collect_unsafe_fn_names(&items);
    assert_eq!(names, vec!["unsafe_fn".to_string()]);
}

#[test]
fn collect_extern_fn_names() {
    // fn safe_fn() {}  extern "C" fn ffi_fn(x: i32) -> i32 {}
    let items = vec![
        Item::Fn(fn_decl("", "safe_fn", false, false, vec![])),
        Item::Fn(fn_decl(
            "",
            "ffi_fn",
            false,
            true,
            vec![FnInput::Typed { ty: TypeShape::Path(Some("i32".to_string())), tokens: "i32".to_string() }],
        )),
    ];
    let names = analysis::collect_extern_fn_names(&items);
    assert!(names.contains(&"ffi_fn(i32)".to_string()));
    assert!(!names.contains(&"safe_fn".to_string()));
}

#[test]
fn collect_extern_fn_names_joins_parameter_types() {
    let items = vec![Item::Fn(fn_decl(
        "pub",
        "two",
        false,
        true,
        vec![
            FnInput::Typed { ty: TypeShape::Path(Some("i32".to_string())), tokens: "i32".to_string() },
            FnInput::Typed { ty: TypeShape::Other, tokens: "* const u8".to_string() },
        ],
    ))];
    assert_eq!(analysis::collect_extern_fn_names(&items), vec!["two(i32, * const u8)".to_string()]);
}

// ---------------------------------------------------------------------------
// Finding construction
// ---------------------------------------------------------------------------

struct TestRule;

impl Rule for TestRule {
    fn id(&self) -> &'static str {
        "test.rule"
    }
    fn title(&self) -> &'static str {
        "Test rule"
    }
    fn category(&self) -> Category {
        Category::Idiom
    }
    fn default_severity(&self) -> Severity {
        Severity::Info
    }
    fn default_confidence(&self) -> Confidence {
        Confidence::High
    }
    fn description(&self) -> &'static str {
        ""
    }
    fn references(&self) -> Vec<&'static str> {
        Vec::new()
    }
    fn llm_fix_prompt(&self) -> Option<&'static str> {
        None
    }
    fn check(&self, _ctx: &RuleContext, _out: &mut Vec<Finding>) -> Result<(), RuleError> {
        Ok(())
    }
}

#[test]
fn make_finding() {
    let rule = TestRule;
    let location = Location {
        path: "src/main.rs".to_string(),
        line: Some(5),
        column: None,
        end_line: Some(5),
        end_column: None,
    };
    let finding = analysis::make_finding(
        &rule,
        location,
        "test message".to_string(),
        "test why".to_string(),
        Some("test suggestion".to_string()),
    );
    assert_eq!(finding.rule_id, "test.rule");
    assert_eq!(finding.message, "test message");
    assert_eq!(finding.suggestion, Some("test suggestion".to_string()));
}

#[test]
fn make_finding_no_location() {
    let rule = TestRule;
    let finding = analysis::make_finding_no_location(
        &rule,
        "crate-level finding".to_string(),
        "important".to_string(),
        None,
    );
    assert_eq!(finding.rule_id, "test.rule");
    assert!(finding.location.is_none());
}

#[test]
fn collect_pub_type_names_skips_a_private_type_with_a_public_field() {
    // struct Hidden { pub x: i32 }  pub struct Shown {}
    let items = vec![
        Item::Struct(StructDecl {
            ident: "Hidden".to_string(),
            vis: vis(""),
            fields: Fields::Named(vec![vis("pub")]),
            attrs: vec![],
            tokens: "struct Hidden { pub x : i32 }".to_string(),
        }),
        Item::Struct(StructDecl {
            ident: "Shown".to_string(),
            vis: vis("pub"),
            fields: Fields::Named(vec![]),
            attrs: vec![],
            tokens: "pub struct Shown { }".to_string(),
        }),
    ];
    assert_eq!(analysis::collect_pub_type_names(&items), vec!["Shown".to_string()]);
}

#[test]
fn parse_file_invalid() {
    assert!(analysis::parse_file("not valid rust {{{").is_none());
}

#[test]
fn parse_file_valid() {
    assert!(analysis::parse_file("fn main() {}").is_some());
}

// ---------------------------------------------------------------------------
// Nesting bound
// ---------------------------------------------------------------------------

use rust_doctor::nesting::{source_nesting_ok, NESTING_LIMIT};

fn ok(text: &str) -> bool {
    source_nesting_ok(text.as_bytes())
}


/// `pre`, `open` `n` times, `mid`, `close` `n` times, `post`.
fn shape(pre: &str, open: &str, mid: &str, close: &str, post: &str, n: usize) -> String {
    format!("{pre}{}{mid}{}{post}", open.repeat(n), close.repeat(n))
}

/// The shape at the most that the bound admits parses, and one step more is
/// turned away before the parser sees it.
fn bound_holds_at(pre: &str, open: &str, mid: &str, close: &str, post: &str, most: usize) {
    let at = shape(pre, open, mid, close, post, most);
    assert!(ok(&at));
    assert!(analysis::parse_file(&at).is_some());
    let over = shape(pre, open, mid, close, post, most + 1);
    assert!(!ok(&over));
    assert!(analysis::parse_file(&over).is_none());
}

#[test]
fn bound_admits_parens() {
    bound_holds_at("fn f() { let x = ", "(", "1", ")", "; }", 61);
}

#[test]
fn bound_admits_blocks() {
    bound_holds_at("fn f() { let x = ", "{", "1", "}", "; }", 61);
}

#[test]
fn bound_admits_arrays() {
    bound_holds_at("fn f() { let x = ", "[", "1", "]", "; }", 61);
}

#[test]
fn bound_admits_unary_neg() {
    bound_holds_at("fn f() { let x = ", "-", "1", "", "; }", 122);
}

#[test]
fn bound_admits_unary_not() {
    bound_holds_at("fn f() { let x = ", "!", "1", "", "; }", 122);
}

#[test]
fn bound_admits_refs() {
    bound_holds_at("fn f() { let x = ", "&", "y", "", "; }", 61);
}

#[test]
fn bound_admits_chain() {
    bound_holds_at("fn f() { let x = y", ".f()", "", "", "; }", 80);
}

#[test]
fn bound_admits_binary() {
    bound_holds_at("fn f() { let x = 1", " + 1", "", "", "; }", 81);
}

#[test]
fn bound_admits_assign() {
    bound_holds_at("fn f() { ", "a = ", "1", "", " }", 82);
}

#[test]
fn bound_admits_elseif() {
    bound_holds_at("fn f() { if a {} ", "else if a {} ", "", "", "}", 60);
}

#[test]
fn bound_admits_closures() {
    bound_holds_at("fn f() { let x = ", "|| ", "1", "", "; }", 61);
}

#[test]
fn bound_admits_closblocks() {
    bound_holds_at("fn f() { let x = ", "|| { ", "1", " }", "; }", 30);
}

#[test]
fn bound_admits_generics() {
    bound_holds_at("fn f() { let x: ", "Vec<", "u8", ">", " = y; }", 30);
}

#[test]
fn bound_admits_tupletypes() {
    bound_holds_at("fn f() { let x: ", "(", "u8", ",)", " = y; }", 61);
}

#[test]
fn bound_admits_arraytypes() {
    bound_holds_at("fn f() { let x: ", "[", "u8", "; 1]", " = y; }", 61);
}

#[test]
fn bound_admits_reftypes() {
    bound_holds_at("fn f() { let x: ", "&", "u8", "", " = y; }", 60);
}

#[test]
fn bound_admits_ptrtypes() {
    bound_holds_at("fn f() { let x: ", "*const ", "u8", "", " = y; }", 48);
}

#[test]
fn bound_admits_fntypes() {
    bound_holds_at("type T = ", "fn() -> ", "u8", "", ";", 31);
}

#[test]
fn bound_admits_implfn() {
    bound_holds_at("fn f() -> ", "impl Fn() -> ", "u8", "", " { y }", 26);
}

#[test]
fn bound_admits_qpaths() {
    bound_holds_at("type T = ", "<", "u8", " as A>::B", ";", 25);
}

#[test]
fn bound_admits_turbofish() {
    bound_holds_at("fn f() { let x = g::<", "Vec<", "u8", ">", ">(); }", 29);
}

#[test]
fn bound_admits_structlits() {
    bound_holds_at("fn f() { let x = ", "S { a: ", "1", " }", "; }", 40);
}

#[test]
fn bound_admits_ifs() {
    bound_holds_at("fn f() { ", "if a { ", "1", " }", " }", 41);
}

#[test]
fn bound_admits_fns() {
    bound_holds_at("", "fn f() { ", "", " }", "", 36);
}

#[test]
fn bound_admits_mods() {
    bound_holds_at("", "mod m { ", "", " }", "", 42);
}

#[test]
fn bound_admits_matches() {
    bound_holds_at("fn f() { ", "match x { _ => ", "1", " }", " }", 35);
}

#[test]
fn bound_admits_refpats() {
    bound_holds_at("fn f() { let ", "&", "x", "", " = y; }", 61);
}

#[test]
fn bound_admits_tuplepats() {
    bound_holds_at("fn f() { let ", "(", "x", ",)", " = y; }", 61);
}

#[test]
fn bound_admits_calls() {
    bound_holds_at("fn f() { let x = ", "f(", "1", ")", "; }", 48);
}

#[test]
fn bound_admits_returns() {
    bound_holds_at("fn f() { ", "return ", "1", "", "; }", 248);
}

#[test]
fn bound_admits_ranges() {
    bound_holds_at("fn f() { let x = ", ".. ", "1", "", "; }", 122);
}

#[test]
fn bound_admits_mut_reftypes() {
    bound_holds_at("fn f() { let x: ", "&mut ", "u8", "", " = y; }", 48);
}

#[test]
fn bound_admits_move_closures() {
    bound_holds_at("fn f() { let x = ", "move || ", "1", "", "; }", 48);
}

#[test]
fn bound_admits_loops() {
    bound_holds_at("fn f() { ", "loop { ", "", " }", " }", 49);
}

#[test]
fn bound_admits_or_patterns() {
    bound_holds_at("fn f() { let ", "(a | ", "b", ")", " = y; }", 35);
}

#[test]
fn text_nested_far_too_deeply_is_not_parsed() {
    let deep = format!("fn f() {{ let x = {}1{}; }}", "(".repeat(200_000), ")".repeat(200_000));
    assert!(analysis::parse_file(&deep).is_none());
    let prefix = format!("fn f() {{ let x = {}1; }}", "&".repeat(200_000));
    assert!(analysis::parse_file(&prefix).is_none());
}

#[test]
fn brackets_in_comments_and_literals_do_not_nest() {
    let n = NESTING_LIMIT + 10;
    let open = "(".repeat(n);
    assert!(!ok(&open));
    assert!(ok(&format!("// {open}\nfn f() {{}}")));
    assert!(ok(&format!("/* /* {open} */ {open} */ fn f() {{}}")));
    assert!(ok(&format!("const S: &str = \"\\\" {open}\";")));
    assert!(ok(&format!("const S: &str = r#\"\" {open}\"#;")));
    assert!(ok(&format!("const S: &[u8] = br\"{open}\";")));
    assert!(ok("const C: char = '{'; const D: char = '\\''; fn f<'a>(x: &'a u8) {}"));
    assert!(analysis::parse_file(&format!("// {open}\nfn f() {{}}")).is_some());
}

#[test]
fn items_and_statements_start_afresh() {
    let items = "fn f() { let x = a + b; }\n".repeat(1000);
    assert!(ok(&items));
    assert!(analysis::parse_file(&items).is_some());
    let stmts = format!("fn f() {{ {} }}", "if a { b(); } x = x + 1; ".repeat(1000));
    assert!(ok(&stmts));
    let arms = format!("fn f() {{ match x {{ {} _ => {{}} }} }}", "1 => {}, ".repeat(1000));
    assert!(ok(&arms));
    let list = format!("const A: [u8; 1000] = [{}];", "1, ".repeat(1000));
    assert!(ok(&list));
}

#[test]
fn an_interpreter_line_is_set_aside() {
    assert!(ok("#!/usr/bin/env run-cargo-script \"((((\nfn main() {}"));
    assert!(analysis::parse_file("#!/usr/bin/env run-cargo-script\nfn main() {}").is_some());
    assert!(ok("#![allow(dead_code)]\nfn main() {}"));
    assert!(!ok("#!x\nfn main() {}"));
}
