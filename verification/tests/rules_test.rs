use rust_doctor::diagnostic::{Finding, Severity};
use rust_doctor::rules::anti_patterns::{AntiDenyWarnings, AntiDerefPolymorphism};
use rust_doctor::rules::idiom::{
    IdiomBorrowedArgs, IdiomDefaultTrait, IdiomMemTakeReplace, IdiomOptionIteration, IdiomPrivacyExtensibility,
    IdiomReturnConsumedArgOnError, IdiomTemporaryMutability,
};
use rust_doctor::rules::patterns::{
    AntiCloneToSatisfyBorrowChecker, FfiIdiomaticErrors, PatternBuilder, PatternComposeStructs, PatternContainUnSafety,
    PatternCustomTraitsForBounds, PatternNewtype, PatternRaiiGuard, PatternSmallCrates,
};
use rust_doctor::rules::registry::{
    Dependency, DirFile, PackageInfo, PackageManifest, Rule, RuleContext, SourceFile, TargetInfo,
};
use rust_doctor::syntax::{
    Attribute, CloneCall, EnumDecl, ExprShape, Fields, FnDecl, FnInput, ImplDecl, ImplFn, Item, ParsedFile,
    StmtShape, StructDecl, TypeShape, ValueShape, Visibility,
};

fn vis(t: &str) -> Visibility {
    Visibility { tokens: t.to_string() }
}

fn func(v: &str, ident: &str, inputs: Vec<FnInput>) -> FnDecl {
    FnDecl {
        ident: ident.to_string(),
        vis: vis(v),
        is_unsafe: false,
        is_extern: false,
        inputs,
        output: None,
        tokens: String::new(),
        for_iterators: Vec::new(),
        clone_calls: Vec::new(),
        nested_fns: Vec::new(),
    }
}

fn typed(ty: TypeShape, tokens: &str) -> FnInput {
    FnInput::Typed { ty, tokens: tokens.to_string() }
}

fn path_ty(name: &str) -> TypeShape {
    TypeShape::Path(Some(name.to_string()))
}

fn file_target(path: &str, content: &str, items: Vec<Item>, fn_roots: Vec<FnDecl>) -> TargetInfo {
    TargetInfo {
        kinds: vec!["lib".to_string()],
        src_path: path.to_string(),
        exists: true,
        is_file: true,
        is_dir: false,
        content: Ok(content.to_string()),
        parsed: Some(ParsedFile { items, fn_roots }),
        dir_files: Vec::new(),
    }
}

fn package(name: &str, targets: Vec<TargetInfo>) -> PackageInfo {
    PackageInfo {
        id: format!("{name} 0.1.0"),
        name: name.to_string(),
        targets,
        dependencies: Vec::new(),
        source_files: Vec::new(),
    }
}

fn ctx(packages: Vec<PackageInfo>) -> RuleContext {
    RuleContext { workspace_root: "/ws".to_string(), packages, manifests: Vec::new() }
}

fn run<R: Rule>(rule: &R, c: &RuleContext) -> Vec<Finding> {
    let mut out = Vec::new();
    rule.check(c, &mut out).unwrap();
    out
}

fn line_of(f: &Finding) -> Option<u32> {
    f.location.as_ref().and_then(|l| l.line)
}

#[test]
fn deny_warnings_attribute_in_crate_root() {
    let t = file_target("/ws/src/lib.rs", "//! crate\n#![deny(warnings)]\n", vec![], vec![]);
    let mut c = ctx(vec![package("demo", vec![t])]);
    c.manifests.push(PackageManifest {
        package_name: "demo".to_string(),
        path: "/ws/Cargo.toml".to_string(),
        content: "[lints.rust]\nwarnings = \"deny\"\n".to_string(),
    });
    let out = run(&AntiDenyWarnings, &c);
    assert_eq!(out.len(), 2);
    assert_eq!(out[0].message, "Package \"demo\" uses `#![deny(warnings)]` which suppresses future lints");
    assert_eq!(line_of(&out[0]), Some(2));
    assert_eq!(out[1].message, "Package \"demo\" has `[lints] warnings = \"deny\"`");
    assert_eq!(out[1].location.as_ref().unwrap().path, "/ws/Cargo.toml");
    assert_eq!(line_of(&out[1]), Some(2));
}

#[test]
fn unreadable_target_stops_a_rule_with_its_error() {
    let mut t = file_target("/ws/src/lib.rs", "", vec![], vec![]);
    t.content = Err("permission denied".to_string());
    let c = ctx(vec![package("demo", vec![t])]);
    let mut out = Vec::new();
    let e = AntiDenyWarnings.check(&c, &mut out).unwrap_err();
    assert_eq!(e.message, "permission denied");
    assert!(out.is_empty());
}

#[test]
fn deref_to_domain_type_is_flagged() {
    let content = "pub struct Wrapper(Inner);\nimpl Deref for Wrapper {\n    type Target = Inner;\n}\n";
    let imp = ImplDecl {
        trait_name: Some("Deref".to_string()),
        self_ty: path_ty("Wrapper"),
        self_ty_tokens: "Wrapper".to_string(),
        fns: vec![ImplFn {
            ident: "deref".to_string(),
            vis: vis(""),
            inputs: vec![FnInput::Receiver { mutable: false, tokens: "& self".to_string() }],
            input_count: 1,
            output: Some(TypeShape::Reference(Box::new(path_ty("Inner")))),
            body: vec![StmtShape::Other],
        }],
        tokens: String::new(),
    };
    let t = file_target("/ws/src/lib.rs", content, vec![Item::Impl(imp)], vec![]);
    let out = run(&AntiDerefPolymorphism, &ctx(vec![package("demo", vec![t])]));
    assert_eq!(out.len(), 1);
    assert_eq!(out[0].message, "Wrapper implements `Deref` to `Inner` which may be deref polymorphism");
    assert_eq!(line_of(&out[0]), Some(2));
}

fn greet() -> FnDecl {
    func("pub", "greet", vec![typed(TypeShape::Reference(Box::new(path_ty("String"))), "& String")])
}

#[test]
fn borrowed_string_argument_is_flagged() {
    let content = "pub fn greet(name: &String) {}\n";
    let t = file_target("/ws/src/lib.rs", content, vec![Item::Fn(greet())], vec![greet()]);
    let out = run(&IdiomBorrowedArgs, &ctx(vec![package("demo", vec![t])]));
    assert_eq!(out.len(), 1);
    assert_eq!(out[0].message, "`String` is a borrowed owned type; prefer `&str`");
    assert_eq!(out[0].suggestion.as_deref(), Some("Consider using `&str` instead of `String`"));
    assert_eq!(line_of(&out[0]), Some(1));
    assert_eq!(out[0].rule_id, "idiom.borrowed-args");
}

fn config_impl(ty: &str) -> ImplDecl {
    ImplDecl {
        trait_name: None,
        self_ty: path_ty(ty),
        self_ty_tokens: ty.to_string(),
        fns: vec![ImplFn {
            ident: "new".to_string(),
            vis: vis("pub"),
            inputs: vec![],
            input_count: 0,
            output: Some(path_ty("Self")),
            body: vec![StmtShape::Expr(ValueShape::Path("Self".to_string()))],
        }],
        tokens: String::new(),
    }
}

fn config_struct(attrs: Vec<Attribute>) -> StructDecl {
    StructDecl { ident: "Config".to_string(), vis: vis("pub"), fields: Fields::Unit, attrs, tokens: String::new() }
}

#[test]
fn zero_arg_new_without_default_is_flagged() {
    let content = "pub struct Config;\nimpl Config {\n    pub fn new() -> Self {\n        Self\n    }\n}\n";
    let items = vec![Item::Struct(config_struct(vec![])), Item::Impl(config_impl("Config"))];
    let out = run(&IdiomDefaultTrait, &ctx(vec![package("demo", vec![file_target("/ws/src/lib.rs", content, items, vec![])])]));
    assert_eq!(out.len(), 1);
    assert_eq!(
        out[0].message,
        "`Config` has a zero-arg `new()` returning default-like values but does not implement `Default`"
    );
    assert_eq!(line_of(&out[0]), Some(3));

    let derived = Attribute { ident: Some("derive".to_string()), tokens: "# [derive (Default)]".to_string() };
    let items = vec![Item::Struct(config_struct(vec![derived])), Item::Impl(config_impl("Config"))];
    let out = run(&IdiomDefaultTrait, &ctx(vec![package("demo", vec![file_target("/ws/src/lib.rs", content, items, vec![])])]));
    assert!(out.is_empty());
}

fn loop_fn(iter: ExprShape) -> FnDecl {
    let mut f = func("", "f", vec![]);
    f.for_iterators = vec![iter];
    f
}

#[test]
fn for_loop_over_option_is_flagged() {
    let content = "fn f(opt: Option<u8>) {\n    for x in opt {}\n}\n";
    let items = vec![Item::Fn(loop_fn(ExprShape::Path(vec!["opt".to_string()])))];
    let out = run(&IdiomOptionIteration, &ctx(vec![package("demo", vec![file_target("/ws/src/lib.rs", content, items, vec![])])]));
    assert_eq!(out.len(), 1);
    assert_eq!(line_of(&out[0]), Some(2));
    assert_eq!(out[0].message, "For loop over `Option` is usually less idiomatic than `if let Some(..)`");

    // An upper-case path (a constant or type) is not taken for an Option.
    let items = vec![Item::Fn(loop_fn(ExprShape::Path(vec!["ITEMS".to_string()])))];
    let out = run(&IdiomOptionIteration, &ctx(vec![package("demo", vec![file_target("/ws/src/lib.rs", content, items, vec![])])]));
    assert!(out.is_empty());

    let call = ExprShape::MethodCall("iter".to_string(), Box::new(ExprShape::Call(Some("Some".to_string()))));
    let items = vec![Item::Fn(loop_fn(call))];
    let out = run(&IdiomOptionIteration, &ctx(vec![package("demo", vec![file_target("/ws/src/lib.rs", content, items, vec![])])]));
    assert_eq!(out.len(), 1);
}

fn public_items() -> Vec<Item> {
    vec![
        Item::Struct(StructDecl {
            ident: "Point".to_string(),
            vis: vis("pub"),
            fields: Fields::Named(vec![vis("pub"), vis("pub")]),
            attrs: vec![],
            tokens: String::new(),
        }),
        Item::Enum(EnumDecl { ident: "Mode".to_string(), vis: vis("pub"), attrs: vec![], tokens: String::new() }),
        Item::Struct(StructDecl {
            ident: "Sealed".to_string(),
            vis: vis("pub"),
            fields: Fields::Named(vec![vis("")]),
            attrs: vec![],
            tokens: String::new(),
        }),
    ]
}

fn source(path: &str, content: &str, items: Vec<Item>) -> SourceFile {
    SourceFile {
        path: path.to_string(),
        content: Ok(content.to_string()),
        parsed: Some(ParsedFile { items, fn_roots: vec![] }),
    }
}

#[test]
fn public_exhaustive_types_in_libraries_are_flagged() {
    // Every source file of the package is looked at, not only the crate root.
    let content = "pub struct Point { pub x: i32, pub y: i32 }\npub enum Mode { A }\npub struct Sealed { x: i32 }\n";
    let mut pkg = package("demo", vec![file_target("/ws/src/lib.rs", "mod nested;\n", vec![], vec![])]);
    pkg.source_files = vec![
        source("/ws/src/lib.rs", "mod nested;\n", vec![]),
        source("/ws/src/nested.rs", content, public_items()),
    ];
    let out = run(&IdiomPrivacyExtensibility, &ctx(vec![pkg]));
    assert_eq!(out.len(), 2);
    assert_eq!(out[0].message, "Public struct `Point` has all public fields and no `#[non_exhaustive]`");
    assert_eq!(out[0].location.as_ref().unwrap().path, "/ws/src/nested.rs");
    assert_eq!(line_of(&out[0]), Some(1));
    assert_eq!(out[1].message, "Public enum `Mode` has no `#[non_exhaustive]`");
    assert_eq!(line_of(&out[1]), Some(2));

    let mut bin = file_target("/ws/src/main.rs", content, vec![], vec![]);
    bin.kinds = vec!["bin".to_string()];
    let mut pkg = package("demo", vec![bin]);
    pkg.source_files = vec![source("/ws/src/main.rs", content, public_items())];
    assert!(run(&IdiomPrivacyExtensibility, &ctx(vec![pkg])).is_empty());
}

#[test]
fn typed_mut_binding_without_reassignment_is_flagged() {
    let content = "pub fn f() {\n    let mut total: u32 = 5;\n    println!(\"{}\", total);\n}\n";
    let items = vec![Item::Fn(func("pub", "f", vec![]))];
    let out = run(&IdiomTemporaryMutability, &ctx(vec![package("demo", vec![file_target("/ws/src/lib.rs", content, items, vec![])])]));
    assert_eq!(out.len(), 1);
    assert_eq!(out[0].message, "`total:` is declared `mut` but never reassigned; consider `let`");
    assert_eq!(out[0].suggestion.as_deref(), Some("Change `let mut total:` to `let total:`"));
    assert_eq!(line_of(&out[0]), Some(2));

    let reassigned = "pub fn f() {\n    let mut x = 1;\n    x = 2;\n}\n";
    let items = vec![Item::Fn(func("pub", "f", vec![]))];
    let out = run(&IdiomTemporaryMutability, &ctx(vec![package("demo", vec![file_target("/ws/src/lib.rs", reassigned, items, vec![])])]));
    assert!(out.is_empty());
}

#[test]
fn only_lines_after_the_declaration_count_as_reassignments() {
    let content = "fn helper() {\n    x = 0;\n}\n\npub fn f() {\n    let mut x = 1;\n    println!(\"{}\", x);\n}\n";
    let items = vec![Item::Fn(func("pub", "f", vec![]))];
    let out = run(&IdiomTemporaryMutability, &ctx(vec![package("demo", vec![file_target("/ws/src/lib.rs", content, items, vec![])])]));
    assert_eq!(out.len(), 1);
    assert_eq!(out[0].message, "`x` is declared `mut` but never reassigned; consider `let`");
    assert_eq!(line_of(&out[0]), Some(6));

    let before_only = "pub fn f() {\n    y.push(1);\n    let mut y = Vec::new();\n    y.push(2);\n}\n";
    let items = vec![Item::Fn(func("pub", "f", vec![]))];
    let out = run(&IdiomTemporaryMutability, &ctx(vec![package("demo", vec![file_target("/ws/src/lib.rs", before_only, items, vec![])])]));
    assert!(out.is_empty());
}

#[test]
fn result_with_owned_argument_is_flagged() {
    let content = "pub fn parse(input: String) -> Result<u8, String> {\n    Ok(0)\n}\n";
    let mut f = func("pub", "parse", vec![typed(path_ty("String"), "String")]);
    f.output = Some(path_ty("Result"));
    let out = run(
        &IdiomReturnConsumedArgOnError,
        &ctx(vec![package("demo", vec![file_target("/ws/src/lib.rs", content, vec![Item::Fn(f)], vec![])])]),
    );
    assert_eq!(out.len(), 1);
    assert_eq!(
        out[0].message,
        "Function `parse` returns `Result` with owned arguments; consider including consumed args in error variants for better error context"
    );
    assert_eq!(line_of(&out[0]), Some(1));

    let mut g = func("pub", "parse", vec![typed(TypeShape::Reference(Box::new(path_ty("str"))), "& str")]);
    g.output = Some(path_ty("Result"));
    let out = run(
        &IdiomReturnConsumedArgOnError,
        &ctx(vec![package("demo", vec![file_target("/ws/src/lib.rs", content, vec![Item::Fn(g)], vec![])])]),
    );
    assert!(out.is_empty());
}

#[test]
fn clone_then_clear_is_flagged() {
    // The clone expression ends the line, so the cloned source reads as
    // empty and any later `.clear()` within four lines matches.
    let content = "fn f(v: &mut Vec<u8>) {\n    let copy = v.clone()\n    ;\n    v.clear();\n}\n";
    let out = run(&IdiomMemTakeReplace, &ctx(vec![package("demo", vec![file_target("/ws/src/lib.rs", content, vec![], vec![])])]));
    assert_eq!(out.len(), 1);
    assert_eq!(line_of(&out[0]), Some(2));
    assert_eq!(
        out[0].message,
        "`.clone()` followed by `.clear()` on `` can be replaced with `std::mem::take(&mut )`"
    );

    let content = "fn f(v: &mut Vec<u8>) {\n    let copy = v.clone();\n    v.clear();\n}\n";
    let out = run(&IdiomMemTakeReplace, &ctx(vec![package("demo", vec![file_target("/ws/src/lib.rs", content, vec![], vec![])])]));
    assert!(out.is_empty());
}

#[test]
fn many_parameters_suggest_a_builder() {
    let content = "pub fn make(a: u8, b: u8, c: u8, d: Option<u8>, e: Option<u8>) {}\n";
    let inputs = vec![
        typed(path_ty("u8"), "u8"),
        typed(path_ty("u8"), "u8"),
        typed(path_ty("u8"), "u8"),
        typed(path_ty("Option"), "Option < u8 >"),
        typed(path_ty("Option"), "Option<u8>"),
    ];
    let f = func("pub", "make", inputs);
    let out = run(&PatternBuilder, &ctx(vec![package("demo", vec![file_target("/ws/src/lib.rs", content, vec![Item::Fn(f)], vec![])])]));
    assert_eq!(out.len(), 1);
    assert_eq!(
        out[0].message,
        "Public function `make` has 5 parameters (threshold: 5); 1 parameters are `Option<T>`"
    );
}

#[test]
fn unsafe_in_many_files_is_flagged() {
    let targets: Vec<TargetInfo> = (0..6)
        .map(|i| file_target(&format!("/ws/src/m{i}.rs"), "unsafe fn f() {}\n", vec![], vec![]))
        .collect();
    let out = run(&PatternContainUnSafety, &ctx(vec![package("demo", targets)]));
    assert_eq!(out.len(), 1);
    assert_eq!(
        out[0].message,
        "Unsafe code found in 6 files (6 blocks); consider containing it in a single module"
    );
    let s = out[0].suggestion.as_deref().unwrap();
    assert!(s.starts_with("Group unsafe code into a small module with a safe public API boundary. Unsafe found in 6 files (6 total unsafe blocks).\n  - /ws/src/m0.rs: 1 unsafe block(s)"));
    assert_eq!(s.matches("unsafe block(s)").count(), 5);
    assert!(out[0].location.is_none());

    let few: Vec<TargetInfo> = (0..2).map(|i| file_target(&format!("/ws/src/m{i}.rs"), "unsafe {}", vec![], vec![])).collect();
    assert!(run(&PatternContainUnSafety, &ctx(vec![package("demo", few)])).is_empty());
}

#[test]
fn complex_where_clause_is_flagged() {
    let mut f = func("pub", "apply", vec![]);
    f.tokens = "pub fn apply < F , G > (f : F , g : G) where F : Fn (u8) -> u8 , G : Fn (u8) -> u8 { }".to_string();
    let content = "pub fn apply<F, G>(f: F, g: G)\nwhere\n    F: Fn(u8) -> u8,\n{}\n";
    let out = run(
        &PatternCustomTraitsForBounds,
        &ctx(vec![package("demo", vec![file_target("/ws/src/lib.rs", content, vec![Item::Fn(f)], vec![])])]),
    );
    assert_eq!(out.len(), 1);
    assert_eq!(
        out[0].message,
        "function has a complex where clause (2 Fn bounds) that could be extracted into a custom trait"
    );
    assert_eq!(line_of(&out[0]), Some(2));
}

#[test]
fn large_package_and_shared_requirements_are_flagged() {
    let big = "x\n".repeat(1001);
    let mut a = package("a", vec![file_target("/ws/a/src/lib.rs", &big, vec![], vec![])]);
    a.dependencies.push(Dependency { name: "serde".to_string(), req: "^1".to_string() });
    let mut b = package("b", vec![]);
    b.dependencies.push(Dependency { name: "serde".to_string(), req: "^0.9".to_string() });
    b.dependencies.push(Dependency { name: "toml".to_string(), req: "^0.8".to_string() });
    let out = run(&PatternSmallCrates, &ctx(vec![a, b]));
    assert_eq!(out.len(), 2);
    assert_eq!(out[0].message, "Package \"a\" is large (1001 lines, 1 files); consider splitting into smaller crates");
    assert_eq!(
        out[0].suggestion.as_deref(),
        Some("Consider splitting this crate into smaller modules. Current size: 1001 lines across 1 files. Large files:\n  - /ws/a/src/lib.rs: 1001 lines")
    );
    assert_eq!(out[1].message, "Workspace has 1 dependency version duplicates across packages");
    assert_eq!(
        out[1].suggestion.as_deref(),
        Some("Run `cargo update` to consolidate versions, or use `[patch]` sections to force a single version. Details:\n- serde: 2 packages using different versions: a (^1), b (^0.9)")
    );
    assert_eq!(
        out[1].llm_fix_prompt.as_deref(),
        Some("Run `cargo update` to consolidate duplicate dependency versions. If specific versions are needed, use Cargo's `[patch]` sections to override.")
    );
}

#[test]
fn directory_targets_count_for_every_package() {
    let mut dir = file_target("/ws/a/src/bin", "", vec![], vec![]);
    dir.is_file = false;
    dir.is_dir = true;
    dir.content = Err("is a directory".to_string());
    dir.dir_files = (0..16)
        .map(|i| DirFile { path: format!("/ws/a/src/bin/f{i}.rs"), content: Ok("fn main() {}\n".to_string()) })
        .collect();
    let out = run(&PatternSmallCrates, &ctx(vec![package("a", vec![dir]), package("b", vec![])]));
    assert_eq!(out.len(), 2);
    assert_eq!(out[0].message, "Package \"a\" is large (16 lines, 16 files); consider splitting into smaller crates");
    assert_eq!(out[1].message, "Package \"b\" is large (16 lines, 16 files); consider splitting into smaller crates");
}

#[test]
fn clone_in_public_function_is_flagged() {
    let content = "pub fn f(name: &String) -> String {\n    let s = name.clone();\n    s\n}\n";
    let mut f = func("pub", "f", vec![]);
    f.clone_calls = vec![CloneCall { receiver: "name".to_string(), nested: vec![] }];
    let out = run(
        &AntiCloneToSatisfyBorrowChecker,
        &ctx(vec![package("demo", vec![file_target("/ws/src/lib.rs", content, vec![Item::Fn(f)], vec![])])]),
    );
    assert_eq!(out.len(), 1);
    assert_eq!(line_of(&out[0]), Some(2));
    assert_eq!(out[0].severity, Severity::Warning);
    assert_eq!(
        out[0].message,
        "Function `f` uses `.clone()` which may be a borrow-checker workaround; consider borrowing instead"
    );
}

#[test]
fn clone_inside_a_loop_is_not_flagged() {
    let content = "pub fn f(v: &[String]) {\n    for s in v {\n        consume(s.clone());\n        tally();\n    }\n}\n";
    let mut f = func("pub", "f", vec![]);
    f.clone_calls = vec![CloneCall { receiver: "s".to_string(), nested: vec![] }];
    let out = run(
        &AntiCloneToSatisfyBorrowChecker,
        &ctx(vec![package("demo", vec![file_target("/ws/src/lib.rs", content, vec![Item::Fn(f)], vec![])])]),
    );
    assert!(out.is_empty());
}

#[test]
fn struct_with_many_fields_is_flagged() {
    let s = StructDecl {
        ident: "Big".to_string(),
        vis: vis("pub"),
        fields: Fields::Named((0..9).map(|_| vis("pub")).collect()),
        attrs: vec![],
        tokens: String::new(),
    };
    let content = "pub struct Big {\n}\n";
    let out = run(
        &PatternComposeStructs,
        &ctx(vec![package("demo", vec![file_target("/ws/src/lib.rs", content, vec![Item::Struct(s)], vec![])])]),
    );
    assert_eq!(out.len(), 1);
    assert_eq!(out[0].message, "Public struct `Big` has 9 fields (>8); consider splitting into composed units");
    assert_eq!(
        out[0].suggestion.as_deref(),
        Some("Extract related fields into smaller structs (e.g., `struct BigConfig { ... }`) and compose them inside the parent struct.")
    );
}

#[test]
fn cleanup_method_taking_mut_self_is_flagged() {
    let close = func("pub", "close", vec![FnInput::Receiver { mutable: true, tokens: "& mut self".to_string() }]);
    let content = "pub fn close(&mut self) {}\n";
    let out = run(&PatternRaiiGuard, &ctx(vec![package("demo", vec![file_target("/ws/src/lib.rs", content, vec![], vec![close])])]));
    assert_eq!(out.len(), 1);
    assert_eq!(
        out[0].message,
        "Public method `close` suggests manual resource cleanup; consider an RAII guard with `Drop`"
    );

    let shared = func("pub", "close", vec![FnInput::Receiver { mutable: false, tokens: "& self".to_string() }]);
    let out = run(&PatternRaiiGuard, &ctx(vec![package("demo", vec![file_target("/ws/src/lib.rs", content, vec![], vec![shared])])]));
    assert!(out.is_empty());
}

#[test]
fn inert_rules_emit_nothing() {
    let t = file_target("/ws/src/lib.rs", "pub struct Meters(f64);\n", vec![], vec![]);
    let c = ctx(vec![package("demo", vec![t])]);
    assert!(run(&PatternNewtype, &c).is_empty());
    assert!(run(&FfiIdiomaticErrors, &c).is_empty());
    assert!(PatternNewtype.references().is_empty());
    assert!(FfiIdiomaticErrors.llm_fix_prompt().is_none());
}

#[test]
fn the_same_requirement_in_several_packages_is_no_duplicate() {
    let mut a = package("a", vec![]);
    a.dependencies.push(Dependency { name: "serde".to_string(), req: "^1.0".to_string() });
    let mut b = package("b", vec![]);
    b.dependencies.push(Dependency { name: "serde".to_string(), req: "^1.0".to_string() });
    assert!(run(&PatternSmallCrates, &ctx(vec![a, b])).is_empty());
}

#[test]
fn one_dependency_at_two_versions_is_a_duplicate() {
    let mut a = package("a", vec![]);
    a.dependencies.push(Dependency { name: "serde".to_string(), req: "^1.0".to_string() });
    let mut b = package("b", vec![]);
    b.dependencies.push(Dependency { name: "serde".to_string(), req: "^0.9".to_string() });
    let out = run(&PatternSmallCrates, &ctx(vec![a, b]));
    assert_eq!(out.len(), 1);
    assert_eq!(out[0].rule_id, "pattern.small-crates");
    assert_eq!(out[0].message, "Workspace has 1 dependency version duplicates across packages");
}

fn method(ident: &str, v: &str, inputs: Vec<FnInput>, body: Vec<StmtShape>) -> ImplFn {
    ImplFn { ident: ident.to_string(), vis: vis(v), input_count: inputs.len(), inputs, output: None, body }
}

fn mut_self() -> FnInput {
    FnInput::Receiver { mutable: true, tokens: "& mut self".to_string() }
}

#[test]
fn raii_guard_flags_cleanup_methods_of_the_fixture() {
    let content = "pub struct Connection {\n    handle: i32,\n}\n\nimpl Connection {\n    pub fn new() -> Self {\n        Self { handle: 42 }\n    }\n\n    pub fn close(&mut self) {\n        self.handle = 0;\n    }\n\n    pub fn release(&mut self) {\n        self.handle = -1;\n    }\n}\n";
    let imp = ImplDecl {
        trait_name: None,
        self_ty: path_ty("Connection"),
        self_ty_tokens: "Connection".to_string(),
        fns: vec![
            method("new", "pub", vec![], vec![StmtShape::Other]),
            method("close", "pub", vec![mut_self()], vec![StmtShape::Other]),
            method("release", "pub", vec![mut_self()], vec![StmtShape::Other]),
            method("free", "", vec![mut_self()], vec![StmtShape::Other]),
            method("dispose", "pub", vec![FnInput::Receiver { mutable: false, tokens: "& self".to_string() }], vec![]),
        ],
        tokens: String::new(),
    };
    let t = file_target("/ws/src/lib.rs", content, vec![Item::Impl(imp)], vec![]);
    let out = run(&PatternRaiiGuard, &ctx(vec![package("p", vec![t])]));
    assert_eq!(out.len(), 2);
    assert!(out.iter().all(|f| f.rule_id == "pattern.raii-guard"));
    assert!(out[0].message.contains("`close`"));
    assert!(out[1].message.contains("`release`"));
}

#[test]
fn default_trait_accepts_a_self_literal_of_default_values() {
    let content = "pub struct Config {\n    pub name: String,\n    pub value: i32,\n}\n\nimpl Config {\n    pub fn new() -> Self {\n        Self {\n            name: String::new(),\n            value: 0,\n        }\n    }\n}\n";
    let body = |v: &str| {
        vec![StmtShape::Expr(ValueShape::Struct(
            "Self".to_string(),
            vec![ValueShape::Call(Some("new".to_string()), 0), ValueShape::Lit(v.to_string())],
        ))]
    };
    let imp = |b: Vec<StmtShape>| ImplDecl {
        trait_name: None,
        self_ty: path_ty("Config"),
        self_ty_tokens: "Config".to_string(),
        fns: vec![ImplFn {
            ident: "new".to_string(),
            vis: vis("pub"),
            inputs: vec![],
            input_count: 0,
            output: Some(path_ty("Self")),
            body: b,
        }],
        tokens: String::new(),
    };
    let t = file_target("/ws/src/lib.rs", content, vec![Item::Impl(imp(body("0")))], vec![]);
    let out = run(&IdiomDefaultTrait, &ctx(vec![package("p", vec![t])]));
    assert_eq!(out.len(), 1);
    assert_eq!(out[0].rule_id, "idiom.default-trait");
    assert!(out[0].message.contains("`Config`"));
    assert_eq!(line_of(&out[0]), Some(7));
    // A field that is not a default value, or a second statement, is not default-like.
    let t = file_target("/ws/src/lib.rs", content, vec![Item::Impl(imp(body("42")))], vec![]);
    assert!(run(&IdiomDefaultTrait, &ctx(vec![package("p", vec![t])])).is_empty());
    let mut two = body("0");
    two.insert(0, StmtShape::Other);
    let t = file_target("/ws/src/lib.rs", content, vec![Item::Impl(imp(two))], vec![]);
    assert!(run(&IdiomDefaultTrait, &ctx(vec![package("p", vec![t])])).is_empty());
}

#[test]
fn ffi_errors_rule_is_a_toolchain_rule() {
    assert_eq!(FfiIdiomaticErrors.category(), rust_doctor::diagnostic::Category::Toolchain);
}

#[test]
fn where_clause_lengths_are_counted_in_bytes() {
    // 14 + 40 * 2 = 94 bytes (54 characters); the where text is 86 bytes.
    let mut f = func("pub", "g", vec![]);
    f.tokens = format!("fn g () where {}", "é".repeat(40));
    let content = "fn g()\nwhere\n{}\n";
    let out = run(
        &PatternCustomTraitsForBounds,
        &ctx(vec![package("demo", vec![file_target("/ws/src/lib.rs", content, vec![Item::Fn(f)], vec![])])]),
    );
    assert_eq!(out.len(), 1);
    assert_eq!(
        out[0].message,
        "function has a complex where clause (1 Fn bounds) that could be extracted into a custom trait"
    );
    // The same clause in ASCII is too short.
    let mut f = func("pub", "g", vec![]);
    f.tokens = format!("fn g () where {}", "e".repeat(40));
    let out = run(
        &PatternCustomTraitsForBounds,
        &ctx(vec![package("demo", vec![file_target("/ws/src/lib.rs", content, vec![Item::Fn(f)], vec![])])]),
    );
    assert!(out.is_empty());
}
