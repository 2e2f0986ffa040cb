//! Anti-pattern rules: deny-warnings and deref-polymorphism.
use vstd::prelude::*;

use crate::analysis::location_at;
use crate::diagnostic::{finding_views, Category, Confidence, Finding, FindingView, Severity};
use crate::rules::registry::{
    all_carry, build_finding, emit, emit_one, lemma_all_carry_concat, lemma_all_carry_flat_map,
    lemma_run_targets_carry, line_location, parsed_step, read_error, rule_finding, run_targets, steps_carry,
    run_targets_spec, str_views, Outcome, RuleInfo, PackageInfo, PackageManifest, Rule, RuleContext, RuleError, RuleMeta, Step,
    StepView, TargetCheck, TargetInfo,
};
use crate::syntax::{
    extract_type_name, flat_map, lemma_flat_map_all, lemma_flat_map_step, type_name_of,
    type_name_or_unknown, type_name_text, ImplDecl, ImplFn, Item, ParsedFile,
};
use crate::text::{
    chars_of, contains, contains_chars, ends_with, ends_with_chars, find_line_with_all, join_path,
    join_path_text, line_no_of, lines, lines_of, pats1, pats2, position, push_chars, same,
    starts_with, starts_with_str, string_of, texts,
};

verus! {

/// Whether `h` contains one of `names`.
pub open spec fn contains_one_of(h: Seq<char>, names: Seq<Seq<char>>) -> bool {
    exists|k: int| 0 <= k < names.len() && (h == names[k] || contains(h, #[trigger] names[k]))
}

/// Whether `h` contains one of the given literals.
pub fn contains_any(h: &[char], names: &Vec<&'static str>) -> (r: bool)
    ensures
        r == contains_one_of(h@, str_views(names@)),
{
    let mut k: usize = 0;
    while k < names.len()
        invariant
            k <= names@.len(),
            forall|j: int|
                0 <= j < k ==> !(h@ == str_views(names@)[j] || contains(
                    h@,
                    #[trigger] str_views(names@)[j],
                )),
        decreases names@.len() - k,
    {
        let n = chars_of(names[k]);
        assert(str_views(names@)[k as int] == n@);
        if same(h, n.as_slice()) || contains_chars(h, n.as_slice()) {
            return true;
        }
        k = k + 1;
    }
    false
}

// ---------------------------------------------------------------------------
// AntiDenyWarnings
// ---------------------------------------------------------------------------

/// Flag `#![deny(warnings)]` and `[lints] warnings = "deny"`.
pub struct AntiDenyWarnings;

pub open spec fn deny_warnings_meta() -> RuleMeta {
    RuleMeta {
        id: "anti.deny-warnings"@,
        title: "Deny-warnings suppresses future lints"@,
        category: Category::AntiPattern,
        severity: Severity::Warning,
        confidence: Confidence::High,
        description: "Detects `#![deny(warnings)]` crate attributes and `[lints] warnings = \"deny\"` manifest tables."@,
        references: seq!["https://rust-unofficial.github.io/patterns/anti-patterns/deny-warnings.html"@],
        llm_fix_prompt: Some("Remove `#![deny(warnings)]` from the crate root. Instead, use `RUSTFLAGS=-D warnings` in CI or explicitly deny specific lint names."@),
    }
}

/// The metadata of `AntiDenyWarnings`.
pub fn deny_warnings_info() -> (r: RuleInfo)
    ensures
        r@ == deny_warnings_meta(),
{
    let references: Vec<&'static str> = vec!["https://rust-unofficial.github.io/patterns/anti-patterns/deny-warnings.html"];
    assert(str_views(references@) =~= deny_warnings_meta().references);
    RuleInfo {
        id: "anti.deny-warnings",
        title: "Deny-warnings suppresses future lints",
        category: Category::AntiPattern,
        severity: Severity::Warning,
        confidence: Confidence::High,
        description: "Detects `#![deny(warnings)]` crate attributes and `[lints] warnings = \"deny\"` manifest tables.",
        references,
        llm_fix_prompt: Some("Remove `#![deny(warnings)]` from the crate root. Instead, use `RUSTFLAGS=-D warnings` in CI or explicitly deny specific lint names."),
    }
}

/// The finding for a crate root that denies warnings (when one of its lines
/// does).
pub open spec fn deny_attr_findings(pkg: PackageInfo, t: TargetInfo, c: Seq<char>) -> Seq<FindingView> {
    match position(lines(c), seq!["#![deny(warnings)]"@]) {
        Some(n) => seq![
            rule_finding(
                deny_warnings_meta(),
                Some(line_location(t.src_path@, line_no_of(Some(n)))),
                "Package \""@ + pkg.name@
                    + "\" uses `#![deny(warnings)]` which suppresses future lints"@,
                "Denying all warnings opts out of Rust stability guarantees; new lints in future toolchain releases will silently pass instead of alerting you."@,
                Some(
                    "Use `RUSTFLAGS=-D warnings` in CI instead, or explicitly deny specific lint names."@,
                ),
            ),
        ],
        None => seq![],
    }
}

pub open spec fn is_crate_root_kind(k: Seq<char>) -> bool {
    k == "lib"@ || k == "bin"@
}

/// A target is read once per `lib`/`bin` kind it has.
pub open spec fn deny_step(pkg: PackageInfo, t: TargetInfo) -> StepView {
    if !t.exists || !(exists|i: int|
        0 <= i < t.kinds@.len() && is_crate_root_kind(#[trigger] t.kinds@[i]@)) {
        StepView::Skip
    } else {
        match t.content {
            Err(e) => StepView::Fail(e@),
            Ok(c) => StepView::Found(flat_map(t.kinds@, |k: String| deny_kind_findings(pkg, t, c@, k))),
        }
    }
}

pub open spec fn deny_kind_findings(pkg: PackageInfo, t: TargetInfo, c: Seq<char>, k: String) -> Seq<FindingView> {
    if is_crate_root_kind(k@) {
        deny_attr_findings(pkg, t, c)
    } else {
        seq![]
    }
}

/// The finding for a manifest with a line mentioning both `warnings` and
/// `deny`.
pub open spec fn deny_manifest_findings(root: Seq<char>, m: PackageManifest) -> Seq<FindingView> {
    match position(lines(m.content@), seq!["warnings"@, "deny"@]) {
        Some(n) => seq![
            rule_finding(
                deny_warnings_meta(),
                Some(line_location(join_path(root, "Cargo.toml"@), line_no_of(Some(n)))),
                "Package \""@ + m.package_name@ + "\" has `[lints] warnings = \"deny\"`"@,
                "Same risk as `#![deny(warnings)]`: future lints will be silently ignored."@,
                Some("Use `RUSTFLAGS=-D warnings` in CI or explicitly deny specific lint names."@),
            ),
        ],
        None => seq![],
    }
}

impl AntiDenyWarnings {
    fn attr_finding(&self, pkg: &PackageInfo, t: &TargetInfo, c: &String) -> (r: Vec<Finding>)
        ensures
            finding_views(r@) == deny_attr_findings(*pkg, *t, c@),
    {
        let cv = chars_of(c.as_str());
        let ls = lines_of(cv.as_slice());
        let pats = pats1("#![deny(warnings)]");
        let mut r: Vec<Finding> = Vec::new();
        match find_line_with_all(&ls, &pats) {
            Some(line) => {
                let mut msg = String::from_str("Package \"");
                msg.append(pkg.name.as_str());
                msg.append("\" uses `#![deny(warnings)]` which suppresses future lints");
                let f = build_finding(
                    &deny_warnings_info(),
                    Some(location_at(t.src_path.clone(), Some(line))),
                    msg,
                    String::from_str(
                        "Denying all warnings opts out of Rust stability guarantees; new lints in future toolchain releases will silently pass instead of alerting you.",
                    ),
                    Some(
                        String::from_str(
                            "Use `RUSTFLAGS=-D warnings` in CI instead, or explicitly deny specific lint names.",
                        ),
                    ),
                );
                r.push(f);
                assert(finding_views(r@) =~= seq![f@]);
            },
            None => {
                assert(finding_views(r@) =~= seq![]);
            },
        }
        r
    }

    fn manifest_finding(&self, root: &String, m: &PackageManifest) -> (r: Vec<Finding>)
        ensures
            finding_views(r@) == deny_manifest_findings(root@, *m),
    {
        let cv = chars_of(m.content.as_str());
        let ls = lines_of(cv.as_slice());
        let w = chars_of("warnings");
        let d = chars_of("deny");
        let pats = pats2(w.as_slice(), d.as_slice());
        let mut r: Vec<Finding> = Vec::new();
        match find_line_with_all(&ls, &pats) {
            Some(line) => {
                let mut msg = String::from_str("Package \"");
                msg.append(m.package_name.as_str());
                msg.append("\" has `[lints] warnings = \"deny\"`");
                let f = build_finding(
                    &deny_warnings_info(),
                    Some(location_at(join_path_text(root.as_str(), "Cargo.toml"), Some(line))),
                    msg,
                    String::from_str(
                        "Same risk as `#![deny(warnings)]`: future lints will be silently ignored.",
                    ),
                    Some(
                        String::from_str(
                            "Use `RUSTFLAGS=-D warnings` in CI or explicitly deny specific lint names.",
                        ),
                    ),
                );
                r.push(f);
                assert(finding_views(r@) =~= seq![f@]);
            },
            None => {
                assert(finding_views(r@) =~= seq![]);
            },
        }
        r
    }
}

impl TargetCheck for AntiDenyWarnings {
    open spec fn step_spec(&self, ctx: RuleContext, pkg: PackageInfo, target: TargetInfo) -> StepView {
        deny_step(pkg, target)
    }

    fn step(&self, ctx: &RuleContext, pkg: &PackageInfo, target: &TargetInfo) -> (r: Step) {
        if !target.exists {
            return Step::Skip;
        }
        let mut any = false;
        let mut j: usize = 0;
        while j < target.kinds.len()
            invariant
                j <= target.kinds@.len(),
                any <==> exists|i: int| 0 <= i < j && is_crate_root_kind(#[trigger] target.kinds@[i]@),
            decreases target.kinds@.len() - j,
        {
            if is_root_kind(&target.kinds[j]) {
                any = true;
            }
            j = j + 1;
        }
        if !any {
            return Step::Skip;
        }
        let c = match &target.content {
            Err(e) => {
                return Step::Fail(read_error(e));
            },
            Ok(c) => c,
        };
        let ghost f = |k: String| deny_kind_findings(*pkg, *target, c@, k);
        let mut found: Vec<Finding> = Vec::new();
        let mut i: usize = 0;
        while i < target.kinds.len()
            invariant
                i <= target.kinds@.len(),
                f == (|k: String| deny_kind_findings(*pkg, *target, c@, k)),
                finding_views(found@) == flat_map(target.kinds@.take(i as int), f),
            decreases target.kinds@.len() - i,
        {
            proof {
                lemma_flat_map_step(target.kinds@, f, i as int);
            }
            let ghost before = finding_views(found@);
            if is_root_kind(&target.kinds[i]) {
                let v = self.attr_finding(pkg, target, c);
                emit(&mut found, v);
            } else {
                assert(before + f(target.kinds@[i as int]) =~= before);
            }
            i = i + 1;
        }
        proof {
            lemma_flat_map_all(target.kinds@, f);
        }
        Step::Found(found)
    }
}

/// `kind == "lib" || kind == "bin"`.
fn is_root_kind(k: &String) -> (r: bool)
    ensures
        r == is_crate_root_kind(k@),
{
    let kc = chars_of(k.as_str());
    let lib = chars_of("lib");
    let bin = chars_of("bin");
    same(kc.as_slice(), lib.as_slice()) || same(kc.as_slice(), bin.as_slice())
}

impl Rule for AntiDenyWarnings {
    open spec fn meta(&self) -> RuleMeta {
        deny_warnings_meta()
    }

    fn id(&self) -> (r: &'static str) {
        deny_warnings_info().id
    }

    fn title(&self) -> (r: &'static str) {
        deny_warnings_info().title
    }

    fn category(&self) -> (r: Category) {
        deny_warnings_info().category
    }

    fn default_severity(&self) -> (r: Severity) {
        deny_warnings_info().severity
    }

    fn default_confidence(&self) -> (r: Confidence) {
        deny_warnings_info().confidence
    }

    fn description(&self) -> (r: &'static str) {
        deny_warnings_info().description
    }

    fn references(&self) -> (r: Vec<&'static str>) {
        deny_warnings_info().references
    }

    fn llm_fix_prompt(&self) -> (r: Option<&'static str>) {
        deny_warnings_info().llm_fix_prompt
    }

    open spec fn outcome(&self, ctx: RuleContext) -> Outcome {
        let r = run_targets_spec(*self, ctx);
        if r.error is Some {
            r
        } else {
            Outcome {
                found: r.found + flat_map(
                    ctx.manifests@,
                    |m: PackageManifest| deny_manifest_findings(ctx.workspace_root@, m),
                ),
                error: None,
            }
        }
    }

    fn check(&self, ctx: &RuleContext, out: &mut Vec<Finding>) -> (r: Result<(), RuleError>) {
        run_targets(self, ctx, out)?;
        let ghost f = |m: PackageManifest| deny_manifest_findings(ctx.workspace_root@, m);
        let ghost base = finding_views(out@);
        let mut i: usize = 0;
        while i < ctx.manifests.len()
            invariant
                i <= ctx.manifests@.len(),
                f == (|m: PackageManifest| deny_manifest_findings(ctx.workspace_root@, m)),
                finding_views(out@) == base + flat_map(ctx.manifests@.take(i as int), f),
            decreases ctx.manifests@.len() - i,
        {
            proof {
                lemma_flat_map_step(ctx.manifests@, f, i as int);
            }
            let v = self.manifest_finding(&ctx.workspace_root, &ctx.manifests[i]);
            emit(out, v);
            assert(base + flat_map(ctx.manifests@.take(i as int), f) + f(ctx.manifests@[i as int])
                =~= base + flat_map(ctx.manifests@.take(i + 1), f));
            i = i + 1;
        }
        proof {
            lemma_flat_map_all(ctx.manifests@, f);
        }
        Ok(())
    }
}

// ---------------------------------------------------------------------------
// AntiDerefPolymorphism
// ---------------------------------------------------------------------------

/// Flag `impl Deref` targeting owned non-pointer/domain fields.
pub struct AntiDerefPolymorphism;

pub open spec fn deref_polymorphism_meta() -> RuleMeta {
    RuleMeta {
        id: "anti.deref-polymorphism"@,
        title: "Suspicious Deref implementation"@,
        category: Category::AntiPattern,
        severity: Severity::Warning,
        confidence: Confidence::Medium,
        description: "Detects `impl Deref` that targets an owned non-pointer/domain field, which can surprise readers and interact badly with trait bounds."@,
        references: seq!["https://rust-unofficial.github.io/patterns/anti-patterns/deref-polymorphism.html"@],
        llm_fix_prompt: Some("Instead of implementing `Deref` to another domain struct, consider using composition with explicit method calls, or if this is a smart-pointer or collection wrapper, the `Deref` is likely appropriate."@),
    }
}

/// The metadata of `AntiDerefPolymorphism`.
pub fn deref_polymorphism_info() -> (r: RuleInfo)
    ensures
        r@ == deref_polymorphism_meta(),
{
    let references: Vec<&'static str> = vec!["https://rust-unofficial.github.io/patterns/anti-patterns/deref-polymorphism.html"];
    assert(str_views(references@) =~= deref_polymorphism_meta().references);
    RuleInfo {
        id: "anti.deref-polymorphism",
        title: "Suspicious Deref implementation",
        category: Category::AntiPattern,
        severity: Severity::Warning,
        confidence: Confidence::Medium,
        description: "Detects `impl Deref` that targets an owned non-pointer/domain field, which can surprise readers and interact badly with trait bounds.",
        references,
        llm_fix_prompt: Some("Instead of implementing `Deref` to another domain struct, consider using composition with explicit method calls, or if this is a smart-pointer or collection wrapper, the `Deref` is likely appropriate."),
    }
}

pub open spec fn smart_pointer_names() -> Seq<Seq<char>> {
    seq!["Box"@, "Rc"@, "Arc"@, "Pin"@]
}

pub open spec fn collection_names() -> Seq<Seq<char>> {
    seq!["String"@, "Vec"@, "VecDeque"@, "LinkedList"@, "BTreeMap"@, "HashMap"@, "HashSet"@, "BTreeSet"@]
}

pub open spec fn other_wrapper_names() -> Seq<Seq<char>> {
    seq!["Cow"@, "Bytes"@, "PathBuf"@, "OsString"@]
}

pub open spec fn container_words() -> Seq<Seq<char>> {
    seq!["List"@, "Collection"@, "Bag"@, "Stack"@, "Queue"@, "Deque"@, "Buffer"@, "Array"@]
}

/// A `Deref` from `ty_name` to `target_name` that is expected: smart
/// pointers, collections, common wrappers, targets `str` and slices, and
/// container-like type names.
pub open spec fn allowlisted(ty_name: Seq<char>, target_name: Seq<char>) -> bool {
    ||| contains_one_of(ty_name, smart_pointer_names())
    ||| contains_one_of(ty_name, collection_names())
    ||| contains_one_of(ty_name, other_wrapper_names())
    ||| target_name == "str"@
    ||| (starts_with(target_name, "["@) && ends_with(target_name, "]"@))
    ||| contains_one_of(ty_name, container_words())
}

/// Check if the Deref implementation is allowlisted.
pub fn is_allowlisted(ty_name: &[char], target_name: &[char]) -> (r: bool)
    ensures
        r == allowlisted(ty_name@, target_name@),
{
    let smart: Vec<&'static str> = vec!["Box", "Rc", "Arc", "Pin"];
    assert(str_views(smart@) =~= smart_pointer_names());
    if contains_any(ty_name, &smart) {
        return true;
    }
    let collections: Vec<&'static str> = vec![
        "String",
        "Vec",
        "VecDeque",
        "LinkedList",
        "BTreeMap",
        "HashMap",
        "HashSet",
        "BTreeSet",
    ];
    assert(str_views(collections@) =~= collection_names());
    if contains_any(ty_name, &collections) {
        return true;
    }
    let others: Vec<&'static str> = vec!["Cow", "Bytes", "PathBuf", "OsString"];
    assert(str_views(others@) =~= other_wrapper_names());
    if contains_any(ty_name, &others) {
        return true;
    }
    let s = chars_of("str");
    let open = chars_of("[");
    let close = chars_of("]");
    if same(target_name, s.as_slice()) || (starts_with_str(target_name, "[") && ends_with_chars(
        target_name,
        close.as_slice(),
    )) {
        return true;
    }
    let patterns: Vec<&'static str> = vec![
        "List",
        "Collection",
        "Bag",
        "Stack",
        "Queue",
        "Deque",
        "Buffer",
        "Array",
    ];
    assert(str_views(patterns@) =~= container_words());
    contains_any(ty_name, &patterns)
}

/// The deref target: the type name returned by the first `deref` method that
/// declares a return type.
pub open spec fn deref_target_from(fns: Seq<ImplFn>, i: int) -> Option<Seq<char>>
    decreases fns.len() - i,
{
    if i < 0 || i >= fns.len() {
        None
    } else if fns[i].ident@ == "deref"@ && fns[i].output is Some {
        type_name_of(fns[i].output->0)
    } else {
        deref_target_from(fns, i + 1)
    }
}

/// Extract the deref target type from `impl Deref for T { fn deref(...) -> &Target }`.
fn extract_deref_target(imp: &ImplDecl) -> (r: Option<Vec<char>>)
    ensures
        match deref_target_from(imp.fns@, 0) {
            Some(n) => r matches Some(v) && v@ == n,
            None => r is None,
        },
{
    let mut i: usize = 0;
    let deref = chars_of("deref");
    while i < imp.fns.len()
        invariant
            i <= imp.fns@.len(),
            deref@ == "deref"@,
            deref_target_from(imp.fns@, 0) == deref_target_from(imp.fns@, i as int),
        decreases imp.fns@.len() - i,
    {
        let f = &imp.fns[i];
        if same(chars_of(f.ident.as_str()).as_slice(), deref.as_slice()) {
            match &f.output {
                Some(ty) => {
                    return extract_type_name(ty);
                },
                None => {},
            }
        }
        i = i + 1;
    }
    None
}

pub open spec fn deref_message(self_type: Seq<char>, target: Seq<char>) -> Seq<char> {
    self_type + " implements `Deref` to `"@ + target + "` which may be deref polymorphism"@
}

pub open spec fn deref_suggestion(target: Seq<char>) -> Seq<char> {
    "Consider if `Deref` is truly appropriate here. If `"@ + target
        + "` is a domain type, prefer explicit method calls. If this is a smart-pointer or collection wrapper, the `Deref` is likely fine."@
}

/// Findings for one top-level item.
pub open spec fn deref_item_findings(path: Seq<char>, ls: Seq<Seq<char>>, item: Item) -> Seq<FindingView> {
    match item {
        Item::Impl(imp) => if imp.trait_name matches Some(t) && t@ == "Deref"@ {
            let self_type = type_name_or_unknown(imp.self_ty);
            match deref_target_from(imp.fns@, 0) {
                Some(target) => if !allowlisted(self_type, target) {
                    seq![
                        rule_finding(
                            deref_polymorphism_meta(),
                            Some(line_location(path, line_no_of(position(ls, seq!["impl"@, imp.self_ty_tokens@])))),
                            deref_message(self_type, target),
                            "Deref polymorphism can surprise readers who expect subtyping semantics. It interacts badly with trait bounds and differs from OO self semantics."@,
                            Some(deref_suggestion(target)),
                        ),
                    ]
                } else {
                    seq![]
                },
                None => seq![],
            }
        } else {
            seq![]
        },
        _ => seq![],
    }
}

fn is_deref_impl(imp: &ImplDecl) -> (r: bool)
    ensures
        r == (imp.trait_name matches Some(t) && t@ == "Deref"@),
{
    match &imp.trait_name {
        Some(t) => same(chars_of(t.as_str()).as_slice(), chars_of("Deref").as_slice()),
        None => false,
    }
}

fn deref_item(path: &String, ls: &Vec<Vec<char>>, item: &Item) -> (r: Vec<Finding>)
    ensures
        finding_views(r@) == deref_item_findings(path@, texts(ls@), *item),
{
    let mut r: Vec<Finding> = Vec::new();
    match item {
        Item::Impl(imp) => {
            if is_deref_impl(imp) {
                let self_type = type_name_text(&imp.self_ty);
                match extract_deref_target(imp) {
                    Some(target) => {
                        if !is_allowlisted(self_type.as_slice(), target.as_slice()) {
                            let impl_kw = chars_of("impl");
                            let tokens = chars_of(imp.self_ty_tokens.as_str());
                            let pats = pats2(impl_kw.as_slice(), tokens.as_slice());
                            let line = find_line_with_all(ls, &pats);
                            let mut msg = string_of(self_type.as_slice());
                            msg.append(" implements `Deref` to `");
                            push_chars(&mut msg, target.as_slice());
                            msg.append("` which may be deref polymorphism");
                            let mut sugg = String::from_str(
                                "Consider if `Deref` is truly appropriate here. If `",
                            );
                            push_chars(&mut sugg, target.as_slice());
                            sugg.append(
                                "` is a domain type, prefer explicit method calls. If this is a smart-pointer or collection wrapper, the `Deref` is likely fine.",
                            );
                            let f = build_finding(
                                &deref_polymorphism_info(),
                                Some(location_at(path.clone(), line)),
                                msg,
                                String::from_str(
                                    "Deref polymorphism can surprise readers who expect subtyping semantics. It interacts badly with trait bounds and differs from OO self semantics.",
                                ),
                                Some(sugg),
                            );
                            r.push(f);
                            assert(finding_views(r@) =~= seq![f@]);
                            return r;
                        }
                    },
                    None => {},
                }
            }
        },
        _ => {},
    }
    assert(finding_views(r@) =~= seq![]);
    r
}

impl TargetCheck for AntiDerefPolymorphism {
    open spec fn step_spec(&self, ctx: RuleContext, pkg: PackageInfo, target: TargetInfo) -> StepView {
        parsed_step(
            target,
            |c: Seq<char>, pf: ParsedFile|
                flat_map(pf.items@, |it: Item| deref_item_findings(target.src_path@, lines(c), it)),
        )
    }

    fn step(&self, ctx: &RuleContext, pkg: &PackageInfo, target: &TargetInfo) -> (r: Step) {
        if !target.exists {
            return Step::Skip;
        }
        let c = match &target.content {
            Err(e) => {
                return Step::Fail(read_error(e));
            },
            Ok(c) => c,
        };
        let pf = match &target.parsed {
            None => {
                return Step::Skip;
            },
            Some(pf) => pf,
        };
        let cv = chars_of(c.as_str());
        let ls = lines_of(cv.as_slice());
        let ghost f = |it: Item| deref_item_findings(target.src_path@, lines(c@), it);
        let mut found: Vec<Finding> = Vec::new();
        let mut i: usize = 0;
        while i < pf.items.len()
            invariant
                i <= pf.items@.len(),
                texts(ls@) == lines(c@),
                f == (|it: Item| deref_item_findings(target.src_path@, lines(c@), it)),
                finding_views(found@) == flat_map(pf.items@.take(i as int), f),
            decreases pf.items@.len() - i,
        {
            proof {
                lemma_flat_map_step(pf.items@, f, i as int);
            }
            let v = deref_item(&target.src_path, &ls, &pf.items[i]);
            emit(&mut found, v);
            i = i + 1;
        }
        proof {
            lemma_flat_map_all(pf.items@, f);
        }
        Step::Found(found)
    }
}

impl Rule for AntiDerefPolymorphism {
    open spec fn meta(&self) -> RuleMeta {
        deref_polymorphism_meta()
    }

    fn id(&self) -> (r: &'static str) {
        deref_polymorphism_info().id
    }

    fn title(&self) -> (r: &'static str) {
        deref_polymorphism_info().title
    }

    fn category(&self) -> (r: Category) {
        deref_polymorphism_info().category
    }

    fn default_severity(&self) -> (r: Severity) {
        deref_polymorphism_info().severity
    }

    fn default_confidence(&self) -> (r: Confidence) {
        deref_polymorphism_info().confidence
    }

    fn description(&self) -> (r: &'static str) {
        deref_polymorphism_info().description
    }

    fn references(&self) -> (r: Vec<&'static str>) {
        deref_polymorphism_info().references
    }

    fn llm_fix_prompt(&self) -> (r: Option<&'static str>) {
        deref_polymorphism_info().llm_fix_prompt
    }

    open spec fn outcome(&self, ctx: RuleContext) -> Outcome {
        run_targets_spec(*self, ctx)
    }

    fn check(&self, ctx: &RuleContext, out: &mut Vec<Finding>) -> (r: Result<(), RuleError>) {
        run_targets(self, ctx, out)
    }
}


// ---------------------------------------------------------------------------
// The findings carry their rule
// ---------------------------------------------------------------------------

proof fn lemma_deny_steps_carry(ctx: RuleContext)
    ensures
        steps_carry(AntiDenyWarnings, ctx, deny_warnings_meta()),
{
    let m = deny_warnings_meta();
    assert forall|pkg: PackageInfo, t: TargetInfo|
        #[trigger] AntiDenyWarnings.step_spec(ctx, pkg, t) matches StepView::Found(fs) ==> all_carry(m, fs) by {
        if let StepView::Found(fs) = deny_step(pkg, t) {
            if let Ok(c) = t.content {
                let f = |k: String| deny_kind_findings(pkg, t, c@, k);
                assert forall|i: int| 0 <= i < t.kinds@.len() implies all_carry(m, f(#[trigger] t.kinds@[i])) by {
                    assert(all_carry(m, deny_attr_findings(pkg, t, c@)));
                }
                lemma_all_carry_flat_map(m, t.kinds@, f);
            }
        }
    }
}

/// Every finding `AntiDenyWarnings` emits is under its name.
pub proof fn lemma_deny_warnings_carries(ctx: RuleContext)
    ensures
        all_carry(AntiDenyWarnings.meta(), AntiDenyWarnings.outcome(ctx).found),
{
    let m = deny_warnings_meta();
    lemma_deny_steps_carry(ctx);
    lemma_run_targets_carry(AntiDenyWarnings, ctx, m);
    let f = |pm: PackageManifest| deny_manifest_findings(ctx.workspace_root@, pm);
    assert forall|i: int| 0 <= i < ctx.manifests@.len() implies all_carry(m, f(#[trigger] ctx.manifests@[i])) by {}
    lemma_all_carry_flat_map(m, ctx.manifests@, f);
    lemma_all_carry_concat(m, run_targets_spec(AntiDenyWarnings, ctx).found, flat_map(ctx.manifests@, f));
}

/// Every finding `AntiDerefPolymorphism` emits is under its name.
pub proof fn lemma_deref_polymorphism_carries(ctx: RuleContext)
    ensures
        all_carry(AntiDerefPolymorphism.meta(), AntiDerefPolymorphism.outcome(ctx).found),
{
    let m = deref_polymorphism_meta();
    assert forall|pkg: PackageInfo, t: TargetInfo|
        #[trigger] AntiDerefPolymorphism.step_spec(ctx, pkg, t) matches StepView::Found(fs) ==> all_carry(m, fs) by {
        if let (true, Ok(c), Some(pf)) = (t.exists, t.content, t.parsed) {
            let f = |it: Item| deref_item_findings(t.src_path@, lines(c@), it);
            assert forall|i: int| 0 <= i < pf.items@.len() implies all_carry(m, f(#[trigger] pf.items@[i])) by {}
            lemma_all_carry_flat_map(m, pf.items@, f);
        }
    }
    lemma_run_targets_carry(AntiDerefPolymorphism, ctx, m);
}


/// A `Deref` impl for a smart-pointer wrapper or a collection wrapper (its
/// self type's name contains `Box`, `Rc`, `Arc`, `Pin`, `String`, `Vec` or
/// `HashMap`) is never reported, whatever it derefs to.
pub proof fn law_smart_pointer_deref_not_reported(path: Seq<char>, ls: Seq<Seq<char>>, imp: ImplDecl)
    requires
        ({
            let n = type_name_or_unknown(imp.self_ty);
            ||| contains(n, "Box"@)
            ||| contains(n, "Rc"@)
            ||| contains(n, "Arc"@)
            ||| contains(n, "Pin"@)
            ||| contains(n, "String"@)
            ||| contains(n, "Vec"@)
            ||| contains(n, "HashMap"@)
        }),
    ensures
        deref_item_findings(path, ls, Item::Impl(imp)) == Seq::<FindingView>::empty(),
{
    let n = type_name_or_unknown(imp.self_ty);
    let sp = smart_pointer_names();
    let cn = collection_names();
    if contains(n, "Box"@) {
        assert(contains(n, sp[0]));
    } else if contains(n, "Rc"@) {
        assert(contains(n, sp[1]));
    } else if contains(n, "Arc"@) {
        assert(contains(n, sp[2]));
    } else if contains(n, "Pin"@) {
        assert(contains(n, sp[3]));
    } else if contains(n, "String"@) {
        assert(contains(n, cn[0]));
    } else if contains(n, "Vec"@) {
        assert(contains(n, cn[1]));
    } else {
        assert(contains(n, cn[5]));
    }
    match deref_target_from(imp.fns@, 0) {
        Some(t) => assert(allowlisted(n, t)),
        None => {},
    }
}

} // verus!
