//! Idiom rules: borrowed-args, default-trait, option-iteration,
//! privacy-extensibility, temporary-mutability, return-consumed-arg-on-error,
//! mem-take-replace.
use vstd::prelude::*;

use crate::analysis::location_at;
use crate::diagnostic::{finding_views, Category, Confidence, Finding, FindingView, Severity};
use crate::rules::registry::{
    all_carry, build_finding, emit, emit_one, lemma_all_carry_concat, lemma_all_carry_flat_map,
    lemma_run_targets_carry, line_location, parsed_step, read_error, rule_finding, run_targets, run_targets_spec, str_views, text_step, Outcome, PackageInfo, Rule, RuleContext,
    RuleError, RuleInfo, RuleMeta, SourceFile, Step, StepView, TargetCheck, TargetInfo,
};
use crate::syntax::{
    extract_type_name, flat_map, is_pub_text, lemma_flat_map_all, lemma_flat_map_step,
    type_name_of, type_name_or_unknown, type_name_text, vis_text_is_pub, Attribute, StmtShape, ValueShape,
    ExprShape, Fields, FnDecl, FnInput, ImplDecl, ImplFn, Item, ParsedFile, TypeShape, Visibility,
};
use crate::text::{
    before_any, before_any_of, char_is_uppercase, chars_of, concat, contains, contains_chars,
    after_last, after_last_char, contains_str, find, find_chars, find_line_before, strip_prefix,
    strip_prefix_str, trim, trim_chars, trim_end_matches, trim_end_matches_str,
    find_line_with_all, line_no, line_no_of, line_number, lines, lines_of, pats1, pats2, position,
    pat_of, pats3, position_lines, push_chars, same, slice_chars, starts_with, starts_with_str, string_of, text_is, texts,
    uppercase_char,
};

verus! {

// ---------------------------------------------------------------------------
// IdiomBorrowedArgs
// ---------------------------------------------------------------------------

/// Flag borrowed owned types in function parameters.
pub struct IdiomBorrowedArgs;

pub open spec fn borrowed_args_meta() -> RuleMeta {
    RuleMeta {
        id: "idiom.borrowed-args"@,
        title: "Use borrowed types for arguments"@,
        category: Category::Idiom,
        severity: Severity::Info,
        confidence: Confidence::High,
        description: "Suggests `&str`, `&Path`, `&[T]`, and `&T` over `&String`, `&PathBuf`, `&Vec<T>`, and `&Box<T>` in function parameters."@,
        references: seq!["https://rust-unofficial.github.io/patterns/idioms/use-borrowed-types-for-arguments.html"@],
        llm_fix_prompt: Some("Change function parameters from `&String` to `&str`, `&Vec<T>` to `&[T]`, `&PathBuf` to `&Path`, and `&Box<T>` to `&T` to widen accepted callers."@),
    }
}

/// The metadata of `IdiomBorrowedArgs`.
pub fn borrowed_args_info() -> (r: RuleInfo)
    ensures
        r@ == borrowed_args_meta(),
{
    let references: Vec<&'static str> = vec!["https://rust-unofficial.github.io/patterns/idioms/use-borrowed-types-for-arguments.html"];
    assert(str_views(references@) =~= borrowed_args_meta().references);
    RuleInfo {
        id: "idiom.borrowed-args",
        title: "Use borrowed types for arguments",
        category: Category::Idiom,
        severity: Severity::Info,
        confidence: Confidence::High,
        description: "Suggests `&str`, `&Path`, `&[T]`, and `&T` over `&String`, `&PathBuf`, `&Vec<T>`, and `&Box<T>` in function parameters.",
        references,
        llm_fix_prompt: Some("Change function parameters from `&String` to `&str`, `&Vec<T>` to `&[T]`, `&PathBuf` to `&Path`, and `&Box<T>` to `&T` to widen accepted callers."),
    }
}

/// The borrowed form to suggest for `&Owned`.
pub open spec fn borrowed_form(owned: Seq<char>) -> Option<Seq<char>> {
    if owned == "String"@ {
        Some("str"@)
    } else if owned == "Vec"@ {
        Some("[T]"@)
    } else if owned == "PathBuf"@ {
        Some("Path"@)
    } else if owned == "Box"@ {
        Some("T"@)
    } else {
        None
    }
}

fn borrowed_form_of(owned: &[char]) -> (r: Option<&'static str>)
    ensures
        match borrowed_form(owned@) {
            Some(b) => r matches Some(s) && s@ == b,
            None => r is None,
        },
{
    if same(owned, chars_of("String").as_slice()) {
        Some("str")
    } else if same(owned, chars_of("Vec").as_slice()) {
        Some("[T]")
    } else if same(owned, chars_of("PathBuf").as_slice()) {
        Some("Path")
    } else if same(owned, chars_of("Box").as_slice()) {
        Some("T")
    } else {
        None
    }
}

/// The finding for one parameter of type `&Owned`.
pub open spec fn borrowed_input_findings(path: Seq<char>, ls: Seq<Seq<char>>, a: FnInput) -> Seq<FindingView> {
    match a {
        FnInput::Typed { ty: TypeShape::Reference(elem), .. } => match *elem {
            TypeShape::Path(Some(id)) => match borrowed_form(id@) {
                Some(b) => {
                    let line: u32 = match position(ls, seq![id@]) {
                        Some(n) => line_no(n),
                        None => 0,
                    };
                    let suggested = "&"@ + b;
                    seq![
                        rule_finding(
                            borrowed_args_meta(),
                            Some(line_location(path, Some(line))),
                            "`"@ + id@ + "` is a borrowed owned type; prefer `"@ + suggested + "`"@,
                            "Borrowed owned types reduce the number of callers that can invoke the API and add unnecessary indirection."@,
                            Some("Consider using `"@ + suggested + "` instead of `"@ + id@ + "`"@),
                        ),
                    ]
                },
                None => seq![],
            },
            _ => seq![],
        },
        _ => seq![],
    }
}

/// Findings for a public function's parameters, then for its nested
/// functions; a non-public function is not entered.
pub open spec fn borrowed_fn_findings(path: Seq<char>, ls: Seq<Seq<char>>, f: FnDecl) -> Seq<FindingView>
    decreases f,
{
    if !is_pub_text(f.vis.tokens@) {
        seq![]
    } else {
        flat_map(f.inputs@, |a: FnInput| borrowed_input_findings(path, ls, a))
            + borrowed_fns_findings(path, ls, f.nested_fns@)
    }
}

pub open spec fn borrowed_fns_findings(path: Seq<char>, ls: Seq<Seq<char>>, fs: Seq<FnDecl>) -> Seq<FindingView>
    decreases fs,
{
    if fs.len() == 0 {
        seq![]
    } else {
        borrowed_fns_findings(path, ls, fs.drop_last()) + borrowed_fn_findings(path, ls, fs.last())
    }
}

fn borrowed_input(path: &String, ls: &Vec<Vec<char>>, a: &FnInput) -> (r: Vec<Finding>)
    ensures
        finding_views(r@) == borrowed_input_findings(path@, texts(ls@), *a),
{
    let mut r: Vec<Finding> = Vec::new();
    match a {
        FnInput::Typed { ty: TypeShape::Reference(elem), .. } => match &**elem {
            TypeShape::Path(Some(id)) => {
                let idc = chars_of(id.as_str());
                match borrowed_form_of(idc.as_slice()) {
                    Some(b) => {
                        let pats = pats1(id.as_str());
                        let line: u32 = match find_line_with_all(ls, &pats) {
                            Some(l) => l,
                            None => 0,
                        };
                        let mut suggested = String::from_str("&");
                        suggested.append(b);
                        let mut msg = String::from_str("`");
                        msg.append(id.as_str());
                        msg.append("` is a borrowed owned type; prefer `");
                        msg.append(suggested.as_str());
                        msg.append("`");
                        let mut sugg = String::from_str("Consider using `");
                        sugg.append(suggested.as_str());
                        sugg.append("` instead of `");
                        sugg.append(id.as_str());
                        sugg.append("`");
                        let f = build_finding(
                            &borrowed_args_info(),
                            Some(location_at(path.clone(), Some(line))),
                            msg,
                            String::from_str(
                                "Borrowed owned types reduce the number of callers that can invoke the API and add unnecessary indirection.",
                            ),
                            Some(sugg),
                        );
                        r.push(f);
                        assert(finding_views(r@) =~= seq![f@]);
                        return r;
                    },
                    None => {},
                }
            },
            _ => {},
        },
        _ => {},
    }
    assert(finding_views(r@) =~= seq![]);
    r
}

fn borrowed_fn(path: &String, ls: &Vec<Vec<char>>, f: &FnDecl) -> (r: Vec<Finding>)
    ensures
        finding_views(r@) == borrowed_fn_findings(path@, texts(ls@), *f),
    decreases f,
{
    let mut r: Vec<Finding> = Vec::new();
    if !vis_text_is_pub(&f.vis) {
        assert(finding_views(r@) =~= seq![]);
        return r;
    }
    let ghost g = |a: FnInput| borrowed_input_findings(path@, texts(ls@), a);
    let mut i: usize = 0;
    assert(finding_views(r@) =~= flat_map(f.inputs@.take(0), g));
    while i < f.inputs.len()
        invariant
            i <= f.inputs@.len(),
            g == (|a: FnInput| borrowed_input_findings(path@, texts(ls@), a)),
            finding_views(r@) == flat_map(f.inputs@.take(i as int), g),
        decreases f.inputs@.len() - i,
    {
        proof {
            lemma_flat_map_step(f.inputs@, g, i as int);
        }
        let v = borrowed_input(path, ls, &f.inputs[i]);
        emit(&mut r, v);
        i = i + 1;
    }
    proof {
        lemma_flat_map_all(f.inputs@, g);
    }
    let ghost head = finding_views(r@);
    let mut j: usize = 0;
    while j < f.nested_fns.len()
        invariant
            j <= f.nested_fns@.len(),
            finding_views(r@) == head + borrowed_fns_findings(path@, texts(ls@), f.nested_fns@.take(j as int)),
        decreases f.nested_fns@.len() - j,
    {
        proof {
            assert(f.nested_fns@.take(j + 1).drop_last() =~= f.nested_fns@.take(j as int));
            assert(decreases_to!(*f => f.nested_fns));
        }
        let v = borrowed_fn(path, ls, &f.nested_fns[j]);
        emit(&mut r, v);
        assert(head + borrowed_fns_findings(path@, texts(ls@), f.nested_fns@.take(j as int)) + borrowed_fn_findings(path@, texts(ls@), f.nested_fns@[j as int])
            =~= head + borrowed_fns_findings(path@, texts(ls@), f.nested_fns@.take(j + 1)));
        j = j + 1;
    }
    assert(f.nested_fns@.take(f.nested_fns@.len() as int) =~= f.nested_fns@);
    r
}

impl TargetCheck for IdiomBorrowedArgs {
    open spec fn step_spec(&self, ctx: RuleContext, pkg: PackageInfo, target: TargetInfo) -> StepView {
        parsed_step(
            target,
            |c: Seq<char>, pf: ParsedFile| borrowed_fns_findings(target.src_path@, lines(c), pf.fn_roots@),
        )
    }

    fn step(&self, ctx: &RuleContext, pkg: &PackageInfo, target: &TargetInfo) -> (r: Step) {
        if !target.exists {
            return Step::Skip;
        }
        let c = match &target.content {
            Err(e) => {
                return Step::Fail(read_error(e));
            },
            Ok(c) => c,
        };
        let pf = match &target.parsed {
            None => {
                return Step::Skip;
            },
            Some(pf) => pf,
        };
        let cv = chars_of(c.as_str());
        let ls = lines_of(cv.as_slice());
        let mut found: Vec<Finding> = Vec::new();
        let mut j: usize = 0;
        assert(finding_views(found@) =~= borrowed_fns_findings(target.src_path@, lines(c@), pf.fn_roots@.take(0)));
        while j < pf.fn_roots.len()
            invariant
                j <= pf.fn_roots@.len(),
                texts(ls@) == lines(c@),
                finding_views(found@) == borrowed_fns_findings(target.src_path@, lines(c@), pf.fn_roots@.take(j as int)),
            decreases pf.fn_roots@.len() - j,
        {
            proof {
                assert(pf.fn_roots@.take(j + 1).drop_last() =~= pf.fn_roots@.take(j as int));
            }
            let v = borrowed_fn(&target.src_path, &ls, &pf.fn_roots[j]);
            emit(&mut found, v);
            j = j + 1;
        }
        assert(pf.fn_roots@.take(pf.fn_roots@.len() as int) =~= pf.fn_roots@);
        Step::Found(found)
    }
}

impl Rule for IdiomBorrowedArgs {
    open spec fn meta(&self) -> RuleMeta {
        borrowed_args_meta()
    }

    fn id(&self) -> (r: &'static str) {
        borrowed_args_info().id
    }

    fn title(&self) -> (r: &'static str) {
        borrowed_args_info().title
    }

    fn category(&self) -> (r: Category) {
        borrowed_args_info().category
    }

    fn default_severity(&self) -> (r: Severity) {
        borrowed_args_info().severity
    }

    fn default_confidence(&self) -> (r: Confidence) {
        borrowed_args_info().confidence
    }

    fn description(&self) -> (r: &'static str) {
        borrowed_args_info().description
    }

    fn references(&self) -> (r: Vec<&'static str>) {
        borrowed_args_info().references
    }

    fn llm_fix_prompt(&self) -> (r: Option<&'static str>) {
        borrowed_args_info().llm_fix_prompt
    }

    open spec fn outcome(&self, ctx: RuleContext) -> Outcome {
        run_targets_spec(*self, ctx)
    }

    fn check(&self, ctx: &RuleContext, out: &mut Vec<Finding>) -> (r: Result<(), RuleError>) {
        run_targets(self, ctx, out)
    }
}


// ---------------------------------------------------------------------------
// IdiomDefaultTrait
// ---------------------------------------------------------------------------

/// Suggest deriving/implementing Default when zero-arg new() returns defaults.
pub struct IdiomDefaultTrait;

pub open spec fn default_trait_meta() -> RuleMeta {
    RuleMeta {
        id: "idiom.default-trait"@,
        title: "Consider implementing Default"@,
        category: Category::Idiom,
        severity: Severity::Info,
        confidence: Confidence::Medium,
        description: "Suggests deriving/implementing `Default` when a zero-arg `new()` returns constant/default field values."@,
        references: seq!["https://rust-unofficial.github.io/patterns/idioms/the-default-trait.html"@],
        llm_fix_prompt: Some("Derive Default if all fields support it, or implement Default with sensible defaults."@),
    }
}

/// The metadata of `IdiomDefaultTrait`.
pub fn default_trait_info() -> (r: RuleInfo)
    ensures
        r@ == default_trait_meta(),
{
    let references: Vec<&'static str> = vec!["https://rust-unofficial.github.io/patterns/idioms/the-default-trait.html"];
    assert(str_views(references@) =~= default_trait_meta().references);
    RuleInfo {
        id: "idiom.default-trait",
        title: "Consider implementing Default",
        category: Category::Idiom,
        severity: Severity::Info,
        confidence: Confidence::Medium,
        description: "Suggests deriving/implementing `Default` when a zero-arg `new()` returns constant/default field values.",
        references,
        llm_fix_prompt: Some("Derive Default if all fields support it, or implement Default with sensible defaults."),
    }
}

/// A `#[derive(..)]` attribute whose tokens mention `Default`.
pub open spec fn is_default_derive(a: Attribute) -> bool {
    a.ident matches Some(i) && i@ == "derive"@ && contains(a.tokens@, "Default"@)
}

pub open spec fn has_default_attr(attrs: Seq<Attribute>) -> bool {
    exists|k: int| 0 <= k < attrs.len() && is_default_derive(#[trigger] attrs[k])
}

/// The type name an item records as already having `Default`: the self
/// type of an `impl Default` (empty when it has no name), or a struct that
/// derives it.
pub open spec fn default_provider(item: Item) -> Option<Seq<char>> {
    match item {
        Item::Impl(imp) => if imp.trait_name matches Some(t) && t@ == "Default"@ {
            Some(
                match type_name_of(imp.self_ty) {
                    Some(n) => n,
                    None => Seq::empty(),
                },
            )
        } else {
            None
        },
        Item::Struct(s) => if has_default_attr(s.attrs@) {
            Some(s.ident@)
        } else {
            None
        },
        _ => None,
    }
}

pub open spec fn has_default(items: Seq<Item>, name: Seq<char>) -> bool {
    exists|k: int| 0 <= k < items.len() && #[trigger] default_provider(items[k]) == Some(name)
}

/// The declared return type is named `Self`.
pub open spec fn returns_self(output: Option<TypeShape>) -> bool {
    output matches Some(t) && type_name_of(t) == Some("Self"@)
}

/// A value that is a type's default: `0`, `0.0`, `false`, `""`, `None`, or
/// a call of `new()` or `default()` without arguments.
pub open spec fn default_value(v: ValueShape) -> bool {
    match v {
        ValueShape::Lit(t) => t@ == "0"@ || t@ == "0.0"@ || t@ == "false"@ || t@ == "\"\""@,
        ValueShape::Path(p) => p@ == "None"@,
        ValueShape::Call(Some(c), n) => n == 0 && (c@ == "new"@ || c@ == "default"@),
        _ => false,
    }
}

/// `Self`, or a `Self { .. }` literal whose fields all take default values.
pub open spec fn default_self(v: ValueShape) -> bool {
    match v {
        ValueShape::Path(p) => p@ == "Self"@,
        ValueShape::Struct(p, fs) => p@ == "Self"@ && forall|k: int|
            0 <= k < fs@.len() ==> default_value(#[trigger] fs@[k]),
        _ => false,
    }
}

/// A body of a single statement that is a default-like `Self` value, or
/// `return` of one.
pub open spec fn default_like_body(b: Seq<StmtShape>) -> bool {
    b.len() == 1 && match b[0] {
        StmtShape::Expr(ValueShape::Return(Some(v))) => default_self(*v),
        StmtShape::Expr(v) => default_self(v),
        StmtShape::Other => false,
    }
}

/// The line of `fn <ident>` for a type: the first line with `fn`, the name
/// and the type's name, else the first with `fn <ident>()`.
pub open spec fn fn_line(ls: Seq<Seq<char>>, ident: Seq<char>, self_name: Seq<char>) -> Option<u32> {
    match position(ls, seq!["fn"@, ident, self_name]) {
        Some(n) => Some(line_no(n)),
        None => line_no_of(position(ls, seq!["fn "@ + ident + "()"@])),
    }
}

pub open spec fn default_fn_findings(
    path: Seq<char>,
    ls: Seq<Seq<char>>,
    items: Seq<Item>,
    imp: ImplDecl,
    f: ImplFn,
) -> Seq<FindingView> {
    let self_name = type_name_or_unknown(imp.self_ty);
    if f.ident@ == "new"@ && f.input_count == 0 && returns_self(f.output) && !has_default(
        items,
        self_name,
    ) && default_like_body(f.body@) {
        seq![
            rule_finding(
                default_trait_meta(),
                Some(line_location(path, fn_line(ls, f.ident@, self_name))),
                "`"@ + self_name
                    + "` has a zero-arg `new()` returning default-like values but does not implement `Default`"@,
                "Implementing `Default` enables generic container APIs (`T: Default`), `*_or_default` combinators, and is the conventional way to express a no-argument default in Rust."@,
                Some(
                    "Derive `Default` if all fields support it (add `#[derive(Default)]`), or implement `Default` manually with sensible defaults."@,
                ),
            ),
        ]
    } else {
        seq![]
    }
}

/// Findings for one top-level item: the zero-argument `new() -> Self` of an
/// inherent impl whose type has no `Default`.
pub open spec fn default_trait_item_findings(
    path: Seq<char>,
    c: Seq<char>,
    ls: Seq<Seq<char>>,
    items: Seq<Item>,
    item: Item,
) -> Seq<FindingView> {
    match item {
        Item::Impl(imp) => if imp.trait_name is None {
            flat_map(imp.fns@, |f: ImplFn| default_fn_findings(path, ls, items, imp, f))
        } else {
            seq![]
        },
        _ => seq![],
    }
}

fn is_default_derive_attr(a: &Attribute) -> (r: bool)
    ensures
        r == is_default_derive(*a),
{
    match &a.ident {
        Some(i) => {
            let t = chars_of(a.tokens.as_str());
            text_is(i.as_str(), "derive") && contains_str(t.as_slice(), "Default")
        },
        None => false,
    }
}

fn derives_default(attrs: &Vec<Attribute>) -> (r: bool)
    ensures
        r == has_default_attr(attrs@),
{
    let mut k: usize = 0;
    while k < attrs.len()
        invariant
            k <= attrs@.len(),
            forall|j: int| 0 <= j < k ==> !is_default_derive(#[trigger] attrs@[j]),
        decreases attrs@.len() - k,
    {
        if is_default_derive_attr(&attrs[k]) {
            return true;
        }
        k = k + 1;
    }
    false
}

fn provider_of(item: &Item) -> (r: Option<Vec<char>>)
    ensures
        match default_provider(*item) {
            Some(n) => r matches Some(v) && v@ == n,
            None => r is None,
        },
{
    match item {
        Item::Impl(imp) => match &imp.trait_name {
            Some(t) => if text_is(t.as_str(), "Default") {
                match extract_type_name(&imp.self_ty) {
                    Some(n) => Some(n),
                    None => Some(Vec::new()),
                }
            } else {
                None
            },
            None => None,
        },
        Item::Struct(s) => if derives_default(&s.attrs) {
            Some(chars_of(s.ident.as_str()))
        } else {
            None
        },
        _ => None,
    }
}

fn has_default_in(items: &Vec<Item>, name: &[char]) -> (r: bool)
    ensures
        r == has_default(items@, name@),
{
    let mut k: usize = 0;
    while k < items.len()
        invariant
            k <= items@.len(),
            forall|j: int| 0 <= j < k ==> #[trigger] default_provider(items@[j]) != Some(name@),
        decreases items@.len() - k,
    {
        match provider_of(&items[k]) {
            Some(n) => {
                if same(n.as_slice(), name) {
                    return true;
                }
            },
            None => {},
        }
        k = k + 1;
    }
    false
}

fn is_returns_self(output: &Option<TypeShape>) -> (r: bool)
    ensures
        r == returns_self(*output),
{
    match output {
        Some(t) => match extract_type_name(t) {
            Some(n) => same(n.as_slice(), chars_of("Self").as_slice()),
            None => false,
        },
        None => false,
    }
}

fn is_default_value(v: &ValueShape) -> (r: bool)
    ensures
        r == default_value(*v),
{
    match v {
        ValueShape::Lit(t) => text_is(t.as_str(), "0") || text_is(t.as_str(), "0.0") || text_is(t.as_str(), "false")
            || text_is(t.as_str(), "\"\""),
        ValueShape::Path(p) => text_is(p.as_str(), "None"),
        ValueShape::Call(Some(c), n) => *n == 0 && (text_is(c.as_str(), "new") || text_is(c.as_str(), "default")),
        _ => false,
    }
}

fn is_default_self(v: &ValueShape) -> (r: bool)
    ensures
        r == default_self(*v),
{
    match v {
        ValueShape::Path(p) => text_is(p.as_str(), "Self"),
        ValueShape::Struct(p, fs) => {
            if !text_is(p.as_str(), "Self") {
                return false;
            }
            let mut k: usize = 0;
            while k < fs.len()
                invariant
                    k <= fs@.len(),
                    default_self(*v) == forall|j: int| 0 <= j < fs@.len() ==> default_value(#[trigger] fs@[j]),
                    forall|j: int| 0 <= j < k ==> default_value(#[trigger] fs@[j]),
                decreases fs@.len() - k,
            {
                if !is_default_value(&fs[k]) {
                    assert(!default_value(fs@[k as int]));
                    return false;
                }
                k = k + 1;
            }
            true
        },
        _ => false,
    }
}

fn is_default_like(b: &Vec<StmtShape>) -> (r: bool)
    ensures
        r == default_like_body(b@),
{
    if b.len() != 1 {
        return false;
    }
    match &b[0] {
        StmtShape::Expr(ValueShape::Return(Some(v))) => is_default_self(v),
        StmtShape::Expr(v) => is_default_self(v),
        StmtShape::Other => false,
    }
}

fn find_fn_line(ls: &Vec<Vec<char>>, ident: &[char], self_name: &[char]) -> (r: Option<u32>)
    ensures
        r == fn_line(texts(ls@), ident@, self_name@),
{
    let kw = chars_of("fn");
    let pats = pats3(kw.as_slice(), ident, self_name);
    match find_line_with_all(ls, &pats) {
        Some(n) => Some(n),
        None => {
            let head = chars_of("fn ");
            let tail = chars_of("()");
            let a = concat(head.as_slice(), ident);
            let p = concat(a.as_slice(), tail.as_slice());
            let pats2 = pat_of(p.as_slice());
            find_line_with_all(ls, &pats2)
        },
    }
}

fn default_fn(
    path: &String,
    ls: &Vec<Vec<char>>,
    items: &Vec<Item>,
    imp: &ImplDecl,
    f: &ImplFn,
) -> (r: Vec<Finding>)
    ensures
        finding_views(r@) == default_fn_findings(path@, texts(ls@), items@, *imp, *f),
{
    let mut r: Vec<Finding> = Vec::new();
    let self_name = type_name_text(&imp.self_ty);
    if text_is(f.ident.as_str(), "new") && f.input_count == 0 && is_returns_self(&f.output)
        && !has_default_in(items, self_name.as_slice()) && is_default_like(&f.body) {
        let ident = chars_of(f.ident.as_str());
        let line = find_fn_line(ls, ident.as_slice(), self_name.as_slice());
        let mut msg = String::from_str("`");
        push_chars(&mut msg, self_name.as_slice());
        msg.append(
            "` has a zero-arg `new()` returning default-like values but does not implement `Default`",
        );
        let fd = build_finding(
            &default_trait_info(),
            Some(location_at(path.clone(), line)),
            msg,
            String::from_str(
                "Implementing `Default` enables generic container APIs (`T: Default`), `*_or_default` combinators, and is the conventional way to express a no-argument default in Rust.",
            ),
            Some(
                String::from_str(
                    "Derive `Default` if all fields support it (add `#[derive(Default)]`), or implement `Default` manually with sensible defaults.",
                ),
            ),
        );
        r.push(fd);
        assert(finding_views(r@) =~= seq![fd@]);
        return r;
    }
    assert(finding_views(r@) =~= seq![]);
    r
}

fn default_trait_item(
    path: &String,
    c: &Vec<char>,
    ls: &Vec<Vec<char>>,
    items: &Vec<Item>,
    item: &Item,
) -> (r: Vec<Finding>)
    ensures
        finding_views(r@) == default_trait_item_findings(path@, c@, texts(ls@), items@, *item),
{
    let mut r: Vec<Finding> = Vec::new();
    match item {
        Item::Impl(imp) => {
            if imp.trait_name.is_none() {
                let ghost g = |f: ImplFn| default_fn_findings(path@, texts(ls@), items@, *imp, f);
                let mut i: usize = 0;
                while i < imp.fns.len()
                    invariant
                        i <= imp.fns@.len(),
                        g == (|f: ImplFn| default_fn_findings(path@, texts(ls@), items@, *imp, f)),
                        finding_views(r@) == flat_map(imp.fns@.take(i as int), g),
                    decreases imp.fns@.len() - i,
                {
                    proof {
                        lemma_flat_map_step(imp.fns@, g, i as int);
                    }
                    let v = default_fn(path, ls, items, imp, &imp.fns[i]);
                    emit(&mut r, v);
                    i = i + 1;
                }
                proof {
                    lemma_flat_map_all(imp.fns@, g);
                }
                return r;
            }
        },
        _ => {},
    }
    assert(finding_views(r@) =~= seq![]);
    r
}

impl TargetCheck for IdiomDefaultTrait {
    open spec fn step_spec(&self, ctx: RuleContext, pkg: PackageInfo, target: TargetInfo) -> StepView {
        parsed_step(
            target,
            |c: Seq<char>, pf: ParsedFile|
                flat_map(pf.items@, |it: Item| default_trait_item_findings(target.src_path@, c, lines(c), pf.items@, it)),
        )
    }

    fn step(&self, ctx: &RuleContext, pkg: &PackageInfo, target: &TargetInfo) -> (r: Step) {
        if !target.exists {
            return Step::Skip;
        }
        let c = match &target.content {
            Err(e) => {
                return Step::Fail(read_error(e));
            },
            Ok(c) => c,
        };
        let pf = match &target.parsed {
            None => {
                return Step::Skip;
            },
            Some(pf) => pf,
        };
        let cv = chars_of(c.as_str());
        let ls = lines_of(cv.as_slice());
        let ghost f = |it: Item| default_trait_item_findings(target.src_path@, c@, lines(c@), pf.items@, it);
        let mut found: Vec<Finding> = Vec::new();
        let mut i: usize = 0;
        while i < pf.items.len()
            invariant
                i <= pf.items@.len(),
                cv@ == c@,
                texts(ls@) == lines(c@),
                f == (|it: Item| default_trait_item_findings(target.src_path@, c@, lines(c@), pf.items@, it)),
                finding_views(found@) == flat_map(pf.items@.take(i as int), f),
            decreases pf.items@.len() - i,
        {
            proof {
                lemma_flat_map_step(pf.items@, f, i as int);
            }
            let v = default_trait_item(&target.src_path, &cv, &ls, &pf.items, &pf.items[i]);
            emit(&mut found, v);
            i = i + 1;
        }
        proof {
            lemma_flat_map_all(pf.items@, f);
        }
        Step::Found(found)
    }
}

impl Rule for IdiomDefaultTrait {
    open spec fn meta(&self) -> RuleMeta {
        default_trait_meta()
    }

    fn id(&self) -> (r: &'static str) {
        default_trait_info().id
    }

    fn title(&self) -> (r: &'static str) {
        default_trait_info().title
    }

    fn category(&self) -> (r: Category) {
        default_trait_info().category
    }

    fn default_severity(&self) -> (r: Severity) {
        default_trait_info().severity
    }

    fn default_confidence(&self) -> (r: Confidence) {
        default_trait_info().confidence
    }

    fn description(&self) -> (r: &'static str) {
        default_trait_info().description
    }

    fn references(&self) -> (r: Vec<&'static str>) {
        default_trait_info().references
    }

    fn llm_fix_prompt(&self) -> (r: Option<&'static str>) {
        default_trait_info().llm_fix_prompt
    }

    open spec fn outcome(&self, ctx: RuleContext) -> Outcome {
        run_targets_spec(*self, ctx)
    }

    fn check(&self, ctx: &RuleContext, out: &mut Vec<Finding>) -> (r: Result<(), RuleError>) {
        run_targets(self, ctx, out)
    }
}


// ---------------------------------------------------------------------------
// IdiomOptionIteration
// ---------------------------------------------------------------------------

/// Narrowly flag for loops over Option.
pub struct IdiomOptionIteration;

pub open spec fn option_iteration_meta() -> RuleMeta {
    RuleMeta {
        id: "idiom.option-iteration"@,
        title: "Avoid for loops over Option"@,
        category: Category::Idiom,
        severity: Severity::Info,
        confidence: Confidence::Medium,
        description: "Narrowly flags `for` loops over `Option` and suggests `if let Some(..)`."@,
        references: seq!["https://rust-unofficial.github.io/patterns/idioms/iterating-over-an-option.html"@],
        llm_fix_prompt: Some("Replace `for x in option {}` with `if let Some(x) = option {}` for clarity."@),
    }
}

/// The metadata of `IdiomOptionIteration`.
pub fn option_iteration_info() -> (r: RuleInfo)
    ensures
        r@ == option_iteration_meta(),
{
    let references: Vec<&'static str> = vec!["https://rust-unofficial.github.io/patterns/idioms/iterating-over-an-option.html"];
    assert(str_views(references@) =~= option_iteration_meta().references);
    RuleInfo {
        id: "idiom.option-iteration",
        title: "Avoid for loops over Option",
        category: Category::Idiom,
        severity: Severity::Info,
        confidence: Confidence::Medium,
        description: "Narrowly flags `for` loops over `Option` and suggests `if let Some(..)`.",
        references,
        llm_fix_prompt: Some("Replace `for x in option {}` with `if let Some(x) = option {}` for clarity."),
    }
}

/// The first character of a name is uppercase (a blank stands in for an
/// empty name).
pub open spec fn starts_uppercase(s: Seq<char>) -> bool {
    if s.len() > 0 {
        uppercase_char(s[0])
    } else {
        uppercase_char(' ')
    }
}

/// An expression that looks like an `Option`: a `Some(..)`/`None(..)` call,
/// a single lower-case identifier, or a method call that is `as_ref` /
/// `as_mut` or whose receiver looks like an `Option`.
pub open spec fn option_like(e: ExprShape) -> bool
    decreases e,
{
    match e {
        ExprShape::Call(callee) => match callee {
            Some(id) => id@ == "Some"@ || id@ == "None"@,
            None => false,
        },
        ExprShape::Path(segs) => segs@.len() == 1 && !starts_uppercase(segs@[0]@),
        ExprShape::MethodCall(name, recv) => name@ == "as_ref"@ || name@ == "as_mut"@
            || option_like(*recv),
        ExprShape::Other => false,
    }
}

/// The line every finding of this rule points at: the first line with
/// `for`, or 0.
pub open spec fn first_for_line(ls: Seq<Seq<char>>) -> u32 {
    match position(ls, seq!["for"@]) {
        Some(n) => line_no(n),
        None => 0,
    }
}

pub open spec fn option_loop_findings(path: Seq<char>, ls: Seq<Seq<char>>, e: ExprShape) -> Seq<
    FindingView,
> {
    if option_like(e) {
        seq![
            rule_finding(
                option_iteration_meta(),
                Some(line_location(path, Some(first_for_line(ls)))),
                "For loop over `Option` is usually less idiomatic than `if let Some(..)`"@,
                "Option implements IntoIterator, so `for x in option` works, but it is unusual and surprising. `if let Some(x) = option` is clearer and more idiomatic."@,
                Some("Replace `for x in option {}` with `if let Some(x) = option {}`."@),
            ),
        ]
    } else {
        seq![]
    }
}

/// Findings for one top-level item: each `for` loop of a function whose
/// iterator looks like an `Option`.
pub open spec fn option_iteration_item_findings(
    path: Seq<char>,
    c: Seq<char>,
    ls: Seq<Seq<char>>,
    items: Seq<Item>,
    item: Item,
) -> Seq<FindingView> {
    match item {
        Item::Fn(f) => flat_map(f.for_iterators@, |e: ExprShape| option_loop_findings(path, ls, e)),
        _ => seq![],
    }
}

fn is_option_expr(e: &ExprShape) -> (r: bool)
    ensures
        r == option_like(*e),
    decreases e,
{
    match e {
        ExprShape::Call(callee) => match callee {
            Some(id) => text_is(id.as_str(), "Some") || text_is(id.as_str(), "None"),
            None => false,
        },
        ExprShape::Path(segs) => {
            if segs.len() != 1 {
                return false;
            }
            let first = chars_of(segs[0].as_str());
            let ch = if first.len() > 0 {
                first[0]
            } else {
                ' '
            };
            !char_is_uppercase(ch)
        },
        ExprShape::MethodCall(name, recv) => text_is(name.as_str(), "as_ref") || text_is(
            name.as_str(),
            "as_mut",
        ) || is_option_expr(recv),
        ExprShape::Other => false,
    }
}

fn option_iteration_item(
    path: &String,
    c: &Vec<char>,
    ls: &Vec<Vec<char>>,
    items: &Vec<Item>,
    item: &Item,
) -> (r: Vec<Finding>)
    ensures
        finding_views(r@) == option_iteration_item_findings(path@, c@, texts(ls@), items@, *item),
{
    let mut r: Vec<Finding> = Vec::new();
    match item {
        Item::Fn(f) => {
            let line: u32 = match find_line_with_all(ls, &pats1("for")) {
                Some(n) => n,
                None => 0,
            };
            assert(line == first_for_line(texts(ls@)));
            let ghost g = |e: ExprShape| option_loop_findings(path@, texts(ls@), e);
            let mut i: usize = 0;
            while i < f.for_iterators.len()
                invariant
                    i <= f.for_iterators@.len(),
                    line == first_for_line(texts(ls@)),
                    g == (|e: ExprShape| option_loop_findings(path@, texts(ls@), e)),
                    finding_views(r@) == flat_map(f.for_iterators@.take(i as int), g),
                decreases f.for_iterators@.len() - i,
            {
                proof {
                    lemma_flat_map_step(f.for_iterators@, g, i as int);
                }
                if is_option_expr(&f.for_iterators[i]) {
                    let fd = build_finding(
                        &option_iteration_info(),
                        Some(location_at(path.clone(), Some(line))),
                        String::from_str(
                            "For loop over `Option` is usually less idiomatic than `if let Some(..)`",
                        ),
                        String::from_str(
                            "Option implements IntoIterator, so `for x in option` works, but it is unusual and surprising. `if let Some(x) = option` is clearer and more idiomatic.",
                        ),
                        Some(
                            String::from_str(
                                "Replace `for x in option {}` with `if let Some(x) = option {}`.",
                            ),
                        ),
                    );
                    emit_one(&mut r, fd);
                } else {
                    assert(flat_map(f.for_iterators@.take(i as int), g) + g(f.for_iterators@[i as int]) =~= flat_map(f.for_iterators@.take(i as int), g));
                }
                i = i + 1;
            }
            proof {
                lemma_flat_map_all(f.for_iterators@, g);
            }
            return r;
        },
        _ => {},
    }
    assert(finding_views(r@) =~= seq![]);
    r
}

impl TargetCheck for IdiomOptionIteration {
    open spec fn step_spec(&self, ctx: RuleContext, pkg: PackageInfo, target: TargetInfo) -> StepView {
        parsed_step(
            target,
            |c: Seq<char>, pf: ParsedFile|
                flat_map(pf.items@, |it: Item| option_iteration_item_findings(target.src_path@, c, lines(c), pf.items@, it)),
        )
    }

    fn step(&self, ctx: &RuleContext, pkg: &PackageInfo, target: &TargetInfo) -> (r: Step) {
        if !target.exists {
            return Step::Skip;
        }
        let c = match &target.content {
            Err(e) => {
                return Step::Fail(read_error(e));
            },
            Ok(c) => c,
        };
        let pf = match &target.parsed {
            None => {
                return Step::Skip;
            },
            Some(pf) => pf,
        };
        let cv = chars_of(c.as_str());
        let ls = lines_of(cv.as_slice());
        let ghost f = |it: Item| option_iteration_item_findings(target.src_path@, c@, lines(c@), pf.items@, it);
        let mut found: Vec<Finding> = Vec::new();
        let mut i: usize = 0;
        while i < pf.items.len()
            invariant
                i <= pf.items@.len(),
                cv@ == c@,
                texts(ls@) == lines(c@),
                f == (|it: Item| option_iteration_item_findings(target.src_path@, c@, lines(c@), pf.items@, it)),
                finding_views(found@) == flat_map(pf.items@.take(i as int), f),
            decreases pf.items@.len() - i,
        {
            proof {
                lemma_flat_map_step(pf.items@, f, i as int);
            }
            let v = option_iteration_item(&target.src_path, &cv, &ls, &pf.items, &pf.items[i]);
            emit(&mut found, v);
            i = i + 1;
        }
        proof {
            lemma_flat_map_all(pf.items@, f);
        }
        Step::Found(found)
    }
}

impl Rule for IdiomOptionIteration {
    open spec fn meta(&self) -> RuleMeta {
        option_iteration_meta()
    }

    fn id(&self) -> (r: &'static str) {
        option_iteration_info().id
    }

    fn title(&self) -> (r: &'static str) {
        option_iteration_info().title
    }

    fn category(&self) -> (r: Category) {
        option_iteration_info().category
    }

    fn default_severity(&self) -> (r: Severity) {
        option_iteration_info().severity
    }

    fn default_confidence(&self) -> (r: Confidence) {
        option_iteration_info().confidence
    }

    fn description(&self) -> (r: &'static str) {
        option_iteration_info().description
    }

    fn references(&self) -> (r: Vec<&'static str>) {
        option_iteration_info().references
    }

    fn llm_fix_prompt(&self) -> (r: Option<&'static str>) {
        option_iteration_info().llm_fix_prompt
    }

    open spec fn outcome(&self, ctx: RuleContext) -> Outcome {
        run_targets_spec(*self, ctx)
    }

    fn check(&self, ctx: &RuleContext, out: &mut Vec<Finding>) -> (r: Result<(), RuleError>) {
        run_targets(self, ctx, out)
    }
}


// ---------------------------------------------------------------------------
// IdiomPrivacyExtensibility
// ---------------------------------------------------------------------------

/// Flag public structs/enums without #[non_exhaustive] in library crates.
pub struct IdiomPrivacyExtensibility;

pub open spec fn privacy_extensibility_meta() -> RuleMeta {
    RuleMeta {
        id: "idiom.privacy-extensibility"@,
        title: "Consider #[non_exhaustive] for public types"@,
        category: Category::Idiom,
        severity: Severity::Info,
        confidence: Confidence::Low,
        description: "For library crates, flags public structs/enums that expose fully exhaustive construction/matching."@,
        references: seq!["https://rust-unofficial.github.io/patterns/idioms/privacy-for-extensibility.html"@],
        llm_fix_prompt: Some("Consider adding `#[non_exhaustive]` to public structs/enums to preserve semver flexibility for future field/variant additions."@),
    }
}

/// The metadata of `IdiomPrivacyExtensibility`.
pub fn privacy_extensibility_info() -> (r: RuleInfo)
    ensures
        r@ == privacy_extensibility_meta(),
{
    let references: Vec<&'static str> = vec!["https://rust-unofficial.github.io/patterns/idioms/privacy-for-extensibility.html"];
    assert(str_views(references@) =~= privacy_extensibility_meta().references);
    RuleInfo {
        id: "idiom.privacy-extensibility",
        title: "Consider #[non_exhaustive] for public types",
        category: Category::Idiom,
        severity: Severity::Info,
        confidence: Confidence::Low,
        description: "For library crates, flags public structs/enums that expose fully exhaustive construction/matching.",
        references,
        llm_fix_prompt: Some("Consider adding `#[non_exhaustive]` to public structs/enums to preserve semver flexibility for future field/variant additions."),
    }
}

/// Some target of some package has the `lib` kind.
pub open spec fn is_library(ctx: RuleContext) -> bool {
    exists|p: int, t: int, k: int|
        0 <= p < ctx.packages@.len() && 0 <= t < ctx.packages@[p].targets@.len() && 0 <= k
            < ctx.packages@[p].targets@[t].kinds@.len() && (#[trigger] ctx.packages@[p].targets@[t].kinds@[k])@
            == "lib"@
}

/// Every field of a struct is declared with a `pub` visibility.
pub open spec fn all_fields_pub(fields: Fields) -> bool {
    match fields {
        Fields::Named(v) => forall|k: int| 0 <= k < v@.len() ==> is_pub_text(#[trigger] v@[k].tokens@),
        Fields::Unnamed(v) => forall|k: int|
            0 <= k < v@.len() ==> is_pub_text(#[trigger] v@[k].tokens@),
        Fields::Unit => true,
    }
}

pub open spec fn is_non_exhaustive_attr(a: Attribute) -> bool {
    a.ident matches Some(i) && i@ == "non_exhaustive"@
}

pub open spec fn has_non_exhaustive(attrs: Seq<Attribute>) -> bool {
    exists|k: int| 0 <= k < attrs.len() && is_non_exhaustive_attr(#[trigger] attrs[k])
}

/// Findings for one top-level item: a public struct with only public fields,
/// or a public enum, without `#[non_exhaustive]`, when its line is found.
pub open spec fn privacy_extensibility_item_findings(
    path: Seq<char>,
    c: Seq<char>,
    ls: Seq<Seq<char>>,
    items: Seq<Item>,
    item: Item,
) -> Seq<FindingView> {
    match item {
        Item::Struct(s) => if is_pub_text(s.vis.tokens@) && all_fields_pub(s.fields)
            && !has_non_exhaustive(s.attrs@) {
            match position(ls, seq!["struct"@, s.ident@]) {
                Some(n) => seq![
                    rule_finding(
                        privacy_extensibility_meta(),
                        Some(line_location(path, Some(line_no(n)))),
                        "Public struct `"@ + s.ident@
                            + "` has all public fields and no `#[non_exhaustive]`"@,
                        "All-public fields make it harder to add fields in a semver-compatible way."@,
                        Some(
                            "Consider adding `#[non_exhaustive]` to allow future field additions."@,
                        ),
                    ),
                ],
                None => seq![],
            }
        } else {
            seq![]
        },
        Item::Enum(e) => if is_pub_text(e.vis.tokens@) && !has_non_exhaustive(e.attrs@) {
            match position(ls, seq!["enum"@, e.ident@]) {
                Some(n) => seq![
                    rule_finding(
                        privacy_extensibility_meta(),
                        Some(line_location(path, Some(line_no(n)))),
                        "Public enum `"@ + e.ident@ + "` has no `#[non_exhaustive]`"@,
                        "Exhaustive enums make it harder to add variants in a semver-compatible way."@,
                        Some(
                            "Consider adding `#[non_exhaustive]` if future variants might be added."@,
                        ),
                    ),
                ],
                None => seq![],
            }
        } else {
            seq![]
        },
        _ => seq![],
    }
}

fn library_present(ctx: &RuleContext) -> (r: bool)
    ensures
        r == is_library(*ctx),
{
    let mut p: usize = 0;
    while p < ctx.packages.len()
        invariant
            p <= ctx.packages@.len(),
            forall|pp: int, t: int, k: int|
                0 <= pp < p && 0 <= t < ctx.packages@[pp].targets@.len() && 0 <= k
                    < ctx.packages@[pp].targets@[t].kinds@.len() ==> (
                #[trigger] ctx.packages@[pp].targets@[t].kinds@[k])@ != "lib"@,
        decreases ctx.packages@.len() - p,
    {
        let pkg = &ctx.packages[p];
        let mut t: usize = 0;
        while t < pkg.targets.len()
            invariant
                p < ctx.packages@.len(),
                pkg == ctx.packages@[p as int],
                t <= pkg.targets@.len(),
                forall|pp: int, tt: int, k: int|
                    0 <= pp < p && 0 <= tt < ctx.packages@[pp].targets@.len() && 0 <= k
                        < ctx.packages@[pp].targets@[tt].kinds@.len() ==> (
                    #[trigger] ctx.packages@[pp].targets@[tt].kinds@[k])@ != "lib"@,
                forall|tt: int, k: int|
                    0 <= tt < t && 0 <= k < pkg.targets@[tt].kinds@.len() ==> (
                    #[trigger] pkg.targets@[tt].kinds@[k])@ != "lib"@,
            decreases pkg.targets@.len() - t,
        {
            let target = &pkg.targets[t];
            let mut k: usize = 0;
            while k < target.kinds.len()
                invariant
                    p < ctx.packages@.len(),
                    pkg == ctx.packages@[p as int],
                    t < pkg.targets@.len(),
                    target == pkg.targets@[t as int],
                    k <= target.kinds@.len(),
                    forall|j: int| 0 <= j < k ==> (#[trigger] target.kinds@[j])@ != "lib"@,
                decreases target.kinds@.len() - k,
            {
                if text_is(target.kinds[k].as_str(), "lib") {
                    assert(ctx.packages@[p as int].targets@[t as int].kinds@[k as int]@ == "lib"@);
                    return true;
                }
                k = k + 1;
            }
            t = t + 1;
        }
        p = p + 1;
    }
    false
}

fn fields_all_pub(fields: &Fields) -> (r: bool)
    ensures
        r == all_fields_pub(*fields),
{
    match fields {
        Fields::Named(v) => all_vis_pub(v),
        Fields::Unnamed(v) => all_vis_pub(v),
        Fields::Unit => true,
    }
}

fn all_vis_pub(v: &Vec<Visibility>) -> (r: bool)
    ensures
        r == forall|k: int| 0 <= k < v@.len() ==> is_pub_text(#[trigger] v@[k].tokens@),
{
    let mut k: usize = 0;
    while k < v.len()
        invariant
            k <= v@.len(),
            forall|j: int| 0 <= j < k ==> is_pub_text(#[trigger] v@[j].tokens@),
        decreases v@.len() - k,
    {
        if !vis_text_is_pub(&v[k]) {
            return false;
        }
        k = k + 1;
    }
    true
}

fn marks_non_exhaustive(attrs: &Vec<Attribute>) -> (r: bool)
    ensures
        r == has_non_exhaustive(attrs@),
{
    let mut k: usize = 0;
    while k < attrs.len()
        invariant
            k <= attrs@.len(),
            forall|j: int| 0 <= j < k ==> !is_non_exhaustive_attr(#[trigger] attrs@[j]),
        decreases attrs@.len() - k,
    {
        match &attrs[k].ident {
            Some(i) => {
                if text_is(i.as_str(), "non_exhaustive") {
                    return true;
                }
            },
            None => {},
        }
        k = k + 1;
    }
    false
}

fn privacy_extensibility_item(
    path: &String,
    c: &Vec<char>,
    ls: &Vec<Vec<char>>,
    items: &Vec<Item>,
    item: &Item,
) -> (r: Vec<Finding>)
    ensures
        finding_views(r@) == privacy_extensibility_item_findings(
            path@,
            c@,
            texts(ls@),
            items@,
            *item,
        ),
{
    let mut r: Vec<Finding> = Vec::new();
    match item {
        Item::Struct(s) => {
            if vis_text_is_pub(&s.vis) && fields_all_pub(&s.fields) && !marks_non_exhaustive(
                &s.attrs,
            ) {
                let kw = chars_of("struct");
                let id = chars_of(s.ident.as_str());
                match find_line_with_all(ls, &pats2(kw.as_slice(), id.as_slice())) {
                    Some(line) => {
                        let mut msg = String::from_str("Public struct `");
                        msg.append(s.ident.as_str());
                        msg.append("` has all public fields and no `#[non_exhaustive]`");
                        let fd = build_finding(
                            &privacy_extensibility_info(),
                            Some(location_at(path.clone(), Some(line))),
                            msg,
                            String::from_str(
                                "All-public fields make it harder to add fields in a semver-compatible way.",
                            ),
                            Some(
                                String::from_str(
                                    "Consider adding `#[non_exhaustive]` to allow future field additions.",
                                ),
                            ),
                        );
                        r.push(fd);
                        assert(finding_views(r@) =~= seq![fd@]);
                        return r;
                    },
                    None => {},
                }
            }
        },
        Item::Enum(e) => {
            if vis_text_is_pub(&e.vis) && !marks_non_exhaustive(&e.attrs) {
                let kw = chars_of("enum");
                let id = chars_of(e.ident.as_str());
                match find_line_with_all(ls, &pats2(kw.as_slice(), id.as_slice())) {
                    Some(line) => {
                        let mut msg = String::from_str("Public enum `");
                        msg.append(e.ident.as_str());
                        msg.append("` has no `#[non_exhaustive]`");
                        let fd = build_finding(
                            &privacy_extensibility_info(),
                            Some(location_at(path.clone(), Some(line))),
                            msg,
                            String::from_str(
                                "Exhaustive enums make it harder to add variants in a semver-compatible way.",
                            ),
                            Some(
                                String::from_str(
                                    "Consider adding `#[non_exhaustive]` if future variants might be added.",
                                ),
                            ),
                        );
                        r.push(fd);
                        assert(finding_views(r@) =~= seq![fd@]);
                        return r;
                    },
                    None => {},
                }
            }
        },
        _ => {},
    }
    assert(finding_views(r@) =~= seq![]);
    r
}

/// What the rule does with one source file: stop at one that cannot be
/// read, pass over one that does not parse, else look at its items.
pub open spec fn privacy_source_step(f: SourceFile) -> StepView {
    match f.content {
        Err(e) => StepView::Fail(e@),
        Ok(c) => match f.parsed {
            None => StepView::Skip,
            Some(pf) => StepView::Found(
                flat_map(
                    pf.items@,
                    |it: Item| privacy_extensibility_item_findings(f.path@, c@, lines(c@), pf.items@, it),
                ),
            ),
        },
    }
}

/// The rule's outcome from package `p`, source file `s` on.
pub open spec fn privacy_from(ctx: RuleContext, p: int, s: int) -> Outcome
    decreases ctx.packages@.len() - p, ctx.packages@[p].source_files@.len() - s,
{
    if p < 0 || p >= ctx.packages@.len() {
        Outcome { found: seq![], error: None }
    } else if s < 0 || s >= ctx.packages@[p].source_files@.len() {
        privacy_from(ctx, p + 1, 0)
    } else {
        match privacy_source_step(ctx.packages@[p].source_files@[s]) {
            StepView::Skip => privacy_from(ctx, p, s + 1),
            StepView::Fail(e) => Outcome { found: seq![], error: Some(e) },
            StepView::Found(fs) => {
                let rest = privacy_from(ctx, p, s + 1);
                Outcome { found: fs + rest.found, error: rest.error }
            },
        }
    }
}

fn privacy_source(f: &SourceFile) -> (r: Step)
    ensures
        r@ == privacy_source_step(*f),
{
    let c = match &f.content {
        Err(e) => {
            return Step::Fail(read_error(e));
        },
        Ok(c) => c,
    };
    let pf = match &f.parsed {
        None => {
            return Step::Skip;
        },
        Some(pf) => pf,
    };
    let cv = chars_of(c.as_str());
    let ls = lines_of(cv.as_slice());
    let ghost g = |it: Item| privacy_extensibility_item_findings(f.path@, c@, lines(c@), pf.items@, it);
    let mut found: Vec<Finding> = Vec::new();
    let mut i: usize = 0;
    while i < pf.items.len()
        invariant
            i <= pf.items@.len(),
            cv@ == c@,
            texts(ls@) == lines(c@),
            g == (|it: Item| privacy_extensibility_item_findings(f.path@, c@, lines(c@), pf.items@, it)),
            finding_views(found@) == flat_map(pf.items@.take(i as int), g),
        decreases pf.items@.len() - i,
    {
        proof {
            lemma_flat_map_step(pf.items@, g, i as int);
        }
        let v = privacy_extensibility_item(&f.path, &cv, &ls, &pf.items, &pf.items[i]);
        emit(&mut found, v);
        i = i + 1;
    }
    proof {
        lemma_flat_map_all(pf.items@, g);
    }
    Step::Found(found)
}

/// Look at every source file of every package.
fn privacy_walk(ctx: &RuleContext, out: &mut Vec<Finding>) -> (r: Result<(), RuleError>)
    ensures
        finding_views(final(out)@) == finding_views(old(out)@) + privacy_from(*ctx, 0, 0).found,
        r is Err <==> privacy_from(*ctx, 0, 0).error is Some,
        r matches Err(e) ==> privacy_from(*ctx, 0, 0).error == Some(e.message@),
{
    let np = ctx.packages.len();
    let mut p: usize = 0;
    while p < np
        invariant
            np == ctx.packages@.len(),
            p <= np,
            finding_views(out@) + privacy_from(*ctx, p as int, 0).found == finding_views(old(out)@)
                + privacy_from(*ctx, 0, 0).found,
            privacy_from(*ctx, p as int, 0).error == privacy_from(*ctx, 0, 0).error,
        decreases np - p,
    {
        let pkg = &ctx.packages[p];
        let ns = pkg.source_files.len();
        let mut s: usize = 0;
        while s < ns
            invariant
                np == ctx.packages@.len(),
                p < np,
                pkg == ctx.packages@[p as int],
                ns == pkg.source_files@.len(),
                s <= ns,
                finding_views(out@) + privacy_from(*ctx, p as int, s as int).found
                    == finding_views(old(out)@) + privacy_from(*ctx, 0, 0).found,
                privacy_from(*ctx, p as int, s as int).error == privacy_from(*ctx, 0, 0).error,
            decreases ns - s,
        {
            match privacy_source(&pkg.source_files[s]) {
                Step::Skip => {},
                Step::Fail(e) => {
                    assert(finding_views(out@) == finding_views(old(out)@) + privacy_from(
                        *ctx,
                        0,
                        0,
                    ).found);
                    return Err(e);
                },
                Step::Found(found) => {
                    let ghost before = finding_views(out@);
                    let ghost fs = finding_views(found@);
                    emit(out, found);
                    assert(before + (fs + privacy_from(*ctx, p as int, s + 1).found) =~= (before
                        + fs) + privacy_from(*ctx, p as int, s + 1).found);
                },
            }
            s = s + 1;
        }
        p = p + 1;
    }
    assert(finding_views(out@) + Seq::<FindingView>::empty() =~= finding_views(out@));
    Ok(())
}

impl Rule for IdiomPrivacyExtensibility {
    open spec fn meta(&self) -> RuleMeta {
        privacy_extensibility_meta()
    }

    fn id(&self) -> (r: &'static str) {
        privacy_extensibility_info().id
    }

    fn title(&self) -> (r: &'static str) {
        privacy_extensibility_info().title
    }

    fn category(&self) -> (r: Category) {
        privacy_extensibility_info().category
    }

    fn default_severity(&self) -> (r: Severity) {
        privacy_extensibility_info().severity
    }

    fn default_confidence(&self) -> (r: Confidence) {
        privacy_extensibility_info().confidence
    }

    fn description(&self) -> (r: &'static str) {
        privacy_extensibility_info().description
    }

    fn references(&self) -> (r: Vec<&'static str>) {
        privacy_extensibility_info().references
    }

    fn llm_fix_prompt(&self) -> (r: Option<&'static str>) {
        privacy_extensibility_info().llm_fix_prompt
    }

    /// Nothing is looked at unless the workspace has a library target;
    /// then every source file of every package is.
    open spec fn outcome(&self, ctx: RuleContext) -> Outcome {
        if is_library(ctx) {
            privacy_from(ctx, 0, 0)
        } else {
            Outcome { found: seq![], error: None }
        }
    }

    fn check(&self, ctx: &RuleContext, out: &mut Vec<Finding>) -> (r: Result<(), RuleError>) {
        if !library_present(ctx) {
            assert(finding_views(out@) =~= finding_views(old(out)@) + Seq::<FindingView>::empty());
            return Ok(());
        }
        privacy_walk(ctx, out)
    }
}


// ---------------------------------------------------------------------------
// IdiomTemporaryMutability
// ---------------------------------------------------------------------------

/// Flag variables declared `mut` but never modified after initial assignment.
///
/// Conservative heuristic: checks if a `mut` binding has any `=` assignment
/// after its declaration line. Only scans public function bodies.
pub struct IdiomTemporaryMutability;

pub open spec fn temporary_mutability_meta() -> RuleMeta {
    RuleMeta {
        id: "idiom.temporary-mutability"@,
        title: "Consider removing unnecessary `mut` declarations"@,
        category: Category::Idiom,
        severity: Severity::Info,
        confidence: Confidence::Medium,
        description: "Detects `mut` bindings that are only assigned once, suggesting `let` instead of `let mut`."@,
        references: seq!["https://rust-unofficial.github.io/patterns/idioms/temporary-mutability.html"@],
        llm_fix_prompt: Some("Remove `mut` from bindings that are assigned only once. This clarifies intent and enables compiler optimizations."@),
    }
}

/// The metadata of `IdiomTemporaryMutability`.
pub fn temporary_mutability_info() -> (r: RuleInfo)
    ensures
        r@ == temporary_mutability_meta(),
{
    let references: Vec<&'static str> = vec!["https://rust-unofficial.github.io/patterns/idioms/temporary-mutability.html"];
    assert(str_views(references@) =~= temporary_mutability_meta().references);
    RuleInfo {
        id: "idiom.temporary-mutability",
        title: "Consider removing unnecessary `mut` declarations",
        category: Category::Idiom,
        severity: Severity::Info,
        confidence: Confidence::Medium,
        description: "Detects `mut` bindings that are only assigned once, suggesting `let` instead of `let mut`.",
        references,
        llm_fix_prompt: Some("Remove `mut` from bindings that are assigned only once. This clarifies intent and enables compiler optimizations."),
    }
}

/// Where the text of `fn <ident>` starts (0 when it is not found).
pub open spec fn tm_fn_start(c: Seq<char>, ident: Seq<char>) -> int {
    match find(c, "fn "@ + ident) {
        Some(k) => k,
        None => 0,
    }
}

/// Just past the first `{` at or after `from` (or `from` itself).
pub open spec fn tm_body_start(c: Seq<char>, from: int) -> int {
    match find(c.subrange(from, c.len() as int), seq!['{']) {
        Some(o) => from + o + 1,
        None => from,
    }
}

/// The first `}` at or after `from`.
pub open spec fn tm_body_end(c: Seq<char>, from: int) -> Option<int> {
    match find(c.subrange(from, c.len() as int), seq!['}']) {
        Some(o) => Some(from + o),
        None => None,
    }
}

/// The variable a `let mut` line declares, if the line is one.
pub open spec fn tm_var(l: Seq<char>) -> Option<Seq<char>> {
    let t = trim(l);
    let rest = match strip_prefix(t, "let mut "@) {
        Some(r) => Some(r),
        None => strip_prefix(t, "let mut\t"@),
    };
    match rest {
        Some(r) => {
            let v = before_any(r, seq!['=', ' ', '\t', ';']);
            if v.len() > 0 {
                Some(v)
            } else {
                None
            }
        },
        None => None,
    }
}

/// A trimmed line that assigns to, or mutates, `v`.
pub open spec fn reassigns(t: Seq<char>, v: Seq<char>) -> bool {
    ||| contains(t, v + " ="@)
    ||| contains(t, v + ".push("@)
    ||| contains(t, v + ".clear("@)
    ||| contains(t, v + ".insert("@)
    ||| contains(t, v + ".extend("@)
    ||| contains(t, v + "["@)
}

/// No line but the first of `als` reassigns `v`.
pub open spec fn no_reassignment(als: Seq<Seq<char>>, v: Seq<char>) -> bool {
    forall|k: int| 1 <= k < als.len() ==> !reassigns(trim(#[trigger] als[k]), v)
}

/// The finding for body line `idx` (of a body whose lines are `bls` and
/// whose first line is line `bsl` of the file): a `let mut v` that no later
/// line of the body reassigns.
pub open spec fn tm_line_findings(
    path: Seq<char>,
    bsl: nat,
    bls: Seq<Seq<char>>,
    idx: int,
) -> Seq<FindingView> {
    match tm_var(bls[idx]) {
        Some(v) => {
            let lif = (bsl + idx) as u32;
            if no_reassignment(bls.skip(idx), v) {
                seq![
                    rule_finding(
                        temporary_mutability_meta(),
                        Some(line_location(path, Some(lif))),
                        "`"@ + v + "` is declared `mut` but never reassigned; consider `let`"@,
                        "Unnecessary `mut` declarations obscure the intent that a value is constant after initialization. Removing them enables compiler optimizations and improves code readability."@,
                        Some("Change `let mut "@ + v + "` to `let "@ + v + "`"@),
                    ),
                ]
            } else {
                seq![]
            }
        },
        None => seq![],
    }
}

/// Findings for the first `n` lines of a body.
pub open spec fn tm_body_findings(
    path: Seq<char>,
    bsl: nat,
    bls: Seq<Seq<char>>,
    n: int,
) -> Seq<FindingView>
    decreases n,
{
    if n <= 0 {
        seq![]
    } else {
        tm_body_findings(path, bsl, bls, n - 1) + tm_line_findings(path, bsl, bls, n - 1)
    }
}

/// Findings for one top-level item: a public function, whose body is taken
/// to run from the first `{` after `fn <name>` to the next `}`.
pub open spec fn temporary_mutability_item_findings(
    path: Seq<char>,
    c: Seq<char>,
    ls: Seq<Seq<char>>,
    items: Seq<Item>,
    item: Item,
) -> Seq<FindingView> {
    match item {
        Item::Fn(f) => if !is_pub_text(f.vis.tokens@) {
            seq![]
        } else {
            let bs = tm_body_start(c, tm_fn_start(c, f.ident@));
            match tm_body_end(c, bs) {
                Some(end) => {
                    let bls = lines(c.subrange(bs, end));
                    tm_body_findings(
                        path,
                        lines(c.subrange(0, bs)).len(),
                        bls,
                        bls.len() as int,
                    )
                },
                None => seq![],
            }
        },
        _ => seq![],
    }
}

/// `v` followed by `suffix`.
pub fn with_suffix(v: &[char], suffix: &str) -> (r: Vec<char>)
    ensures
        r@ == v@ + suffix@,
{
    let s = chars_of(suffix);
    concat(v, s.as_slice())
}

fn is_reassignment(t: &[char], v: &[char]) -> (r: bool)
    ensures
        r == reassigns(t@, v@),
{
    contains_chars(t, with_suffix(v, " =").as_slice()) || contains_chars(
        t,
        with_suffix(v, ".push(").as_slice(),
    ) || contains_chars(t, with_suffix(v, ".clear(").as_slice()) || contains_chars(
        t,
        with_suffix(v, ".insert(").as_slice(),
    ) || contains_chars(t, with_suffix(v, ".extend(").as_slice()) || contains_chars(
        t,
        with_suffix(v, "[").as_slice(),
    )
}

fn declared_var(l: &[char]) -> (r: Option<Vec<char>>)
    ensures
        match tm_var(l@) {
            Some(v) => r matches Some(x) && x@ == v,
            None => r is None,
        },
{
    let t = trim_chars(l);
    let rest = match strip_prefix_str(t.as_slice(), "let mut ") {
        Some(r) => r,
        None => match strip_prefix_str(t.as_slice(), "let mut\t") {
            Some(r) => r,
            None => {
                return None;
            },
        },
    };
    let stops: Vec<char> = vec!['=', ' ', '\t', ';'];
    assert(stops@ =~= seq!['=', ' ', '\t', ';']);
    let v = before_any_of(rest.as_slice(), stops.as_slice());
    if v.len() > 0 {
        Some(v)
    } else {
        None
    }
}

fn tm_line(path: &String, bsl: usize, bls: &Vec<Vec<char>>, idx: usize) -> (r: Vec<Finding>)
    requires
        idx < bls.len(),
    ensures
        finding_views(r@) == tm_line_findings(path@, bsl as nat, texts(bls@), idx as int),
{
    let mut r: Vec<Finding> = Vec::new();
    proof {
        assert(texts(bls@)[idx as int] == bls@[idx as int]@);
    }
    let v = match declared_var(bls[idx].as_slice()) {
        Some(v) => v,
        None => {
            assert(finding_views(r@) =~= seq![]);
            return r;
        },
    };
    #[verifier::truncate]
    let lif: u32 = (bsl as u128 + idx as u128) as u32;
    assert(lif == (bsl as nat + idx as int) as u32);
    let ghost rest = texts(bls@).skip(idx as int);
    let mut k: usize = idx + 1;
    while k < bls.len()
        invariant
            idx < k,
            r@.len() == 0,
            idx < bls@.len(),
            tm_var(texts(bls@)[idx as int]) == Some(v@),
            lif == (bsl as nat + idx as int) as u32,
            rest == texts(bls@).skip(idx as int),
            forall|j: int|
                1 <= j < k - idx && j < rest.len() ==> !reassigns(trim(#[trigger] rest[j]), v@),
        decreases bls@.len() - k,
    {
        let t = trim_chars(bls[k].as_slice());
        if is_reassignment(t.as_slice(), v.as_slice()) {
            assert(texts(bls@)[k as int] == bls@[k as int]@);
            assert(rest[k - idx] == texts(bls@)[k as int]);
            assert(reassigns(trim(rest[k - idx]), v@));
            assert(!no_reassignment(rest, v@));
            assert(finding_views(r@) =~= seq![]);
            return r;
        }
        assert(texts(bls@)[k as int] == bls@[k as int]@);
        assert(rest[k - idx] == texts(bls@)[k as int]);
        k = k + 1;
    }
    assert(no_reassignment(rest, v@));
    let mut msg = String::from_str("`");
    push_chars(&mut msg, v.as_slice());
    msg.append("` is declared `mut` but never reassigned; consider `let`");
    let mut sugg = String::from_str("Change `let mut ");
    push_chars(&mut sugg, v.as_slice());
    sugg.append("` to `let ");
    push_chars(&mut sugg, v.as_slice());
    sugg.append("`");
    let fd = build_finding(
        &temporary_mutability_info(),
        Some(location_at(path.clone(), Some(lif))),
        msg,
        String::from_str(
            "Unnecessary `mut` declarations obscure the intent that a value is constant after initialization. Removing them enables compiler optimizations and improves code readability.",
        ),
        Some(sugg),
    );
    r.push(fd);
    assert(finding_views(r@) =~= seq![fd@]);
    r
}

fn temporary_mutability_item(
    path: &String,
    c: &Vec<char>,
    ls: &Vec<Vec<char>>,
    items: &Vec<Item>,
    item: &Item,
) -> (r: Vec<Finding>)
    ensures
        finding_views(r@) == temporary_mutability_item_findings(
            path@,
            c@,
            texts(ls@),
            items@,
            *item,
        ),
{
    let mut r: Vec<Finding> = Vec::new();
    let f = match item {
        Item::Fn(f) => f,
        _ => {
            assert(finding_views(r@) =~= seq![]);
            return r;
        },
    };
    if !vis_text_is_pub(&f.vis) {
        assert(finding_views(r@) =~= seq![]);
        return r;
    }
    let id = chars_of(f.ident.as_str());
    let pat = with_suffix(chars_of("fn ").as_slice(), f.ident.as_str());
    assert(pat@ == "fn "@ + f.ident@);
    let fs: usize = match find_chars(c.as_slice(), pat.as_slice()) {
        Some(k) => k,
        None => 0,
    };
    let tail1 = slice_chars(c.as_slice(), fs, c.len());
    let brace: Vec<char> = vec!['{'];
    assert(brace@ =~= seq!['{']);
    let bs: usize = match find_chars(tail1.as_slice(), brace.as_slice()) {
        Some(o) => fs + o + 1,
        None => fs,
    };
    assert(bs == tm_body_start(c@, tm_fn_start(c@, f.ident@)));
    let tail2 = slice_chars(c.as_slice(), bs, c.len());
    let close: Vec<char> = vec!['}'];
    assert(close@ =~= seq!['}']);
    let end: usize = match find_chars(tail2.as_slice(), close.as_slice()) {
        Some(o) => bs + o,
        None => {
            assert(finding_views(r@) =~= seq![]);
            return r;
        },
    };
    let body = slice_chars(c.as_slice(), bs, end);
    let before = slice_chars(c.as_slice(), 0, bs);
    let bsl = lines_of(before.as_slice()).len();
    let bls = lines_of(body.as_slice());
    let mut i: usize = 0;
    while i < bls.len()
        invariant
            i <= bls@.len(),
            end <= c@.len(),
            bsl == lines(c@.subrange(0, bs as int)).len(),
            texts(bls@) == lines(c@.subrange(bs as int, end as int)),
            finding_views(r@) == tm_body_findings(path@, bsl as nat, texts(bls@), i as int),
        decreases bls@.len() - i,
    {
        let v = tm_line(path, bsl, &bls, i);
        emit(&mut r, v);
        i = i + 1;
    }
    r
}

impl TargetCheck for IdiomTemporaryMutability {
    open spec fn step_spec(&self, ctx: RuleContext, pkg: PackageInfo, target: TargetInfo) -> StepView {
        parsed_step(
            target,
            |c: Seq<char>, pf: ParsedFile|
                flat_map(pf.items@, |it: Item| temporary_mutability_item_findings(target.src_path@, c, lines(c), pf.items@, it)),
        )
    }

    fn step(&self, ctx: &RuleContext, pkg: &PackageInfo, target: &TargetInfo) -> (r: Step) {
        if !target.exists {
            return Step::Skip;
        }
        let c = match &target.content {
            Err(e) => {
                return Step::Fail(read_error(e));
            },
            Ok(c) => c,
        };
        let pf = match &target.parsed {
            None => {
                return Step::Skip;
            },
            Some(pf) => pf,
        };
        let cv = chars_of(c.as_str());
        let ls = lines_of(cv.as_slice());
        let ghost f = |it: Item| temporary_mutability_item_findings(target.src_path@, c@, lines(c@), pf.items@, it);
        let mut found: Vec<Finding> = Vec::new();
        let mut i: usize = 0;
        while i < pf.items.len()
            invariant
                i <= pf.items@.len(),
                cv@ == c@,
                texts(ls@) == lines(c@),
                f == (|it: Item| temporary_mutability_item_findings(target.src_path@, c@, lines(c@), pf.items@, it)),
                finding_views(found@) == flat_map(pf.items@.take(i as int), f),
            decreases pf.items@.len() - i,
        {
            proof {
                lemma_flat_map_step(pf.items@, f, i as int);
            }
            let v = temporary_mutability_item(&target.src_path, &cv, &ls, &pf.items, &pf.items[i]);
            emit(&mut found, v);
            i = i + 1;
        }
        proof {
            lemma_flat_map_all(pf.items@, f);
        }
        Step::Found(found)
    }
}

impl Rule for IdiomTemporaryMutability {
    open spec fn meta(&self) -> RuleMeta {
        temporary_mutability_meta()
    }

    fn id(&self) -> (r: &'static str) {
        temporary_mutability_info().id
    }

    fn title(&self) -> (r: &'static str) {
        temporary_mutability_info().title
    }

    fn category(&self) -> (r: Category) {
        temporary_mutability_info().category
    }

    fn default_severity(&self) -> (r: Severity) {
        temporary_mutability_info().severity
    }

    fn default_confidence(&self) -> (r: Confidence) {
        temporary_mutability_info().confidence
    }

    fn description(&self) -> (r: &'static str) {
        temporary_mutability_info().description
    }

    fn references(&self) -> (r: Vec<&'static str>) {
        temporary_mutability_info().references
    }

    fn llm_fix_prompt(&self) -> (r: Option<&'static str>) {
        temporary_mutability_info().llm_fix_prompt
    }

    open spec fn outcome(&self, ctx: RuleContext) -> Outcome {
        run_targets_spec(*self, ctx)
    }

    fn check(&self, ctx: &RuleContext, out: &mut Vec<Finding>) -> (r: Result<(), RuleError>) {
        run_targets(self, ctx, out)
    }
}


// ---------------------------------------------------------------------------
// IdiomReturnConsumedArgOnError
// ---------------------------------------------------------------------------

/// Flag public functions returning `Result<T, E>` where `E` could contain
/// the consumed argument for error context.
///
/// Conservative heuristic: flags functions where the return type is
/// `Result<_, E>` and the parameter types are not references.
pub struct IdiomReturnConsumedArgOnError;

pub open spec fn return_consumed_arg_meta() -> RuleMeta {
    RuleMeta {
        id: "idiom.return-consumed-arg-on-error"@,
        title: "Consider returning consumed argument in error"@,
        category: Category::Idiom,
        severity: Severity::Info,
        confidence: Confidence::Medium,
        description: "Suggests including consumed arguments in error variants so callers can debug failures with context about what was attempted."@,
        references: seq!["https://rust-unofficial.github.io/patterns/anti-patterns/clippy/return_self_not_must_use.html"@],
        llm_fix_prompt: Some("Include consumed arguments in error variants so that error messages provide context about what was attempted."@),
    }
}

/// The metadata of `IdiomReturnConsumedArgOnError`.
pub fn return_consumed_arg_info() -> (r: RuleInfo)
    ensures
        r@ == return_consumed_arg_meta(),
{
    let references: Vec<&'static str> = vec!["https://rust-unofficial.github.io/patterns/anti-patterns/clippy/return_self_not_must_use.html"];
    assert(str_views(references@) =~= return_consumed_arg_meta().references);
    RuleInfo {
        id: "idiom.return-consumed-arg-on-error",
        title: "Consider returning consumed argument in error",
        category: Category::Idiom,
        severity: Severity::Info,
        confidence: Confidence::Medium,
        description: "Suggests including consumed arguments in error variants so callers can debug failures with context about what was attempted.",
        references,
        llm_fix_prompt: Some("Include consumed arguments in error variants so that error messages provide context about what was attempted."),
    }
}

/// Names that are never flagged.
pub open spec fn is_constructor_name(n: Seq<char>) -> bool {
    n == "Ok"@ || n == "Err"@ || n == "Some"@ || n == "None"@ || n == "Default"@ || n == "new"@
}

/// The declared return type is a path whose last segment is `Result`.
pub open spec fn returns_result(output: Option<TypeShape>) -> bool {
    match output {
        Some(t) => match t {
            TypeShape::Path(last) => last matches Some(id) && id@ == "Result"@,
            _ => false,
        },
        None => false,
    }
}

/// A typed parameter whose type text does not start with `&`.
pub open spec fn is_owned_input(a: FnInput) -> bool {
    match a {
        FnInput::Typed { tokens, .. } => !starts_with(tokens@, "&"@) && !starts_with(
            tokens@,
            "& mut"@,
        ),
        FnInput::Receiver { .. } => false,
    }
}

pub open spec fn has_owned_input(inputs: Seq<FnInput>) -> bool {
    exists|k: int| 0 <= k < inputs.len() && is_owned_input(#[trigger] inputs[k])
}

/// The first line with `fn` and the name, or 0.
pub open spec fn fn_name_line(ls: Seq<Seq<char>>, name: Seq<char>) -> u32 {
    match position(ls, seq!["fn"@, name]) {
        Some(n) => line_no(n),
        None => 0,
    }
}

/// Findings for one top-level item: a public function, not named like a
/// constructor, returning `Result` and taking an owned parameter.
pub open spec fn return_consumed_arg_item_findings(
    path: Seq<char>,
    c: Seq<char>,
    ls: Seq<Seq<char>>,
    items: Seq<Item>,
    item: Item,
) -> Seq<FindingView> {
    match item {
        Item::Fn(f) => if is_pub_text(f.vis.tokens@) && !is_constructor_name(f.ident@)
            && returns_result(f.output) && has_owned_input(f.inputs@) {
            seq![
                rule_finding(
                    return_consumed_arg_meta(),
                    Some(line_location(path, Some(fn_name_line(ls, f.ident@)))),
                    "Function `"@ + f.ident@
                        + "` returns `Result` with owned arguments; consider including consumed args in error variants for better error context"@,
                    "When a function consumes arguments and can fail, including the consumed values in the error type helps callers debug what went wrong without re-running the function."@,
                    Some(
                        "Add consumed argument types to the error enum so that `Err(e)` includes context about what was attempted."@,
                    ),
                ),
            ]
        } else {
            seq![]
        },
        _ => seq![],
    }
}

fn constructor_name(n: &str) -> (r: bool)
    ensures
        r == is_constructor_name(n@),
{
    text_is(n, "Ok") || text_is(n, "Err") || text_is(n, "Some") || text_is(n, "None") || text_is(
        n,
        "Default",
    ) || text_is(n, "new")
}

fn is_result_type(output: &Option<TypeShape>) -> (r: bool)
    ensures
        r == returns_result(*output),
{
    match output {
        Some(t) => match t {
            TypeShape::Path(last) => match last {
                Some(id) => text_is(id.as_str(), "Result"),
                None => false,
            },
            _ => false,
        },
        None => false,
    }
}

fn any_owned_input(inputs: &Vec<FnInput>) -> (r: bool)
    ensures
        r == has_owned_input(inputs@),
{
    let mut k: usize = 0;
    while k < inputs.len()
        invariant
            k <= inputs@.len(),
            forall|j: int| 0 <= j < k ==> !is_owned_input(#[trigger] inputs@[j]),
        decreases inputs@.len() - k,
    {
        match &inputs[k] {
            FnInput::Typed { tokens, .. } => {
                let t = chars_of(tokens.as_str());
                if !starts_with_str(t.as_slice(), "&") && !starts_with_str(t.as_slice(), "& mut") {
                    return true;
                }
            },
            FnInput::Receiver { .. } => {},
        }
        k = k + 1;
    }
    false
}

pub fn find_fn_name_line(ls: &Vec<Vec<char>>, name: &str) -> (r: u32)
    ensures
        r == fn_name_line(texts(ls@), name@),
{
    let kw = chars_of("fn");
    let id = chars_of(name);
    match find_line_with_all(ls, &pats2(kw.as_slice(), id.as_slice())) {
        Some(n) => n,
        None => 0,
    }
}

fn return_consumed_arg_item(
    path: &String,
    c: &Vec<char>,
    ls: &Vec<Vec<char>>,
    items: &Vec<Item>,
    item: &Item,
) -> (r: Vec<Finding>)
    ensures
        finding_views(r@) == return_consumed_arg_item_findings(
            path@,
            c@,
            texts(ls@),
            items@,
            *item,
        ),
{
    let mut r: Vec<Finding> = Vec::new();
    match item {
        Item::Fn(f) => {
            if vis_text_is_pub(&f.vis) && !constructor_name(f.ident.as_str()) && is_result_type(
                &f.output,
            ) && any_owned_input(&f.inputs) {
                let line = find_fn_name_line(ls, f.ident.as_str());
                let mut msg = String::from_str("Function `");
                msg.append(f.ident.as_str());
                msg.append(
                    "` returns `Result` with owned arguments; consider including consumed args in error variants for better error context",
                );
                let fd = build_finding(
                    &return_consumed_arg_info(),
                    Some(location_at(path.clone(), Some(line))),
                    msg,
                    String::from_str(
                        "When a function consumes arguments and can fail, including the consumed values in the error type helps callers debug what went wrong without re-running the function.",
                    ),
                    Some(
                        String::from_str(
                            "Add consumed argument types to the error enum so that `Err(e)` includes context about what was attempted.",
                        ),
                    ),
                );
                r.push(fd);
                assert(finding_views(r@) =~= seq![fd@]);
                return r;
            }
        },
        _ => {},
    }
    assert(finding_views(r@) =~= seq![]);
    r
}

impl TargetCheck for IdiomReturnConsumedArgOnError {
    open spec fn step_spec(&self, ctx: RuleContext, pkg: PackageInfo, target: TargetInfo) -> StepView {
        parsed_step(
            target,
            |c: Seq<char>, pf: ParsedFile|
                flat_map(pf.items@, |it: Item| return_consumed_arg_item_findings(target.src_path@, c, lines(c), pf.items@, it)),
        )
    }

    fn step(&self, ctx: &RuleContext, pkg: &PackageInfo, target: &TargetInfo) -> (r: Step) {
        if !target.exists {
            return Step::Skip;
        }
        let c = match &target.content {
            Err(e) => {
                return Step::Fail(read_error(e));
            },
            Ok(c) => c,
        };
        let pf = match &target.parsed {
            None => {
                return Step::Skip;
            },
            Some(pf) => pf,
        };
        let cv = chars_of(c.as_str());
        let ls = lines_of(cv.as_slice());
        let ghost f = |it: Item| return_consumed_arg_item_findings(target.src_path@, c@, lines(c@), pf.items@, it);
        let mut found: Vec<Finding> = Vec::new();
        let mut i: usize = 0;
        while i < pf.items.len()
            invariant
                i <= pf.items@.len(),
                cv@ == c@,
                texts(ls@) == lines(c@),
                f == (|it: Item| return_consumed_arg_item_findings(target.src_path@, c@, lines(c@), pf.items@, it)),
                finding_views(found@) == flat_map(pf.items@.take(i as int), f),
            decreases pf.items@.len() - i,
        {
            proof {
                lemma_flat_map_step(pf.items@, f, i as int);
            }
            let v = return_consumed_arg_item(&target.src_path, &cv, &ls, &pf.items, &pf.items[i]);
            emit(&mut found, v);
            i = i + 1;
        }
        proof {
            lemma_flat_map_all(pf.items@, f);
        }
        Step::Found(found)
    }
}

impl Rule for IdiomReturnConsumedArgOnError {
    open spec fn meta(&self) -> RuleMeta {
        return_consumed_arg_meta()
    }

    fn id(&self) -> (r: &'static str) {
        return_consumed_arg_info().id
    }

    fn title(&self) -> (r: &'static str) {
        return_consumed_arg_info().title
    }

    fn category(&self) -> (r: Category) {
        return_consumed_arg_info().category
    }

    fn default_severity(&self) -> (r: Severity) {
        return_consumed_arg_info().severity
    }

    fn default_confidence(&self) -> (r: Confidence) {
        return_consumed_arg_info().confidence
    }

    fn description(&self) -> (r: &'static str) {
        return_consumed_arg_info().description
    }

    fn references(&self) -> (r: Vec<&'static str>) {
        return_consumed_arg_info().references
    }

    fn llm_fix_prompt(&self) -> (r: Option<&'static str>) {
        return_consumed_arg_info().llm_fix_prompt
    }

    open spec fn outcome(&self, ctx: RuleContext) -> Outcome {
        run_targets_spec(*self, ctx)
    }

    fn check(&self, ctx: &RuleContext, out: &mut Vec<Finding>) -> (r: Result<(), RuleError>) {
        run_targets(self, ctx, out)
    }
}


// ---------------------------------------------------------------------------
// IdiomMemTakeReplace
// ---------------------------------------------------------------------------

/// Suggest `mem::take` / `mem::replace` / `Option::take` instead of `.clone()`
/// when only a default/empty value is needed temporarily.
pub struct IdiomMemTakeReplace;

pub open spec fn mem_take_replace_meta() -> RuleMeta {
    RuleMeta {
        id: "idiom.mem-take-replace"@,
        title: "Use mem::take / mem::replace instead of clone for temporary ownership"@,
        category: Category::Idiom,
        severity: Severity::Info,
        confidence: Confidence::Medium,
        description: "Detects `.clone()` followed by `.clear()` or similar patterns that could use `mem::take` / `mem::replace` / `Option::take` for zero-copy ownership transfer."@,
        references: seq!["https://doc.rust-lang.org/std/mem/fn.take.html"@],
        llm_fix_prompt: Some("Replace `.clone()` followed by `.clear()` with `std::mem::take(&mut value)` for zero-copy ownership transfer."@),
    }
}

/// The metadata of `IdiomMemTakeReplace`.
pub fn mem_take_replace_info() -> (r: RuleInfo)
    ensures
        r@ == mem_take_replace_meta(),
{
    let references: Vec<&'static str> = vec!["https://doc.rust-lang.org/std/mem/fn.take.html"];
    assert(str_views(references@) =~= mem_take_replace_meta().references);
    RuleInfo {
        id: "idiom.mem-take-replace",
        title: "Use mem::take / mem::replace instead of clone for temporary ownership",
        category: Category::Idiom,
        severity: Severity::Info,
        confidence: Confidence::Medium,
        description: "Detects `.clone()` followed by `.clear()` or similar patterns that could use `mem::take` / `mem::replace` / `Option::take` for zero-copy ownership transfer.",
        references,
        llm_fix_prompt: Some("Replace `.clone()` followed by `.clear()` with `std::mem::take(&mut value)` for zero-copy ownership transfer."),
    }
}

/// The source a `let .. = <expr>.clone()` line is read to clone from: the
/// text from the first `.clone()` on, with trailing `.clone()`s removed,
/// after its last `.`, trimmed.
pub open spec fn mt_source(l: Seq<char>) -> Option<Seq<char>> {
    match strip_prefix(trim(l), "let "@) {
        Some(cm) => if contains(cm, ".clone()"@) && contains(cm, " = "@) {
            let cp = match find(cm, ".clone()"@) {
                Some(k) => k,
                None => 0,
            };
            let se = trim_end_matches(cm.subrange(cp, cm.len() as int), ".clone()"@);
            Some(trim(after_last(se, '.')))
        } else {
            None
        },
        None => None,
    }
}

/// A trimmed line that clears or drains `sv`.
pub open spec fn mt_clears(t: Seq<char>, sv: Seq<char>) -> bool {
    contains(t, sv + ".clear()"@) || contains(t, sv + ".drain(.."@)
}

/// The end of the window of lines looked at after line `i`.
pub open spec fn mt_window_end(i: int, len: int) -> int {
    if i + 5 < len {
        i + 5
    } else {
        len
    }
}

/// The finding for line `i`: a clone whose source is cleared within the
/// next four lines, reported at the first earlier line that clones it (or
/// at line `i` itself).
pub open spec fn mt_line_findings(path: Seq<char>, ls: Seq<Seq<char>>, i: int) -> Seq<FindingView> {
    match mt_source(ls[i]) {
        Some(sv) => if exists|j: int|
            i + 1 <= j < mt_window_end(i, ls.len() as int) && mt_clears(trim(#[trigger] ls[j]), sv) {
            let fl = match position(ls.take(i), seq![sv + ".clone()"@]) {
                Some(n) => line_no(n),
                None => line_no(i),
            };
            seq![
                rule_finding(
                    mem_take_replace_meta(),
                    Some(line_location(path, Some(fl))),
                    "`.clone()` followed by `.clear()` on `"@ + sv
                        + "` can be replaced with `std::mem::take(&mut "@ + sv + ")`"@,
                    "Cloning then clearing allocates memory unnecessarily. `mem::take` swaps in a default value and returns the original, achieving the same effect with zero additional allocations."@,
                    Some(
                        "Replace `let x = "@ + sv + ".clone(); "@ + sv
                            + ".clear();` with `let x = std::mem::take(&mut "@ + sv + ");`"@,
                    ),
                ),
            ]
        } else {
            seq![]
        },
        None => seq![],
    }
}

/// Findings for the first `n` lines.
pub open spec fn mt_findings(path: Seq<char>, ls: Seq<Seq<char>>, n: int) -> Seq<FindingView>
    decreases n,
{
    if n <= 0 {
        seq![]
    } else {
        mt_findings(path, ls, n - 1) + mt_line_findings(path, ls, n - 1)
    }
}

fn mt_source_of(l: &[char]) -> (r: Option<Vec<char>>)
    ensures
        match mt_source(l@) {
            Some(s) => r matches Some(v) && v@ == s,
            None => r is None,
        },
{
    let t = trim_chars(l);
    let cm = match strip_prefix_str(t.as_slice(), "let ") {
        Some(cm) => cm,
        None => {
            return None;
        },
    };
    if !(contains_str(cm.as_slice(), ".clone()") && contains_str(cm.as_slice(), " = ")) {
        return None;
    }
    let pat = chars_of(".clone()");
    let cp: usize = match find_chars(cm.as_slice(), pat.as_slice()) {
        Some(k) => k,
        None => 0,
    };
    let tail = slice_chars(cm.as_slice(), cp, cm.len());
    let se = trim_end_matches_str(tail.as_slice(), ".clone()");
    let al = after_last_char(se.as_slice(), '.');
    Some(trim_chars(al.as_slice()))
}

fn is_clearing(t: &[char], sv: &[char]) -> (r: bool)
    ensures
        r == mt_clears(t@, sv@),
{
    contains_chars(t, with_suffix(sv, ".clear()").as_slice()) || contains_chars(
        t,
        with_suffix(sv, ".drain(..").as_slice(),
    )
}

fn mt_line(path: &String, ls: &Vec<Vec<char>>, i: usize) -> (r: Vec<Finding>)
    requires
        i < ls@.len(),
    ensures
        finding_views(r@) == mt_line_findings(path@, texts(ls@), i as int),
{
    let mut r: Vec<Finding> = Vec::new();
    assert(texts(ls@)[i as int] == ls@[i as int]@);
    let sv = match mt_source_of(ls[i].as_slice()) {
        Some(sv) => sv,
        None => {
            assert(finding_views(r@) =~= seq![]);
            return r;
        },
    };
    let n = ls.len();
    let end: usize = if n - i > 5 {
        i + 5
    } else {
        n
    };
    let mut j: usize = i + 1;
    while j < end
        invariant
            i < n,
            n == ls@.len(),
            end == mt_window_end(i as int, n as int),
            i + 1 <= j,
            r@.len() == 0,
            mt_source(texts(ls@)[i as int]) == Some(sv@),
            forall|jj: int|
                i + 1 <= jj < j ==> !mt_clears(trim(#[trigger] texts(ls@)[jj]), sv@),
        decreases end - j,
    {
        let t = trim_chars(ls[j].as_slice());
        assert(texts(ls@)[j as int] == ls@[j as int]@);
        if is_clearing(t.as_slice(), sv.as_slice()) {
            let pats = pat_of(with_suffix(sv.as_slice(), ".clone()").as_slice());
            let fl: u32 = match find_line_before(ls, &pats, i) {
                Some(l) => l,
                None => line_number(i),
            };
            let mut msg = String::from_str("`.clone()` followed by `.clear()` on `");
            push_chars(&mut msg, sv.as_slice());
            msg.append("` can be replaced with `std::mem::take(&mut ");
            push_chars(&mut msg, sv.as_slice());
            msg.append(")`");
            let mut sugg = String::from_str("Replace `let x = ");
            push_chars(&mut sugg, sv.as_slice());
            sugg.append(".clone(); ");
            push_chars(&mut sugg, sv.as_slice());
            sugg.append(".clear();` with `let x = std::mem::take(&mut ");
            push_chars(&mut sugg, sv.as_slice());
            sugg.append(");`");
            let fd = build_finding(
                &mem_take_replace_info(),
                Some(location_at(path.clone(), Some(fl))),
                msg,
                String::from_str(
                    "Cloning then clearing allocates memory unnecessarily. `mem::take` swaps in a default value and returns the original, achieving the same effect with zero additional allocations.",
                ),
                Some(sugg),
            );
            r.push(fd);
            assert(finding_views(r@) =~= seq![fd@]);
            return r;
        }
        j = j + 1;
    }
    assert(finding_views(r@) =~= seq![]);
    r
}

impl TargetCheck for IdiomMemTakeReplace {
    open spec fn step_spec(&self, ctx: RuleContext, pkg: PackageInfo, target: TargetInfo) -> StepView {
        text_step(
            target,
            |c: Seq<char>| mt_findings(target.src_path@, lines(c), lines(c).len() as int),
        )
    }

    fn step(&self, ctx: &RuleContext, pkg: &PackageInfo, target: &TargetInfo) -> (r: Step) {
        if !target.exists {
            return Step::Skip;
        }
        let c = match &target.content {
            Err(e) => {
                return Step::Fail(read_error(e));
            },
            Ok(c) => c,
        };
        let cv = chars_of(c.as_str());
        let ls = lines_of(cv.as_slice());
        let mut found: Vec<Finding> = Vec::new();
        let mut i: usize = 0;
        while i < ls.len()
            invariant
                i <= ls@.len(),
                texts(ls@) == lines(c@),
                finding_views(found@) == mt_findings(target.src_path@, lines(c@), i as int),
            decreases ls@.len() - i,
        {
            let v = mt_line(&target.src_path, &ls, i);
            emit(&mut found, v);
            i = i + 1;
        }
        Step::Found(found)
    }
}

impl Rule for IdiomMemTakeReplace {
    open spec fn meta(&self) -> RuleMeta {
        mem_take_replace_meta()
    }

    fn id(&self) -> (r: &'static str) {
        mem_take_replace_info().id
    }

    fn title(&self) -> (r: &'static str) {
        mem_take_replace_info().title
    }

    fn category(&self) -> (r: Category) {
        mem_take_replace_info().category
    }

    fn default_severity(&self) -> (r: Severity) {
        mem_take_replace_info().severity
    }

    fn default_confidence(&self) -> (r: Confidence) {
        mem_take_replace_info().confidence
    }

    fn description(&self) -> (r: &'static str) {
        mem_take_replace_info().description
    }

    fn references(&self) -> (r: Vec<&'static str>) {
        mem_take_replace_info().references
    }

    fn llm_fix_prompt(&self) -> (r: Option<&'static str>) {
        mem_take_replace_info().llm_fix_prompt
    }

    open spec fn outcome(&self, ctx: RuleContext) -> Outcome {
        run_targets_spec(*self, ctx)
    }

    fn check(&self, ctx: &RuleContext, out: &mut Vec<Finding>) -> (r: Result<(), RuleError>) {
        run_targets(self, ctx, out)
    }
}


// ---------------------------------------------------------------------------
// The findings carry their rule
// ---------------------------------------------------------------------------

proof fn lemma_borrowed_fn_carries(path: Seq<char>, ls: Seq<Seq<char>>, f: FnDecl)
    ensures
        all_carry(borrowed_args_meta(), borrowed_fn_findings(path, ls, f)),
    decreases f,
{
    let m = borrowed_args_meta();
    if is_pub_text(f.vis.tokens@) {
        let g = |a: FnInput| borrowed_input_findings(path, ls, a);
        assert forall|i: int| 0 <= i < f.inputs@.len() implies all_carry(m, g(#[trigger] f.inputs@[i])) by {}
        lemma_all_carry_flat_map(m, f.inputs@, g);
        lemma_borrowed_fns_carries(path, ls, f.nested_fns@);
        lemma_all_carry_concat(m, flat_map(f.inputs@, g), borrowed_fns_findings(path, ls, f.nested_fns@));
    }
}

proof fn lemma_borrowed_fns_carries(path: Seq<char>, ls: Seq<Seq<char>>, fs: Seq<FnDecl>)
    ensures
        all_carry(borrowed_args_meta(), borrowed_fns_findings(path, ls, fs)),
    decreases fs,
{
    if fs.len() > 0 {
        lemma_borrowed_fns_carries(path, ls, fs.drop_last());
        lemma_borrowed_fn_carries(path, ls, fs.last());
        lemma_all_carry_concat(
            borrowed_args_meta(),
            borrowed_fns_findings(path, ls, fs.drop_last()),
            borrowed_fn_findings(path, ls, fs.last()),
        );
    }
}

/// Every finding `IdiomBorrowedArgs` emits is under its name.
pub proof fn lemma_borrowed_args_carries(ctx: RuleContext)
    ensures
        all_carry(IdiomBorrowedArgs.meta(), IdiomBorrowedArgs.outcome(ctx).found),
{
    let m = borrowed_args_meta();
    assert forall|pkg: PackageInfo, t: TargetInfo|
        #[trigger] IdiomBorrowedArgs.step_spec(ctx, pkg, t) matches StepView::Found(fs) ==> all_carry(m, fs) by {
        if let (true, Ok(c), Some(pf)) = (t.exists, t.content, t.parsed) {
            lemma_borrowed_fns_carries(t.src_path@, lines(c@), pf.fn_roots@);
        }
    }
    lemma_run_targets_carry(IdiomBorrowedArgs, ctx, m);
}

/// Every finding `IdiomDefaultTrait` emits is under its name.
pub proof fn lemma_default_trait_carries(ctx: RuleContext)
    ensures
        all_carry(IdiomDefaultTrait.meta(), IdiomDefaultTrait.outcome(ctx).found),
{
    let m = default_trait_meta();
    assert forall|pkg: PackageInfo, t: TargetInfo|
        #[trigger] IdiomDefaultTrait.step_spec(ctx, pkg, t) matches StepView::Found(fs) ==> all_carry(m, fs) by {
        if let (true, Ok(c), Some(pf)) = (t.exists, t.content, t.parsed) {
            let path = t.src_path@;
            let f = |it: Item| default_trait_item_findings(path, c@, lines(c@), pf.items@, it);
            assert forall|i: int| 0 <= i < pf.items@.len() implies all_carry(m, f(#[trigger] pf.items@[i])) by {
                if let Item::Impl(imp) = pf.items@[i] {
                    if imp.trait_name is None {
                        let g = |x: ImplFn| default_fn_findings(path, lines(c@), pf.items@, imp, x);
                        assert forall|j: int| 0 <= j < imp.fns@.len() implies all_carry(m, g(#[trigger] imp.fns@[j])) by {}
                        lemma_all_carry_flat_map(m, imp.fns@, g);
                    }
                }
            }
            lemma_all_carry_flat_map(m, pf.items@, f);
        }
    }
    lemma_run_targets_carry(IdiomDefaultTrait, ctx, m);
}

/// Every finding `IdiomOptionIteration` emits is under its name.
pub proof fn lemma_option_iteration_carries(ctx: RuleContext)
    ensures
        all_carry(IdiomOptionIteration.meta(), IdiomOptionIteration.outcome(ctx).found),
{
    let m = option_iteration_meta();
    assert forall|pkg: PackageInfo, t: TargetInfo|
        #[trigger] IdiomOptionIteration.step_spec(ctx, pkg, t) matches StepView::Found(fs) ==> all_carry(m, fs) by {
        if let (true, Ok(c), Some(pf)) = (t.exists, t.content, t.parsed) {
            let path = t.src_path@;
            let f = |it: Item| option_iteration_item_findings(path, c@, lines(c@), pf.items@, it);
            assert forall|i: int| 0 <= i < pf.items@.len() implies all_carry(m, f(#[trigger] pf.items@[i])) by {
                if let Item::Fn(fd) = pf.items@[i] {
                    let g = |e: ExprShape| option_loop_findings(path, lines(c@), e);
                    assert forall|j: int| 0 <= j < fd.for_iterators@.len() implies all_carry(
                        m,
                        g(#[trigger] fd.for_iterators@[j]),
                    ) by {}
                    lemma_all_carry_flat_map(m, fd.for_iterators@, g);
                }
            }
            lemma_all_carry_flat_map(m, pf.items@, f);
        }
    }
    lemma_run_targets_carry(IdiomOptionIteration, ctx, m);
}

proof fn lemma_privacy_from_carries(ctx: RuleContext, p: int, s: int)
    ensures
        all_carry(privacy_extensibility_meta(), privacy_from(ctx, p, s).found),
    decreases ctx.packages@.len() - p, ctx.packages@[p].source_files@.len() - s,
{
    let m = privacy_extensibility_meta();
    if p < 0 || p >= ctx.packages@.len() {
    } else if s < 0 || s >= ctx.packages@[p].source_files@.len() {
        lemma_privacy_from_carries(ctx, p + 1, 0);
    } else {
        let sf = ctx.packages@[p].source_files@[s];
        lemma_privacy_from_carries(ctx, p, s + 1);
        if let (Ok(c), Some(pf)) = (sf.content, sf.parsed) {
            let f = |it: Item| privacy_extensibility_item_findings(sf.path@, c@, lines(c@), pf.items@, it);
            assert forall|i: int| 0 <= i < pf.items@.len() implies all_carry(m, f(#[trigger] pf.items@[i])) by {}
            lemma_all_carry_flat_map(m, pf.items@, f);
            lemma_all_carry_concat(m, flat_map(pf.items@, f), privacy_from(ctx, p, s + 1).found);
        }
    }
}

/// Every finding `IdiomPrivacyExtensibility` emits is under its name.
pub proof fn lemma_privacy_extensibility_carries(ctx: RuleContext)
    ensures
        all_carry(IdiomPrivacyExtensibility.meta(), IdiomPrivacyExtensibility.outcome(ctx).found),
{
    lemma_privacy_from_carries(ctx, 0, 0);
}

proof fn lemma_tm_body_carries(path: Seq<char>, bsl: nat, bls: Seq<Seq<char>>, n: int)
    ensures
        all_carry(temporary_mutability_meta(), tm_body_findings(path, bsl, bls, n)),
    decreases n,
{
    if n > 0 {
        lemma_tm_body_carries(path, bsl, bls, n - 1);
        let last = tm_line_findings(path, bsl, bls, n - 1);
        assert(all_carry(temporary_mutability_meta(), last));
        lemma_all_carry_concat(
            temporary_mutability_meta(),
            tm_body_findings(path, bsl, bls, n - 1),
            last,
        );
    }
}

/// Every finding `IdiomTemporaryMutability` emits is under its name.
pub proof fn lemma_temporary_mutability_carries(ctx: RuleContext)
    ensures
        all_carry(IdiomTemporaryMutability.meta(), IdiomTemporaryMutability.outcome(ctx).found),
{
    let m = temporary_mutability_meta();
    assert forall|pkg: PackageInfo, t: TargetInfo|
        #[trigger] IdiomTemporaryMutability.step_spec(ctx, pkg, t) matches StepView::Found(fs) ==> all_carry(m, fs) by {
        if let (true, Ok(c), Some(pf)) = (t.exists, t.content, t.parsed) {
            let path = t.src_path@;
            let f = |it: Item| temporary_mutability_item_findings(path, c@, lines(c@), pf.items@, it);
            assert forall|i: int| 0 <= i < pf.items@.len() implies all_carry(m, f(#[trigger] pf.items@[i])) by {
                if let Item::Fn(fd) = pf.items@[i] {
                    let bs = tm_body_start(c@, tm_fn_start(c@, fd.ident@));
                    if let Some(end) = tm_body_end(c@, bs) {
                        let bls = lines(c@.subrange(bs, end));
                        lemma_tm_body_carries(path, lines(c@.subrange(0, bs)).len(), bls, bls.len() as int);
                    }
                }
            }
            lemma_all_carry_flat_map(m, pf.items@, f);
        }
    }
    lemma_run_targets_carry(IdiomTemporaryMutability, ctx, m);
}

/// Every finding `IdiomReturnConsumedArgOnError` emits is under its name.
pub proof fn lemma_return_consumed_arg_carries(ctx: RuleContext)
    ensures
        all_carry(IdiomReturnConsumedArgOnError.meta(), IdiomReturnConsumedArgOnError.outcome(ctx).found),
{
    let m = return_consumed_arg_meta();
    assert forall|pkg: PackageInfo, t: TargetInfo|
        #[trigger] IdiomReturnConsumedArgOnError.step_spec(ctx, pkg, t) matches StepView::Found(fs) ==> all_carry(m, fs) by {
        if let (true, Ok(c), Some(pf)) = (t.exists, t.content, t.parsed) {
            let f = |it: Item| return_consumed_arg_item_findings(t.src_path@, c@, lines(c@), pf.items@, it);
            assert forall|i: int| 0 <= i < pf.items@.len() implies all_carry(m, f(#[trigger] pf.items@[i])) by {}
            lemma_all_carry_flat_map(m, pf.items@, f);
        }
    }
    lemma_run_targets_carry(IdiomReturnConsumedArgOnError, ctx, m);
}

proof fn lemma_mt_carries(path: Seq<char>, ls: Seq<Seq<char>>, n: int)
    ensures
        all_carry(mem_take_replace_meta(), mt_findings(path, ls, n)),
    decreases n,
{
    if n > 0 {
        lemma_mt_carries(path, ls, n - 1);
        let last = mt_line_findings(path, ls, n - 1);
        assert(all_carry(mem_take_replace_meta(), last));
        lemma_all_carry_concat(mem_take_replace_meta(), mt_findings(path, ls, n - 1), last);
    }
}

/// Every finding `IdiomMemTakeReplace` emits is under its name.
pub proof fn lemma_mem_take_replace_carries(ctx: RuleContext)
    ensures
        all_carry(IdiomMemTakeReplace.meta(), IdiomMemTakeReplace.outcome(ctx).found),
{
    let m = mem_take_replace_meta();
    assert forall|pkg: PackageInfo, t: TargetInfo|
        #[trigger] IdiomMemTakeReplace.step_spec(ctx, pkg, t) matches StepView::Found(fs) ==> all_carry(m, fs) by {
        if let (true, Ok(c)) = (t.exists, t.content) {
            lemma_mt_carries(t.src_path@, lines(c@), lines(c@).len() as int);
        }
    }
    lemma_run_targets_carry(IdiomMemTakeReplace, ctx, m);
}


/// A `let mut v` line of a function body is reported exactly when no later
/// line of the body assigns to or mutates `v`, that is, when none contains
/// `v =`, `v.push(`, `v.clear(`, `v.insert(`, `v.extend(` or `v[`; then it
/// gets one finding, at its own line.
pub proof fn law_mut_binding_reported_iff_never_mutated(
    path: Seq<char>,
    bsl: nat,
    bls: Seq<Seq<char>>,
    idx: int,
    v: Seq<char>,
)
    requires
        0 <= idx < bls.len(),
        tm_var(bls[idx]) == Some(v),
    ensures
        (exists|k: int|
            idx < k < bls.len() && {
                let t = trim(#[trigger] bls[k]);
                ||| contains(t, v + " ="@)
                ||| contains(t, v + ".push("@)
                ||| contains(t, v + ".clear("@)
                ||| contains(t, v + ".insert("@)
                ||| contains(t, v + ".extend("@)
                ||| contains(t, v + "["@)
            }) <==> tm_line_findings(path, bsl, bls, idx).len() == 0,
        tm_line_findings(path, bsl, bls, idx).len() <= 1,
        tm_line_findings(path, bsl, bls, idx).len() == 1 ==> tm_line_findings(
            path,
            bsl,
            bls,
            idx,
        )[0].location == Some(line_location(path, Some((bsl + idx) as u32))),
{
    let rest = bls.skip(idx);
    if exists|k: int|
        idx < k < bls.len() && {
            let t = trim(#[trigger] bls[k]);
            ||| contains(t, v + " ="@)
            ||| contains(t, v + ".push("@)
            ||| contains(t, v + ".clear("@)
            ||| contains(t, v + ".insert("@)
            ||| contains(t, v + ".extend("@)
            ||| contains(t, v + "["@)
        } {
        let k = choose|k: int|
            idx < k < bls.len() && {
                let t = trim(#[trigger] bls[k]);
                ||| contains(t, v + " ="@)
                ||| contains(t, v + ".push("@)
                ||| contains(t, v + ".clear("@)
                ||| contains(t, v + ".insert("@)
                ||| contains(t, v + ".extend("@)
                ||| contains(t, v + "["@)
            };
        assert(rest[k - idx] == bls[k]);
        assert(reassigns(trim(rest[k - idx]), v));
    } else {
        assert forall|j: int| 1 <= j < rest.len() implies !reassigns(trim(#[trigger] rest[j]), v) by {
            assert(rest[j] == bls[idx + j]);
        }
    }
}

} // verus!
