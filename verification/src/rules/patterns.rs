//! Pattern rules: builder, contain-unsafety, custom-traits-for-bounds,
//! small-crates, clone-to-satisfy-borrow-checker, compose-structs,
//! raii-guard, and the inert newtype and FFI-errors rules.
use vstd::prelude::*;

use crate::analysis::{count_where, join, location_at};
use crate::diagnostic::{finding_views, Category, Confidence, Finding, FindingView, Severity};
use crate::rules::idiom::{fn_name_line, find_fn_name_line};
use crate::rules::registry::{
    all_carry, build_finding, carries, emit, emit_one, lemma_all_carry_concat,
    lemma_all_carry_flat_map, lemma_run_targets_carry, line_location, parsed_step, read_error,
    rule_finding, run_targets, run_targets_spec, str_views, text_step, Dependency, DirFile, Outcome, PackageInfo,
    Rule, RuleContext,
    RuleError, RuleInfo, RuleMeta, Step, StepView, TargetCheck, TargetInfo,
};
use crate::syntax::{
    flat_map, is_pub_text, lemma_flat_map_all, lemma_flat_map_step, vis_text_is_pub, CloneCall,
    Fields, FnDecl, FnInput, ImplDecl, ImplFn, Item, ParsedFile, TraitDecl,
};
use crate::text::{
    bytes_fit, chars_of, concat, contains, contains_str, count_chars, fit_end, same, utf8_len, utf8_len_over, count_matches, decimal, decimal_of, find,
    find_chars, find_line_with_all, line_no, lines, lines_of, pat_of, pats1, pats2, position,
    push_chars, slice_chars, starts_with, starts_with_str, string_of, text_is, texts, trim,
    trim_chars,
};

verus! {

// ---------------------------------------------------------------------------
// PatternBuilder
// ---------------------------------------------------------------------------

/// Suggest builder pattern for functions with many parameters.
pub struct PatternBuilder;

pub open spec fn builder_meta() -> RuleMeta {
    RuleMeta {
        id: "pattern.builder"@,
        title: "Consider builder pattern"@,
        category: Category::Pattern,
        severity: Severity::Info,
        confidence: Confidence::Medium,
        description: "Suggests builder pattern for public constructors with many parameters."@,
        references: seq!["https://rust-unofficial.github.io/patterns/patterns/creational/builder.html"@],
        llm_fix_prompt: Some("Consider using a builder pattern with a `Config` struct and `build()` method for functions with many parameters."@),
    }
}

/// The metadata of `PatternBuilder`.
pub fn builder_info() -> (r: RuleInfo)
    ensures
        r@ == builder_meta(),
{
    let references: Vec<&'static str> = vec!["https://rust-unofficial.github.io/patterns/patterns/creational/builder.html"];
    assert(str_views(references@) =~= builder_meta().references);
    RuleInfo {
        id: "pattern.builder",
        title: "Consider builder pattern",
        category: Category::Pattern,
        severity: Severity::Info,
        confidence: Confidence::Medium,
        description: "Suggests builder pattern for public constructors with many parameters.",
        references,
        llm_fix_prompt: Some("Consider using a builder pattern with a `Config` struct and `build()` method for functions with many parameters."),
    }
}

/// A typed parameter whose type text starts with `Option<`.
pub open spec fn is_option_input(a: FnInput) -> bool {
    match a {
        FnInput::Typed { tokens, .. } => starts_with(tokens@, "Option<"@),
        FnInput::Receiver { .. } => false,
    }
}

pub open spec fn builder_message(name: Seq<char>, n: nat, opt: nat) -> Seq<char> {
    "Public function `"@ + name + "` has "@ + decimal(n) + " parameters (threshold: 5)"@ + if opt
        > 0 {
        "; "@ + decimal(opt) + " parameters are `Option<T>`"@
    } else {
        Seq::empty()
    }
}

/// Findings for one top-level item: a public function with five or more
/// parameters.
pub open spec fn builder_item_findings(
    path: Seq<char>,
    c: Seq<char>,
    ls: Seq<Seq<char>>,
    items: Seq<Item>,
    item: Item,
) -> Seq<FindingView> {
    match item {
        Item::Fn(f) => if is_pub_text(f.vis.tokens@) && f.inputs@.len() >= 5 {
            seq![
                rule_finding(
                    builder_meta(),
                    Some(line_location(path, Some(fn_name_line(ls, f.ident@)))),
                    builder_message(
                        f.ident@,
                        f.inputs@.len(),
                        count_where(f.inputs@, |a: FnInput| is_option_input(a)),
                    ),
                    "Functions with many parameters are hard to call correctly and difficult to extend without breaking existing callers. The builder pattern provides a clean, extensible API."@,
                    Some(
                        "Consider creating a `Config` struct and using the builder pattern (e.g., `MyBuilder::default().field1(...).build()`) instead."@,
                    ),
                ),
            ]
        } else {
            seq![]
        },
        _ => seq![],
    }
}

fn option_inputs(inputs: &Vec<FnInput>) -> (r: usize)
    ensures
        r == count_where(inputs@, |a: FnInput| is_option_input(a)),
{
    let mut n: usize = 0;
    let mut k: usize = 0;
    while k < inputs.len()
        invariant
            k <= inputs@.len(),
            n <= k,
            n == count_where(inputs@.take(k as int), |a: FnInput| is_option_input(a)),
        decreases inputs@.len() - k,
    {
        assert(inputs@.take(k + 1).drop_last() =~= inputs@.take(k as int));
        match &inputs[k] {
            FnInput::Typed { tokens, .. } => {
                let t = chars_of(tokens.as_str());
                if starts_with_str(t.as_slice(), "Option<") {
                    n = n + 1;
                }
            },
            FnInput::Receiver { .. } => {},
        }
        k = k + 1;
    }
    assert(inputs@.take(inputs@.len() as int) =~= inputs@);
    n
}

fn builder_item(
    path: &String,
    c: &Vec<char>,
    ls: &Vec<Vec<char>>,
    items: &Vec<Item>,
    item: &Item,
) -> (r: Vec<Finding>)
    ensures
        finding_views(r@) == builder_item_findings(path@, c@, texts(ls@), items@, *item),
{
    let mut r: Vec<Finding> = Vec::new();
    match item {
        Item::Fn(f) => {
            if vis_text_is_pub(&f.vis) && f.inputs.len() >= 5 {
                let line = find_fn_name_line(ls, f.ident.as_str());
                let opt = option_inputs(&f.inputs);
                let mut msg = String::from_str("Public function `");
                msg.append(f.ident.as_str());
                msg.append("` has ");
                push_chars(&mut msg, decimal_of(f.inputs.len()).as_slice());
                msg.append(" parameters (threshold: 5)");
                if opt > 0 {
                    msg.append("; ");
                    push_chars(&mut msg, decimal_of(opt).as_slice());
                    msg.append(" parameters are `Option<T>`");
                }
                assert(msg@ =~= builder_message(f.ident@, f.inputs@.len(), opt as nat));
                let fd = build_finding(
                    &builder_info(),
                    Some(location_at(path.clone(), Some(line))),
                    msg,
                    String::from_str(
                        "Functions with many parameters are hard to call correctly and difficult to extend without breaking existing callers. The builder pattern provides a clean, extensible API.",
                    ),
                    Some(
                        String::from_str(
                            "Consider creating a `Config` struct and using the builder pattern (e.g., `MyBuilder::default().field1(...).build()`) instead.",
                        ),
                    ),
                );
                r.push(fd);
                assert(finding_views(r@) =~= seq![fd@]);
                return r;
            }
        },
        _ => {},
    }
    assert(finding_views(r@) =~= seq![]);
    r
}

impl TargetCheck for PatternBuilder {
    open spec fn step_spec(&self, ctx: RuleContext, pkg: PackageInfo, target: TargetInfo) -> StepView {
        parsed_step(
            target,
            |c: Seq<char>, pf: ParsedFile|
                flat_map(pf.items@, |it: Item| builder_item_findings(target.src_path@, c, lines(c), pf.items@, it)),
        )
    }

    fn step(&self, ctx: &RuleContext, pkg: &PackageInfo, target: &TargetInfo) -> (r: Step) {
        if !target.exists {
            return Step::Skip;
        }
        let c = match &target.content {
            Err(e) => {
                return Step::Fail(read_error(e));
            },
            Ok(c) => c,
        };
        let pf = match &target.parsed {
            None => {
                return Step::Skip;
            },
            Some(pf) => pf,
        };
        let cv = chars_of(c.as_str());
        let ls = lines_of(cv.as_slice());
        let ghost f = |it: Item| builder_item_findings(target.src_path@, c@, lines(c@), pf.items@, it);
        let mut found: Vec<Finding> = Vec::new();
        let mut i: usize = 0;
        while i < pf.items.len()
            invariant
                i <= pf.items@.len(),
                cv@ == c@,
                texts(ls@) == lines(c@),
                f == (|it: Item| builder_item_findings(target.src_path@, c@, lines(c@), pf.items@, it)),
                finding_views(found@) == flat_map(pf.items@.take(i as int), f),
            decreases pf.items@.len() - i,
        {
            proof {
                lemma_flat_map_step(pf.items@, f, i as int);
            }
            let v = builder_item(&target.src_path, &cv, &ls, &pf.items, &pf.items[i]);
            emit(&mut found, v);
            i = i + 1;
        }
        proof {
            lemma_flat_map_all(pf.items@, f);
        }
        Step::Found(found)
    }
}

impl Rule for PatternBuilder {
    open spec fn meta(&self) -> RuleMeta {
        builder_meta()
    }

    fn id(&self) -> (r: &'static str) {
        builder_info().id
    }

    fn title(&self) -> (r: &'static str) {
        builder_info().title
    }

    fn category(&self) -> (r: Category) {
        builder_info().category
    }

    fn default_severity(&self) -> (r: Severity) {
        builder_info().severity
    }

    fn default_confidence(&self) -> (r: Confidence) {
        builder_info().confidence
    }

    fn description(&self) -> (r: &'static str) {
        builder_info().description
    }

    fn references(&self) -> (r: Vec<&'static str>) {
        builder_info().references
    }

    fn llm_fix_prompt(&self) -> (r: Option<&'static str>) {
        builder_info().llm_fix_prompt
    }

    open spec fn outcome(&self, ctx: RuleContext) -> Outcome {
        run_targets_spec(*self, ctx)
    }

    fn check(&self, ctx: &RuleContext, out: &mut Vec<Finding>) -> (r: Result<(), RuleError>) {
        run_targets(self, ctx, out)
    }
}

// ---------------------------------------------------------------------------
// PatternCustomTraitsForBounds
// ---------------------------------------------------------------------------

/// Flag repeated long where clauses or complex Fn bounds.
pub struct PatternCustomTraitsForBounds;

pub open spec fn custom_traits_meta() -> RuleMeta {
    RuleMeta {
        id: "pattern.custom-traits-for-bounds"@,
        title: "Consider custom trait for complex bounds"@,
        category: Category::Pattern,
        severity: Severity::Info,
        confidence: Confidence::Low,
        description: "Flag repeated long where clauses or complex Fn bounds."@,
        references: seq!["https://rust-unofficial.github.io/patterns/patterns/structural/custom-traits-for-complex-bounds.html"@],
        llm_fix_prompt: Some("Extract complex trait bounds into a named custom trait with a blanket implementation for readability."@),
    }
}

/// The metadata of `PatternCustomTraitsForBounds`.
pub fn custom_traits_info() -> (r: RuleInfo)
    ensures
        r@ == custom_traits_meta(),
{
    let references: Vec<&'static str> = vec!["https://rust-unofficial.github.io/patterns/patterns/structural/custom-traits-for-complex-bounds.html"];
    assert(str_views(references@) =~= custom_traits_meta().references);
    RuleInfo {
        id: "pattern.custom-traits-for-bounds",
        title: "Consider custom trait for complex bounds",
        category: Category::Pattern,
        severity: Severity::Info,
        confidence: Confidence::Low,
        description: "Flag repeated long where clauses or complex Fn bounds.",
        references,
        llm_fix_prompt: Some("Extract complex trait bounds into a named custom trait with a blanket implementation for readability."),
    }
}

/// The text of a where clause as the rule reads it: from the first `where`
/// of the item's token text, the characters that fit in 205 bytes.
pub open spec fn where_text(tok: Seq<char>) -> Seq<char> {
    let wp = match find(tok, "where"@) {
        Some(k) => k,
        None => 0,
    };
    tok.subrange(wp, wp + bytes_fit(tok.skip(wp), 205))
}

/// The finding for an item whose token text is `tok`: more than 80 bytes
/// with a `where` whose text has two `Fn` or exceeds 60 bytes.
pub open spec fn where_findings(path: Seq<char>, ls: Seq<Seq<char>>, tok: Seq<char>, kind: Seq<char>) -> Seq<
    FindingView,
> {
    if utf8_len(tok) > 80 && contains(tok, "where"@) {
        let wt = where_text(tok);
        let fc = count_matches(wt, "Fn"@);
        if fc >= 2 || utf8_len(wt) > 60 {
            seq![
                rule_finding(
                    custom_traits_meta(),
                    Some(line_location(path, Some(fn_name_line_where(ls)))),
                    kind + " has a complex where clause ("@ + decimal(
                        if fc >= 1 {
                            fc
                        } else {
                            1
                        },
                    ) + " Fn bounds) that could be extracted into a custom trait"@,
                    "Long, complex trait bounds reduce readability and make it harder to understand API requirements at a glance. A custom trait with a blanket implementation can express the same constraint in a single name."@,
                    Some(
                        "Extract the trait bounds into a named custom trait (e.g., `trait MyBounds: TraitA + TraitB + Fn(...)`) and use it as a single bound."@,
                    ),
                ),
            ]
        } else {
            seq![]
        }
    } else {
        seq![]
    }
}

/// The first line with `where`, or 0.
pub open spec fn fn_name_line_where(ls: Seq<Seq<char>>) -> u32 {
    match position(ls, seq!["where"@]) {
        Some(n) => line_no(n),
        None => 0,
    }
}

/// Findings for one top-level item: functions, impl blocks and traits.
pub open spec fn custom_traits_item_findings(
    path: Seq<char>,
    c: Seq<char>,
    ls: Seq<Seq<char>>,
    items: Seq<Item>,
    item: Item,
) -> Seq<FindingView> {
    match item {
        Item::Fn(f) => where_findings(path, ls, f.tokens@, "function"@),
        Item::Impl(imp) => where_findings(path, ls, imp.tokens@, "impl block"@),
        Item::Trait(t) => where_findings(path, ls, t.tokens@, "trait"@),
        _ => seq![],
    }
}

fn analyze_where_text(path: &String, ls: &Vec<Vec<char>>, tokens: &String, kind: &str) -> (r: Vec<
    Finding,
>)
    ensures
        finding_views(r@) == where_findings(path@, texts(ls@), tokens@, kind@),
{
    let mut r: Vec<Finding> = Vec::new();
    let tok = chars_of(tokens.as_str());
    let w = chars_of("where");
    if !(utf8_len_over(tok.as_slice(), 80) && contains_chars_vec(&tok, &w)) {
        assert(finding_views(r@) =~= seq![]);
        return r;
    }
    let wp: usize = match find_chars(tok.as_slice(), w.as_slice()) {
        Some(k) => k,
        None => 0,
    };
    proof {
        if find(tokens@, "where"@) is Some {
            assert(wp <= tok@.len());
        }
    }
    let we = fit_end(tok.as_slice(), wp, 205);
    let wt = slice_chars(tok.as_slice(), wp, we);
    assert(wt@ == where_text(tokens@));
    let fc = count_chars(wt.as_slice(), chars_of("Fn").as_slice());
    if fc >= 2 || utf8_len_over(wt.as_slice(), 60) {
        let line: u32 = match find_line_with_all(ls, &pats1("where")) {
            Some(n) => n,
            None => 0,
        };
        let mut msg = String::from_str(kind);
        msg.append(" has a complex where clause (");
        push_chars(
            &mut msg,
            decimal_of(
                if fc >= 1 {
                    fc
                } else {
                    1
                },
            ).as_slice(),
        );
        msg.append(" Fn bounds) that could be extracted into a custom trait");
        let fd = build_finding(
            &custom_traits_info(),
            Some(location_at(path.clone(), Some(line))),
            msg,
            String::from_str(
                "Long, complex trait bounds reduce readability and make it harder to understand API requirements at a glance. A custom trait with a blanket implementation can express the same constraint in a single name.",
            ),
            Some(
                String::from_str(
                    "Extract the trait bounds into a named custom trait (e.g., `trait MyBounds: TraitA + TraitB + Fn(...)`) and use it as a single bound.",
                ),
            ),
        );
        r.push(fd);
        assert(finding_views(r@) =~= seq![fd@]);
        return r;
    }
    assert(finding_views(r@) =~= seq![]);
    r
}

fn contains_chars_vec(h: &Vec<char>, n: &Vec<char>) -> (r: bool)
    ensures
        r == contains(h@, n@),
{
    crate::text::contains_chars(h.as_slice(), n.as_slice())
}

fn custom_traits_item(
    path: &String,
    c: &Vec<char>,
    ls: &Vec<Vec<char>>,
    items: &Vec<Item>,
    item: &Item,
) -> (r: Vec<Finding>)
    ensures
        finding_views(r@) == custom_traits_item_findings(path@, c@, texts(ls@), items@, *item),
{
    match item {
        Item::Fn(f) => analyze_where_text(path, ls, &f.tokens, "function"),
        Item::Impl(imp) => analyze_where_text(path, ls, &imp.tokens, "impl block"),
        Item::Trait(t) => analyze_where_text(path, ls, &t.tokens, "trait"),
        _ => {
            let r: Vec<Finding> = Vec::new();
            assert(finding_views(r@) =~= seq![]);
            r
        },
    }
}

impl TargetCheck for PatternCustomTraitsForBounds {
    open spec fn step_spec(&self, ctx: RuleContext, pkg: PackageInfo, target: TargetInfo) -> StepView {
        parsed_step(
            target,
            |c: Seq<char>, pf: ParsedFile|
                flat_map(pf.items@, |it: Item| custom_traits_item_findings(target.src_path@, c, lines(c), pf.items@, it)),
        )
    }

    fn step(&self, ctx: &RuleContext, pkg: &PackageInfo, target: &TargetInfo) -> (r: Step) {
        if !target.exists {
            return Step::Skip;
        }
        let c = match &target.content {
            Err(e) => {
                return Step::Fail(read_error(e));
            },
            Ok(c) => c,
        };
        let pf = match &target.parsed {
            None => {
                return Step::Skip;
            },
            Some(pf) => pf,
        };
        let cv = chars_of(c.as_str());
        let ls = lines_of(cv.as_slice());
        let ghost f = |it: Item| custom_traits_item_findings(target.src_path@, c@, lines(c@), pf.items@, it);
        let mut found: Vec<Finding> = Vec::new();
        let mut i: usize = 0;
        while i < pf.items.len()
            invariant
                i <= pf.items@.len(),
                cv@ == c@,
                texts(ls@) == lines(c@),
                f == (|it: Item| custom_traits_item_findings(target.src_path@, c@, lines(c@), pf.items@, it)),
                finding_views(found@) == flat_map(pf.items@.take(i as int), f),
            decreases pf.items@.len() - i,
        {
            proof {
                lemma_flat_map_step(pf.items@, f, i as int);
            }
            let v = custom_traits_item(&target.src_path, &cv, &ls, &pf.items, &pf.items[i]);
            emit(&mut found, v);
            i = i + 1;
        }
        proof {
            lemma_flat_map_all(pf.items@, f);
        }
        Step::Found(found)
    }
}

impl Rule for PatternCustomTraitsForBounds {
    open spec fn meta(&self) -> RuleMeta {
        custom_traits_meta()
    }

    fn id(&self) -> (r: &'static str) {
        custom_traits_info().id
    }

    fn title(&self) -> (r: &'static str) {
        custom_traits_info().title
    }

    fn category(&self) -> (r: Category) {
        custom_traits_info().category
    }

    fn default_severity(&self) -> (r: Severity) {
        custom_traits_info().severity
    }

    fn default_confidence(&self) -> (r: Confidence) {
        custom_traits_info().confidence
    }

    fn description(&self) -> (r: &'static str) {
        custom_traits_info().description
    }

    fn references(&self) -> (r: Vec<&'static str>) {
        custom_traits_info().references
    }

    fn llm_fix_prompt(&self) -> (r: Option<&'static str>) {
        custom_traits_info().llm_fix_prompt
    }

    open spec fn outcome(&self, ctx: RuleContext) -> Outcome {
        run_targets_spec(*self, ctx)
    }

    fn check(&self, ctx: &RuleContext, out: &mut Vec<Finding>) -> (r: Result<(), RuleError>) {
        run_targets(self, ctx, out)
    }
}

// ---------------------------------------------------------------------------
// PatternComposeStructs
// ---------------------------------------------------------------------------

/// Flag overly large structs whose fields could be split into composed units.
///
/// Pragmatic heuristic: structs with more than 8 fields are flagged.
pub struct PatternComposeStructs;

pub open spec fn compose_structs_meta() -> RuleMeta {
    RuleMeta {
        id: "pattern.compose-structs"@,
        title: "Consider splitting large structs into composed units"@,
        category: Category::Pattern,
        severity: Severity::Info,
        confidence: Confidence::Low,
        description: "Flag structs with many (>8) fields as candidates for composition."@,
        references: seq!["https://rust-unofficial.github.io/patterns/patterns/structural/compose-structs.html"@],
        llm_fix_prompt: Some("Split the large struct into smaller, focused structs and compose them inside the original type. This improves independent borrowing and clarifies which methods need which fields."@),
    }
}

/// The metadata of `PatternComposeStructs`.
pub fn compose_structs_info() -> (r: RuleInfo)
    ensures
        r@ == compose_structs_meta(),
{
    let references: Vec<&'static str> = vec!["https://rust-unofficial.github.io/patterns/patterns/structural/compose-structs.html"];
    assert(str_views(references@) =~= compose_structs_meta().references);
    RuleInfo {
        id: "pattern.compose-structs",
        title: "Consider splitting large structs into composed units",
        category: Category::Pattern,
        severity: Severity::Info,
        confidence: Confidence::Low,
        description: "Flag structs with many (>8) fields as candidates for composition.",
        references,
        llm_fix_prompt: Some("Split the large struct into smaller, focused structs and compose them inside the original type. This improves independent borrowing and clarifies which methods need which fields."),
    }
}

pub open spec fn field_count(fields: Fields) -> nat {
    match fields {
        Fields::Named(v) => v@.len(),
        Fields::Unnamed(v) => v@.len(),
        Fields::Unit => 0,
    }
}

/// The first line with `struct` and the name, or 0.
pub open spec fn struct_line(ls: Seq<Seq<char>>, name: Seq<char>) -> u32 {
    match position(ls, seq!["struct"@, name]) {
        Some(n) => line_no(n),
        None => 0,
    }
}

/// Findings for one top-level item: a public struct with more than eight
/// fields.
pub open spec fn compose_structs_item_findings(
    path: Seq<char>,
    c: Seq<char>,
    ls: Seq<Seq<char>>,
    items: Seq<Item>,
    item: Item,
) -> Seq<FindingView> {
    match item {
        Item::Struct(s) => if is_pub_text(s.vis.tokens@) && field_count(s.fields) > 8 {
            seq![
                rule_finding(
                    compose_structs_meta(),
                    Some(line_location(path, Some(struct_line(ls, s.ident@)))),
                    "Public struct `"@ + s.ident@ + "` has "@ + decimal(field_count(s.fields))
                        + " fields (>8); consider splitting into composed units"@,
                    "Large structs lead to independent borrow contention, make it harder to see which fields a method needs, and can become difficult to maintain. Splitting into smaller, focused structs clarifies responsibilities and improves ergonomics. Trade-off: composition adds a layer of indirection and may increase boilerplate."@,
                    Some(
                        "Extract related fields into smaller structs (e.g., `struct "@ + s.ident@
                            + "Config { ... }`) and compose them inside the parent struct."@,
                    ),
                ),
            ]
        } else {
            seq![]
        },
        _ => seq![],
    }
}

fn count_fields(fields: &Fields) -> (r: usize)
    ensures
        r == field_count(*fields),
{
    match fields {
        Fields::Named(v) => v.len(),
        Fields::Unnamed(v) => v.len(),
        Fields::Unit => 0,
    }
}

fn compose_structs_item(
    path: &String,
    c: &Vec<char>,
    ls: &Vec<Vec<char>>,
    items: &Vec<Item>,
    item: &Item,
) -> (r: Vec<Finding>)
    ensures
        finding_views(r@) == compose_structs_item_findings(path@, c@, texts(ls@), items@, *item),
{
    let mut r: Vec<Finding> = Vec::new();
    match item {
        Item::Struct(s) => {
            let n = count_fields(&s.fields);
            if vis_text_is_pub(&s.vis) && n > 8 {
                let kw = chars_of("struct");
                let id = chars_of(s.ident.as_str());
                let line: u32 = match find_line_with_all(ls, &pats2(kw.as_slice(), id.as_slice())) {
                    Some(l) => l,
                    None => 0,
                };
                let mut msg = String::from_str("Public struct `");
                msg.append(s.ident.as_str());
                msg.append("` has ");
                push_chars(&mut msg, decimal_of(n).as_slice());
                msg.append(" fields (>8); consider splitting into composed units");
                let mut sugg = String::from_str(
                    "Extract related fields into smaller structs (e.g., `struct ",
                );
                sugg.append(s.ident.as_str());
                sugg.append("Config { ... }`) and compose them inside the parent struct.");
                let fd = build_finding(
                    &compose_structs_info(),
                    Some(location_at(path.clone(), Some(line))),
                    msg,
                    String::from_str(
                        "Large structs lead to independent borrow contention, make it harder to see which fields a method needs, and can become difficult to maintain. Splitting into smaller, focused structs clarifies responsibilities and improves ergonomics. Trade-off: composition adds a layer of indirection and may increase boilerplate.",
                    ),
                    Some(sugg),
                );
                r.push(fd);
                assert(finding_views(r@) =~= seq![fd@]);
                return r;
            }
        },
        _ => {},
    }
    assert(finding_views(r@) =~= seq![]);
    r
}

impl TargetCheck for PatternComposeStructs {
    open spec fn step_spec(&self, ctx: RuleContext, pkg: PackageInfo, target: TargetInfo) -> StepView {
        parsed_step(
            target,
            |c: Seq<char>, pf: ParsedFile|
                flat_map(pf.items@, |it: Item| compose_structs_item_findings(target.src_path@, c, lines(c), pf.items@, it)),
        )
    }

    fn step(&self, ctx: &RuleContext, pkg: &PackageInfo, target: &TargetInfo) -> (r: Step) {
        if !target.exists {
            return Step::Skip;
        }
        let c = match &target.content {
            Err(e) => {
                return Step::Fail(read_error(e));
            },
            Ok(c) => c,
        };
        let pf = match &target.parsed {
            None => {
                return Step::Skip;
            },
            Some(pf) => pf,
        };
        let cv = chars_of(c.as_str());
        let ls = lines_of(cv.as_slice());
        let ghost f = |it: Item| compose_structs_item_findings(target.src_path@, c@, lines(c@), pf.items@, it);
        let mut found: Vec<Finding> = Vec::new();
        let mut i: usize = 0;
        while i < pf.items.len()
            invariant
                i <= pf.items@.len(),
                cv@ == c@,
                texts(ls@) == lines(c@),
                f == (|it: Item| compose_structs_item_findings(target.src_path@, c@, lines(c@), pf.items@, it)),
                finding_views(found@) == flat_map(pf.items@.take(i as int), f),
            decreases pf.items@.len() - i,
        {
            proof {
                lemma_flat_map_step(pf.items@, f, i as int);
            }
            let v = compose_structs_item(&target.src_path, &cv, &ls, &pf.items, &pf.items[i]);
            emit(&mut found, v);
            i = i + 1;
        }
        proof {
            lemma_flat_map_all(pf.items@, f);
        }
        Step::Found(found)
    }
}

impl Rule for PatternComposeStructs {
    open spec fn meta(&self) -> RuleMeta {
        compose_structs_meta()
    }

    fn id(&self) -> (r: &'static str) {
        compose_structs_info().id
    }

    fn title(&self) -> (r: &'static str) {
        compose_structs_info().title
    }

    fn category(&self) -> (r: Category) {
        compose_structs_info().category
    }

    fn default_severity(&self) -> (r: Severity) {
        compose_structs_info().severity
    }

    fn default_confidence(&self) -> (r: Confidence) {
        compose_structs_info().confidence
    }

    fn description(&self) -> (r: &'static str) {
        compose_structs_info().description
    }

    fn references(&self) -> (r: Vec<&'static str>) {
        compose_structs_info().references
    }

    fn llm_fix_prompt(&self) -> (r: Option<&'static str>) {
        compose_structs_info().llm_fix_prompt
    }

    open spec fn outcome(&self, ctx: RuleContext) -> Outcome {
        run_targets_spec(*self, ctx)
    }

    fn check(&self, ctx: &RuleContext, out: &mut Vec<Finding>) -> (r: Result<(), RuleError>) {
        run_targets(self, ctx, out)
    }
}

// ---------------------------------------------------------------------------
// Inert rules (no findings)
// ---------------------------------------------------------------------------

/// PatternNewtype: Flag unnecessary newtype wrappers.
pub struct PatternNewtype;

pub open spec fn newtype_meta() -> RuleMeta {
    RuleMeta {
        id: "pattern.newtype"@,
        title: "Consider using the underlying type directly"@,
        category: Category::Pattern,
        severity: Severity::Info,
        confidence: Confidence::Medium,
        description: "Detects newtype wrappers that simply wrap a primitive or standard type without adding behavior."@,
        references: seq![],
        llm_fix_prompt: None,
    }
}

/// The metadata of `PatternNewtype`.
pub fn newtype_info() -> (r: RuleInfo)
    ensures
        r@ == newtype_meta(),
{
    let references: Vec<&'static str> = vec![];
    assert(str_views(references@) =~= newtype_meta().references);
    RuleInfo {
        id: "pattern.newtype",
        title: "Consider using the underlying type directly",
        category: Category::Pattern,
        severity: Severity::Info,
        confidence: Confidence::Medium,
        description: "Detects newtype wrappers that simply wrap a primitive or standard type without adding behavior.",
        references,
        llm_fix_prompt: None,
    }
}

impl Rule for PatternNewtype {
    open spec fn meta(&self) -> RuleMeta {
        newtype_meta()
    }

    fn id(&self) -> (r: &'static str) {
        newtype_info().id
    }

    fn title(&self) -> (r: &'static str) {
        newtype_info().title
    }

    fn category(&self) -> (r: Category) {
        newtype_info().category
    }

    fn default_severity(&self) -> (r: Severity) {
        newtype_info().severity
    }

    fn default_confidence(&self) -> (r: Confidence) {
        newtype_info().confidence
    }

    fn description(&self) -> (r: &'static str) {
        newtype_info().description
    }

    fn references(&self) -> (r: Vec<&'static str>) {
        newtype_info().references
    }

    fn llm_fix_prompt(&self) -> (r: Option<&'static str>) {
        newtype_info().llm_fix_prompt
    }

    open spec fn outcome(&self, ctx: RuleContext) -> Outcome {
        Outcome { found: seq![], error: None }
    }

    fn check(&self, ctx: &RuleContext, out: &mut Vec<Finding>) -> (r: Result<(), RuleError>) {
        assert(finding_views(out@) =~= finding_views(old(out)@) + Seq::<FindingView>::empty());
        Ok(())
    }
}

/// FfiIdiomaticErrors: Detect FFI idiomatic errors.
pub struct FfiIdiomaticErrors;

pub open spec fn ffi_errors_meta() -> RuleMeta {
    RuleMeta {
        id: "ffi.idiomatic-errors"@,
        title: "FFI idiomatic errors"@,
        category: Category::Toolchain,
        severity: Severity::Warning,
        confidence: Confidence::Medium,
        description: "Detect common FFI pattern mistakes."@,
        references: seq![],
        llm_fix_prompt: None,
    }
}

/// The metadata of `FfiIdiomaticErrors`.
pub fn ffi_errors_info() -> (r: RuleInfo)
    ensures
        r@ == ffi_errors_meta(),
{
    let references: Vec<&'static str> = vec![];
    assert(str_views(references@) =~= ffi_errors_meta().references);
    RuleInfo {
        id: "ffi.idiomatic-errors",
        title: "FFI idiomatic errors",
        category: Category::Toolchain,
        severity: Severity::Warning,
        confidence: Confidence::Medium,
        description: "Detect common FFI pattern mistakes.",
        references,
        llm_fix_prompt: None,
    }
}

impl Rule for FfiIdiomaticErrors {
    open spec fn meta(&self) -> RuleMeta {
        ffi_errors_meta()
    }

    fn id(&self) -> (r: &'static str) {
        ffi_errors_info().id
    }

    fn title(&self) -> (r: &'static str) {
        ffi_errors_info().title
    }

    fn category(&self) -> (r: Category) {
        ffi_errors_info().category
    }

    fn default_severity(&self) -> (r: Severity) {
        ffi_errors_info().severity
    }

    fn default_confidence(&self) -> (r: Confidence) {
        ffi_errors_info().confidence
    }

    fn description(&self) -> (r: &'static str) {
        ffi_errors_info().description
    }

    fn references(&self) -> (r: Vec<&'static str>) {
        ffi_errors_info().references
    }

    fn llm_fix_prompt(&self) -> (r: Option<&'static str>) {
        ffi_errors_info().llm_fix_prompt
    }

    open spec fn outcome(&self, ctx: RuleContext) -> Outcome {
        Outcome { found: seq![], error: None }
    }

    fn check(&self, ctx: &RuleContext, out: &mut Vec<Finding>) -> (r: Result<(), RuleError>) {
        assert(finding_views(out@) =~= finding_views(old(out)@) + Seq::<FindingView>::empty());
        Ok(())
    }
}


// ---------------------------------------------------------------------------
// PatternRaiiGuard
// ---------------------------------------------------------------------------

/// Flag explicit cleanup/free/release methods that could be replaced with RAII guards.
///
/// Pragmatic heuristic: detects public functions named `close`, `free`,
/// `release`, `dispose`, `shutdown` that take `&mut self`.
pub struct PatternRaiiGuard;

pub open spec fn raii_guard_meta() -> RuleMeta {
    RuleMeta {
        id: "pattern.raii-guard"@,
        title: "Consider RAII guards instead of explicit cleanup methods"@,
        category: Category::Pattern,
        severity: Severity::Info,
        confidence: Confidence::Low,
        description: "Detects explicit cleanup/free/release methods that could be replaced with RAII guard types."@,
        references: seq!["https://rust-unofficial.github.io/patterns/patterns/structural/raii-guards.html"@],
        llm_fix_prompt: Some("Replace the manual cleanup method with a guard type that implements `Drop` to automatically release resources. This prevents leaks on early returns or panics."@),
    }
}

/// The metadata of `PatternRaiiGuard`.
pub fn raii_guard_info() -> (r: RuleInfo)
    ensures
        r@ == raii_guard_meta(),
{
    let references: Vec<&'static str> = vec!["https://rust-unofficial.github.io/patterns/patterns/structural/raii-guards.html"];
    assert(str_views(references@) =~= raii_guard_meta().references);
    RuleInfo {
        id: "pattern.raii-guard",
        title: "Consider RAII guards instead of explicit cleanup methods",
        category: Category::Pattern,
        severity: Severity::Info,
        confidence: Confidence::Low,
        description: "Detects explicit cleanup/free/release methods that could be replaced with RAII guard types.",
        references,
        llm_fix_prompt: Some("Replace the manual cleanup method with a guard type that implements `Drop` to automatically release resources. This prevents leaks on early returns or panics."),
    }
}

pub open spec fn is_cleanup_name(n: Seq<char>) -> bool {
    n == "close"@ || n == "free"@ || n == "release"@ || n == "dispose"@ || n == "shutdown"@
}

pub open spec fn is_mut_receiver(a: FnInput) -> bool {
    a matches FnInput::Receiver { mutable, .. } && mutable
}

pub open spec fn takes_mut_self(inputs: Seq<FnInput>) -> bool {
    exists|k: int| 0 <= k < inputs.len() && is_mut_receiver(#[trigger] inputs[k])
}

/// The finding for a public cleanup-named function or method `ident`.
pub open spec fn raii_finding(path: Seq<char>, ls: Seq<Seq<char>>, ident: Seq<char>) -> FindingView {
    rule_finding(
        raii_guard_meta(),
        Some(line_location(path, Some(fn_name_line(ls, ident)))),
        "Public method `"@ + ident
            + "` suggests manual resource cleanup; consider an RAII guard with `Drop`"@,
        "Manual cleanup methods require callers to remember to invoke them, which is error-prone on early returns, panics, or error paths. A guard type that implements `Drop` ensures cleanup happens automatically. Trade-off: guard types add a small allocation or stack footprint and change the API surface."@,
        Some(
            "Create a `"@ + ident
                + "Guard` type that holds the resource and implements `Drop` to call `"@
                + ident
                + "` automatically. Return the guard from the constructor instead of the raw handle."@,
        ),
    )
}

/// A public cleanup-named function taking `&mut self` is reported and not
/// entered; any other function is entered for the functions nested in it.
pub open spec fn raii_fn_findings(path: Seq<char>, ls: Seq<Seq<char>>, f: FnDecl) -> Seq<FindingView>
    decreases f,
{
    if is_pub_text(f.vis.tokens@) && is_cleanup_name(f.ident@) && takes_mut_self(f.inputs@) {
        seq![raii_finding(path, ls, f.ident@)]
    } else {
        raii_fns_findings(path, ls, f.nested_fns@)
    }
}

/// A public cleanup-named method taking `&mut self` is reported.
pub open spec fn raii_method_findings(path: Seq<char>, ls: Seq<Seq<char>>, m: ImplFn) -> Seq<FindingView> {
    if is_pub_text(m.vis.tokens@) && is_cleanup_name(m.ident@) && takes_mut_self(m.inputs@) {
        seq![raii_finding(path, ls, m.ident@)]
    } else {
        seq![]
    }
}

/// The methods of an impl block that are reported.
pub open spec fn raii_item_findings(path: Seq<char>, ls: Seq<Seq<char>>, it: Item) -> Seq<FindingView> {
    match it {
        Item::Impl(imp) => flat_map(imp.fns@, |m: ImplFn| raii_method_findings(path, ls, m)),
        _ => seq![],
    }
}

pub open spec fn raii_fns_findings(path: Seq<char>, ls: Seq<Seq<char>>, fs: Seq<FnDecl>) -> Seq<
    FindingView,
>
    decreases fs,
{
    if fs.len() == 0 {
        seq![]
    } else {
        raii_fns_findings(path, ls, fs.drop_last()) + raii_fn_findings(path, ls, fs.last())
    }
}

fn cleanup_name(n: &str) -> (r: bool)
    ensures
        r == is_cleanup_name(n@),
{
    text_is(n, "close") || text_is(n, "free") || text_is(n, "release") || text_is(n, "dispose")
        || text_is(n, "shutdown")
}

fn has_mut_receiver(inputs: &Vec<FnInput>) -> (r: bool)
    ensures
        r == takes_mut_self(inputs@),
{
    let mut k: usize = 0;
    while k < inputs.len()
        invariant
            k <= inputs@.len(),
            forall|j: int| 0 <= j < k ==> !is_mut_receiver(#[trigger] inputs@[j]),
        decreases inputs@.len() - k,
    {
        match &inputs[k] {
            FnInput::Receiver { mutable, .. } => {
                if *mutable {
                    return true;
                }
            },
            FnInput::Typed { .. } => {},
        }
        k = k + 1;
    }
    false
}

/// The finding for a public cleanup-named function or method `ident`.
fn raii_finding_of(path: &String, ls: &Vec<Vec<char>>, ident: &str) -> (r: Finding)
    ensures
        r@ == raii_finding(path@, texts(ls@), ident@),
{
    let line = find_fn_name_line(ls, ident);
    let mut msg = String::from_str("Public method `");
    msg.append(ident);
    msg.append("` suggests manual resource cleanup; consider an RAII guard with `Drop`");
    let mut sugg = String::from_str("Create a `");
    sugg.append(ident);
    sugg.append("Guard` type that holds the resource and implements `Drop` to call `");
    sugg.append(ident);
    sugg.append(
        "` automatically. Return the guard from the constructor instead of the raw handle.",
    );
    let fd = build_finding(
        &raii_guard_info(),
        Some(location_at(path.clone(), Some(line))),
        msg,
        String::from_str(
            "Manual cleanup methods require callers to remember to invoke them, which is error-prone on early returns, panics, or error paths. A guard type that implements `Drop` ensures cleanup happens automatically. Trade-off: guard types add a small allocation or stack footprint and change the API surface.",
        ),
        Some(sugg),
    );
    fd
}

/// The findings for the methods of an item.
fn raii_item(path: &String, ls: &Vec<Vec<char>>, it: &Item) -> (r: Vec<Finding>)
    ensures
        finding_views(r@) == raii_item_findings(path@, texts(ls@), *it),
{
    let mut r: Vec<Finding> = Vec::new();
    match it {
        Item::Impl(imp) => {
            let ghost g = |m: ImplFn| raii_method_findings(path@, texts(ls@), m);
            let mut k: usize = 0;
            assert(finding_views(r@) =~= flat_map(imp.fns@.take(0), g));
            while k < imp.fns.len()
                invariant
                    k <= imp.fns@.len(),
                    g == (|m: ImplFn| raii_method_findings(path@, texts(ls@), m)),
                    finding_views(r@) == flat_map(imp.fns@.take(k as int), g),
                decreases imp.fns@.len() - k,
            {
                proof {
                    lemma_flat_map_step(imp.fns@, g, k as int);
                }
                let m = &imp.fns[k];
                let ghost before = finding_views(r@);
                if vis_text_is_pub(&m.vis) && cleanup_name(m.ident.as_str()) && has_mut_receiver(&m.inputs) {
                    let fd = raii_finding_of(path, ls, m.ident.as_str());
                    r.push(fd);
                    assert(finding_views(r@) =~= before + seq![fd@]);
                } else {
                    assert(finding_views(r@) =~= before + Seq::<FindingView>::empty());
                }
                k = k + 1;
            }
            proof {
                lemma_flat_map_all(imp.fns@, g);
            }
        },
        _ => {
            assert(finding_views(r@) =~= Seq::<FindingView>::empty());
        },
    }
    r
}

fn raii_fn(path: &String, ls: &Vec<Vec<char>>, f: &FnDecl) -> (r: Vec<Finding>)
    ensures
        finding_views(r@) == raii_fn_findings(path@, texts(ls@), *f),
    decreases f,
{
    let mut r: Vec<Finding> = Vec::new();
    if vis_text_is_pub(&f.vis) && cleanup_name(f.ident.as_str()) && has_mut_receiver(&f.inputs) {
        let fd = raii_finding_of(path, ls, f.ident.as_str());
        r.push(fd);
        assert(finding_views(r@) =~= seq![fd@]);
        return r;
    }
    assert(finding_views(r@) =~= raii_fns_findings(path@, texts(ls@), f.nested_fns@.take(0)));
    let mut j: usize = 0;
    while j < f.nested_fns.len()
        invariant
            j <= f.nested_fns@.len(),
            finding_views(r@) == raii_fns_findings(path@, texts(ls@), f.nested_fns@.take(j as int)),
        decreases f.nested_fns@.len() - j,
    {
        proof {
            assert(f.nested_fns@.take(j + 1).drop_last() =~= f.nested_fns@.take(j as int));
            assert(decreases_to!(*f => f.nested_fns));
        }
        let v = raii_fn(path, ls, &f.nested_fns[j]);
        emit(&mut r, v);
        j = j + 1;
    }
    assert(f.nested_fns@.take(f.nested_fns@.len() as int) =~= f.nested_fns@);
    r
}

impl TargetCheck for PatternRaiiGuard {
    open spec fn step_spec(&self, ctx: RuleContext, pkg: PackageInfo, target: TargetInfo) -> StepView {
        parsed_step(
            target,
            |c: Seq<char>, pf: ParsedFile|
                raii_fns_findings(target.src_path@, lines(c), pf.fn_roots@) + flat_map(
                    pf.items@,
                    |it: Item| raii_item_findings(target.src_path@, lines(c), it),
                ),
        )
    }

    fn step(&self, ctx: &RuleContext, pkg: &PackageInfo, target: &TargetInfo) -> (r: Step) {
        if !target.exists {
            return Step::Skip;
        }
        let c = match &target.content {
            Err(e) => {
                return Step::Fail(read_error(e));
            },
            Ok(c) => c,
        };
        let pf = match &target.parsed {
            None => {
                return Step::Skip;
            },
            Some(pf) => pf,
        };
        let cv = chars_of(c.as_str());
        let ls = lines_of(cv.as_slice());
        let mut found: Vec<Finding> = Vec::new();
        let mut j: usize = 0;
        assert(finding_views(found@) =~= raii_fns_findings(target.src_path@, lines(c@), pf.fn_roots@.take(0)));
        while j < pf.fn_roots.len()
            invariant
                j <= pf.fn_roots@.len(),
                texts(ls@) == lines(c@),
                finding_views(found@) == raii_fns_findings(target.src_path@, lines(c@), pf.fn_roots@.take(j as int)),
            decreases pf.fn_roots@.len() - j,
        {
            proof {
                assert(pf.fn_roots@.take(j + 1).drop_last() =~= pf.fn_roots@.take(j as int));
            }
            let v = raii_fn(&target.src_path, &ls, &pf.fn_roots[j]);
            emit(&mut found, v);
            j = j + 1;
        }
        assert(pf.fn_roots@.take(pf.fn_roots@.len() as int) =~= pf.fn_roots@);
        let ghost head = finding_views(found@);
        let ghost g = |it: Item| raii_item_findings(target.src_path@, lines(c@), it);
        let mut k: usize = 0;
        assert(finding_views(found@) =~= head + flat_map(pf.items@.take(0), g));
        while k < pf.items.len()
            invariant
                k <= pf.items@.len(),
                texts(ls@) == lines(c@),
                g == (|it: Item| raii_item_findings(target.src_path@, lines(c@), it)),
                finding_views(found@) == head + flat_map(pf.items@.take(k as int), g),
            decreases pf.items@.len() - k,
        {
            proof {
                lemma_flat_map_step(pf.items@, g, k as int);
            }
            let v = raii_item(&target.src_path, &ls, &pf.items[k]);
            let ghost before = finding_views(found@);
            emit(&mut found, v);
            assert(before + g(pf.items@[k as int]) == head + flat_map(pf.items@.take(k + 1), g));
            k = k + 1;
        }
        proof {
            lemma_flat_map_all(pf.items@, g);
        }
        Step::Found(found)
    }
}

impl Rule for PatternRaiiGuard {
    open spec fn meta(&self) -> RuleMeta {
        raii_guard_meta()
    }

    fn id(&self) -> (r: &'static str) {
        raii_guard_info().id
    }

    fn title(&self) -> (r: &'static str) {
        raii_guard_info().title
    }

    fn category(&self) -> (r: Category) {
        raii_guard_info().category
    }

    fn default_severity(&self) -> (r: Severity) {
        raii_guard_info().severity
    }

    fn default_confidence(&self) -> (r: Confidence) {
        raii_guard_info().confidence
    }

    fn description(&self) -> (r: &'static str) {
        raii_guard_info().description
    }

    fn references(&self) -> (r: Vec<&'static str>) {
        raii_guard_info().references
    }

    fn llm_fix_prompt(&self) -> (r: Option<&'static str>) {
        raii_guard_info().llm_fix_prompt
    }

    open spec fn outcome(&self, ctx: RuleContext) -> Outcome {
        run_targets_spec(*self, ctx)
    }

    fn check(&self, ctx: &RuleContext, out: &mut Vec<Finding>) -> (r: Result<(), RuleError>) {
        run_targets(self, ctx, out)
    }
}

// ---------------------------------------------------------------------------
// AntiCloneToSatisfyBorrowChecker
// ---------------------------------------------------------------------------

/// Flag `.clone()` used to work around borrow-checker conflicts.
///
/// Conservative heuristic: flags `.clone()` calls inside public functions,
/// skipping clones inside loops, explicit ownership-transfer patterns, and
/// `.into()` / `.to_string()` chains.
pub struct AntiCloneToSatisfyBorrowChecker;

pub open spec fn clone_borrow_meta() -> RuleMeta {
    RuleMeta {
        id: "anti.clone-to-satisfy-borrow-checker"@,
        title: "Clone to satisfy borrow checker"@,
        category: Category::AntiPattern,
        severity: Severity::Warning,
        confidence: Confidence::Medium,
        description: "Detects `.clone()` calls on owned types (`String`, `Vec`, `Box`, `Rc`, `Arc`) that are used only to satisfy borrow-checker conflicts. Prefer borrowing via `&str`, `&[T]`, or `&T`."@,
        references: seq!["https://rust-unofficial.github.io/patterns/anti-patterns/clone-to-satisfy-borrow-checker.html"@],
        llm_fix_prompt: Some("Change `.clone()` calls to borrows (`&str`, `&[T]`, `&T`) where possible. Use `mem::take` or `mem::replace` if ownership transfer is genuinely needed."@),
    }
}

/// The metadata of `AntiCloneToSatisfyBorrowChecker`.
pub fn clone_borrow_info() -> (r: RuleInfo)
    ensures
        r@ == clone_borrow_meta(),
{
    let references: Vec<&'static str> = vec!["https://rust-unofficial.github.io/patterns/anti-patterns/clone-to-satisfy-borrow-checker.html"];
    assert(str_views(references@) =~= clone_borrow_meta().references);
    RuleInfo {
        id: "anti.clone-to-satisfy-borrow-checker",
        title: "Clone to satisfy borrow checker",
        category: Category::AntiPattern,
        severity: Severity::Warning,
        confidence: Confidence::Medium,
        description: "Detects `.clone()` calls on owned types (`String`, `Vec`, `Box`, `Rc`, `Arc`) that are used only to satisfy borrow-checker conflicts. Prefer borrowing via `&str`, `&[T]`, or `&T`.",
        references,
        llm_fix_prompt: Some("Change `.clone()` calls to borrows (`&str`, `&[T]`, `&T`) where possible. Use `mem::take` or `mem::replace` if ownership transfer is genuinely needed."),
    }
}

/// The line the rule gives a clone of `recv`: the number of lines before
/// the first `<recv>.clone()` of the text (0 when there is none).
pub open spec fn clone_line(c: Seq<char>, recv: Seq<char>) -> u32 {
    match find(c, recv + ".clone()"@) {
        Some(pos) => lines(c.subrange(0, pos)).len() as u32,
        None => 0,
    }
}

/// Walking back from line `i`: a loop header before any `let`, `if`,
/// `return` or closing brace.
pub open spec fn loop_back(ls: Seq<Seq<char>>, i: int) -> bool
    decreases i + 1,
{
    if i < 0 || i >= ls.len() {
        false
    } else {
        let t = trim(ls[i]);
        if starts_with(t, "let "@) || starts_with(t, "if "@) || starts_with(t, "return "@) {
            false
        } else if starts_with(t, "for "@) || starts_with(t, "while "@) || t == "loop"@ {
            true
        } else if t == "}"@ {
            false
        } else {
            loop_back(ls, i - 1)
        }
    }
}

pub open spec fn in_loop(ls: Seq<Seq<char>>, n: u32) -> bool {
    n < ls.len() && loop_back(ls, n as int)
}

pub open spec fn mem_take_line(ls: Seq<Seq<char>>, n: u32) -> bool {
    n < ls.len() && (contains(ls[n as int], "mem::take"@) || contains(
        ls[n as int],
        "mem::replace"@,
    ))
}

pub open spec fn into_chain(recv: Seq<char>) -> bool {
    contains(recv, ".into()"@) || contains(recv, ".to_string()"@)
}

/// A clone that is not skipped is reported, then the clones nested in it
/// are looked at; a skipped clone is not entered.
pub open spec fn clone_call_findings(
    path: Seq<char>,
    c: Seq<char>,
    ls: Seq<Seq<char>>,
    name: Seq<char>,
    cc: CloneCall,
) -> Seq<FindingView>
    decreases cc,
{
    let line = clone_line(c, cc.receiver@);
    if line == 0 || in_loop(ls, line) || mem_take_line(ls, line) || into_chain(cc.receiver@) {
        seq![]
    } else {
        seq![
            rule_finding(
                clone_borrow_meta(),
                Some(line_location(path, Some(line))),
                "Function `"@ + name
                    + "` uses `.clone()` which may be a borrow-checker workaround; consider borrowing instead"@,
                "Unnecessary cloning increases memory allocation and copies data that could be referenced. Borrowing avoids allocation and keeps a single source of truth."@,
                Some(
                    "Change the callee to accept `&str`, `&[T]`, or `&T` instead of owned types to avoid cloning."@,
                ),
            ),
        ] + clone_calls_findings(path, c, ls, name, cc.nested@)
    }
}

pub open spec fn clone_calls_findings(
    path: Seq<char>,
    c: Seq<char>,
    ls: Seq<Seq<char>>,
    name: Seq<char>,
    s: Seq<CloneCall>,
) -> Seq<FindingView>
    decreases s,
{
    if s.len() == 0 {
        seq![]
    } else {
        clone_calls_findings(path, c, ls, name, s.drop_last()) + clone_call_findings(
            path,
            c,
            ls,
            name,
            s.last(),
        )
    }
}

/// Findings for one top-level item: the clones of a public function.
pub open spec fn clone_borrow_item_findings(
    path: Seq<char>,
    c: Seq<char>,
    ls: Seq<Seq<char>>,
    items: Seq<Item>,
    item: Item,
) -> Seq<FindingView> {
    match item {
        Item::Fn(f) => if is_pub_text(f.vis.tokens@) {
            clone_calls_findings(path, c, ls, f.ident@, f.clone_calls@)
        } else {
            seq![]
        },
        _ => seq![],
    }
}

fn line_of_clone(c: &Vec<char>, recv: &str) -> (r: u32)
    ensures
        r == clone_line(c@, recv@),
{
    let pat = crate::rules::idiom::with_suffix(chars_of(recv).as_slice(), ".clone()");
    let _ = c.len();
    match find_chars(c.as_slice(), pat.as_slice()) {
        Some(pos) => {
            let before = slice_chars(c.as_slice(), 0, pos);
            let bl = lines_of(before.as_slice());
            let n = bl.len();
            assert(n == lines(c@.subrange(0, pos as int)).len()) by {
                assert(texts(bl@).len() == bl@.len());
            }
            #[verifier::truncate]
            let r = (n as u128 + 0) as u32;
            r
        },
        None => 0,
    }
}

fn is_in_loop(ls: &Vec<Vec<char>>, n: u32) -> (r: bool)
    ensures
        r == in_loop(texts(ls@), n),
{
    if n as usize >= ls.len() {
        return false;
    }
    let mut i: usize = n as usize;
    loop
        invariant
            i < ls@.len(),
            (n as int) < ls@.len(),
            loop_back(texts(ls@), n as int) == loop_back(texts(ls@), i as int),
        decreases i,
    {
        assert(texts(ls@)[i as int] == ls@[i as int]@);
        let t = trim_chars(ls[i].as_slice());
        if starts_with_str(t.as_slice(), "let ") || starts_with_str(t.as_slice(), "if ")
            || starts_with_str(t.as_slice(), "return ") {
            return false;
        }
        if starts_with_str(t.as_slice(), "for ") || starts_with_str(t.as_slice(), "while ")
            || same_text(&t, "loop") {
            return true;
        }
        if same_text(&t, "}") {
            return false;
        }
        if i == 0 {
            assert(!loop_back(texts(ls@), -1));
            return false;
        }
        i = i - 1;
    }
}

fn same_text(t: &Vec<char>, lit: &str) -> (r: bool)
    ensures
        r == (t@ == lit@),
{
    crate::text::same(t.as_slice(), chars_of(lit).as_slice())
}

fn is_mem_take_line(ls: &Vec<Vec<char>>, n: u32) -> (r: bool)
    ensures
        r == mem_take_line(texts(ls@), n),
{
    if n as usize >= ls.len() {
        return false;
    }
    assert(texts(ls@)[n as int] == ls@[n as int]@);
    let l = ls[n as usize].as_slice();
    contains_str(l, "mem::take") || contains_str(l, "mem::replace")
}

fn clone_call(path: &String, c: &Vec<char>, ls: &Vec<Vec<char>>, name: &str, cc: &CloneCall) -> (r:
    Vec<Finding>)
    ensures
        finding_views(r@) == clone_call_findings(path@, c@, texts(ls@), name@, *cc),
    decreases cc,
{
    let mut r: Vec<Finding> = Vec::new();
    let line = line_of_clone(c, cc.receiver.as_str());
    let recv = chars_of(cc.receiver.as_str());
    if line == 0 || is_in_loop(ls, line) || is_mem_take_line(ls, line) || contains_str(
        recv.as_slice(),
        ".into()",
    ) || contains_str(recv.as_slice(), ".to_string()") {
        assert(finding_views(r@) =~= seq![]);
        return r;
    }
    let mut msg = String::from_str("Function `");
    msg.append(name);
    msg.append(
        "` uses `.clone()` which may be a borrow-checker workaround; consider borrowing instead",
    );
    let fd = build_finding(
        &clone_borrow_info(),
        Some(location_at(path.clone(), Some(line))),
        msg,
        String::from_str(
            "Unnecessary cloning increases memory allocation and copies data that could be referenced. Borrowing avoids allocation and keeps a single source of truth.",
        ),
        Some(
            String::from_str(
                "Change the callee to accept `&str`, `&[T]`, or `&T` instead of owned types to avoid cloning.",
            ),
        ),
    );
    r.push(fd);
    let ghost head = finding_views(r@);
    assert(head =~= seq![fd@]);
    assert(clone_calls_findings(path@, c@, texts(ls@), name@, cc.nested@.take(0)) =~= seq![]);
    let mut j: usize = 0;
    while j < cc.nested.len()
        invariant
            j <= cc.nested@.len(),
            finding_views(r@) == head + clone_calls_findings(
                path@,
                c@,
                texts(ls@),
                name@,
                cc.nested@.take(j as int),
            ),
        decreases cc.nested@.len() - j,
    {
        proof {
            assert(cc.nested@.take(j + 1).drop_last() =~= cc.nested@.take(j as int));
            assert(decreases_to!(*cc => cc.nested));
        }
        let v = clone_call(path, c, ls, name, &cc.nested[j]);
        emit(&mut r, v);
        assert(head + clone_calls_findings(path@, c@, texts(ls@), name@, cc.nested@.take(j as int))
            + clone_call_findings(path@, c@, texts(ls@), name@, cc.nested@[j as int]) =~= head
            + clone_calls_findings(path@, c@, texts(ls@), name@, cc.nested@.take(j + 1)));
        j = j + 1;
    }
    assert(cc.nested@.take(cc.nested@.len() as int) =~= cc.nested@);
    r
}

fn clone_borrow_item(
    path: &String,
    c: &Vec<char>,
    ls: &Vec<Vec<char>>,
    items: &Vec<Item>,
    item: &Item,
) -> (r: Vec<Finding>)
    ensures
        finding_views(r@) == clone_borrow_item_findings(path@, c@, texts(ls@), items@, *item),
{
    let mut r: Vec<Finding> = Vec::new();
    match item {
        Item::Fn(f) => {
            if vis_text_is_pub(&f.vis) {
                assert(finding_views(r@) =~= clone_calls_findings(path@, c@, texts(ls@), f.ident@, f.clone_calls@.take(0)));
                let mut j: usize = 0;
                while j < f.clone_calls.len()
                    invariant
                        j <= f.clone_calls@.len(),
                        finding_views(r@) == clone_calls_findings(
                            path@,
                            c@,
                            texts(ls@),
                            f.ident@,
                            f.clone_calls@.take(j as int),
                        ),
                    decreases f.clone_calls@.len() - j,
                {
                    proof {
                        assert(f.clone_calls@.take(j + 1).drop_last() =~= f.clone_calls@.take(j as int));
                    }
                    let v = clone_call(path, c, ls, f.ident.as_str(), &f.clone_calls[j]);
                    emit(&mut r, v);
                    j = j + 1;
                }
                assert(f.clone_calls@.take(f.clone_calls@.len() as int) =~= f.clone_calls@);
                return r;
            }
        },
        _ => {},
    }
    assert(finding_views(r@) =~= seq![]);
    r
}

impl TargetCheck for AntiCloneToSatisfyBorrowChecker {
    open spec fn step_spec(&self, ctx: RuleContext, pkg: PackageInfo, target: TargetInfo) -> StepView {
        parsed_step(
            target,
            |c: Seq<char>, pf: ParsedFile|
                flat_map(pf.items@, |it: Item| clone_borrow_item_findings(target.src_path@, c, lines(c), pf.items@, it)),
        )
    }

    fn step(&self, ctx: &RuleContext, pkg: &PackageInfo, target: &TargetInfo) -> (r: Step) {
        if !target.exists {
            return Step::Skip;
        }
        let c = match &target.content {
            Err(e) => {
                return Step::Fail(read_error(e));
            },
            Ok(c) => c,
        };
        let pf = match &target.parsed {
            None => {
                return Step::Skip;
            },
            Some(pf) => pf,
        };
        let cv = chars_of(c.as_str());
        let ls = lines_of(cv.as_slice());
        let ghost f = |it: Item| clone_borrow_item_findings(target.src_path@, c@, lines(c@), pf.items@, it);
        let mut found: Vec<Finding> = Vec::new();
        let mut i: usize = 0;
        while i < pf.items.len()
            invariant
                i <= pf.items@.len(),
                cv@ == c@,
                texts(ls@) == lines(c@),
                f == (|it: Item| clone_borrow_item_findings(target.src_path@, c@, lines(c@), pf.items@, it)),
                finding_views(found@) == flat_map(pf.items@.take(i as int), f),
            decreases pf.items@.len() - i,
        {
            proof {
                lemma_flat_map_step(pf.items@, f, i as int);
            }
            let v = clone_borrow_item(&target.src_path, &cv, &ls, &pf.items, &pf.items[i]);
            emit(&mut found, v);
            i = i + 1;
        }
        proof {
            lemma_flat_map_all(pf.items@, f);
        }
        Step::Found(found)
    }
}

impl Rule for AntiCloneToSatisfyBorrowChecker {
    open spec fn meta(&self) -> RuleMeta {
        clone_borrow_meta()
    }

    fn id(&self) -> (r: &'static str) {
        clone_borrow_info().id
    }

    fn title(&self) -> (r: &'static str) {
        clone_borrow_info().title
    }

    fn category(&self) -> (r: Category) {
        clone_borrow_info().category
    }

    fn default_severity(&self) -> (r: Severity) {
        clone_borrow_info().severity
    }

    fn default_confidence(&self) -> (r: Confidence) {
        clone_borrow_info().confidence
    }

    fn description(&self) -> (r: &'static str) {
        clone_borrow_info().description
    }

    fn references(&self) -> (r: Vec<&'static str>) {
        clone_borrow_info().references
    }

    fn llm_fix_prompt(&self) -> (r: Option<&'static str>) {
        clone_borrow_info().llm_fix_prompt
    }

    open spec fn outcome(&self, ctx: RuleContext) -> Outcome {
        run_targets_spec(*self, ctx)
    }

    fn check(&self, ctx: &RuleContext, out: &mut Vec<Finding>) -> (r: Result<(), RuleError>) {
        run_targets(self, ctx, out)
    }
}


// ---------------------------------------------------------------------------
// Shared helpers for the crate-wide rules
// ---------------------------------------------------------------------------

/// `n`, or `usize::MAX` when it does not fit.
pub open spec fn sat(n: nat) -> nat {
    if n > usize::MAX {
        usize::MAX as nat
    } else {
        n
    }
}

/// `a + b` saturating at `usize::MAX`.
pub fn sat_add(a: usize, b: usize) -> (r: usize)
    ensures
        r == sat(a as nat + b as nat),
{
    if a > usize::MAX - b {
        usize::MAX
    } else {
        a + b
    }
}

/// Paths with a count each, as the crate-wide rules collect them.
pub open spec fn counts_view(v: Seq<(String, usize)>) -> Seq<(Seq<char>, nat)> {
    v.map_values(|x: (String, usize)| (x.0@, x.1 as nat))
}

pub open spec fn count_sum(s: Seq<(Seq<char>, nat)>) -> nat
    decreases s.len(),
{
    if s.len() == 0 {
        0
    } else {
        count_sum(s.drop_last()) + s.last().1
    }
}

/// `"\n  - <path>: <count><suffix>"` for each entry.
pub open spec fn detail_lines(s: Seq<(Seq<char>, nat)>, suffix: Seq<char>) -> Seq<char>
    decreases s.len(),
{
    if s.len() == 0 {
        seq![]
    } else {
        detail_lines(s.drop_last(), suffix) + "\n  - "@ + s.last().0 + ": "@ + decimal(s.last().1)
            + suffix
    }
}

/// Appends the detail lines of the first `k` entries.
fn push_details(out: &mut String, d: &Vec<(String, usize)>, k: usize, suffix: &str)
    requires
        k <= d@.len(),
    ensures
        final(out)@ == old(out)@ + detail_lines(counts_view(d@).take(k as int), suffix@),
{
    let ghost start = out@;
    let mut i: usize = 0;
    assert(counts_view(d@).take(0) =~= Seq::<(Seq<char>, nat)>::empty());
    while i < k
        invariant
            k <= d@.len(),
            i <= k,
            out@ == start + detail_lines(counts_view(d@).take(i as int), suffix@),
        decreases k - i,
    {
        let ghost before = out@;
        out.append("\n  - ");
        out.append(d[i].0.as_str());
        out.append(": ");
        push_chars(out, decimal_of(d[i].1).as_slice());
        out.append(suffix);
        assert(counts_view(d@).take(i + 1).drop_last() =~= counts_view(d@).take(i as int));
        assert(out@ =~= start + detail_lines(counts_view(d@).take(i + 1), suffix@));
        i = i + 1;
    }
}

// ---------------------------------------------------------------------------
// PatternContainUnSafety
// ---------------------------------------------------------------------------

/// Flag unsafe code spread across many files.
pub struct PatternContainUnSafety;

pub open spec fn contain_unsafety_meta() -> RuleMeta {
    RuleMeta {
        id: "pattern.contain-unsafety"@,
        title: "Consider containing unsafe code"@,
        category: Category::Organization,
        severity: Severity::Info,
        confidence: Confidence::Low,
        description: "Flag `unsafe` spread across many files; suggest small audited unsafe boundaries."@,
        references: seq!["https://rust-unofficial.github.io/patterns/patterns/structural/contain-unsafety.html"@],
        llm_fix_prompt: Some("Isolate unsafe code into small modules with safe outer APIs. Keep the unsafe surface area minimal. Trade-off: containment adds a layer of indirection and may introduce small performance overhead from safe wrapper calls."@),
    }
}

/// The metadata of `PatternContainUnSafety`.
pub fn contain_unsafety_info() -> (r: RuleInfo)
    ensures
        r@ == contain_unsafety_meta(),
{
    let references: Vec<&'static str> = vec!["https://rust-unofficial.github.io/patterns/patterns/structural/contain-unsafety.html"];
    assert(str_views(references@) =~= contain_unsafety_meta().references);
    RuleInfo {
        id: "pattern.contain-unsafety",
        title: "Consider containing unsafe code",
        category: Category::Organization,
        severity: Severity::Info,
        confidence: Confidence::Low,
        description: "Flag `unsafe` spread across many files; suggest small audited unsafe boundaries.",
        references,
        llm_fix_prompt: Some("Isolate unsafe code into small modules with safe outer APIs. Keep the unsafe surface area minimal. Trade-off: containment adds a layer of indirection and may introduce small performance overhead from safe wrapper calls."),
    }
}

/// The scan from package `p`, target `t` on, with the files found so far
/// (path and number of `unsafe` occurrences): it stops at the first existing
/// target that cannot be read.
pub open spec fn unsafe_from(ctx: RuleContext, p: int, t: int, d: Seq<(Seq<char>, nat)>) -> Result<
    Seq<(Seq<char>, nat)>,
    Seq<char>,
>
    decreases ctx.packages@.len() - p, ctx.packages@[p].targets@.len() - t,
{
    if p < 0 || p >= ctx.packages@.len() {
        Ok(d)
    } else if t < 0 || t >= ctx.packages@[p].targets@.len() {
        unsafe_from(ctx, p + 1, 0, d)
    } else {
        let tg = ctx.packages@[p].targets@[t];
        if !tg.exists {
            unsafe_from(ctx, p, t + 1, d)
        } else {
            match tg.content {
                Err(e) => Err(e@),
                Ok(c) => {
                    let n = count_matches(c@, "unsafe"@);
                    unsafe_from(
                        ctx,
                        p,
                        t + 1,
                        if n > 0 {
                            d.push((tg.src_path@, n))
                        } else {
                            d
                        },
                    )
                },
            }
        }
    }
}

/// The crate-wide finding for the files `d` that contain `unsafe`.
pub open spec fn unsafe_finding(d: Seq<(Seq<char>, nat)>) -> FindingView {
    let files = decimal(d.len());
    let total = decimal(sat(count_sum(d)));
    rule_finding(
        contain_unsafety_meta(),
        None,
        "Unsafe code found in "@ + files + " files ("@ + total
            + " blocks); consider containing it in a single module"@,
        "Unsafe code spread across many files makes auditing harder and increases the risk of unsafe bugs. Each unsafe block is a potential violation of Rust's safety guarantees that must be manually verified. Trade-off: containment adds a layer of indirection and may introduce small performance overhead from safe wrapper calls."@,
        Some(
            "Group unsafe code into a small module with a safe public API boundary. Unsafe found in "@
                + files + " files ("@ + total + " total unsafe blocks)."@ + detail_lines(
                d.take(if d.len() < 5 {
                    d.len() as int
                } else {
                    5
                }),
                " unsafe block(s)"@,
            ),
        ),
    )
}

impl Rule for PatternContainUnSafety {
    open spec fn meta(&self) -> RuleMeta {
        contain_unsafety_meta()
    }

    fn id(&self) -> (r: &'static str) {
        contain_unsafety_info().id
    }

    fn title(&self) -> (r: &'static str) {
        contain_unsafety_info().title
    }

    fn category(&self) -> (r: Category) {
        contain_unsafety_info().category
    }

    fn default_severity(&self) -> (r: Severity) {
        contain_unsafety_info().severity
    }

    fn default_confidence(&self) -> (r: Confidence) {
        contain_unsafety_info().confidence
    }

    fn description(&self) -> (r: &'static str) {
        contain_unsafety_info().description
    }

    fn references(&self) -> (r: Vec<&'static str>) {
        contain_unsafety_info().references
    }

    fn llm_fix_prompt(&self) -> (r: Option<&'static str>) {
        contain_unsafety_info().llm_fix_prompt
    }

    /// One finding when more than five files, or more than fifteen
    /// occurrences in all, contain `unsafe`.
    open spec fn outcome(&self, ctx: RuleContext) -> Outcome {
        match unsafe_from(ctx, 0, 0, seq![]) {
            Err(e) => Outcome { found: seq![], error: Some(e) },
            Ok(d) => Outcome {
                found: if d.len() > 5 || sat(count_sum(d)) > 15 {
                    seq![unsafe_finding(d)]
                } else {
                    seq![]
                },
                error: None,
            },
        }
    }

    fn check(&self, ctx: &RuleContext, out: &mut Vec<Finding>) -> (r: Result<(), RuleError>) {
        let mut d: Vec<(String, usize)> = Vec::new();
        let mut total: usize = 0;
        let np = ctx.packages.len();
        let mut p: usize = 0;
        assert(counts_view(d@) =~= seq![]);
        while p < np
            invariant
                np == ctx.packages@.len(),
                p <= np,
                out@ == old(out)@,
                unsafe_from(*ctx, 0, 0, seq![]) == unsafe_from(*ctx, p as int, 0, counts_view(d@)),
                total == sat(count_sum(counts_view(d@))),
            decreases np - p,
        {
            let pkg = &ctx.packages[p];
            let nt = pkg.targets.len();
            let mut t: usize = 0;
            while t < nt
                invariant
                    np == ctx.packages@.len(),
                    p < np,
                    pkg == ctx.packages@[p as int],
                    nt == pkg.targets@.len(),
                    t <= nt,
                    out@ == old(out)@,
                    unsafe_from(*ctx, 0, 0, seq![]) == unsafe_from(
                        *ctx,
                        p as int,
                        t as int,
                        counts_view(d@),
                    ),
                    total == sat(count_sum(counts_view(d@))),
                decreases nt - t,
            {
                let tg = &pkg.targets[t];
                if tg.exists {
                    match &tg.content {
                        Err(e) => {
                            assert(finding_views(out@) =~= finding_views(old(out)@) + Seq::<FindingView>::empty());
                            return Err(read_error(e));
                        },
                        Ok(c) => {
                            let cv = chars_of(c.as_str());
                            let n = count_chars(cv.as_slice(), chars_of("unsafe").as_slice());
                            if n > 0 {
                                let ghost before = counts_view(d@);
                                d.push((tg.src_path.clone(), n));
                                assert(counts_view(d@) =~= before.push((tg.src_path@, n as nat)));
                                assert(counts_view(d@).drop_last() =~= before);
                                total = sat_add(total, n);
                            }
                        },
                    }
                }
                t = t + 1;
            }
            p = p + 1;
        }
        if d.len() > 5 || total > 15 {
            let files = decimal_of(d.len());
            let tot = decimal_of(total);
            let mut msg = String::from_str("Unsafe code found in ");
            push_chars(&mut msg, files.as_slice());
            msg.append(" files (");
            push_chars(&mut msg, tot.as_slice());
            msg.append(" blocks); consider containing it in a single module");
            let mut sugg = String::from_str(
                "Group unsafe code into a small module with a safe public API boundary. Unsafe found in ",
            );
            push_chars(&mut sugg, files.as_slice());
            sugg.append(" files (");
            push_chars(&mut sugg, tot.as_slice());
            sugg.append(" total unsafe blocks).");
            let k: usize = if d.len() < 5 {
                d.len()
            } else {
                5
            };
            push_details(&mut sugg, &d, k, " unsafe block(s)");
            let fd = build_finding(
                &contain_unsafety_info(),
                None,
                msg,
                String::from_str(
                    "Unsafe code spread across many files makes auditing harder and increases the risk of unsafe bugs. Each unsafe block is a potential violation of Rust's safety guarantees that must be manually verified. Trade-off: containment adds a layer of indirection and may introduce small performance overhead from safe wrapper calls.",
                ),
                Some(sugg),
            );
            emit_one(out, fd);
            assert(fd@ == unsafe_finding(counts_view(d@)));
            assert(finding_views(out@) =~= finding_views(old(out)@) + seq![fd@]);
        } else {
            assert(finding_views(out@) =~= finding_views(old(out)@) + Seq::<FindingView>::empty());
        }
        Ok(())
    }
}


// ---------------------------------------------------------------------------
// PatternSmallCrates
// ---------------------------------------------------------------------------

/// Flag very large crates/modules and repeated dependency requirements.
pub struct PatternSmallCrates;

pub open spec fn small_crates_meta() -> RuleMeta {
    RuleMeta {
        id: "pattern.small-crates"@,
        title: "Consider splitting large crates"@,
        category: Category::Organization,
        severity: Severity::Info,
        confidence: Confidence::Low,
        description: "Flag very large crates/modules and detect dependency version duplication across packages."@,
        references: seq!["https://rust-unofficial.github.io/patterns/patterns/structural/prefer-small-crates.html"@],
        llm_fix_prompt: Some("Consider splitting large crates into smaller, more focused crates for better modularity and parallel compilation. Also check for duplicate dependency versions across workspace packages."@),
    }
}

/// The metadata of `PatternSmallCrates`.
pub fn small_crates_info() -> (r: RuleInfo)
    ensures
        r@ == small_crates_meta(),
{
    let references: Vec<&'static str> = vec!["https://rust-unofficial.github.io/patterns/patterns/structural/prefer-small-crates.html"];
    assert(str_views(references@) =~= small_crates_meta().references);
    RuleInfo {
        id: "pattern.small-crates",
        title: "Consider splitting large crates",
        category: Category::Organization,
        severity: Severity::Info,
        confidence: Confidence::Low,
        description: "Flag very large crates/modules and detect dependency version duplication across packages.",
        references,
        llm_fix_prompt: Some("Consider splitting large crates into smaller, more focused crates for better modularity and parallel compilation. Also check for duplicate dependency versions across workspace packages."),
    }
}

/// A file target that can be read, with its number of lines.
pub open spec fn file_entry(t: TargetInfo) -> Seq<(Seq<char>, nat)> {
    if t.exists && t.is_file {
        match t.content {
            Ok(c) => seq![(t.src_path@, lines(c@).len())],
            Err(_) => seq![],
        }
    } else {
        seq![]
    }
}

/// The readable file targets of a package with their line counts.
pub open spec fn package_file_counts(p: PackageInfo) -> Seq<(Seq<char>, nat)> {
    flat_map(p.targets@, |t: TargetInfo| file_entry(t))
}

pub open spec fn dir_file_entry(f: DirFile) -> Seq<(Seq<char>, nat)> {
    match f.content {
        Ok(c) => seq![(f.path@, lines(c@).len())],
        Err(_) => seq![],
    }
}

/// The readable files below a directory target, with their line counts.
pub open spec fn target_dir_counts(t: TargetInfo) -> Seq<(Seq<char>, nat)> {
    if t.is_dir {
        flat_map(t.dir_files@, |f: DirFile| dir_file_entry(f))
    } else {
        seq![]
    }
}

pub open spec fn package_dir_counts(p: PackageInfo) -> Seq<(Seq<char>, nat)> {
    flat_map(p.targets@, |t: TargetInfo| target_dir_counts(t))
}

/// The readable files below the directory targets of every package.
pub open spec fn dir_counts(ctx: RuleContext) -> Seq<(Seq<char>, nat)> {
    flat_map(ctx.packages@, |p: PackageInfo| package_dir_counts(p))
}

pub open spec fn target_dir_files(t: TargetInfo) -> Seq<DirFile> {
    if t.is_dir {
        t.dir_files@
    } else {
        seq![]
    }
}

pub open spec fn package_dir_files(p: PackageInfo) -> Seq<DirFile> {
    flat_map(p.targets@, |t: TargetInfo| target_dir_files(t))
}

/// How many files lie below the directory targets of every package,
/// readable or not.
pub open spec fn dir_entries(ctx: RuleContext) -> nat {
    flat_map(ctx.packages@, |p: PackageInfo| package_dir_files(p)).len()
}

/// The entries with more than 300 lines, in order.
pub open spec fn large_only(s: Seq<(Seq<char>, nat)>) -> Seq<(Seq<char>, nat)>
    decreases s.len(),
{
    if s.len() == 0 {
        seq![]
    } else {
        large_only(s.drop_last()) + if s.last().1 > 300 {
            seq![s.last()]
        } else {
            seq![]
        }
    }
}

pub open spec fn first_five<A>(s: Seq<A>) -> Seq<A> {
    s.take(
        if s.len() < 5 {
            s.len() as int
        } else {
            5
        },
    )
}

/// The size finding of a package whose files have the line counts `counts`
/// (`files` of them counted).
pub open spec fn size_findings(p: PackageInfo, counts: Seq<(Seq<char>, nat)>, files: nat) -> Seq<
    FindingView,
> {
    let total = sat(count_sum(counts));
    if total > 1000 || files > 15 {
        seq![
            rule_finding(
                small_crates_meta(),
                None,
                "Package \""@ + p.name@ + "\" is large ("@ + decimal(total) + " lines, "@ + decimal(
                    files,
                ) + " files); consider splitting into smaller crates"@,
                "Large crates slow down compilation, reduce modularity, and make it harder for developers to navigate the codebase. Smaller, focused crates improve parallel compilation and reuse. Trade-off: small crates can increase dependency hell risk, trust boundaries, and miss whole-crate optimization opportunities."@,
                Some(
                    "Consider splitting this crate into smaller modules. Current size: "@ + decimal(
                        total,
                    ) + " lines across "@ + decimal(files) + " files. Large files:"@
                        + detail_lines(first_five(large_only(counts)), " lines"@),
                ),
            ),
        ]
    } else {
        seq![]
    }
}

/// A package counts its own readable file targets and the files below the
/// directory targets of every package.
pub open spec fn package_size_findings(ctx: RuleContext, p: PackageInfo) -> Seq<FindingView> {
    size_findings(
        p,
        package_file_counts(p) + dir_counts(ctx),
        sat(package_file_counts(p).len() + dir_entries(ctx)),
    )
}

/// A dependency as `(name, package, req)`.
pub open spec fn dep_entries(p: PackageInfo) -> Seq<(Seq<char>, Seq<char>, Seq<char>)> {
    p.dependencies@.map_values(|d: Dependency| (d.name@, p.name@, d.req@))
}

pub open spec fn all_deps(ctx: RuleContext) -> Seq<(Seq<char>, Seq<char>, Seq<char>)> {
    flat_map(ctx.packages@, |p: PackageInfo| dep_entries(p))
}

/// The entries with key `key`, in order.
pub open spec fn users_of(s: Seq<(Seq<char>, Seq<char>, Seq<char>)>, key: Seq<char>) -> Seq<
    (Seq<char>, Seq<char>, Seq<char>),
>
    decreases s.len(),
{
    if s.len() == 0 {
        seq![]
    } else {
        users_of(s.drop_last(), key) + if s.last().0 == key {
            seq![s.last()]
        } else {
            seq![]
        }
    }
}

/// Some of the users ask for another requirement than the first.
pub open spec fn reqs_vary(us: Seq<(Seq<char>, Seq<char>, Seq<char>)>) -> bool {
    exists|k: int| 0 <= k < us.len() && (#[trigger] us[k]).2 != us[0].2
}

/// Entry `i` is the first of its dependency, and that dependency is asked
/// for with different requirements.
pub open spec fn is_dup_head(s: Seq<(Seq<char>, Seq<char>, Seq<char>)>, i: int) -> bool {
    &&& forall|j: int| 0 <= j < i ==> (#[trigger] s[j]).0 != s[i].0
    &&& reqs_vary(users_of(s, s[i].0))
}

pub open spec fn user_label(u: (Seq<char>, Seq<char>, Seq<char>)) -> Seq<char> {
    u.1 + " ("@ + u.2 + ")"@
}

pub open spec fn dup_line(s: Seq<(Seq<char>, Seq<char>, Seq<char>)>, i: int) -> Seq<char> {
    if is_dup_head(s, i) {
        let users = users_of(s, s[i].0);
        "  - "@ + s[i].0 + ": "@ + decimal(users.len()) + " packages using different versions: "@
            + join(users.map_values(|u: (Seq<char>, Seq<char>, Seq<char>)| user_label(u)), ", "@)
            + "\n"@
    } else {
        seq![]
    }
}

pub open spec fn dup_lines(s: Seq<(Seq<char>, Seq<char>, Seq<char>)>, n: int) -> Seq<char>
    decreases n,
{
    if n <= 0 {
        seq![]
    } else {
        dup_lines(s, n - 1) + dup_line(s, n - 1)
    }
}

pub open spec fn dup_count(s: Seq<(Seq<char>, Seq<char>, Seq<char>)>, n: int) -> nat
    decreases n,
{
    if n <= 0 {
        0
    } else {
        dup_count(s, n - 1) + if is_dup_head(s, n - 1) {
            1nat
        } else {
            0nat
        }
    }
}

pub open spec fn dup_llm_prompt() -> Seq<char> {
    "Run `cargo update` to consolidate duplicate dependency versions. If specific versions are needed, use Cargo's `[patch]` sections to override."@
}

/// The workspace-wide finding on requirements shared by several packages,
/// with its own fix prompt.
pub open spec fn dup_findings(s: Seq<(Seq<char>, Seq<char>, Seq<char>)>) -> Seq<FindingView> {
    let n = dup_count(s, s.len() as int);
    if n > 0 {
        seq![
            FindingView {
                llm_fix_prompt: Some(dup_llm_prompt()),
                ..rule_finding(
                    small_crates_meta(),
                    None,
                    "Workspace has "@ + decimal(n) + " dependency version duplicates across packages"@,
                    "Duplicate dependency versions increase compile times, binary size, and can cause subtle incompatibilities. Consolidating to a single version improves build performance and reduces the risk of version-specific bugs."@,
                    Some(
                        "Run `cargo update` to consolidate versions, or use `[patch]` sections to force a single version. Details:\n"@
                            + trim(dup_lines(s, s.len() as int)),
                    ),
                )
            },
        ]
    } else {
        seq![]
    }
}

pub open spec fn deps_view(v: Seq<(Vec<char>, String, String)>) -> Seq<
    (Seq<char>, Seq<char>, Seq<char>),
> {
    v.map_values(|x: (Vec<char>, String, String)| (x.0@, x.1@, x.2@))
}

/// Appends the readable files below a directory target.
fn push_target_dir_counts(t: &TargetInfo, dc: &mut Vec<(String, usize)>)
    ensures
        counts_view(final(dc)@) == counts_view(old(dc)@) + target_dir_counts(*t),
{
    if !t.is_dir {
        assert(counts_view(dc@) =~= counts_view(old(dc)@) + Seq::<(Seq<char>, nat)>::empty());
        return;
    }
    let ghost g = |f: DirFile| dir_file_entry(f);
    let ghost start = counts_view(dc@);
    let mut i: usize = 0;
    assert(counts_view(dc@) =~= start + flat_map(t.dir_files@.take(0), g));
    while i < t.dir_files.len()
        invariant
            t.is_dir,
            i <= t.dir_files@.len(),
            g == (|f: DirFile| dir_file_entry(f)),
            counts_view(dc@) == start + flat_map(t.dir_files@.take(i as int), g),
        decreases t.dir_files@.len() - i,
    {
        proof {
            lemma_flat_map_step(t.dir_files@, g, i as int);
        }
        let f = &t.dir_files[i];
        let ghost before = counts_view(dc@);
        match &f.content {
            Ok(c) => {
                let cv = chars_of(c.as_str());
                let ls = lines_of(cv.as_slice());
                assert(texts(ls@).len() == ls@.len());
                dc.push((f.path.clone(), ls.len()));
                assert(counts_view(dc@) =~= before + seq![(f.path@, lines(c@).len())]);
            },
            Err(_) => {
                assert(counts_view(dc@) =~= before + Seq::<(Seq<char>, nat)>::empty());
            },
        }
        i = i + 1;
    }
    proof {
        lemma_flat_map_all(t.dir_files@, g);
    }
}

/// The counts and the number of entries below every directory target.
fn collect_dir_counts(ctx: &RuleContext) -> (r: (Vec<(String, usize)>, usize))
    ensures
        counts_view(r.0@) == dir_counts(*ctx),
        r.1 == sat(dir_entries(*ctx)),
{
    let mut dc: Vec<(String, usize)> = Vec::new();
    let mut de: usize = 0;
    let ghost gp = |p: PackageInfo| package_dir_counts(p);
    let ghost ge = |p: PackageInfo| package_dir_files(p);
    let mut p: usize = 0;
    assert(counts_view(dc@) =~= flat_map(ctx.packages@.take(0), gp));
    while p < ctx.packages.len()
        invariant
            p <= ctx.packages@.len(),
            gp == (|p: PackageInfo| package_dir_counts(p)),
            ge == (|p: PackageInfo| package_dir_files(p)),
            counts_view(dc@) == flat_map(ctx.packages@.take(p as int), gp),
            de == sat(flat_map(ctx.packages@.take(p as int), ge).len()),
        decreases ctx.packages@.len() - p,
    {
        proof {
            lemma_flat_map_step(ctx.packages@, gp, p as int);
            lemma_flat_map_step(ctx.packages@, ge, p as int);
        }
        let pkg = &ctx.packages[p];
        let ghost gt = |t: TargetInfo| target_dir_counts(t);
        let ghost gf = |t: TargetInfo| target_dir_files(t);
        let ghost start = counts_view(dc@);
        let ghost start_n = flat_map(ctx.packages@.take(p as int), ge).len();
        let mut t: usize = 0;
        assert(counts_view(dc@) =~= start + flat_map(pkg.targets@.take(0), gt));
        while t < pkg.targets.len()
            invariant
                t <= pkg.targets@.len(),
                gt == (|t: TargetInfo| target_dir_counts(t)),
                gf == (|t: TargetInfo| target_dir_files(t)),
                counts_view(dc@) == start + flat_map(pkg.targets@.take(t as int), gt),
                de == sat(start_n + flat_map(pkg.targets@.take(t as int), gf).len()),
            decreases pkg.targets@.len() - t,
        {
            proof {
                lemma_flat_map_step(pkg.targets@, gt, t as int);
                lemma_flat_map_step(pkg.targets@, gf, t as int);
            }
            let tg = &pkg.targets[t];
            let ghost before = counts_view(dc@);
            push_target_dir_counts(tg, &mut dc);
            assert(start + flat_map(pkg.targets@.take(t as int), gt) + target_dir_counts(*tg)
                =~= start + flat_map(pkg.targets@.take(t + 1), gt));
            if tg.is_dir {
                de = sat_add(de, tg.dir_files.len());
            }
            t = t + 1;
        }
        proof {
            lemma_flat_map_all(pkg.targets@, gt);
            lemma_flat_map_all(pkg.targets@, gf);
        }
        assert(start + package_dir_counts(*pkg) =~= flat_map(ctx.packages@.take(p + 1), gp));
        p = p + 1;
    }
    proof {
        lemma_flat_map_all(ctx.packages@, gp);
        lemma_flat_map_all(ctx.packages@, ge);
    }
    (dc, de)
}

/// The readable file targets of a package with their line counts.
fn collect_file_counts(pkg: &PackageInfo) -> (r: Vec<(String, usize)>)
    ensures
        counts_view(r@) == package_file_counts(*pkg),
{
    let mut fc: Vec<(String, usize)> = Vec::new();
    let ghost g = |t: TargetInfo| file_entry(t);
    let mut t: usize = 0;
    assert(counts_view(fc@) =~= flat_map(pkg.targets@.take(0), g));
    while t < pkg.targets.len()
        invariant
            t <= pkg.targets@.len(),
            g == (|t: TargetInfo| file_entry(t)),
            counts_view(fc@) == flat_map(pkg.targets@.take(t as int), g),
        decreases pkg.targets@.len() - t,
    {
        proof {
            lemma_flat_map_step(pkg.targets@, g, t as int);
        }
        let tg = &pkg.targets[t];
        let ghost before = counts_view(fc@);
        if tg.exists && tg.is_file {
            match &tg.content {
                Ok(c) => {
                    let cv = chars_of(c.as_str());
                    let ls = lines_of(cv.as_slice());
                    assert(texts(ls@).len() == ls@.len());
                    fc.push((tg.src_path.clone(), ls.len()));
                    assert(counts_view(fc@) =~= before + seq![(tg.src_path@, lines(c@).len())]);
                },
                Err(_) => {
                    assert(counts_view(fc@) =~= before + Seq::<(Seq<char>, nat)>::empty());
                },
            }
        } else {
            assert(counts_view(fc@) =~= before + Seq::<(Seq<char>, nat)>::empty());
        }
        t = t + 1;
    }
    proof {
        lemma_flat_map_all(pkg.targets@, g);
    }
    fc
}

fn push_count(v: &mut Vec<(String, usize)>, e: &(String, usize))
    ensures
        counts_view(final(v)@) == counts_view(old(v)@).push((e.0@, e.1 as nat)),
{
    v.push((e.0.clone(), e.1));
    assert(counts_view(v@) =~= counts_view(old(v)@).push((e.0@, e.1 as nat)));
}

/// The size finding of one package.
fn package_size(pkg: &PackageInfo, dc: &Vec<(String, usize)>, de: usize) -> (r: Vec<Finding>)
    ensures
        finding_views(r@) == size_findings(
            *pkg,
            package_file_counts(*pkg) + counts_view(dc@),
            sat(package_file_counts(*pkg).len() + de as nat),
        ),
{
    let fc = collect_file_counts(pkg);
    let files = sat_add(fc.len(), de);
    assert(counts_view(fc@).len() == fc@.len());
    let mut counts: Vec<(String, usize)> = Vec::new();
    let mut i: usize = 0;
    assert(counts_view(counts@) =~= counts_view(fc@).take(0));
    while i < fc.len()
        invariant
            i <= fc@.len(),
            counts_view(counts@) == counts_view(fc@).take(i as int),
        decreases fc@.len() - i,
    {
        push_count(&mut counts, &fc[i]);
        assert(counts_view(fc@)[i as int] == (fc@[i as int].0@, fc@[i as int].1 as nat));
        assert(counts_view(counts@) =~= counts_view(fc@).take(i + 1));
        i = i + 1;
    }
    let mut j: usize = 0;
    assert(counts_view(counts@) =~= counts_view(fc@) + counts_view(dc@).take(0));
    while j < dc.len()
        invariant
            j <= dc@.len(),
            counts_view(counts@) == counts_view(fc@) + counts_view(dc@).take(j as int),
        decreases dc@.len() - j,
    {
        push_count(&mut counts, &dc[j]);
        assert(counts_view(dc@)[j as int] == (dc@[j as int].0@, dc@[j as int].1 as nat));
        assert(counts_view(counts@) =~= counts_view(fc@) + counts_view(dc@).take(j + 1));
        j = j + 1;
    }
    assert(counts_view(dc@).take(dc@.len() as int) =~= counts_view(dc@));
    let ghost all = counts_view(counts@);
    let mut total: usize = 0;
    let mut large: Vec<(String, usize)> = Vec::new();
    let mut k: usize = 0;
    while k < counts.len()
        invariant
            k <= counts@.len(),
            all == counts_view(counts@),
            total == sat(count_sum(all.take(k as int))),
            counts_view(large@) == large_only(all.take(k as int)),
        decreases counts@.len() - k,
    {
        assert(all.take(k + 1).drop_last() =~= all.take(k as int));
        total = sat_add(total, counts[k].1);
        if counts[k].1 > 300 {
            let ghost before = counts_view(large@);
            large.push((counts[k].0.clone(), counts[k].1));
            assert(counts_view(large@) =~= before + seq![all[k as int]]);
        } else {
            assert(large_only(all.take(k + 1)) =~= large_only(all.take(k as int)));
        }
        k = k + 1;
    }
    assert(all.take(all.len() as int) =~= all);
    let mut r: Vec<Finding> = Vec::new();
    if total > 1000 || files > 15 {
        let tot = decimal_of(total);
        let fl = decimal_of(files);
        let mut msg = String::from_str("Package \"");
        msg.append(pkg.name.as_str());
        msg.append("\" is large (");
        push_chars(&mut msg, tot.as_slice());
        msg.append(" lines, ");
        push_chars(&mut msg, fl.as_slice());
        msg.append(" files); consider splitting into smaller crates");
        let mut sugg = String::from_str(
            "Consider splitting this crate into smaller modules. Current size: ",
        );
        push_chars(&mut sugg, tot.as_slice());
        sugg.append(" lines across ");
        push_chars(&mut sugg, fl.as_slice());
        sugg.append(" files. Large files:");
        let n5: usize = if large.len() < 5 {
            large.len()
        } else {
            5
        };
        push_details(&mut sugg, &large, n5, " lines");
        let fd = build_finding(
            &small_crates_info(),
            None,
            msg,
            String::from_str(
                "Large crates slow down compilation, reduce modularity, and make it harder for developers to navigate the codebase. Smaller, focused crates improve parallel compilation and reuse. Trade-off: small crates can increase dependency hell risk, trust boundaries, and miss whole-crate optimization opportunities.",
            ),
            Some(sugg),
        );
        r.push(fd);
        assert(finding_views(r@) =~= seq![fd@]);
        return r;
    }
    assert(finding_views(r@) =~= seq![]);
    r
}

/// Every dependency of every package as `(name, package, req)`.
fn collect_deps(ctx: &RuleContext) -> (r: Vec<(Vec<char>, String, String)>)
    ensures
        deps_view(r@) == all_deps(*ctx),
{
    let mut all: Vec<(Vec<char>, String, String)> = Vec::new();
    let ghost g = |p: PackageInfo| dep_entries(p);
    let mut p: usize = 0;
    assert(deps_view(all@) =~= flat_map(ctx.packages@.take(0), g));
    while p < ctx.packages.len()
        invariant
            p <= ctx.packages@.len(),
            g == (|p: PackageInfo| dep_entries(p)),
            deps_view(all@) == flat_map(ctx.packages@.take(p as int), g),
        decreases ctx.packages@.len() - p,
    {
        proof {
            lemma_flat_map_step(ctx.packages@, g, p as int);
        }
        let pkg = &ctx.packages[p];
        let ghost start = deps_view(all@);
        let mut k: usize = 0;
        assert(deps_view(all@) =~= start + dep_entries(*pkg).take(0));
        while k < pkg.dependencies.len()
            invariant
                k <= pkg.dependencies@.len(),
                deps_view(all@) == start + dep_entries(*pkg).take(k as int),
            decreases pkg.dependencies@.len() - k,
        {
            let d = &pkg.dependencies[k];
            let key = chars_of(d.name.as_str());
            let ghost before = deps_view(all@);
            all.push((key, pkg.name.clone(), d.req.clone()));
            assert(deps_view(all@) =~= before.push((d.name@, pkg.name@, d.req@)));
            assert(dep_entries(*pkg).take(k + 1) =~= dep_entries(*pkg).take(k as int).push(
                dep_entries(*pkg)[k as int],
            ));
            k = k + 1;
        }
        assert(dep_entries(*pkg).take(pkg.dependencies@.len() as int) =~= dep_entries(*pkg));
        p = p + 1;
    }
    proof {
        lemma_flat_map_all(ctx.packages@, g);
    }
    all
}

/// The entries of `all` with the key of entry `i`.
fn users_with_key(all: &Vec<(Vec<char>, String, String)>, key: &Vec<char>) -> (r: Vec<(Vec<char>, String, String)>)
    ensures
        deps_view(r@) == users_of(deps_view(all@), key@),
{
    let ghost s = deps_view(all@);
    let mut r: Vec<(Vec<char>, String, String)> = Vec::new();
    let mut j: usize = 0;
    while j < all.len()
        invariant
            j <= all@.len(),
            s == deps_view(all@),
            deps_view(r@) == users_of(s.take(j as int), key@),
        decreases all@.len() - j,
    {
        assert(s.take(j + 1).drop_last() =~= s.take(j as int));
        let ghost before = deps_view(r@);
        if same(all[j].0.as_slice(), key.as_slice()) {
            r.push((slice_chars(all[j].0.as_slice(), 0, all[j].0.len()), all[j].1.clone(), all[j].2.clone()));
            assert(all@[j as int].0@.subrange(0, all@[j as int].0@.len() as int) =~= all@[j as int].0@);
            assert(deps_view(r@) =~= before.push(s[j as int]));
        } else {
            assert(users_of(s.take(j + 1), key@) =~= users_of(s.take(j as int), key@));
        }
        j = j + 1;
    }
    assert(s.take(all@.len() as int) =~= s);
    r
}

/// Whether no entry before `i` has the key of entry `i`.
fn first_with_key(all: &Vec<(Vec<char>, String, String)>, i: usize) -> (r: bool)
    requires
        i < all@.len(),
    ensures
        r == forall|j: int| 0 <= j < i ==> (#[trigger] deps_view(all@)[j]).0 != deps_view(all@)[i as int].0,
{
    let mut j: usize = 0;
    while j < i
        invariant
            i < all@.len(),
            j <= i,
            forall|jj: int| 0 <= jj < j ==> (#[trigger] deps_view(all@)[jj]).0 != deps_view(all@)[i as int].0,
        decreases i - j,
    {
        if same(all[j].0.as_slice(), all[i].0.as_slice()) {
            assert(deps_view(all@)[j as int].0 == deps_view(all@)[i as int].0);
            return false;
        }
        j = j + 1;
    }
    true
}

/// `join(labels, ", ")` of the users.
fn user_labels(users: &Vec<(Vec<char>, String, String)>) -> (r: String)
    ensures
        r@ == join(
            deps_view(users@).map_values(|u: (Seq<char>, Seq<char>, Seq<char>)| user_label(u)),
            ", "@,
        ),
{
    let ghost labels = deps_view(users@).map_values(
        |u: (Seq<char>, Seq<char>, Seq<char>)| user_label(u),
    );
    let mut s = String::new();
    let mut k: usize = 0;
    assert(labels.take(0) =~= Seq::<Seq<char>>::empty());
    while k < users.len()
        invariant
            k <= users@.len(),
            labels == deps_view(users@).map_values(
                |u: (Seq<char>, Seq<char>, Seq<char>)| user_label(u),
            ),
            s@ == join(labels.take(k as int), ", "@),
        decreases users@.len() - k,
    {
        let ghost before = s@;
        if k > 0 {
            s.append(", ");
        }
        s.append(users[k].1.as_str());
        s.append(" (");
        s.append(users[k].2.as_str());
        s.append(")");
        assert(labels.take(k + 1).drop_last() =~= labels.take(k as int));
        assert(labels[k as int] == user_label(deps_view(users@)[k as int]));
        if k == 0 {
            assert(s@ =~= labels[0]);
        } else {
            assert(s@ =~= before + ", "@ + labels[k as int]);
        }
        k = k + 1;
    }
    assert(labels.take(users@.len() as int) =~= labels);
    s
}

/// Whether some user asks for another requirement than the first.
fn requirements_vary(users: &Vec<(Vec<char>, String, String)>) -> (r: bool)
    ensures
        r == reqs_vary(deps_view(users@)),
{
    if users.len() == 0 {
        return false;
    }
    let first = chars_of(users[0].2.as_str());
    let mut k: usize = 0;
    while k < users.len()
        invariant
            0 < users@.len(),
            k <= users@.len(),
            first@ == deps_view(users@)[0].2,
            forall|j: int| 0 <= j < k ==> (#[trigger] deps_view(users@)[j]).2 == deps_view(users@)[0].2,
        decreases users@.len() - k,
    {
        assert(deps_view(users@)[k as int].2 == users@[k as int].2@);
        if !same(chars_of(users[k].2.as_str()).as_slice(), first.as_slice()) {
            return true;
        }
        k = k + 1;
    }
    false
}

/// The workspace-wide finding on dependencies asked for at different
/// requirements.
fn dup_finding(all: &Vec<(Vec<char>, String, String)>) -> (r: Vec<Finding>)
    ensures
        finding_views(r@) == dup_findings(deps_view(all@)),
{
    let ghost s = deps_view(all@);
    let mut details = String::new();
    let mut n: usize = 0;
    let mut i: usize = 0;
    while i < all.len()
        invariant
            i <= all@.len(),
            s == deps_view(all@),
            details@ == dup_lines(s, i as int),
            n == dup_count(s, i as int),
            n <= i,
        decreases all@.len() - i,
    {
        let ghost before = details@;
        if first_with_key(all, i) {
            let users = users_with_key(all, &all[i].0);
            assert(deps_view(users@).len() == users@.len());
            if requirements_vary(&users) {
                n = n + 1;
                details.append("  - ");
                push_chars(&mut details, all[i].0.as_slice());
                details.append(": ");
                push_chars(&mut details, decimal_of(users.len()).as_slice());
                details.append(" packages using different versions: ");
                let labels = user_labels(&users);
                details.append(labels.as_str());
                details.append("\n");
                assert(details@ =~= before + dup_line(s, i as int));
            } else {
                assert(details@ =~= before + dup_line(s, i as int));
            }
        } else {
            assert(details@ =~= before + dup_line(s, i as int));
        }
        i = i + 1;
    }
    let mut r: Vec<Finding> = Vec::new();
    if n > 0 {
        let dv = chars_of(details.as_str());
        let trimmed = trim_chars(dv.as_slice());
        let mut msg = String::from_str("Workspace has ");
        push_chars(&mut msg, decimal_of(n).as_slice());
        msg.append(" dependency version duplicates across packages");
        let mut sugg = String::from_str(
            "Run `cargo update` to consolidate versions, or use `[patch]` sections to force a single version. Details:\n",
        );
        push_chars(&mut sugg, trimmed.as_slice());
        let info = small_crates_info();
        let fd = Finding {
            llm_fix_prompt: Some(
                String::from_str(
                    "Run `cargo update` to consolidate duplicate dependency versions. If specific versions are needed, use Cargo's `[patch]` sections to override.",
                ),
            ),
            ..build_finding(
                &info,
                None,
                msg,
                String::from_str(
                    "Duplicate dependency versions increase compile times, binary size, and can cause subtle incompatibilities. Consolidating to a single version improves build performance and reduces the risk of version-specific bugs.",
                ),
                Some(sugg),
            )
        };
        r.push(fd);
        assert(finding_views(r@) =~= seq![fd@]);
        return r;
    }
    assert(finding_views(r@) =~= seq![]);
    r
}

impl Rule for PatternSmallCrates {
    open spec fn meta(&self) -> RuleMeta {
        small_crates_meta()
    }

    fn id(&self) -> (r: &'static str) {
        small_crates_info().id
    }

    fn title(&self) -> (r: &'static str) {
        small_crates_info().title
    }

    fn category(&self) -> (r: Category) {
        small_crates_info().category
    }

    fn default_severity(&self) -> (r: Severity) {
        small_crates_info().severity
    }

    fn default_confidence(&self) -> (r: Confidence) {
        small_crates_info().confidence
    }

    fn description(&self) -> (r: &'static str) {
        small_crates_info().description
    }

    fn references(&self) -> (r: Vec<&'static str>) {
        small_crates_info().references
    }

    fn llm_fix_prompt(&self) -> (r: Option<&'static str>) {
        small_crates_info().llm_fix_prompt
    }

    /// A size finding per large package, then one on shared dependency
    /// requirements; files that cannot be read are passed over.
    open spec fn outcome(&self, ctx: RuleContext) -> Outcome {
        Outcome {
            found: flat_map(ctx.packages@, |p: PackageInfo| package_size_findings(ctx, p))
                + dup_findings(all_deps(ctx)),
            error: None,
        }
    }

    fn check(&self, ctx: &RuleContext, out: &mut Vec<Finding>) -> (r: Result<(), RuleError>) {
        let (dc, de) = collect_dir_counts(ctx);
        let ghost g = |p: PackageInfo| package_size_findings(*ctx, p);
        let ghost start = finding_views(out@);
        let mut p: usize = 0;
        assert(finding_views(out@) =~= start + flat_map(ctx.packages@.take(0), g));
        while p < ctx.packages.len()
            invariant
                p <= ctx.packages@.len(),
                g == (|p: PackageInfo| package_size_findings(*ctx, p)),
                counts_view(dc@) == dir_counts(*ctx),
                de == sat(dir_entries(*ctx)),
                finding_views(out@) == start + flat_map(ctx.packages@.take(p as int), g),
            decreases ctx.packages@.len() - p,
        {
            proof {
                lemma_flat_map_step(ctx.packages@, g, p as int);
            }
            let v = package_size(&ctx.packages[p], &dc, de);
            assert(sat(package_file_counts(ctx.packages@[p as int]).len() + de as nat) == sat(
                package_file_counts(ctx.packages@[p as int]).len() + dir_entries(*ctx),
            ));
            emit(out, v);
            p = p + 1;
        }
        proof {
            lemma_flat_map_all(ctx.packages@, g);
        }
        let all = collect_deps(ctx);
        let v = dup_finding(&all);
        emit(out, v);
        Ok(())
    }
}


// ---------------------------------------------------------------------------
// The findings carry their rule
// ---------------------------------------------------------------------------

/// Every finding `PatternBuilder` emits is under its name.
pub proof fn lemma_builder_carries(ctx: RuleContext)
    ensures
        all_carry(PatternBuilder.meta(), PatternBuilder.outcome(ctx).found),
{
    let m = builder_meta();
    assert forall|pkg: PackageInfo, t: TargetInfo|
        #[trigger] PatternBuilder.step_spec(ctx, pkg, t) matches StepView::Found(fs) ==> all_carry(m, fs) by {
        if let (true, Ok(c), Some(pf)) = (t.exists, t.content, t.parsed) {
            let f = |it: Item| builder_item_findings(t.src_path@, c@, lines(c@), pf.items@, it);
            assert forall|i: int| 0 <= i < pf.items@.len() implies all_carry(m, f(#[trigger] pf.items@[i])) by {}
            lemma_all_carry_flat_map(m, pf.items@, f);
        }
    }
    lemma_run_targets_carry(PatternBuilder, ctx, m);
}

/// Every finding `PatternCustomTraitsForBounds` emits is under its name.
pub proof fn lemma_custom_traits_carries(ctx: RuleContext)
    ensures
        all_carry(PatternCustomTraitsForBounds.meta(), PatternCustomTraitsForBounds.outcome(ctx).found),
{
    let m = custom_traits_meta();
    assert forall|pkg: PackageInfo, t: TargetInfo|
        #[trigger] PatternCustomTraitsForBounds.step_spec(ctx, pkg, t) matches StepView::Found(fs) ==> all_carry(m, fs) by {
        if let (true, Ok(c), Some(pf)) = (t.exists, t.content, t.parsed) {
            let f = |it: Item| custom_traits_item_findings(t.src_path@, c@, lines(c@), pf.items@, it);
            assert forall|i: int| 0 <= i < pf.items@.len() implies all_carry(m, f(#[trigger] pf.items@[i])) by {}
            lemma_all_carry_flat_map(m, pf.items@, f);
        }
    }
    lemma_run_targets_carry(PatternCustomTraitsForBounds, ctx, m);
}

/// Every finding `PatternComposeStructs` emits is under its name.
pub proof fn lemma_compose_structs_carries(ctx: RuleContext)
    ensures
        all_carry(PatternComposeStructs.meta(), PatternComposeStructs.outcome(ctx).found),
{
    let m = compose_structs_meta();
    assert forall|pkg: PackageInfo, t: TargetInfo|
        #[trigger] PatternComposeStructs.step_spec(ctx, pkg, t) matches StepView::Found(fs) ==> all_carry(m, fs) by {
        if let (true, Ok(c), Some(pf)) = (t.exists, t.content, t.parsed) {
            let f = |it: Item| compose_structs_item_findings(t.src_path@, c@, lines(c@), pf.items@, it);
            assert forall|i: int| 0 <= i < pf.items@.len() implies all_carry(m, f(#[trigger] pf.items@[i])) by {}
            lemma_all_carry_flat_map(m, pf.items@, f);
        }
    }
    lemma_run_targets_carry(PatternComposeStructs, ctx, m);
}

proof fn lemma_raii_fn_carries(path: Seq<char>, ls: Seq<Seq<char>>, f: FnDecl)
    ensures
        all_carry(raii_guard_meta(), raii_fn_findings(path, ls, f)),
    decreases f,
{
    if !(is_pub_text(f.vis.tokens@) && is_cleanup_name(f.ident@) && takes_mut_self(f.inputs@)) {
        lemma_raii_fns_carries(path, ls, f.nested_fns@);
    }
}

proof fn lemma_raii_fns_carries(path: Seq<char>, ls: Seq<Seq<char>>, fs: Seq<FnDecl>)
    ensures
        all_carry(raii_guard_meta(), raii_fns_findings(path, ls, fs)),
    decreases fs,
{
    if fs.len() > 0 {
        lemma_raii_fns_carries(path, ls, fs.drop_last());
        lemma_raii_fn_carries(path, ls, fs.last());
        lemma_all_carry_concat(
            raii_guard_meta(),
            raii_fns_findings(path, ls, fs.drop_last()),
            raii_fn_findings(path, ls, fs.last()),
        );
    }
}

/// Every finding `PatternRaiiGuard` emits is under its name.
pub proof fn lemma_raii_guard_carries(ctx: RuleContext)
    ensures
        all_carry(PatternRaiiGuard.meta(), PatternRaiiGuard.outcome(ctx).found),
{
    let m = raii_guard_meta();
    assert forall|pkg: PackageInfo, t: TargetInfo|
        #[trigger] PatternRaiiGuard.step_spec(ctx, pkg, t) matches StepView::Found(fs) ==> all_carry(m, fs) by {
        if let (true, Ok(c), Some(pf)) = (t.exists, t.content, t.parsed) {
            let path = t.src_path@;
            lemma_raii_fns_carries(path, lines(c@), pf.fn_roots@);
            let f = |it: Item| raii_item_findings(path, lines(c@), it);
            assert forall|i: int| 0 <= i < pf.items@.len() implies all_carry(m, f(#[trigger] pf.items@[i])) by {
                if let Item::Impl(imp) = pf.items@[i] {
                    let g = |x: ImplFn| raii_method_findings(path, lines(c@), x);
                    assert forall|j: int| 0 <= j < imp.fns@.len() implies all_carry(m, g(#[trigger] imp.fns@[j])) by {}
                    lemma_all_carry_flat_map(m, imp.fns@, g);
                }
            }
            lemma_all_carry_flat_map(m, pf.items@, f);
            lemma_all_carry_concat(m, raii_fns_findings(path, lines(c@), pf.fn_roots@), flat_map(pf.items@, f));
        }
    }
    lemma_run_targets_carry(PatternRaiiGuard, ctx, m);
}

proof fn lemma_clone_call_carries(path: Seq<char>, c: Seq<char>, ls: Seq<Seq<char>>, name: Seq<char>, cc: CloneCall)
    ensures
        all_carry(clone_borrow_meta(), clone_call_findings(path, c, ls, name, cc)),
    decreases cc,
{
    let line = clone_line(c, cc.receiver@);
    if !(line == 0 || in_loop(ls, line) || mem_take_line(ls, line) || into_chain(cc.receiver@)) {
        lemma_clone_calls_carries(path, c, ls, name, cc.nested@);
        let first = seq![
            rule_finding(
                clone_borrow_meta(),
                Some(line_location(path, Some(line))),
                "Function `"@ + name
                    + "` uses `.clone()` which may be a borrow-checker workaround; consider borrowing instead"@,
                "Unnecessary cloning increases memory allocation and copies data that could be referenced. Borrowing avoids allocation and keeps a single source of truth."@,
                Some(
                    "Change the callee to accept `&str`, `&[T]`, or `&T` instead of owned types to avoid cloning."@,
                ),
            ),
        ];
        assert(all_carry(clone_borrow_meta(), first));
        lemma_all_carry_concat(clone_borrow_meta(), first, clone_calls_findings(path, c, ls, name, cc.nested@));
    }
}

proof fn lemma_clone_calls_carries(
    path: Seq<char>,
    c: Seq<char>,
    ls: Seq<Seq<char>>,
    name: Seq<char>,
    s: Seq<CloneCall>,
)
    ensures
        all_carry(clone_borrow_meta(), clone_calls_findings(path, c, ls, name, s)),
    decreases s,
{
    if s.len() > 0 {
        lemma_clone_calls_carries(path, c, ls, name, s.drop_last());
        lemma_clone_call_carries(path, c, ls, name, s.last());
        lemma_all_carry_concat(
            clone_borrow_meta(),
            clone_calls_findings(path, c, ls, name, s.drop_last()),
            clone_call_findings(path, c, ls, name, s.last()),
        );
    }
}

/// Every finding `AntiCloneToSatisfyBorrowChecker` emits is under its name.
pub proof fn lemma_clone_borrow_carries(ctx: RuleContext)
    ensures
        all_carry(AntiCloneToSatisfyBorrowChecker.meta(), AntiCloneToSatisfyBorrowChecker.outcome(ctx).found),
{
    let m = clone_borrow_meta();
    assert forall|pkg: PackageInfo, t: TargetInfo|
        #[trigger] AntiCloneToSatisfyBorrowChecker.step_spec(ctx, pkg, t) matches StepView::Found(fs) ==> all_carry(m, fs) by {
        if let (true, Ok(c), Some(pf)) = (t.exists, t.content, t.parsed) {
            let path = t.src_path@;
            let f = |it: Item| clone_borrow_item_findings(path, c@, lines(c@), pf.items@, it);
            assert forall|i: int| 0 <= i < pf.items@.len() implies all_carry(m, f(#[trigger] pf.items@[i])) by {
                if let Item::Fn(fd) = pf.items@[i] {
                    lemma_clone_calls_carries(path, c@, lines(c@), fd.ident@, fd.clone_calls@);
                }
            }
            lemma_all_carry_flat_map(m, pf.items@, f);
        }
    }
    lemma_run_targets_carry(AntiCloneToSatisfyBorrowChecker, ctx, m);
}

/// Every finding `PatternContainUnSafety` emits is under its name.
pub proof fn lemma_contain_unsafety_carries(ctx: RuleContext)
    ensures
        all_carry(PatternContainUnSafety.meta(), PatternContainUnSafety.outcome(ctx).found),
{
    if let Ok(d) = unsafe_from(ctx, 0, 0, seq![]) {
        assert(carries(contain_unsafety_meta(), unsafe_finding(d)));
    }
}

/// Every finding `PatternSmallCrates` emits is under its name.
pub proof fn lemma_small_crates_carries(ctx: RuleContext)
    ensures
        all_carry(PatternSmallCrates.meta(), PatternSmallCrates.outcome(ctx).found),
{
    let m = small_crates_meta();
    let f = |p: PackageInfo| package_size_findings(ctx, p);
    assert forall|i: int| 0 <= i < ctx.packages@.len() implies all_carry(m, f(#[trigger] ctx.packages@[i])) by {}
    lemma_all_carry_flat_map(m, ctx.packages@, f);
    assert(all_carry(m, dup_findings(all_deps(ctx))));
    lemma_all_carry_concat(m, flat_map(ctx.packages@, f), dup_findings(all_deps(ctx)));
}

/// `PatternNewtype` and `FfiIdiomaticErrors` emit nothing.
pub proof fn lemma_inert_rules_carry(ctx: RuleContext)
    ensures
        all_carry(PatternNewtype.meta(), PatternNewtype.outcome(ctx).found),
        all_carry(FfiIdiomaticErrors.meta(), FfiIdiomaticErrors.outcome(ctx).found),
{
}


/// The builder suggestion concerns public functions only: a top-level
/// function gets exactly one finding when its visibility contains `pub` and
/// it takes five or more parameters, and none otherwise.
pub proof fn law_builder_public_functions_only(
    path: Seq<char>,
    c: Seq<char>,
    ls: Seq<Seq<char>>,
    items: Seq<Item>,
    f: FnDecl,
)
    ensures
        builder_item_findings(path, c, ls, items, Item::Fn(f)).len() == if contains(
            f.vis.tokens@,
            "pub"@,
        ) && f.inputs@.len() >= 5 {
            1int
        } else {
            0int
        },
{
}

} // verus!
