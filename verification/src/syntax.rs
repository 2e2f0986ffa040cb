//! The library's model of a parsed Rust source file: the parts of the syntax
//! tree that the rules read, held as plain values.
use vstd::prelude::*;

use crate::text::{chars_of, concat, contains, contains_str};

verus! {

/// A visibility, as its token text (`""`, `"pub"`, `"pub (crate)"`, ...).
#[derive(Debug, Clone, PartialEq, Eq)]
pub struct Visibility {
    pub tokens: String,
}

/// The shape of a type, as far as the rules look into it.
#[derive(Debug)]
pub enum TypeShape {
    /// `&T` / `&mut T`.
    Reference(Box<TypeShape>),
    /// A path type, with the identifier of its last segment.
    Path(Option<String>),
    /// `[T]`.
    Slice(Box<TypeShape>),
    /// Any other type.
    Other,
}

/// A function parameter.
#[derive(Debug)]
pub enum FnInput {
    /// `self`, `&self`, `&mut self`, ... with its token text.
    Receiver { mutable: bool, tokens: String },
    /// `pat: Type`, with the type's shape and token text.
    Typed { ty: TypeShape, tokens: String },
}

/// The shape of an expression, as far as the rules look into it.
#[derive(Debug)]
pub enum ExprShape {
    /// A call; the last identifier of the callee when the callee is a path.
    Call(Option<String>),
    /// A path expression, with the identifiers of its segments.
    Path(Vec<String>),
    /// A method call: method name and receiver.
    MethodCall(String, Box<ExprShape>),
    /// Any other expression.
    Other,
}

/// A `.clone()` method call, with the `.clone()` calls nested inside its
/// receiver and arguments.
#[derive(Debug)]
pub struct CloneCall {
    /// Token text of the receiver.
    pub receiver: String,
    pub nested: Vec<CloneCall>,
}

/// An outer attribute.
#[derive(Debug, Clone, PartialEq, Eq)]
pub struct Attribute {
    /// The attribute path when it is a single identifier.
    pub ident: Option<String>,
    /// Token text of the whole attribute.
    pub tokens: String,
}

/// A free function (`syn::ItemFn`).
#[derive(Debug)]
pub struct FnDecl {
    pub ident: String,
    pub vis: Visibility,
    pub is_unsafe: bool,
    pub is_extern: bool,
    pub inputs: Vec<FnInput>,
    /// Declared return type; `None` for the default `()`.
    pub output: Option<TypeShape>,
    /// Token text of the whole item.
    pub tokens: String,
    /// Iterator expressions of every `for` loop inside the function,
    /// nested functions included, in visiting order.
    pub for_iterators: Vec<ExprShape>,
    /// The outermost `.clone()` calls inside the function, nested functions
    /// included, in visiting order.
    pub clone_calls: Vec<CloneCall>,
    /// Functions declared inside this one that are not inside another
    /// nested function.
    pub nested_fns: Vec<FnDecl>,
}

/// Fields of a struct, as their visibilities.
#[derive(Debug)]
pub enum Fields {
    Named(Vec<Visibility>),
    Unnamed(Vec<Visibility>),
    Unit,
}

#[derive(Debug)]
pub struct StructDecl {
    pub ident: String,
    pub vis: Visibility,
    pub fields: Fields,
    pub attrs: Vec<Attribute>,
    pub tokens: String,
}

#[derive(Debug)]
pub struct EnumDecl {
    pub ident: String,
    pub vis: Visibility,
    pub attrs: Vec<Attribute>,
    pub tokens: String,
}

#[derive(Debug)]
pub struct TraitDecl {
    pub ident: String,
    pub vis: Visibility,
    pub tokens: String,
}

/// The shape of an expression of a function body, as far as the rules read
/// it.
#[derive(Debug)]
pub enum ValueShape {
    /// A path, by its last identifier.
    Path(String),
    /// `return`, with its value when it has one.
    Return(Option<Box<ValueShape>>),
    /// A struct literal: the last identifier of its path, and the values of
    /// its fields in order.
    Struct(String, Vec<ValueShape>),
    /// A call: the last identifier of the callee when it is a path, and the
    /// number of arguments.
    Call(Option<String>, usize),
    /// A literal, by its token text.
    Lit(String),
    Other,
}

/// A statement of a function body.
#[derive(Debug)]
pub enum StmtShape {
    /// An expression statement (with or without a semicolon).
    Expr(ValueShape),
    Other,
}

/// A function inside an impl block.
#[derive(Debug)]
pub struct ImplFn {
    pub ident: String,
    pub vis: Visibility,
    pub inputs: Vec<FnInput>,
    pub input_count: usize,
    pub output: Option<TypeShape>,
    /// The statements of the body, in order.
    pub body: Vec<StmtShape>,
}

#[derive(Debug)]
pub struct ImplDecl {
    /// Last identifier of the implemented trait; `None` for inherent impls.
    pub trait_name: Option<String>,
    pub self_ty: TypeShape,
    /// Token text of the self type.
    pub self_ty_tokens: String,
    pub fns: Vec<ImplFn>,
    pub tokens: String,
}

/// A top-level item.
#[derive(Debug)]
pub enum Item {
    Fn(FnDecl),
    Struct(StructDecl),
    Enum(EnumDecl),
    Trait(TraitDecl),
    Impl(ImplDecl),
    Other,
}

/// A parsed source file.
#[derive(Debug)]
pub struct ParsedFile {
    /// Top-level items.
    pub items: Vec<Item>,
    /// Every function of the file that is not inside another function
    /// (in modules and impl bodies too), in visiting order.
    pub fn_roots: Vec<FnDecl>,
}

// ---------------------------------------------------------------------------
// Spec helpers
// ---------------------------------------------------------------------------

/// Concatenation of `f` over a sequence.
pub open spec fn flat_map<A, B>(s: Seq<A>, f: spec_fn(A) -> Seq<B>) -> Seq<B>
    decreases s.len(),
{
    if s.len() == 0 {
        seq![]
    } else {
        flat_map(s.drop_last(), f) + f(s.last())
    }
}

pub proof fn lemma_flat_map_step<A, B>(s: Seq<A>, f: spec_fn(A) -> Seq<B>, i: int)
    requires
        0 <= i < s.len(),
    ensures
        flat_map(s.take(i + 1), f) == flat_map(s.take(i), f) + f(s[i]),
{
    assert(s.take(i + 1).drop_last() =~= s.take(i));
}

pub proof fn lemma_flat_map_all<A, B>(s: Seq<A>, f: spec_fn(A) -> Seq<B>)
    ensures
        flat_map(s.take(s.len() as int), f) == flat_map(s, f),
{
    assert(s.take(s.len() as int) =~= s);
}

/// `vis_str.contains("pub")`.
pub open spec fn is_pub_text(v: Seq<char>) -> bool {
    contains(v, "pub"@)
}

/// `extract_type_name`: the name the rules give a type.
pub open spec fn type_name_of(t: TypeShape) -> Option<Seq<char>>
    decreases t,
{
    match t {
        TypeShape::Reference(e) => type_name_of(*e),
        TypeShape::Path(last) => match last {
            Some(s) => Some(s@),
            None => None,
        },
        TypeShape::Slice(e) => Some(
            "["@ + match type_name_of(*e) {
                Some(n) => n,
                None => Seq::empty(),
            } + "]"@,
        ),
        TypeShape::Other => None,
    }
}

/// `type_name`: the name, or `"<unknown>"`.
pub open spec fn type_name_or_unknown(t: TypeShape) -> Seq<char> {
    match type_name_of(t) {
        Some(n) => n,
        None => "<unknown>"@,
    }
}

// ---------------------------------------------------------------------------
// Executable helpers
// ---------------------------------------------------------------------------

/// `extract_type_name`.
pub fn extract_type_name(t: &TypeShape) -> (r: Option<Vec<char>>)
    ensures
        match type_name_of(*t) {
            Some(n) => r matches Some(v) && v@ == n,
            None => r is None,
        },
    decreases t,
{
    match t {
        TypeShape::Reference(e) => extract_type_name(e),
        TypeShape::Path(last) => match last {
            Some(s) => Some(chars_of(s.as_str())),
            None => None,
        },
        TypeShape::Slice(e) => {
            let inner = match extract_type_name(e) {
                Some(v) => v,
                None => Vec::new(),
            };
            let open = chars_of("[");
            let close = chars_of("]");
            let a = concat(open.as_slice(), inner.as_slice());
            Some(concat(a.as_slice(), close.as_slice()))
        },
        TypeShape::Other => None,
    }
}

/// `type_name`.
pub fn type_name_text(t: &TypeShape) -> (r: Vec<char>)
    ensures
        r@ == type_name_or_unknown(*t),
{
    match extract_type_name(t) {
        Some(v) => v,
        None => chars_of("<unknown>"),
    }
}

/// Whether a visibility's token text contains `pub`.
pub fn vis_text_is_pub(v: &Visibility) -> (r: bool)
    ensures
        r == is_pub_text(v.tokens@),
{
    let t = chars_of(v.tokens.as_str());
    contains_str(t.as_slice(), "pub")
}

} // verus!
