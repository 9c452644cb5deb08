//! The abstract syntax of a query: an ordered, non-empty sequence of
//! pipeline stages, each a selector, a function call or a literal.
//!
//! Pipe composition is represented by the order of `Query::stages`
//! itself: stage `i + 1` consumes what stage `i` produced. Every node
//! carries a `Span` into the query text for error attribution.

use vstd::prelude::*;

use crate::query::error::Span;

verus! {

/// One `.name` step of a selector path.
#[derive(Debug)]
pub struct SelPart {
    pub name: String,
    pub span: Span,
}

/// The ghost projection of a selector step.
pub struct SelPartModel {
    pub name: Seq<char>,
    pub span: Span,
}

impl View for SelPart {
    type V = SelPartModel;

    open spec fn view(&self) -> SelPartModel {
        SelPartModel { name: self.name@, span: self.span }
    }
}

/// A literal argument value.
#[derive(Debug)]
pub enum Lit {
    Str(String),
    Num(i64),
    Bool(bool),
}

/// The ghost projection of a literal.
pub enum LitModel {
    Str(Seq<char>),
    Num(int),
    Bool(bool),
}

impl View for Lit {
    type V = LitModel;

    open spec fn view(&self) -> LitModel {
        match self {
            Lit::Str(s) => LitModel::Str(s@),
            Lit::Num(n) => LitModel::Num(*n as int),
            Lit::Bool(b) => LitModel::Bool(*b),
        }
    }
}

/// An AST node: a selector path, a function call, or a literal.
#[derive(Debug)]
pub enum Expr {
    /// A dot-selector path such as `.h2` or `.link.text`.
    Selector { parts: Vec<SelPart>, span: Span },
    /// A function call with its ordered argument expressions.
    Call { name: String, name_span: Span, args: Vec<Expr>, span: Span },
    /// A string, number or boolean literal.
    Literal { lit: Lit, span: Span },
}

/// The ghost projection of an AST node.
pub enum ExprModel {
    Selector { parts: Seq<SelPartModel>, span: Span },
    Call { name: Seq<char>, name_span: Span, args: Seq<ExprModel>, span: Span },
    Literal { lit: LitModel, span: Span },
}

/// The ghost projection of a sequence of selector steps.
pub open spec fn part_models(s: Seq<SelPart>) -> Seq<SelPartModel> {
    Seq::new(s.len(), |i: int| s[i]@)
}

/// The ghost projection of a single AST node.
pub open spec fn expr_model(e: Expr) -> ExprModel
    decreases e,
{
    match e {
        Expr::Selector { parts, span } => ExprModel::Selector {
            parts: part_models(parts@),
            span,
        },
        Expr::Call { name, name_span, args, span } => ExprModel::Call {
            name: name@,
            name_span,
            args: expr_models(args@),
            span,
        },
        Expr::Literal { lit, span } => ExprModel::Literal { lit: lit@, span },
    }
}

/// The ghost projection of a sequence of AST nodes, element for element.
pub open spec fn expr_models(s: Seq<Expr>) -> Seq<ExprModel>
    decreases s,
{
    if s.len() == 0 {
        Seq::empty()
    } else {
        seq![expr_model(s[0])] + expr_models(s.drop_first())
    }
}

/// `expr_models` maps `expr_model` over the sequence, index by index.
pub broadcast proof fn lemma_expr_models_index(s: Seq<Expr>)
    ensures
        (#[trigger] expr_models(s)).len() == s.len(),
        forall|i: int| 0 <= i < s.len() ==> expr_models(s)[i] == expr_model(s[i]),
    decreases s,
{
    if s.len() > 0 {
        lemma_expr_models_index(s.drop_first());
    }
}

impl View for Expr {
    type V = ExprModel;

    open spec fn view(&self) -> ExprModel {
        expr_model(*self)
    }
}

/// The span an expression covers.
pub open spec fn expr_span(e: ExprModel) -> Span {
    match e {
        ExprModel::Selector { span, .. } => span,
        ExprModel::Call { span, .. } => span,
        ExprModel::Literal { span, .. } => span,
    }
}

impl Expr {
    /// The span this node covers in the query text.
    pub fn span(&self) -> (s: Span)
        ensures
            s == expr_span(self@),
    {
        match self {
            Expr::Selector { span, .. } => *span,
            Expr::Call { span, .. } => *span,
            Expr::Literal { span, .. } => *span,
        }
    }
}

/// A parsed query: its pipeline stages, in order. Parsing never
/// produces an empty stage list.
#[derive(Debug)]
pub struct Query {
    pub stages: Vec<Expr>,
}

impl View for Query {
    type V = Seq<ExprModel>;

    open spec fn view(&self) -> Seq<ExprModel> {
        expr_models(self.stages@)
    }
}

} // verus!
