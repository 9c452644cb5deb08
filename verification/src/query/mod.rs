//! The treemd query language ("tql"): a small pipe-based language for
//! selecting and extracting structural elements (headings, links,
//! tables, code blocks, text runs) from a parsed document tree.
//!
//! A query is a pipeline of stages separated by `|`: each stage is a
//! dot-selector (`.h2`, `.link.text`) or a function call (`count()`),
//! and each stage consumes everything the one before produced. Queries
//! are parsed into an AST, validated against a registry of extractors
//! and functions, and executed against a read-only document tree:
//!
//! ```text
//! .h2 | .text
//! .link | .target
//! upper(),  join(", "),  count()
//! ```
//!
//! The registry is extensible: new element categories and functions
//! are added by registering a name and supplying the behaviour through
//! an [`Extension`](registry::Extension) implementation, with no change
//! to the lexer, the parser or the engine.

pub mod ast;
pub mod error;
pub mod eval;
pub mod laws;
pub mod lexer;
pub mod output;
pub mod parser;
pub mod registry;
pub mod value;

pub use ast::{Expr, Query};
pub use error::{QueryError, QueryErrorKind, Span};
pub use eval::Engine;
pub use output::OutputFormat;
pub use registry::{
    ArityRange, BuiltinExtractor, BuiltinFn, EvalContext, Extension, ExtractorImpl, FnImpl,
    Function, NoExtension, Registry,
};
pub use value::{Value, ValueKind};

use vstd::prelude::*;

use crate::document::{Document, NodeModel};
use crate::query::ast::ExprModel;
use crate::query::error::ErrModel;
use crate::query::eval::{
    all_builtin, expr_all_builtin, exprs_all_builtin, parts_all_builtin, spec_execute,
    spec_validate, validate_expr, validate_exprs, validate_parts,
};
use crate::query::lexer::spec_tokens;
use crate::query::parser::spec_parse;
use crate::query::registry::{
    builtin_extractors, builtin_functions, lookup_ext_in, lookup_fn_in, FnModel, RegModel,
};
use crate::query::value::{val_models, ValModel};

verus! {

/// The registry model behind `Registry::with_builtins`.
pub open spec fn builtin_reg() -> RegModel {
    RegModel { functions: builtin_functions(), extractors: builtin_extractors() }
}

/// The stages a query text denotes: its tokens parsed, or the first
/// lexical or grammar error.
pub open spec fn spec_parse_text(q: Seq<char>) -> Result<Seq<ExprModel>, ErrModel> {
    match spec_tokens(q, 0) {
        Ok(ts) => spec_parse(ts),
        Err(e) => Err(e),
    }
}

/// The full specification of `execute`: lex, parse, then run against
/// the built-in registry; the first failure of any phase is the
/// result.
pub open spec fn spec_run(doc: Seq<NodeModel>, q: Seq<char>) -> Result<Seq<ValModel>, ErrModel> {
    match spec_parse_text(q) {
        Ok(stages) => spec_execute(doc, builtin_reg(), stages),
        Err(e) => Err(e),
    }
}

/// Does every entry of both registry tables carry a built-in
/// implementation?
pub open spec fn tables_all_builtin(reg: RegModel) -> bool {
    &&& forall|i: int|
        0 <= i < reg.extractors.len() ==> (#[trigger] reg.extractors[i].1) is Builtin
    &&& forall|i: int|
        0 <= i < reg.functions.len() ==> (#[trigger] reg.functions[i].1).body is Builtin
}

/// In an all-built-in table, whatever an extractor name resolves to is
/// a built-in.
proof fn lemma_lookup_ext_builtin(
    es: Seq<(Seq<char>, crate::query::registry::ExtractorImpl)>,
    name: Seq<char>,
)
    requires
        forall|i: int| 0 <= i < es.len() ==> (#[trigger] es[i].1) is Builtin,
    ensures
        lookup_ext_in(es, name) matches Some(x) ==> x is Builtin,
    decreases es.len(),
{
    if es.len() > 0 && es.last().0 != name {
        lemma_lookup_ext_builtin(es.drop_last(), name);
    }
}

/// In an all-built-in table, whatever a function name resolves to is a
/// built-in.
proof fn lemma_lookup_fn_builtin(fs: Seq<(Seq<char>, FnModel)>, name: Seq<char>)
    requires
        forall|i: int| 0 <= i < fs.len() ==> (#[trigger] fs[i].1).body is Builtin,
    ensures
        lookup_fn_in(fs, name) matches Some(f) ==> f.body is Builtin,
    decreases fs.len(),
{
    if fs.len() > 0 && fs.last().0 != name {
        lemma_lookup_fn_builtin(fs.drop_last(), name);
    }
}

/// Over a registry whose tables hold built-ins only, a selector path
/// that validates resolves to built-ins only.
proof fn lemma_parts_ab(reg: RegModel, parts: Seq<crate::query::ast::SelPartModel>)
    requires
        tables_all_builtin(reg),
        validate_parts(reg, parts) is None,
    ensures
        parts_all_builtin(reg, parts),
    decreases parts.len(),
{
    if parts.len() > 0 {
        lemma_lookup_ext_builtin(reg.extractors, parts[0].name);
        lemma_parts_ab(reg, parts.drop_first());
    }
}

/// Over a registry whose tables hold built-ins only, an expression
/// that validates resolves to built-ins only.
proof fn lemma_expr_ab(reg: RegModel, e: ExprModel)
    requires
        tables_all_builtin(reg),
        validate_expr(reg, e) is None,
    ensures
        expr_all_builtin(reg, e),
    decreases e,
{
    match e {
        ExprModel::Selector { parts, .. } => {
            lemma_parts_ab(reg, parts);
        },
        ExprModel::Literal { .. } => {},
        ExprModel::Call { name, args, .. } => {
            lemma_lookup_fn_builtin(reg.functions, name);
            lemma_exprs_ab(reg, args);
        },
    }
}

/// Over a registry whose tables hold built-ins only, expressions that
/// validate resolve to built-ins only.
proof fn lemma_exprs_ab(reg: RegModel, es: Seq<ExprModel>)
    requires
        tables_all_builtin(reg),
        validate_exprs(reg, es) is None,
    ensures
        exprs_all_builtin(reg, es),
    decreases es,
{
    if es.len() > 0 {
        lemma_expr_ab(reg, es[0]);
        lemma_exprs_ab(reg, es.drop_first());
    }
}

/// The default registry's tables hold built-ins only, so any query it
/// validates is covered by the built-in specification.
pub proof fn lemma_builtin_validated_all_builtin(stages: Seq<ExprModel>)
    requires
        spec_validate(builtin_reg(), stages) is None,
    ensures
        all_builtin(builtin_reg(), stages),
{
    assert(tables_all_builtin(builtin_reg()));
    lemma_exprs_ab(builtin_reg(), stages);
}

/// Parse and execute a query against a document: the main entry point.
/// The result is exactly what `spec_run` describes: the first lexical,
/// grammar or validation error if there is one, else the values the
/// pipeline produces over the built-in registry.
pub fn execute(doc: &Document, query_str: &str) -> (r: Result<Vec<Value>, QueryError>)
    ensures
        match r {
            Ok(vs) => spec_run(doc@, query_str@) == Ok::<Seq<ValModel>, ErrModel>(val_models(vs@)),
            Err(e) => spec_run(doc@, query_str@) == Err::<Seq<ValModel>, ErrModel>(e@),
        },
{
    let q = match parse(query_str) {
        Ok(q) => q,
        Err(e) => {
            return Err(e);
        },
    };
    let engine = Engine::new(doc);
    proof {
        assert(engine.registry@ == builtin_reg());
    }
    let r = engine.execute(&q);
    proof {
        match spec_validate(builtin_reg(), q@) {
            Some(_) => {},
            None => {
                lemma_builtin_validated_all_builtin(q@);
            },
        }
    }
    r
}

/// Parse a query string into an AST, for parsing once and executing
/// many times. The result is exactly what lexing plus parsing
/// describe; a successful parse always holds at least one stage.
pub fn parse(query_str: &str) -> (r: Result<Query, QueryError>)
    ensures
        match r {
            Ok(q) => spec_parse_text(query_str@) == Ok::<Seq<ExprModel>, ErrModel>(q@) && q@.len()
                >= 1,
            Err(e) => spec_parse_text(query_str@) == Err::<Seq<ExprModel>, ErrModel>(e@),
        },
{
    let toks = match crate::query::lexer::tokenize(query_str) {
        Ok(ts) => ts,
        Err(e) => {
            return Err(e);
        },
    };
    crate::query::parser::parse_tokens(&toks)
}

/// A query engine over the default built-in registry.
pub fn engine<'a>(doc: &'a Document) -> (e: Engine<'a, NoExtension>)
    ensures
        e.doc == doc,
        e.registry@ == builtin_reg(),
{
    let e = Engine::new(doc);
    proof {
        assert(e.registry@ == builtin_reg());
    }
    e
}

/// A query engine over a custom registry, for registering extra
/// functions and extractors.
pub fn engine_with_registry<'a, X: Extension>(doc: &'a Document, registry: Registry<X>) -> (e:
    Engine<'a, X>)
    ensures
        e.doc == doc,
        e.registry@ == registry@,
{
    Engine::with_registry(doc, registry)
}

/// Format query results for output; see `output::spec_format` for the
/// exact text every format produces.
pub fn format_output(values: &[Value], format: OutputFormat) -> (r: String)
    ensures
        r@ == crate::query::output::spec_format(val_models(values@), format),
{
    crate::query::output::format(values, format)
}

} // verus!
